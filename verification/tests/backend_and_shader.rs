use cubes::backend::{get_render_type, segment_for, BackendKind, ConfigError};
use cubes::shader::{shader_path, terminate_blob};

#[test]
fn segment_for_vulkan_is_spirv() {
    assert_eq!(segment_for(BackendKind::Vulkan), Ok("spirv"));
}

#[test]
fn segment_for_opengl_is_glsl() {
    assert_eq!(segment_for(BackendKind::OpenGl), Ok("glsl"));
}

#[test]
fn segment_for_covers_every_supported_kind() {
    assert_eq!(segment_for(BackendKind::Direct3D11), Ok("dx11"));
    assert_eq!(segment_for(BackendKind::Metal), Ok("metal"));
    assert_eq!(segment_for(BackendKind::OpenGlEs), Ok("essl"));
}

#[test]
fn segments_are_unique_and_non_empty() {
    let kinds = [
        BackendKind::Direct3D11,
        BackendKind::OpenGl,
        BackendKind::Metal,
        BackendKind::OpenGlEs,
        BackendKind::Vulkan,
    ];
    let segments: Vec<&str> = kinds.iter().map(|k| segment_for(*k).unwrap()).collect();
    for s in &segments {
        assert!(!s.is_empty());
    }
    for i in 0..segments.len() {
        for j in 0..segments.len() {
            if i != j {
                assert_ne!(segments[i], segments[j]);
            }
        }
    }
}

#[test]
fn unsupported_backend_is_rejected() {
    assert_eq!(segment_for(BackendKind::Noop), Err(ConfigError::UnsupportedBackend));
}

#[test]
fn render_type_policy_is_opengl() {
    assert_eq!(get_render_type(), BackendKind::OpenGl);
}

#[test]
fn shader_path_follows_the_convention() {
    assert_eq!(
        shader_path(BackendKind::Vulkan, "vs_cubes").unwrap(),
        "shaders/spirv/vs_cubes.bin"
    );
    assert_eq!(
        shader_path(BackendKind::OpenGl, "fs_cubes").unwrap(),
        "shaders/glsl/fs_cubes.bin"
    );
    assert_eq!(
        shader_path(BackendKind::Direct3D11, "vs_cubes").unwrap(),
        "shaders/dx11/vs_cubes.bin"
    );
}

#[test]
fn shader_path_rejects_the_unsupported_kind() {
    assert_eq!(
        shader_path(BackendKind::Noop, "vs_cubes"),
        Err(ConfigError::UnsupportedBackend)
    );
}

#[test]
fn terminate_blob_appends_one_zero_byte() {
    let mut data = vec![1u8, 2, 3];
    terminate_blob(&mut data);
    assert_eq!(data, vec![1u8, 2, 3, 0]);
    assert_eq!(data.len(), 3 + 1);
}

#[test]
fn terminate_blob_on_empty_file_bytes() {
    let mut data: Vec<u8> = Vec::new();
    terminate_blob(&mut data);
    assert_eq!(data, vec![0u8]);
}

#[test]
fn blob_preparation_is_idempotent_across_loads() {
    let file_bytes = vec![7u8, 0, 255, 42];
    let mut first = file_bytes.clone();
    let mut second = file_bytes.clone();
    terminate_blob(&mut first);
    terminate_blob(&mut second);
    assert_eq!(first, second);
    assert_eq!(first.len(), file_bytes.len() + 1);
    assert_eq!(first[..file_bytes.len()], file_bytes[..]);
    assert_eq!(*first.last().unwrap(), 0u8);
}

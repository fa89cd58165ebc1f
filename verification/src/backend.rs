//! Rendering-backend selection and the backend-to-shader-directory mapping.

use vstd::prelude::*;

verus! {

/// The kind of rendering backend the renderer was initialized with.
/// Selected once at startup; the core logic only uses it to locate
/// precompiled shader artifacts.
#[derive(Clone, Copy, PartialEq, Eq, Structural, Debug)]
pub enum BackendKind {
    Direct3D11,
    OpenGl,
    Metal,
    OpenGlEs,
    Vulkan,
    /// The software/no-op backend: no shader artifacts exist for it, so it is
    /// not supported by the loader.
    Noop,
}

/// A fatal startup configuration error. The demo has no degraded mode: the
/// caller aborts on any of these.
#[derive(Clone, Copy, PartialEq, Eq, Structural, Debug)]
pub enum ConfigError {
    /// The active backend kind has no shader-artifact directory.
    UnsupportedBackend,
    /// The native window handle variant is not recognized on this target.
    UnsupportedHandle,
}

/// A backend kind is supported exactly when precompiled shader artifacts
/// exist for it on disk.
pub open spec fn supported(kind: BackendKind) -> bool {
    kind != BackendKind::Noop
}

/// The fixed on-disk path segment holding a backend's shader artifacts.
pub open spec fn segment_spec(kind: BackendKind) -> Seq<char> {
    match kind {
        BackendKind::Direct3D11 => "dx11"@,
        BackendKind::OpenGl => "glsl"@,
        BackendKind::Metal => "metal"@,
        BackendKind::OpenGlEs => "essl"@,
        BackendKind::Vulkan => "spirv"@,
        BackendKind::Noop => Seq::<char>::empty(),
    }
}

/// Maps a backend kind to its shader-artifact directory name. The unsupported
/// kind is rejected here, before any filesystem access can happen.
pub fn segment_for(kind: BackendKind) -> (r: Result<&'static str, ConfigError>)
    ensures
        r is Ok <==> supported(kind),
        r matches Ok(s) ==> s@ == segment_spec(kind),
        r matches Err(e) ==> e == ConfigError::UnsupportedBackend,
{
    match kind {
        BackendKind::Direct3D11 => Ok("dx11"),
        BackendKind::OpenGl => Ok("glsl"),
        BackendKind::Metal => Ok("metal"),
        BackendKind::OpenGlEs => Ok("essl"),
        BackendKind::Vulkan => Ok("spirv"),
        BackendKind::Noop => Err(ConfigError::UnsupportedBackend),
    }
}

/// Every supported backend kind has a non-empty path segment, and no two
/// supported kinds share one: the artifact directories never collide.
pub proof fn lemma_segments_unique(a: BackendKind, b: BackendKind)
    requires
        supported(a),
        supported(b),
    ensures
        segment_spec(a).len() > 0,
        a != b ==> segment_spec(a) != segment_spec(b),
{
    reveal_strlit("dx11");
    reveal_strlit("glsl");
    reveal_strlit("metal");
    reveal_strlit("essl");
    reveal_strlit("spirv");
    if a != b && segment_spec(a) == segment_spec(b) {
        assert(segment_spec(a)[0] == segment_spec(b)[0]);
        assert(false);
    }
}

/// The backend-selection policy: one fixed choice per target in this design.
pub fn get_render_type() -> (r: BackendKind)
    ensures
        r == BackendKind::OpenGl,
{
    BackendKind::OpenGl
}

} // verus!

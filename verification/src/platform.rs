//! The platform adapter: routes a native window handle into the pair of
//! pointers the renderer wants.
//!
//! The handle itself is owned by the windowing system; here it is reduced to
//! the plain values the adapter reads, one variant per windowing system the
//! demo recognizes. The caller turns the raw handle into this form and the
//! result back into the renderer's structure.

use vstd::prelude::*;
use crate::backend::ConfigError;

verus! {

/// A native window handle, reduced to the integer value the adapter copies.
#[derive(Clone, Copy, PartialEq, Eq, Structural, Debug)]
pub enum NativeHandle {
    /// An X11 window handle.
    Xlib { window: u64 },
    /// A Wayland surface handle. Wayland has no window concept, so the
    /// surface stands in for the window.
    Wayland { surface: u64 },
    /// A macOS view handle.
    AppKit { ns_window: u64 },
    /// A Win32 window handle.
    Win32 { hwnd: u64 },
    /// Any handle variant not recognized for the current target.
    Unrecognized,
}

/// The two handle slots the renderer's platform structure exposes: the native
/// window handle and the native display handle. Zero means unset, matching
/// the renderer's null-initialized structure.
#[derive(Clone, Copy, PartialEq, Eq, Structural, Debug)]
pub struct PlatformHandles {
    pub nwh: u64,
    pub ndt: u64,
}

/// Which slot each handle variant fills: window-like handles go to `nwh`;
/// on Wayland the surface goes to `ndt`; nothing else is touched.
pub open spec fn platform_handles_spec(h: NativeHandle) -> PlatformHandles {
    match h {
        NativeHandle::Xlib { window } => PlatformHandles { nwh: window, ndt: 0 },
        NativeHandle::Wayland { surface } => PlatformHandles { nwh: 0, ndt: surface },
        NativeHandle::AppKit { ns_window } => PlatformHandles { nwh: ns_window, ndt: 0 },
        NativeHandle::Win32 { hwnd } => PlatformHandles { nwh: hwnd, ndt: 0 },
        NativeHandle::Unrecognized => PlatformHandles { nwh: 0, ndt: 0 },
    }
}

/// Produces the renderer's platform handles from a native window handle.
/// An unrecognized variant is a fatal error: the demo cannot render without a
/// valid surface, and there is no silent fallback.
pub fn get_platform_data(h: NativeHandle) -> (r: Result<PlatformHandles, ConfigError>)
    ensures
        r is Ok <==> h != NativeHandle::Unrecognized,
        r matches Ok(p) ==> p == platform_handles_spec(h),
        r matches Err(e) ==> e == ConfigError::UnsupportedHandle,
{
    match h {
        NativeHandle::Xlib { window } => Ok(PlatformHandles { nwh: window, ndt: 0 }),
        NativeHandle::Wayland { surface } => Ok(PlatformHandles { nwh: 0, ndt: surface }),
        NativeHandle::AppKit { ns_window } => Ok(PlatformHandles { nwh: ns_window, ndt: 0 }),
        NativeHandle::Win32 { hwnd } => Ok(PlatformHandles { nwh: hwnd, ndt: 0 }),
        NativeHandle::Unrecognized => Err(ConfigError::UnsupportedHandle),
    }
}

} // verus!

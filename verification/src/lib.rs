//! Safe, verified wrappers around a small slice of a native windowing API:
//! module/class registration, window creation, and error retrieval.
//!
//! The crate is split in two layers. [`win_raw`] is the raw binding layer: it
//! models the native calling convention, the ABI record layout for the
//! window-class descriptor, and the raw style bit constants. [`types`] is the
//! safe wrapper layer: nominal containers for each native handle kind, a
//! null-terminator-normalizing text wrapper, and the safe window-class
//! descriptor with its conversion to the raw form. The operation functions in
//! this root module forward one native call each and translate the raw result.
//!
//! The native entry points themselves are injected through the
//! [`win_raw::NativeApi`] capability, so a host links the real operating
//! system calls while tests substitute a controlled stub.

use vstd::prelude::*;

pub mod types;
pub mod win_raw;

verus! {

use crate::types::ErrorCode;
use crate::types::HInstance;
use crate::types::HWindow;
use crate::types::LPCString;
use crate::types::WinClass;
use crate::types::WinClassAtom;
use crate::win_raw::Lpcstr;
use crate::win_raw::NativeApi;
use crate::win_raw::WS_OVERLAPPEDWINDOW;

/// Queries the native layer's last-error code and wraps it.
///
/// The native error query has no failure path: whatever code the native layer
/// reports is returned, wrapped, as-is.
pub fn get_last_error<A: NativeApi>(api: &mut A) -> ErrorCode {
    let error: u32 = api.get_last_error();
    ErrorCode::new(error)
}

/// Applies the failure-sentinel convention to a raw class atom: the zero
/// sentinel yields `None` (the failure path), and exactly that; any other
/// value is wrapped unchanged.
pub fn nonzero_atom(raw: u16) -> (r: Option<WinClassAtom>)
    ensures
        r is Some <==> raw != 0,
        r matches Some(atom) ==> atom@ == raw,
{
    if raw == 0 {
        None
    } else {
        Some(WinClassAtom::new(raw))
    }
}

/// Applies the failure-sentinel convention to a raw instance handle: the
/// null sentinel yields `None` (the failure path), and exactly that; any
/// other value is wrapped unchanged.
pub fn nonnull_instance(raw: usize) -> (r: Option<HInstance>)
    ensures
        r is Some <==> raw != 0,
        r matches Some(h) ==> h@ == raw,
{
    if raw == 0 {
        None
    } else {
        Some(HInstance::new(raw))
    }
}

/// Applies the failure-sentinel convention to a raw window handle: the null
/// sentinel yields `None` (the failure path), and exactly that; any other
/// value is wrapped unchanged.
pub fn nonnull_window(raw: usize) -> (r: Option<HWindow>)
    ensures
        r is Some <==> raw != 0,
        r matches Some(w) ==> w@ == raw,
{
    if raw == 0 {
        None
    } else {
        Some(HWindow::new(raw))
    }
}

/// Registers a window class with the native layer. On success the wrapped
/// class atom is non-zero; the zero sentinel becomes a failure carrying the
/// native layer's last-error code.
pub fn register_class<A: NativeApi>(api: &mut A, class: &WinClass) -> (r: Result<
    WinClassAtom,
    ErrorCode,
>)
    ensures
        r matches Ok(atom) ==> atom@ != 0,
{
    let win_class_internal = class.convert();

    let raw = api.register_class_ex_a(&win_class_internal);

    match nonzero_atom(raw) {
        Some(atom) => Ok(atom),
        None => Err(get_last_error(api)),
    }
}

/// Queries the instance handle of the calling process's own module (the
/// native module-handle query with the null module name). On success the
/// wrapped handle is non-null; the null sentinel becomes a failure carrying
/// the native layer's last-error code.
pub fn get_module_handle<A: NativeApi>(api: &mut A) -> (r: Result<HInstance, ErrorCode>)
    ensures
        r matches Ok(h) ==> h@ != 0,
{
    let mod_name_cstr = Lpcstr::Null;

    let raw = api.get_module_handle_a(&mod_name_cstr);

    match nonnull_instance(raw) {
        Some(h) => Ok(h),
        None => Err(get_last_error(api)),
    }
}

/// Configuration for window creation: extended and plain style bits,
/// position, size, parent and menu handles, and the extra creation
/// parameter. `Default` gives the overlapped-window style at position
/// (20, 20) with size 80 by 80, and no parent, menu or creation parameter.
pub struct WindowParams {
    pub ex_style: u32,
    pub style: u32,
    pub x: i32,
    pub y: i32,
    pub width: i32,
    pub height: i32,
    pub parent: usize,
    pub menu: usize,
    pub param: usize,
}

/// True when every creation parameter holds its default value: zero extended
/// style, the overlapped-window style, position (20, 20), size 80 by 80, and
/// null parent, menu and creation parameter.
pub open spec fn is_default_params(p: WindowParams) -> bool {
    &&& p.ex_style == 0
    &&& p.style == WS_OVERLAPPEDWINDOW
    &&& p.x == 20
    &&& p.y == 20
    &&& p.width == 80
    &&& p.height == 80
    &&& p.parent == 0
    &&& p.menu == 0
    &&& p.param == 0
}

impl Default for WindowParams {
    /// Produces the default creation parameters.
    fn default() -> (r: WindowParams)
        ensures
            is_default_params(r),
    {
        WindowParams {
            ex_style: 0,
            style: WS_OVERLAPPEDWINDOW,
            x: 20,
            y: 20,
            width: 80,
            height: 80,
            parent: 0,
            menu: 0,
            param: 0,
        }
    }
}

/// Creates a window of the named class with the given creation parameters.
/// On success the wrapped window handle is non-null; the null sentinel
/// becomes a failure carrying the native layer's last-error code.
pub fn create_window_with<A: NativeApi>(
    api: &mut A,
    class_name: &LPCString,
    window_name: &LPCString,
    h_instance: &HInstance,
    params: &WindowParams,
) -> (r: Result<HWindow, ErrorCode>)
    ensures
        r matches Ok(w) ==> w@ != 0,
{
    let class_name_cstr = class_name.as_cstr();
    let window_name_cstr = window_name.as_cstr();

    let raw = api.create_window_ex_a(
        params.ex_style,
        &class_name_cstr,
        &window_name_cstr,
        params.style,
        params.x,
        params.y,
        params.width,
        params.height,
        params.parent,
        params.menu,
        h_instance.get(),
        params.param,
    );

    match nonnull_window(raw) {
        Some(w) => Ok(w),
        None => Err(get_last_error(api)),
    }
}

/// Creates a window of the named class with the default creation parameters.
/// On success the wrapped window handle is non-null; the null sentinel
/// becomes a failure carrying the native layer's last-error code.
pub fn create_window<A: NativeApi>(
    api: &mut A,
    class_name: &LPCString,
    window_name: &LPCString,
    h_instance: &HInstance,
) -> (r: Result<HWindow, ErrorCode>)
    ensures
        r matches Ok(w) ==> w@ != 0,
{
    let params = WindowParams::default();
    create_window_with(api, class_name, window_name, h_instance, &params)
}

/// Asks the native layer to show or hide the window, with the given
/// display-mode code. The native call's boolean result (whether the window
/// was previously visible) is discarded: the operation is fire-and-forget.
pub fn show_window<A: NativeApi>(api: &mut A, h_window: &HWindow, cmd_show: i32) {
    api.show_window(h_window.get(), cmd_show);
}

} // verus!

//! The raw binding layer: the native calling convention, modeled as the
//! [`NativeApi`] capability, the raw window-class descriptor record, and the
//! raw window-style bit constants.
//!
//! Native handles are opaque pointer-sized values, modeled here as `usize`
//! (`0` is the null handle). A native C-string pointer is modeled as
//! [`Lpcstr`]: either the null pointer or the text it points at.

use vstd::prelude::*;

verus! {

pub const WS_BORDER: u32 = 0x00800000;

pub const WS_CAPTION: u32 = 0x00C00000;

pub const WS_CHILD: u32 = 0x40000000;

pub const WS_CLIPCHILDREN: u32 = 0x02000000;

pub const WS_CLIPSIBLINGS: u32 = 0x04000000;

pub const WS_DISABLED: u32 = 0x08000000;

pub const WS_DLGFRAME: u32 = 0x00400000;

pub const WS_GROUP: u32 = 0x00020000;

pub const WS_HSCROLL: u32 = 0x00100000;

pub const WS_MAXIMIZE: u32 = 0x01000000;

pub const WS_MAXIMIZEBOX: u32 = 0x00010000;

pub const WS_MINIMIZE: u32 = 0x20000000;

pub const WS_MINIMIZEBOX: u32 = 0x00020000;

pub const WS_OVERLAPPED: u32 = 0x00000000;

pub const WS_POPUP: u32 = 0x80000000;

pub const WS_SIZEBOX: u32 = 0x00040000;

pub const WS_SYSMENU: u32 = 0x00080000;

pub const WS_TABSTOP: u32 = 0x00010000;

pub const WS_VISIBLE: u32 = 0x10000000;

pub const WS_VSCROLL: u32 = 0x00200000;

pub const WS_OVERLAPPEDWINDOW: u32 = WS_OVERLAPPED | WS_CAPTION | WS_SYSMENU | WS_SIZEBOX
    | WS_MINIMIZEBOX | WS_MAXIMIZEBOX;

pub const WS_POPUPWINDOW: u32 = WS_POPUP | WS_BORDER | WS_SYSMENU;

/// Byte size of the raw window-class descriptor record in the 64-bit native
/// ABI: two 32-bit fields, two 32-bit extra-byte counts, and eight
/// pointer-sized fields (the procedure pointer, five handles, two string
/// pointers).
pub const WNDCLASSEXA_SIZE: u32 = 80;

/// Model of a native C-string pointer (`LPCSTR`): either the null pointer or
/// the text it points at.
pub enum Lpcstr {
    Null,
    Str(String),
}

impl View for Lpcstr {
    type V = Option<Seq<char>>;

    open spec fn view(&self) -> Option<Seq<char>> {
        match self {
            Lpcstr::Null => None,
            Lpcstr::Str(s) => Some(s@),
        }
    }
}

impl Lpcstr {
    /// True exactly when this models the null pointer.
    pub fn is_null(&self) -> (r: bool)
        ensures
            r == (self@ is None),
    {
        match self {
            Lpcstr::Null => true,
            Lpcstr::Str(_) => false,
        }
    }
}

/// The raw window-class descriptor in the exact field order the native
/// registration call expects: size, style, procedure pointer, two extra-byte
/// counts, five handles, two string pointers.
#[allow(non_camel_case_types)]
pub struct WNDCLASSEXA {
    pub cb_size: u32,
    pub style: u32,
    pub lpfn_wnd_proc: Option<usize>,
    pub cb_cls_extra: i32,
    pub cb_wnd_extra: i32,
    pub h_instance: usize,
    pub h_icon: usize,
    pub h_cursor: usize,
    pub hbr_background: usize,
    pub lpsz_menu_name: Lpcstr,
    pub lpsz_class_name: Lpcstr,
    pub h_icon_sm: usize,
}

impl WNDCLASSEXA {
    /// Builds the raw record from the safe descriptor, copying each field's
    /// raw value one-to-one and setting the size field to the record's
    /// native byte size.
    pub fn new(wrapper: &crate::types::WinClass) -> (r: Self)
        ensures
            crate::types::converts_to(*wrapper, r),
    {
        WNDCLASSEXA {
            cb_size: WNDCLASSEXA_SIZE,
            style: wrapper.style,
            lpfn_wnd_proc: wrapper.win_proc.get(),
            cb_cls_extra: wrapper.cls_extra,
            cb_wnd_extra: wrapper.win_extra,
            h_instance: wrapper.h_instance.get(),
            h_icon: wrapper.h_icon.get(),
            h_cursor: wrapper.h_cursor.get(),
            hbr_background: wrapper.h_br_background.get(),
            lpsz_menu_name: wrapper.menu_name.as_cstr(),
            lpsz_class_name: wrapper.class_name.as_cstr(),
            h_icon_sm: wrapper.h_icon_small.get(),
        }
    }
}

/// The native windowing entry points, as an injected capability: a host
/// implements it over the real operating system calls, while a test
/// substitutes a stub that returns controlled values. Nothing is assumed of
/// the values an implementation hands back; the callers in the crate root
/// state what holds of their own results whatever came back.
pub trait NativeApi {
    /// The native last-error query: returns the calling thread's last error
    /// code.
    fn get_last_error(&mut self) -> u32;

    /// The native class registration call: takes the raw descriptor, returns
    /// a class atom, `0` on failure.
    fn register_class_ex_a(&mut self, class: &WNDCLASSEXA) -> u16;

    /// The native module-handle query: takes a module name (the null pointer
    /// selects the calling process's own module), returns a module handle,
    /// null on failure.
    fn get_module_handle_a(&mut self, module_name: &Lpcstr) -> usize;

    /// The native window creation call: takes the extended style, class and
    /// window names, style, position, size, parent and menu handles, instance
    /// handle and creation parameter, returns a window handle, null on
    /// failure.
    fn create_window_ex_a(
        &mut self,
        ex_style: u32,
        class_name: &Lpcstr,
        window_name: &Lpcstr,
        style: u32,
        x: i32,
        y: i32,
        width: i32,
        height: i32,
        parent: usize,
        menu: usize,
        instance: usize,
        param: usize,
    ) -> usize;

    /// The native show-window call: takes a window handle and a display-mode
    /// code, returns whether the window was previously visible.
    fn show_window(&mut self, h_wnd: usize, cmd_show: i32) -> bool;
}

} // verus!

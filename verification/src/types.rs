//! Rust structures wrapping the native windowing data types, so that the
//! distinct native handle kinds stay distinct at compile time.
//!
//! Each handle wrapper holds exactly one raw handle value, is immutable after
//! construction, and carries no ownership of the native resource. The text
//! wrapper normalizes a class or window name to end in a null terminator
//! before it is handed to native code.

use vstd::prelude::*;
use vstd::string::StrSliceExecFns;
use vstd::string::StringExecFns;

use crate::win_raw::Lpcstr;
use crate::win_raw::WNDCLASSEXA;
use crate::win_raw::WNDCLASSEXA_SIZE;

verus! {

/// Wrapper for a native error code (`DWORD`), to keep it distinct from other
/// 32-bit values.
pub struct ErrorCode(u32);

impl View for ErrorCode {
    type V = u32;

    closed spec fn view(&self) -> u32 {
        self.0
    }
}

impl ErrorCode {
    /// Wraps a raw error code.
    pub fn new(val: u32) -> (r: Self)
        ensures
            r@ == val,
    {
        ErrorCode(val)
    }

    /// Returns the wrapped raw error code.
    pub fn get(&self) -> (r: u32)
        ensures
            r == self@,
    {
        self.0
    }
}

/// Wrapper for a class atom (`ATOM`), the token the native layer hands back
/// for a registered window class.
pub struct WinClassAtom(u16);

impl View for WinClassAtom {
    type V = u16;

    closed spec fn view(&self) -> u16 {
        self.0
    }
}

impl WinClassAtom {
    /// Wraps a raw class atom.
    pub fn new(val: u16) -> (r: Self)
        ensures
            r@ == val,
    {
        WinClassAtom(val)
    }

    /// Returns the wrapped raw class atom.
    pub fn get(&self) -> (r: u16)
        ensures
            r == self@,
    {
        self.0
    }
}

/// Wrapper for a module instance handle (`HINSTANCE`).
pub struct HInstance(usize);

impl View for HInstance {
    type V = usize;

    closed spec fn view(&self) -> usize {
        self.0
    }
}

impl HInstance {
    /// Wraps a raw instance handle.
    pub fn new(val: usize) -> (r: Self)
        ensures
            r@ == val,
    {
        HInstance(val)
    }

    /// Returns the wrapped raw instance handle.
    pub fn get(&self) -> (r: usize)
        ensures
            r == self@,
    {
        self.0
    }
}

/// Wrapper for a window handle (`HWND`).
pub struct HWindow(usize);

impl View for HWindow {
    type V = usize;

    closed spec fn view(&self) -> usize {
        self.0
    }
}

impl HWindow {
    /// Wraps a raw window handle.
    pub fn new(val: usize) -> (r: Self)
        ensures
            r@ == val,
    {
        HWindow(val)
    }

    /// Returns the wrapped raw window handle.
    pub fn get(&self) -> (r: usize)
        ensures
            r == self@,
    {
        self.0
    }
}

/// Wrapper for an optional window-procedure pointer (`WNDPROC`), modeled by
/// its address; `None` stands for no procedure.
pub struct WinProc(Option<usize>);

impl View for WinProc {
    type V = Option<usize>;

    closed spec fn view(&self) -> Option<usize> {
        self.0
    }
}

impl WinProc {
    /// Wraps a raw optional procedure address.
    pub fn new(val: Option<usize>) -> (r: Self)
        ensures
            r@ == val,
    {
        WinProc(val)
    }

    /// Returns the wrapped raw optional procedure address.
    pub fn get(&self) -> (r: Option<usize>)
        ensures
            r == self@,
    {
        self.0
    }
}

/// Wrapper for an icon handle (`HICON`).
pub struct HIcon(usize);

impl View for HIcon {
    type V = usize;

    closed spec fn view(&self) -> usize {
        self.0
    }
}

impl HIcon {
    /// Wraps a raw icon handle.
    pub fn new(val: usize) -> (r: Self)
        ensures
            r@ == val,
    {
        HIcon(val)
    }

    /// Returns the wrapped raw icon handle.
    pub fn get(&self) -> (r: usize)
        ensures
            r == self@,
    {
        self.0
    }
}

/// Wrapper for a cursor handle (`HCURSOR`).
pub struct HCursor(usize);

impl View for HCursor {
    type V = usize;

    closed spec fn view(&self) -> usize {
        self.0
    }
}

impl HCursor {
    /// Wraps a raw cursor handle.
    pub fn new(val: usize) -> (r: Self)
        ensures
            r@ == val,
    {
        HCursor(val)
    }

    /// Returns the wrapped raw cursor handle.
    pub fn get(&self) -> (r: usize)
        ensures
            r == self@,
    {
        self.0
    }
}

/// Wrapper for a brush handle (`HBRUSH`).
pub struct HBrush(usize);

impl View for HBrush {
    type V = usize;

    closed spec fn view(&self) -> usize {
        self.0
    }
}

impl HBrush {
    /// Wraps a raw brush handle.
    pub fn new(val: usize) -> (r: Self)
        ensures
            r@ == val,
    {
        HBrush(val)
    }

    /// Returns the wrapped raw brush handle.
    pub fn get(&self) -> (r: usize)
        ensures
            r == self@,
    {
        self.0
    }
}

/// The stored form of a class or window name: the text itself if it already
/// ends in a null terminator, otherwise the text with one terminator
/// appended. Empty text becomes a single terminator.
pub open spec fn terminated(s: Seq<char>) -> Seq<char> {
    if s.len() > 0 && s.last() == '\x00' {
        s
    } else {
        s.push('\x00')
    }
}

/// True when the text ends in exactly one null terminator.
pub open spec fn singly_terminated(s: Seq<char>) -> bool {
    &&& s.len() > 0
    &&& s.last() == '\x00'
    &&& (s.len() == 1 || s[s.len() - 2] != '\x00')
}

/// Law: text that already ends in a null terminator is stored unchanged, so
/// wrapping an already-terminated name never double-terminates it.
pub proof fn lemma_terminated_idempotent(s: Seq<char>)
    requires
        s.len() > 0,
        s.last() == '\x00',
    ensures
        terminated(s) == s,
{
}

/// Law: non-empty text that does not end in a null terminator is stored as
/// the text with exactly one terminator appended.
pub proof fn lemma_terminated_appends_one(s: Seq<char>)
    requires
        s.len() > 0,
        s.last() != '\x00',
    ensures
        terminated(s) == s.push('\x00'),
{
}

/// Law: the stored form ends in exactly one null terminator, for any text
/// that does not end in a terminator (the empty text included) and for any
/// text that already ends in exactly one.
pub proof fn lemma_terminated_singly(s: Seq<char>)
    requires
        s.len() == 0 || s.last() != '\x00' || singly_terminated(s),
    ensures
        singly_terminated(terminated(s)),
{
}

/// `String` wrapper that appends a null terminator for use as a C string, if
/// the text does not already end in one. The absent variant stands for the
/// null pointer, used where native code accepts an optional string.
pub struct LPCString(Option<String>);

impl View for LPCString {
    type V = Option<Seq<char>>;

    closed spec fn view(&self) -> Option<Seq<char>> {
        match self.0 {
            Some(s) => Some(s@),
            None => None,
        }
    }
}

impl LPCString {
    /// Creates the absent `LPCString`, which yields the null pointer.
    pub fn null() -> (r: Self)
        ensures
            r@ is None,
    {
        LPCString(None)
    }

    /// Creates a present `LPCString` holding `val` normalized to end in a
    /// null terminator: one is appended unless the text already ends in one.
    pub fn new(val: String) -> (r: Self)
        ensures
            r@ == Some(terminated(val@)),
    {
        let ghost orig: Seq<char> = val@;
        let mut val = val;

        let len = val.as_str().unicode_len();
        if len == 0 {
            val.append("\x00");
            proof {
                reveal_strlit("\x00");
                assert(val@ =~= terminated(orig));
            }
        } else {
            let last_char = val.as_str().get_char(len - 1);
            if last_char != '\x00' {
                val.append("\x00");
                proof {
                    reveal_strlit("\x00");
                    assert(val@ =~= terminated(orig));
                }
            } else {
                proof {
                    assert(val@ =~= terminated(orig));
                }
            }
        }

        LPCString(Some(val))
    }

    /// Returns the modeled C-string pointer: the first byte of the stored
    /// text for the present variant, the null pointer for the absent one.
    pub fn as_cstr(&self) -> (r: Lpcstr)
        ensures
            r@ == self@,
            self@ is None ==> r is Null,
    {
        match &self.0 {
            Some(v) => Lpcstr::Str(v.clone()),
            None => Lpcstr::Null,
        }
    }
}

/// The safe window-class descriptor: style flags, an optional window
/// procedure, two extra-byte counts, the instance, icon, cursor and brush
/// handles, and the menu and class names. No field is validated here; the
/// native registration call judges the combination.
pub struct WinClass {
    pub style: u32,
    pub win_proc: WinProc,
    pub cls_extra: i32,
    pub win_extra: i32,
    pub h_instance: HInstance,
    pub h_icon: HIcon,
    pub h_cursor: HCursor,
    pub h_br_background: HBrush,
    pub menu_name: LPCString,
    pub class_name: LPCString,
    pub h_icon_small: HIcon,
}

/// True when every field of the safe descriptor holds its zero, null or
/// absent value, as `Default` produces it.
pub open spec fn is_default_descriptor(c: WinClass) -> bool {
    &&& c.style == 0
    &&& c.win_proc@ is None
    &&& c.cls_extra == 0
    &&& c.win_extra == 0
    &&& c.h_instance@ == 0
    &&& c.h_icon@ == 0
    &&& c.h_cursor@ == 0
    &&& c.h_br_background@ == 0
    &&& c.menu_name@ is None
    &&& c.class_name@ is None
    &&& c.h_icon_small@ == 0
}

/// Relates a safe descriptor to its raw form: the size field is the raw
/// record's native byte size, and every other raw field carries the
/// corresponding safe field's raw value one-to-one.
pub open spec fn converts_to(c: WinClass, r: WNDCLASSEXA) -> bool {
    &&& r.cb_size == WNDCLASSEXA_SIZE
    &&& r.style == c.style
    &&& r.lpfn_wnd_proc == c.win_proc@
    &&& r.cb_cls_extra == c.cls_extra
    &&& r.cb_wnd_extra == c.win_extra
    &&& r.h_instance == c.h_instance@
    &&& r.h_icon == c.h_icon@
    &&& r.h_cursor == c.h_cursor@
    &&& r.hbr_background == c.h_br_background@
    &&& r.lpsz_menu_name@ == c.menu_name@
    &&& r.lpsz_class_name@ == c.class_name@
    &&& r.h_icon_sm == c.h_icon_small@
}

/// True when the raw record's size field is the record's native byte size
/// and every other field is the zero, null or none equivalent.
pub open spec fn is_zeroed_raw(r: WNDCLASSEXA) -> bool {
    &&& r.cb_size == WNDCLASSEXA_SIZE
    &&& r.style == 0
    &&& r.lpfn_wnd_proc is None
    &&& r.cb_cls_extra == 0
    &&& r.cb_wnd_extra == 0
    &&& r.h_instance == 0
    &&& r.h_icon == 0
    &&& r.h_cursor == 0
    &&& r.hbr_background == 0
    &&& r.lpsz_menu_name@ is None
    &&& r.lpsz_class_name@ is None
    &&& r.h_icon_sm == 0
}

impl Default for WinClass {
    /// Produces the fully zeroed descriptor: zero style and extra-byte
    /// counts, null handles, no window procedure, absent menu and class
    /// names.
    fn default() -> (r: WinClass)
        ensures
            is_default_descriptor(r),
    {
        WinClass {
            style: 0,
            win_proc: WinProc::new(None),
            cls_extra: 0,
            win_extra: 0,
            h_instance: HInstance::new(0),
            h_icon: HIcon::new(0),
            h_cursor: HCursor::new(0),
            h_br_background: HBrush::new(0),
            menu_name: LPCString::null(),
            class_name: LPCString::null(),
            h_icon_small: HIcon::new(0),
        }
    }
}

impl WinClass {
    /// Converts the safe descriptor into the raw record the native
    /// registration call takes. Conversion has no failure path; validation
    /// is deferred to the native call's result.
    pub fn convert(&self) -> (r: WNDCLASSEXA)
        ensures
            converts_to(*self, r),
    {
        WNDCLASSEXA::new(self)
    }
}

/// Law: converting an all-default descriptor yields a raw record whose size
/// field equals the record's native byte size and whose every other field is
/// the zero, null or none equivalent.
pub proof fn lemma_convert_default_zeroed(c: WinClass, r: WNDCLASSEXA)
    requires
        is_default_descriptor(c),
        converts_to(c, r),
    ensures
        is_zeroed_raw(r),
{
}

} // verus!

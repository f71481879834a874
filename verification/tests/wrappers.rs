use win::types::ErrorCode;
use win::types::HBrush;
use win::types::HCursor;
use win::types::HIcon;
use win::types::HInstance;
use win::types::HWindow;
use win::types::LPCString;
use win::types::WinClass;
use win::types::WinClassAtom;
use win::types::WinProc;
use win::win_raw::Lpcstr;
use win::win_raw::WNDCLASSEXA;
use win::win_raw::WNDCLASSEXA_SIZE;

/// The text a wrapper stores, read back through its pointer model; `None`
/// for the absent variant.
fn stored(w: &LPCString) -> Option<String> {
    match w.as_cstr() {
        Lpcstr::Null => None,
        Lpcstr::Str(s) => Some(s),
    }
}

#[test]
fn wrapping_terminated_text_stores_it_unchanged() {
    let w = LPCString::new("abc\0".to_string());
    assert_eq!(stored(&w), Some("abc\0".to_string()));
}

#[test]
fn wrapping_unterminated_text_appends_one_terminator() {
    let w = LPCString::new("abc".to_string());
    assert_eq!(stored(&w), Some("abc\0".to_string()));
}

#[test]
fn wrapping_empty_text_yields_a_single_terminator() {
    let w = LPCString::new(String::new());
    assert_eq!(stored(&w), Some("\0".to_string()));
}

#[test]
fn wrapping_a_lone_terminator_stores_it_unchanged() {
    let w = LPCString::new("\0".to_string());
    assert_eq!(stored(&w), Some("\0".to_string()));
}

#[test]
fn null_text_wrapper_yields_the_null_pointer() {
    let w = LPCString::null();
    let p = w.as_cstr();
    assert!(p.is_null());
    assert!(matches!(p, Lpcstr::Null));
}

#[test]
fn present_text_wrapper_yields_a_non_null_pointer() {
    let w = LPCString::new("abc".to_string());
    assert!(!w.as_cstr().is_null());
}

#[test]
fn handle_wrappers_return_their_raw_value() {
    assert_eq!(ErrorCode::new(7).get(), 7);
    assert_eq!(WinClassAtom::new(41).get(), 41);
    assert_eq!(HInstance::new(0x10).get(), 0x10);
    assert_eq!(HWindow::new(0x20).get(), 0x20);
    assert_eq!(WinProc::new(Some(0x30)).get(), Some(0x30));
    assert_eq!(WinProc::new(None).get(), None);
    assert_eq!(HIcon::new(0x40).get(), 0x40);
    assert_eq!(HCursor::new(0x50).get(), 0x50);
    assert_eq!(HBrush::new(0x60).get(), 0x60);
}

#[test]
fn default_descriptor_converts_to_the_zeroed_raw_record() {
    let raw: WNDCLASSEXA = WinClass::default().convert();
    assert_eq!(raw.cb_size, WNDCLASSEXA_SIZE);
    assert_eq!(raw.cb_size, 80);
    assert_eq!(raw.style, 0);
    assert_eq!(raw.lpfn_wnd_proc, None);
    assert_eq!(raw.cb_cls_extra, 0);
    assert_eq!(raw.cb_wnd_extra, 0);
    assert_eq!(raw.h_instance, 0);
    assert_eq!(raw.h_icon, 0);
    assert_eq!(raw.h_cursor, 0);
    assert_eq!(raw.hbr_background, 0);
    assert!(matches!(raw.lpsz_menu_name, Lpcstr::Null));
    assert!(matches!(raw.lpsz_class_name, Lpcstr::Null));
    assert_eq!(raw.h_icon_sm, 0);
}

#[test]
fn convert_copies_every_field_one_to_one() {
    let class = WinClass {
        style: 0x11,
        win_proc: WinProc::new(Some(0x9000)),
        cls_extra: 4,
        win_extra: 8,
        h_instance: HInstance::new(0x100),
        h_icon: HIcon::new(0x200),
        h_cursor: HCursor::new(0x300),
        h_br_background: HBrush::new(0x400),
        menu_name: LPCString::new("menu".to_string()),
        class_name: LPCString::new("class\0".to_string()),
        h_icon_small: HIcon::new(0x500),
    };
    let raw = class.convert();
    assert_eq!(raw.cb_size, WNDCLASSEXA_SIZE);
    assert_eq!(raw.style, 0x11);
    assert_eq!(raw.lpfn_wnd_proc, Some(0x9000));
    assert_eq!(raw.cb_cls_extra, 4);
    assert_eq!(raw.cb_wnd_extra, 8);
    assert_eq!(raw.h_instance, 0x100);
    assert_eq!(raw.h_icon, 0x200);
    assert_eq!(raw.h_cursor, 0x300);
    assert_eq!(raw.hbr_background, 0x400);
    match &raw.lpsz_menu_name {
        Lpcstr::Str(s) => assert_eq!(s, "menu\0"),
        Lpcstr::Null => panic!("menu name pointer is null"),
    }
    match &raw.lpsz_class_name {
        Lpcstr::Str(s) => assert_eq!(s, "class\0"),
        Lpcstr::Null => panic!("class name pointer is null"),
    }
    assert_eq!(raw.h_icon_sm, 0x500);
}

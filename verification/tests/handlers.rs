use hello::effect::{Effect, Reply};
use hello::handlers::{classify, lock_position, paint, MessageKind, PAINT_COLOR};
use hello::position::{Placement, WindowPos};
use hello::win32;
use hello::window::WindowHandle;
use windows::Win32::Graphics::Gdi;
use windows::Win32::System::SystemServices;
use windows::Win32::UI::WindowsAndMessaging;

#[test]
fn identifiers_are_those_of_the_system() {
    assert_eq!(win32::WM_PAINT, WindowsAndMessaging::WM_PAINT);
    assert_eq!(win32::WM_WINDOWPOSCHANGING, WindowsAndMessaging::WM_WINDOWPOSCHANGING);
    assert_eq!(win32::WM_NCDESTROY, WindowsAndMessaging::WM_NCDESTROY);
    assert_eq!(win32::SWP_NOSIZE, WindowsAndMessaging::SWP_NOSIZE.0);
    assert_eq!(win32::SWP_NOMOVE, WindowsAndMessaging::SWP_NOMOVE.0);
    assert_eq!(win32::DT_CENTER, Gdi::DT_CENTER.0);
    assert_eq!(win32::DT_VCENTER, Gdi::DT_VCENTER.0);
    assert_eq!(win32::DT_SINGLELINE, Gdi::DT_SINGLELINE.0);
    assert_eq!(win32::DLL_PROCESS_ATTACH, SystemServices::DLL_PROCESS_ATTACH);
    assert_eq!(win32::DLL_PROCESS_DETACH, SystemServices::DLL_PROCESS_DETACH);
}

#[test]
fn identifiers_have_their_documented_values() {
    assert_eq!(win32::WM_PAINT, 15);
    assert_eq!(win32::WM_WINDOWPOSCHANGING, 70);
    assert_eq!(win32::WM_NCDESTROY, 130);
    assert_eq!(win32::SWP_NOSIZE, 1);
    assert_eq!(win32::SWP_NOMOVE, 2);
    assert_eq!(win32::DT_CENTER, 1);
    assert_eq!(win32::DT_VCENTER, 4);
    assert_eq!(win32::DT_SINGLELINE, 32);
    assert_eq!(win32::DLL_PROCESS_ATTACH, 1);
    assert_eq!(win32::DLL_PROCESS_DETACH, 0);
}

#[test]
fn table_knows_three_kinds_of_message() {
    assert_eq!(classify(0x000F), MessageKind::Paint);
    assert_eq!(classify(0x0046), MessageKind::PositionChanging);
    assert_eq!(classify(0x0082), MessageKind::Teardown);
}

#[test]
fn table_lets_every_other_message_through() {
    for message in [0u32, 1, 2, 0x000E, 0x0010, 0x0045, 0x0047, 0x0081, 0x0083, 0x0200, u32::MAX] {
        assert_eq!(classify(message), MessageKind::Other);
    }
}

#[test]
fn paint_is_one_begin_fill_draw_end() {
    let window = WindowHandle(0x5150);
    let effects = paint(window);
    assert_eq!(
        effects,
        vec![
            Effect::BeginPaint { window },
            Effect::FillRegion { color: 0x0000F0F0 },
            Effect::DrawText { text: "ZOMG!", format: 0x25 },
            Effect::EndPaint { window },
        ]
    );
    assert_eq!(PAINT_COLOR, 0x0000F0F0);
}

#[test]
fn paint_text_is_centred_on_one_line() {
    let effects = paint(WindowHandle(1));
    match effects[2] {
        Effect::DrawText { text, format } => {
            assert_eq!(text.as_bytes(), b"ZOMG!");
            assert_eq!(
                format,
                (Gdi::DT_SINGLELINE | Gdi::DT_CENTER | Gdi::DT_VCENTER).0
            );
        }
        _ => panic!(),
    }
}

#[test]
fn position_handler_switches_on_both_freezing_flags() {
    assert_eq!(lock_position(), vec![Effect::SetPositionFlags { flags: 3 }]);
}

#[test]
fn locked_request_carries_both_flags_whatever_it_asked() {
    let requests = [
        WindowPos { x: 0, y: 0, cx: 0, cy: 0, flags: 0 },
        WindowPos { x: 120, y: -45, cx: 800, cy: 600, flags: 0x0014 },
        WindowPos { x: i32::MIN, y: i32::MAX, cx: 1, cy: i32::MAX, flags: 0x0001 },
        WindowPos { x: 7, y: 8, cx: 9, cy: 10, flags: u32::MAX },
    ];
    for request in requests.iter() {
        let mut pending = *request;
        for effect in lock_position() {
            match effect {
                Effect::SetPositionFlags { flags } => pending.set_flags(flags),
                _ => panic!(),
            }
        }
        assert_eq!(pending.flags & 1, 1);
        assert_eq!(pending.flags & 2, 2);
        assert_eq!(pending.flags, request.flags | 3);
        assert_eq!((pending.x, pending.y, pending.cx, pending.cy), (request.x, request.y, request.cx, request.cy));
    }
}

#[test]
fn locked_request_leaves_the_window_where_it_stood() {
    let current = Placement { x: 10, y: 20, cx: 300, cy: 200 };
    let mut request = WindowPos { x: 500, y: 600, cx: 64, cy: 48, flags: 0 };
    assert_eq!(request.placement_after(current), Placement { x: 500, y: 600, cx: 64, cy: 48 });
    request.set_flags(3);
    assert_eq!(request.placement_after(current), current);
}

#[test]
fn each_freezing_flag_keeps_its_own_half() {
    let current = Placement { x: 10, y: 20, cx: 300, cy: 200 };
    let keep_size = WindowPos { x: 500, y: 600, cx: 64, cy: 48, flags: 1 };
    assert_eq!(keep_size.placement_after(current), Placement { x: 500, y: 600, cx: 300, cy: 200 });
    let keep_position = WindowPos { x: 500, y: 600, cx: 64, cy: 48, flags: 2 };
    assert_eq!(keep_position.placement_after(current), Placement { x: 10, y: 20, cx: 64, cy: 48 });
}

#[test]
fn set_flags_keeps_what_was_on() {
    let mut request = WindowPos { x: 1, y: 2, cx: 3, cy: 4, flags: 0x0010 };
    request.set_flags(0x0003);
    assert_eq!(request, WindowPos { x: 1, y: 2, cx: 3, cy: 4, flags: 0x0013 });
    request.set_flags(0);
    assert_eq!(request.flags, 0x0013);
}

#[test]
fn reply_is_fixed_or_what_the_call_returned() {
    assert_eq!(Reply::Value(0).settle(99), 0);
    assert_eq!(Reply::Value(-3).settle(99), -3);
    assert_eq!(Reply::OfCall.settle(99), 99);
    assert_eq!(Reply::OfCall.settle(isize::MIN), isize::MIN);
}

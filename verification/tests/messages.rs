use native_events::events::Event;
use native_events::platform::macos_vst::event::NativeEvent;
use native_events::platform::windows::callback::{
    read_message, read_position, WM_LBUTTONDOWN, WM_LBUTTONUP, WM_MBUTTONDOWN, WM_MBUTTONUP,
    WM_MOUSELEAVE, WM_MOUSEMOVE, WM_RBUTTONDOWN, WM_RBUTTONUP,
};
use native_events::registry::{WindowContext, WindowRegistry};

fn lparam(x: i16, y: i16) -> isize {
    (((y as u16 as u32) << 16) | (x as u16 as u32)) as isize
}

#[test]
fn message_numbers_are_those_of_the_window_manager() {
    assert_eq!(WM_MOUSEMOVE, 0x200);
    assert_eq!(WM_LBUTTONDOWN, 0x201);
    assert_eq!(WM_LBUTTONUP, 0x202);
    assert_eq!(WM_RBUTTONDOWN, 0x204);
    assert_eq!(WM_RBUTTONUP, 0x205);
    assert_eq!(WM_MBUTTONDOWN, 0x207);
    assert_eq!(WM_MBUTTONUP, 0x208);
    assert_eq!(WM_MOUSELEAVE, 0x2a3);
}

#[test]
fn button_messages_are_read_by_their_number() {
    assert_eq!(read_message(WM_LBUTTONDOWN, 0), NativeEvent::LeftMouseDown);
    assert_eq!(read_message(WM_LBUTTONUP, 0), NativeEvent::LeftMouseUp);
    assert_eq!(read_message(WM_RBUTTONDOWN, 0), NativeEvent::RightMouseDown);
    assert_eq!(read_message(WM_RBUTTONUP, 0), NativeEvent::RightMouseUp);
    assert_eq!(read_message(WM_MBUTTONDOWN, 0), NativeEvent::OtherMouseDown);
    assert_eq!(read_message(WM_MBUTTONUP, 0), NativeEvent::OtherMouseUp);
    assert_eq!(read_message(WM_MOUSELEAVE, 0), NativeEvent::MouseExited);
}

#[test]
fn the_position_is_two_signed_words() {
    assert_eq!(read_position(0), (0, 0));
    assert_eq!(read_position(lparam(5, 7)), (5, 7));
    assert_eq!(read_position(lparam(-1, -2)), (-1, -2));
    assert_eq!(read_position(lparam(i16::MAX, i16::MIN)), (32767, -32768));
    assert_eq!(read_position(0x0003_8000), (-32768, 3));
    assert_eq!(read_position(-1), (-1, -1));
}

#[test]
fn a_motion_message_carries_its_position() {
    assert_eq!(
        read_message(WM_MOUSEMOVE, lparam(640, 480)),
        NativeEvent::MouseMoved { x: 640, y: 480 }
    );
    assert_eq!(
        read_message(WM_MOUSEMOVE, lparam(-3, 2)),
        NativeEvent::MouseMoved { x: -3, y: 2 }
    );
}

#[test]
fn any_other_message_is_of_another_class() {
    for msg in [0u32, 0x0002, 0x000f, 0x0100, 0x0101, 0x0102, 0x0203, 0x0206, 0x020a, 0xffff] {
        assert_eq!(read_message(msg, lparam(1, 1)), NativeEvent::Other);
    }
}

#[test]
fn messages_reach_the_window_that_they_are_for() {
    let mut registry: WindowRegistry<u8, u8> = WindowRegistry::new();
    registry.register(0x500, WindowContext::new(0x500, 1, 2));
    let moved = read_message(WM_MOUSEMOVE, lparam(10, 20));
    assert_eq!(registry.dispatch(0x500, &moved), Some(vec![Event::MouseMoved(10, 20)]));
    assert!(registry.lookup(0x500).unwrap().mouse_in_window);
    let left = read_message(WM_MOUSELEAVE, 0);
    assert_eq!(registry.dispatch(0x500, &left), Some(vec![Event::MouseLeft]));
    assert!(!registry.lookup(0x500).unwrap().mouse_in_window);
    assert_eq!(registry.dispatch(0x501, &moved), None);
}

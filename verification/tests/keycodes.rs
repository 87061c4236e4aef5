use native_events::events::VirtualKeyCode;
use native_events::platform::macos_vst::event::vkeycode_to_element;

fn documented_table() -> Vec<(u16, VirtualKeyCode)> {
    vec![
        (0x00, VirtualKeyCode::A),
        (0x01, VirtualKeyCode::S),
        (0x02, VirtualKeyCode::D),
        (0x03, VirtualKeyCode::F),
        (0x04, VirtualKeyCode::H),
        (0x05, VirtualKeyCode::G),
        (0x06, VirtualKeyCode::Z),
        (0x07, VirtualKeyCode::X),
        (0x08, VirtualKeyCode::C),
        (0x09, VirtualKeyCode::V),
        (0x0b, VirtualKeyCode::B),
        (0x0c, VirtualKeyCode::Q),
        (0x0d, VirtualKeyCode::W),
        (0x0e, VirtualKeyCode::E),
        (0x0f, VirtualKeyCode::R),
        (0x10, VirtualKeyCode::Y),
        (0x11, VirtualKeyCode::T),
        (0x12, VirtualKeyCode::Key1),
        (0x13, VirtualKeyCode::Key2),
        (0x14, VirtualKeyCode::Key3),
        (0x15, VirtualKeyCode::Key4),
        (0x16, VirtualKeyCode::Key6),
        (0x17, VirtualKeyCode::Key5),
        (0x18, VirtualKeyCode::Equals),
        (0x19, VirtualKeyCode::Key9),
        (0x1a, VirtualKeyCode::Key7),
        (0x1b, VirtualKeyCode::Minus),
        (0x1c, VirtualKeyCode::Key8),
        (0x1d, VirtualKeyCode::Key0),
        (0x1e, VirtualKeyCode::RBracket),
        (0x1f, VirtualKeyCode::O),
        (0x20, VirtualKeyCode::U),
        (0x21, VirtualKeyCode::LBracket),
        (0x22, VirtualKeyCode::I),
        (0x23, VirtualKeyCode::P),
        (0x24, VirtualKeyCode::Return),
        (0x25, VirtualKeyCode::L),
        (0x26, VirtualKeyCode::J),
        (0x27, VirtualKeyCode::Apostrophe),
        (0x28, VirtualKeyCode::K),
        (0x29, VirtualKeyCode::Semicolon),
        (0x2a, VirtualKeyCode::Backslash),
        (0x2b, VirtualKeyCode::Comma),
        (0x2c, VirtualKeyCode::Slash),
        (0x2d, VirtualKeyCode::N),
        (0x2e, VirtualKeyCode::M),
        (0x2f, VirtualKeyCode::Period),
        (0x30, VirtualKeyCode::Tab),
        (0x31, VirtualKeyCode::Space),
        (0x32, VirtualKeyCode::Grave),
        (0x33, VirtualKeyCode::Back),
        (0x35, VirtualKeyCode::Escape),
        (0x36, VirtualKeyCode::RWin),
        (0x37, VirtualKeyCode::LWin),
        (0x38, VirtualKeyCode::LShift),
        (0x3b, VirtualKeyCode::LControl),
        (0x3c, VirtualKeyCode::RShift),
        (0x3e, VirtualKeyCode::RControl),
        (0x41, VirtualKeyCode::Decimal),
        (0x43, VirtualKeyCode::Multiply),
        (0x45, VirtualKeyCode::Add),
        (0x47, VirtualKeyCode::Numlock),
        (0x49, VirtualKeyCode::VolumeUp),
        (0x4a, VirtualKeyCode::VolumeDown),
        (0x4b, VirtualKeyCode::Divide),
        (0x4c, VirtualKeyCode::NumpadEnter),
        (0x4e, VirtualKeyCode::Subtract),
        (0x51, VirtualKeyCode::NumpadEquals),
        (0x52, VirtualKeyCode::Numpad0),
        (0x53, VirtualKeyCode::Numpad1),
        (0x54, VirtualKeyCode::Numpad2),
        (0x55, VirtualKeyCode::Numpad3),
        (0x56, VirtualKeyCode::Numpad4),
        (0x57, VirtualKeyCode::Numpad5),
        (0x58, VirtualKeyCode::Numpad6),
        (0x59, VirtualKeyCode::Numpad7),
        (0x5b, VirtualKeyCode::Numpad8),
        (0x5c, VirtualKeyCode::Numpad9),
        (0x60, VirtualKeyCode::F5),
        (0x61, VirtualKeyCode::F6),
        (0x62, VirtualKeyCode::F7),
        (0x63, VirtualKeyCode::F3),
        (0x64, VirtualKeyCode::F8),
        (0x65, VirtualKeyCode::F9),
        (0x67, VirtualKeyCode::F11),
        (0x69, VirtualKeyCode::F13),
        (0x6b, VirtualKeyCode::F14),
        (0x6d, VirtualKeyCode::F10),
        (0x6f, VirtualKeyCode::F12),
        (0x71, VirtualKeyCode::F15),
        (0x72, VirtualKeyCode::Insert),
        (0x73, VirtualKeyCode::Home),
        (0x74, VirtualKeyCode::PageUp),
        (0x75, VirtualKeyCode::Delete),
        (0x76, VirtualKeyCode::F4),
        (0x77, VirtualKeyCode::End),
        (0x78, VirtualKeyCode::F2),
        (0x79, VirtualKeyCode::PageDown),
        (0x7a, VirtualKeyCode::F1),
        (0x7b, VirtualKeyCode::Left),
        (0x7c, VirtualKeyCode::Right),
        (0x7d, VirtualKeyCode::Down),
        (0x7e, VirtualKeyCode::Up),
    ]
}

#[test]
fn every_documented_scancode_gives_its_key() {
    let table = documented_table();
    assert_eq!(table.len(), 103);
    for (code, key) in table {
        assert_eq!(vkeycode_to_element(code), Some(key), "scan code {:#04x}", code);
    }
}

#[test]
fn every_other_scancode_gives_no_key() {
    let table = documented_table();
    let mut mapped = 0;
    let mut code: u32 = 0;
    while code <= 0xffff {
        let documented = table.iter().any(|entry| entry.0 as u32 == code);
        let key = vkeycode_to_element(code as u16);
        if documented {
            mapped += 1;
            assert!(key.is_some());
        } else {
            assert_eq!(key, None, "scan code {:#06x}", code);
        }
        code += 1;
    }
    assert_eq!(mapped, 103);
}

#[test]
fn reserved_scancodes_give_no_key() {
    for code in [
        0x0au16, 0x34, 0x39, 0x3a, 0x3d, 0x3f, 0x40, 0x42, 0x44, 0x46, 0x48, 0x4d, 0x4f, 0x50, 0x5a,
        0x5d, 0x5e, 0x5f, 0x66, 0x68, 0x6a, 0x6c, 0x6e, 0x70, 0x7f, 0x80, 0xff, 0x100, 0xffff,
    ] {
        assert_eq!(vkeycode_to_element(code), None);
    }
}

#[test]
fn no_two_scancodes_share_a_key() {
    let mut seen: Vec<VirtualKeyCode> = Vec::new();
    let mut code: u32 = 0;
    while code <= 0xffff {
        if let Some(key) = vkeycode_to_element(code as u16) {
            assert!(!seen.contains(&key));
            seen.push(key);
        }
        code += 1;
    }
    assert_eq!(seen.len(), 103);
}

#[test]
fn lookup_is_deterministic() {
    let mut code: u32 = 0;
    while code <= 0xff {
        assert_eq!(vkeycode_to_element(code as u16), vkeycode_to_element(code as u16));
        code += 1;
    }
}

#[test]
fn digits_five_and_six_are_swapped_on_the_keyboard() {
    assert_eq!(vkeycode_to_element(0x16), Some(VirtualKeyCode::Key6));
    assert_eq!(vkeycode_to_element(0x17), Some(VirtualKeyCode::Key5));
}

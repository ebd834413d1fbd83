use uhkctl::config::KeyAction;
use uhkctl::cursor::UhkCursor;
use uhkctl::error::DeviceError;

fn decode(bytes: Vec<u8>) -> (Result<KeyAction, DeviceError>, usize) {
    let mut c = UhkCursor::new(bytes);
    let r = KeyAction::deserialize(&mut c);
    (r, c.position())
}

#[test]
fn basic_keystroke_with_scancode() {
    assert_eq!(
        decode(vec![0x01, 0x04]),
        (Ok(KeyAction::Keystroke(Some(4), None, None)), 2)
    );
}

#[test]
fn long_media_scancode_is_two_bytes() {
    assert_eq!(
        decode(vec![17, 0x34, 0x12]),
        (Ok(KeyAction::Keystroke(Some(0x1234), None, None)), 3)
    );
}

#[test]
fn keystroke_with_all_fields() {
    assert_eq!(
        decode(vec![0x07, 0x04, 0x02, 0x05]),
        (Ok(KeyAction::Keystroke(Some(4), Some(2), Some(5))), 4)
    );
}

#[test]
fn mouse_action() {
    assert_eq!(decode(vec![0x22, 0x07]), (Ok(KeyAction::MouseAction(7)), 2));
}

#[test]
fn switch_layer_and_keymap() {
    assert_eq!(decode(vec![32, 2, 1]), (Ok(KeyAction::SwitchLayer(2, 1)), 3));
    assert_eq!(decode(vec![33, 4]), (Ok(KeyAction::SwitchKeymap(4)), 2));
}

#[test]
fn none_and_play_macro_take_only_the_tag() {
    assert_eq!(decode(vec![0, 9]), (Ok(KeyAction::NoAction), 1));
    assert_eq!(decode(vec![35, 9]), (Ok(KeyAction::PlayMacroAction), 1));
}

#[test]
fn unknown_action_id() {
    assert_eq!(
        decode(vec![200, 1, 2, 3]),
        (Err(DeviceError::UnknownActionId(200)), 1)
    );
    assert_eq!(decode(vec![31, 1]), (Err(DeviceError::UnknownActionId(31)), 1));
}

#[test]
fn truncated_key_action() {
    assert_eq!(decode(vec![]).0, Err(DeviceError::OutOfData));
    assert_eq!(decode(vec![17, 0x34]).0, Err(DeviceError::OutOfData));
    assert_eq!(decode(vec![32, 1]).0, Err(DeviceError::OutOfData));
}

#[test]
fn keystroke_width_table() {
    for tag in 1u8..31 {
        let bits = (tag & 1) as usize + ((tag >> 1) & 1) as usize + ((tag >> 2) & 1) as usize;
        let long_media = (tag >> 3) & 3 == 2;
        let width = 1 + bits + if long_media && tag & 1 != 0 { 1 } else { 0 };
        let mut bytes = vec![tag];
        bytes.extend_from_slice(&[0x11, 0x22, 0x33, 0x44, 0x55]);
        let (r, consumed) = decode(bytes.clone());
        assert_eq!(consumed, width, "tag {}", tag);
        match r {
            Ok(KeyAction::Keystroke(scancode, mask, role)) => {
                assert_eq!(scancode.is_some(), tag & 1 != 0);
                assert_eq!(mask.is_some(), tag & 2 != 0);
                assert_eq!(role.is_some(), tag & 4 != 0);
                if tag & 1 != 0 {
                    let expected = if long_media { 0x2211 } else { 0x11 };
                    assert_eq!(scancode, Some(expected));
                }
            }
            other => panic!("tag {} gave {:?}", tag, other),
        }
        bytes.truncate(width - 1);
        if width > 1 {
            assert_eq!(decode(bytes).0, Err(DeviceError::OutOfData), "tag {}", tag);
        }
    }
}

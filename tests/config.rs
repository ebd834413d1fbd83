use uhkctl::config::{
    read_keymap_configs, read_macro_command, read_macro_configs, read_module_configurations,
    HardwareConfig, KeyAction, KeymapConfig, LayerConfig, ModuleConfig, UserConfig,
};
use uhkctl::cursor::UhkCursor;
use uhkctl::error::DeviceError;

#[test]
fn hardware_config_fields_in_order() {
    let bytes = vec![
        3, b'U', b'H', b'K', 1, 2, 3, 4, 5, 0x78, 0x56, 0x34, 0x12, 1, 0,
    ];
    let mut c = UhkCursor::new(bytes);
    let hw = HardwareConfig::deserialize(&mut c).unwrap();
    assert_eq!(hw.signature, "UHK");
    assert_eq!((hw.major, hw.minor, hw.patch), (1, 2, 3));
    assert_eq!((hw.brand_id, hw.device_id), (4, 5));
    assert_eq!(hw.unique_id, 0x12345678);
    assert!(hw.vendor_mode);
    assert!(!hw.iso_mode);
    assert_eq!(c.position(), 15);
}

#[test]
fn hardware_config_truncated() {
    let bytes = vec![3, b'U', b'H', b'K', 1, 2, 3, 4, 5, 0x78, 0x56, 0x34, 0x12, 1];
    let mut c = UhkCursor::new(bytes);
    assert_eq!(HardwareConfig::deserialize(&mut c).err(), Some(DeviceError::OutOfData));
}

#[test]
fn user_config_fields_in_order() {
    let mut bytes = vec![4, 0, 1, 0, 2, 0, 0x10, 0x01, 2, b'm', b'e', 0x2C, 0x01, 7, 8, 9];
    bytes.extend(10u8..20);
    let mut c = UhkCursor::new(bytes);
    let u = UserConfig::deserialize(&mut c).unwrap();
    assert_eq!((u.major, u.minor, u.patch), (4, 1, 2));
    assert_eq!(u.length, 0x0110);
    assert_eq!(u.name, "me");
    assert_eq!(u.double_tap_switch_layer_timeout, 300);
    assert_eq!(u.icons_and_layer_texts_brightness, 7);
    assert_eq!(u.alphanumeric_segments_brighrness, 8);
    assert_eq!(u.key_backlight_brightness, 9);
    let m = u.mouse_config;
    assert_eq!(m.move_initial_speed, 10);
    assert_eq!(m.move_accelerated_speed, 14);
    assert_eq!(m.scroll_initial_speed, 15);
    assert_eq!(m.scroll_accelerated_speed, 19);
    assert_eq!(c.position(), 26);
}

#[test]
fn user_config_missing_mouse_byte() {
    let mut bytes = vec![4, 0, 1, 0, 2, 0, 0x10, 0x01, 2, b'm', b'e', 0x2C, 0x01, 7, 8, 9];
    bytes.extend(10u8..19);
    let mut c = UhkCursor::new(bytes);
    assert_eq!(UserConfig::deserialize(&mut c).err(), Some(DeviceError::OutOfData));
}

#[test]
fn module_config_reads_exact_count() {
    let mut c = UhkCursor::new(vec![1, 2, 0x01, 0x04, 0x00, 0x22]);
    let m = ModuleConfig::deserialize(&mut c).unwrap();
    assert_eq!(m.id, 1);
    assert_eq!(
        m.key_actions,
        vec![KeyAction::Keystroke(Some(4), None, None), KeyAction::NoAction]
    );
    assert_eq!(c.position(), 5);
}

#[test]
fn layer_config_with_modules() {
    let mut c = UhkCursor::new(vec![3, 2, 0, 1, 33, 2, 1, 0]);
    let l = LayerConfig::deserialize(&mut c).unwrap();
    assert_eq!(l.id, 3);
    assert_eq!(l.modules.len(), 2);
    assert_eq!(l.modules[0].key_actions, vec![KeyAction::SwitchKeymap(2)]);
    assert_eq!(l.modules[1].id, 1);
    assert!(l.modules[1].key_actions.is_empty());
    assert_eq!(c.position(), 8);
}

#[test]
fn keymap_config_tree() {
    let bytes = vec![
        3, b'Q', b'W', b'Y', 1, 2, b'Q', b'w', 0, 1, 0, 1, 0, 2, 32, 1, 2, 0x00, 0xAA,
    ];
    let mut c = UhkCursor::new(bytes);
    let k = KeymapConfig::deserialize(&mut c).unwrap();
    assert_eq!(k.abbr, "QWY");
    assert!(k.default);
    assert_eq!(k.name, "Qw");
    assert_eq!(k.desc, "");
    assert_eq!(k.layers.len(), 1);
    assert_eq!(k.layers[0].id, 0);
    assert_eq!(k.layers[0].modules.len(), 1);
    assert_eq!(
        k.layers[0].modules[0].key_actions,
        vec![KeyAction::SwitchLayer(1, 2), KeyAction::NoAction]
    );
    assert_eq!(c.position(), 18);
}

#[test]
fn keymap_config_fails_on_unknown_action() {
    let bytes = vec![1, b'A', 0, 1, b'B', 0, 1, 0, 1, 0, 2, 0, 99];
    let mut c = UhkCursor::new(bytes);
    assert_eq!(
        KeymapConfig::deserialize(&mut c).err(),
        Some(DeviceError::UnknownActionId(99))
    );
}

#[test]
fn keymap_config_fails_on_missing_layer() {
    let bytes = vec![1, b'A', 0, 1, b'B', 0, 2, 0, 0];
    let mut c = UhkCursor::new(bytes);
    assert_eq!(KeymapConfig::deserialize(&mut c).err(), Some(DeviceError::OutOfData));
}

#[test]
fn module_configurations_section() {
    let bytes = vec![2, 1, 2, 3, 4, 5, 0x10, 0x01, 6, 7, 8, 2, 0, 0, 0, 0, 0, 0, 0, 0, 0];
    let mut c = UhkCursor::new(bytes);
    let ms = read_module_configurations(&mut c).unwrap();
    assert_eq!(ms.len(), 2);
    assert_eq!(ms[0].id, 1);
    assert_eq!(ms[0].pointer_mode, 2);
    assert_eq!(ms[0].accelerated_pointer_speed_multiplier, 5);
    assert_eq!(ms[0].angular_shift, 0x0110);
    assert_eq!(ms[0].mouse_layer_pointer_function, 8);
    assert_eq!(ms[1].id, 2);
    assert_eq!(c.position(), 21);
}

#[test]
fn macros_with_commands() {
    let bytes = vec![1, 1, 0, 2, b'm', b'1', 2, 71, 2, b'l', b's', 71, 0];
    let mut c = UhkCursor::new(bytes);
    let macros = read_macro_configs(&mut c).unwrap();
    assert_eq!(macros.len(), 1);
    assert!(macros[0].is_looped);
    assert!(!macros[0].is_private);
    assert_eq!(macros[0].name, "m1");
    assert_eq!(macros[0].commands, vec!["ls".to_string(), String::new()]);
    assert_eq!(c.position(), 13);
}

#[test]
fn macro_with_undecoded_action() {
    let bytes = vec![1, 0, 0, 0, 1, 64, 1];
    let mut c = UhkCursor::new(bytes);
    assert_eq!(
        read_macro_configs(&mut c).err(),
        Some(DeviceError::UnsupportedMacroAction(64))
    );
    let mut c = UhkCursor::new(vec![b'x']);
    assert_eq!(read_macro_command(&mut c), Err(DeviceError::UnsupportedMacroAction(b'x')));
}

#[test]
fn keymaps_section() {
    let bytes = vec![2, 1, b'A', 1, 0, 0, 0, 1, b'B', 0, 0, 0, 0];
    let mut c = UhkCursor::new(bytes);
    let ks = read_keymap_configs(&mut c).unwrap();
    assert_eq!(ks.len(), 2);
    assert_eq!(ks[0].abbr, "A");
    assert!(ks[0].default);
    assert!(ks[0].layers.is_empty());
    assert_eq!(ks[1].abbr, "B");
    assert!(!ks[1].default);
    assert_eq!(c.position(), 13);
    let mut c = UhkCursor::new(vec![3, 0, 0, 0, 0, 0]);
    assert_eq!(read_keymap_configs(&mut c).err(), Some(DeviceError::OutOfData));
}

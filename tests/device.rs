use uhkctl::consts::{layer_number_to_string, ConfigBufferId, ModulePropertyId, ModuleSlots, UsbCommand, UsbVariables};
use uhkctl::device::{
    buffer_size, command_frame, config_size_request, module_property_request, parse_config_sizes,
    parse_device_state, parse_uptime, parse_variable, state_request, uptime_request,
    variable_request, wait_step, ChunkedBufferReader, DeviceState, WaitStep,
};
use uhkctl::error::DeviceError;
use uhkctl::models::{is_uhk_interface, UhkDeviceProduct, UHK_VENDOR_ID};

fn response_with(payload: &[u8]) -> Vec<u8> {
    let mut r = vec![0u8; 64];
    r[1..1 + payload.len()].copy_from_slice(payload);
    r
}

#[test]
fn chunked_read_of_130_bytes_takes_three_rounds() {
    let total: Vec<u8> = (0..130u32).map(|i| (i * 7 % 251) as u8).collect();
    let mut reader = ChunkedBufferReader::new(ConfigBufferId::ValidatedUserConfig, 130);
    let mut rounds = Vec::new();
    let mut offset = 0usize;
    while !reader.is_done() {
        let n = reader.chunk_len() as usize;
        let request = reader.request();
        assert_eq!(
            request,
            vec![0, 4, 2, 63, (offset % 256) as u8, (offset / 256) as u8]
        );
        let response = response_with(&total[offset..offset + n]);
        assert_eq!(reader.accept(&response), Ok(()));
        rounds.push(n);
        offset += n;
    }
    assert_eq!(rounds, vec![63, 63, 4]);
    assert_eq!(reader.into_data(), total);
}

#[test]
fn chunked_read_refuses_short_response() {
    let mut reader = ChunkedBufferReader::new(ConfigBufferId::HardwareConfig, 10);
    assert_eq!(reader.accept(&[0, 1, 2, 3]), Err(DeviceError::ShortRead));
    assert!(!reader.is_done());
    assert_eq!(reader.accept(&[0, 1, 2, 3, 4, 5, 6, 7, 8, 9, 10, 11]), Ok(()));
    assert!(reader.is_done());
    assert_eq!(reader.into_data(), vec![1, 2, 3, 4, 5, 6, 7, 8, 9, 10]);
}

#[test]
fn chunked_read_of_empty_buffer() {
    let reader = ChunkedBufferReader::new(ConfigBufferId::StagingUserConfig, 0);
    assert!(reader.is_done());
    assert!(reader.into_data().is_empty());
}

#[test]
fn chunked_read_offset_is_little_endian() {
    let mut reader = ChunkedBufferReader::new(ConfigBufferId::HardwareConfig, 600);
    for _ in 0..5 {
        let response = response_with(&[0u8; 63]);
        reader.accept(&response).unwrap();
    }
    assert_eq!(reader.request(), vec![0, 4, 0, 63, 0x3B, 0x01]);
    assert_eq!(reader.chunk_len(), 63);
}

#[test]
fn command_frames() {
    assert_eq!(command_frame(UsbCommand::SetTestLed, &[1]), vec![0, 0x0a, 1]);
    assert_eq!(config_size_request(), vec![0, 0, 2]);
    assert_eq!(uptime_request(), vec![0, 0, 5]);
    assert_eq!(variable_request(UsbVariables::DebounceTimeRelease), vec![0, 0x12, 3]);
    assert_eq!(
        module_property_request(ModuleSlots::LeftKeyboardHalf, ModulePropertyId::GitRepo),
        vec![0, 0x0e, 1, 2]
    );
    assert_eq!(state_request(), vec![0, 9]);
}

#[test]
fn config_sizes_are_little_endian() {
    let r = response_with(&[0x40, 0x00, 0x10, 0x20]);
    assert_eq!(parse_config_sizes(&r), Ok((0x40, 0x2010)));
    assert_eq!(parse_config_sizes(&[0, 1, 2, 3]), Err(DeviceError::ShortRead));
    assert_eq!(buffer_size((5, 9), ConfigBufferId::HardwareConfig), 5);
    assert_eq!(buffer_size((5, 9), ConfigBufferId::StagingUserConfig), 9);
    assert_eq!(buffer_size((5, 9), ConfigBufferId::ValidatedUserConfig), 9);
}

#[test]
fn uptime_and_variable() {
    let r = response_with(&[0x10, 0x27, 0x00, 0x00]);
    assert_eq!(parse_uptime(&r), Ok(10000));
    assert_eq!(parse_uptime(&[0, 1]), Err(DeviceError::ShortRead));
    assert_eq!(parse_variable(&[0, 42]), Ok(42));
    assert_eq!(parse_variable(&[0]), Err(DeviceError::ShortRead));
}

#[test]
fn device_state_fields() {
    let r = response_with(&[1, 0, 1, 2, 3, 0x83]);
    let s = parse_device_state(&r).unwrap();
    assert!(s.eeprom_busy);
    assert!(!s.halves_merged);
    assert!(s.left_half_connected);
    assert_eq!(s.left_module_slot, ModuleSlots::KeyClusterLeft);
    assert_eq!(s.right_module_slot, ModuleSlots::TrackballRight);
    assert_eq!(s.active_layer, 3);
    assert!(s.active_layer_toggled);
    assert_eq!(s.left_half_slot, 1);
}

#[test]
fn device_state_errors() {
    assert_eq!(parse_device_state(&[0, 1, 0]), Err(DeviceError::ShortRead));
    let r = response_with(&[0, 0, 0, 9, 0, 0]);
    assert_eq!(parse_device_state(&r), Err(DeviceError::UnknownModuleSlot(9)));
    let r = response_with(&[0, 0, 0, 0, 6, 0]);
    assert_eq!(parse_device_state(&r), Err(DeviceError::UnknownModuleSlot(6)));
}

#[test]
fn eeprom_wait_steps() {
    let mut s = parse_device_state(&response_with(&[0, 0, 0, 0, 0, 0])).unwrap();
    assert_eq!(wait_step(&s, 5000, 1000), Ok(WaitStep::Ready));
    s = DeviceState { eeprom_busy: true, ..s };
    assert_eq!(wait_step(&s, 200, 1000), Ok(WaitStep::PollAgain));
    assert_eq!(wait_step(&s, 1000, 1000), Err(DeviceError::Timeout));
}

#[test]
fn module_slot_codes() {
    assert_eq!(ModuleSlots::from_code(5), Some(ModuleSlots::TouchpadRight));
    assert_eq!(ModuleSlots::from_code(6), None);
    assert_eq!(ModuleSlots::TrackpointRight.code(), 4);
    assert_eq!(ConfigBufferId::from_code(2), Some(ConfigBufferId::ValidatedUserConfig));
    assert_eq!(UsbCommand::ExecMacroCommand.code(), 0x14);
}

#[test]
fn device_models() {
    let p = UhkDeviceProduct::uhk_60_v2();
    assert_eq!(p.vendor_id, UHK_VENDOR_ID);
    assert_eq!(p.keyboard_pid, 0x6124);
    assert!(is_uhk_interface(0x1D50, 0));
    assert!(!is_uhk_interface(0x1D50, 1));
    assert!(!is_uhk_interface(0x1234, 0));
}

#[test]
fn layer_names() {
    assert_eq!(layer_number_to_string(0), Some("base"));
    assert_eq!(layer_number_to_string(3), Some("mouse"));
    assert_eq!(layer_number_to_string(4), None);
}

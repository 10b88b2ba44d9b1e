use mouse_config::{build_report, command_spec, CommandKind, CommandSpec, ProtocolError};

fn table_commands() -> Vec<CommandKind> {
    vec![
        CommandKind::SetDpi(800),
        CommandKind::SetWiredPollingRate(125),
        CommandKind::SetWiredPollingRate(500),
        CommandKind::SetWiredPollingRate(1000),
        CommandKind::SetWirelessPollingRate(125),
        CommandKind::SetWirelessPollingRate(500),
        CommandKind::SetWirelessPollingRate(1000),
        CommandKind::SetWirelessPollingRate(2000),
        CommandKind::SetWirelessPollingRate(4000),
        CommandKind::SetWirelessPollingRate(8000),
    ]
}

#[test]
fn every_table_entry_builds_91_bytes() {
    for command in table_commands() {
        let spec = command_spec(command).unwrap();
        let report = build_report(&spec).unwrap();
        assert_eq!(report.as_bytes().len(), 91);
    }
}

#[test]
fn every_dpi_value_builds_91_bytes() {
    for value in [0u16, 1, 255, 256, 800, 1600, 30000, 0xffff] {
        let spec = command_spec(CommandKind::SetDpi(value)).unwrap();
        assert_eq!(build_report(&spec).unwrap().as_bytes().len(), 91);
    }
}

#[test]
fn dpi_800_report_bytes() {
    let spec = command_spec(CommandKind::SetDpi(800)).unwrap();
    assert_eq!(spec.argument_bytes, vec![0x03, 0x20, 0x03, 0x20]);
    let report = build_report(&spec).unwrap();
    let bytes = report.as_bytes();
    assert_eq!(&bytes[6..10], &[0x07, 0x04, 0x05, 0x01]);
    assert_eq!(&bytes[10..14], &[0x03, 0x20, 0x03, 0x20]);
    assert_eq!(bytes[89], 0x07);
    assert_eq!(bytes[90], 0x00);
}

#[test]
fn dpi_800_report_is_exact() {
    let spec = command_spec(CommandKind::SetDpi(800)).unwrap();
    let report = build_report(&spec).unwrap();
    let mut expected = vec![0u8; 91];
    expected[6] = 0x07;
    expected[7] = 0x04;
    expected[8] = 0x05;
    expected[9] = 0x01;
    expected[10] = 0x03;
    expected[11] = 0x20;
    expected[12] = 0x03;
    expected[13] = 0x20;
    expected[89] = 0x07;
    assert_eq!(report.as_bytes(), expected.as_slice());
}

#[test]
fn regions_add_up_for_every_entry() {
    for command in table_commands() {
        let spec = command_spec(command).unwrap();
        let report = build_report(&spec).unwrap();
        let bytes = report.as_bytes();
        let arguments = spec.argument_bytes.len();
        let padding = 89 - 10 - arguments;
        assert_eq!(6 + 4 + arguments + padding + 1 + 1, 91);
        assert!(bytes[..6].iter().all(|byte| *byte == 0));
        assert_eq!(&bytes[6..10], &spec.opcode);
        assert_eq!(&bytes[10..10 + arguments], spec.argument_bytes.as_slice());
        assert!(bytes[10 + arguments..89].iter().all(|byte| *byte == 0));
        assert_eq!(bytes[89], spec.footer);
        assert_eq!(bytes[90], 0);
    }
}

#[test]
fn longest_payload_that_fits() {
    let spec = CommandSpec { opcode: [1, 2, 3, 4], argument_bytes: vec![0xaa; 79], footer: 0x55 };
    let report = build_report(&spec).unwrap();
    let bytes = report.as_bytes();
    assert_eq!(bytes.len(), 91);
    assert_eq!(&bytes[6..10], &[1, 2, 3, 4]);
    assert!(bytes[10..89].iter().all(|byte| *byte == 0xaa));
    assert_eq!(bytes[89], 0x55);
    assert_eq!(bytes[90], 0);
}

#[test]
fn empty_argument_is_laid_out() {
    let spec = CommandSpec { opcode: [9, 8, 7, 6], argument_bytes: vec![], footer: 0x11 };
    let report = build_report(&spec).unwrap();
    let bytes = report.as_bytes();
    assert_eq!(&bytes[6..10], &[9, 8, 7, 6]);
    assert!(bytes[10..89].iter().all(|byte| *byte == 0));
    assert_eq!(bytes[89], 0x11);
}

#[test]
fn payload_one_byte_too_long_overflows() {
    let spec = CommandSpec { opcode: [1, 2, 3, 4], argument_bytes: vec![0; 80], footer: 0 };
    assert_eq!(build_report(&spec), Err(ProtocolError::EncodingOverflow));
}

#[test]
fn large_payload_overflows() {
    let spec = CommandSpec { opcode: [1, 2, 3, 4], argument_bytes: vec![7; 1000], footer: 3 };
    assert_eq!(build_report(&spec), Err(ProtocolError::EncodingOverflow));
}

use mouse_config::{
    Action, CommandKind, DeviceDescriptor, Endpoint, Outcome, Phase, ProtocolError, Request, Run,
};

fn device() -> Endpoint {
    Endpoint {
        vendor_id: 0x1532,
        product_id: 0x00c3,
        usage: 2,
        usage_page: 1,
        interface_number: 0,
        path: b"/dev/hidraw3".to_vec(),
    }
}

fn stranger() -> Endpoint {
    Endpoint {
        vendor_id: 0x046d,
        product_id: 0xc52b,
        usage: 2,
        usage_page: 1,
        interface_number: 0,
        path: b"/dev/hidraw0".to_vec(),
    }
}

/// A transport that records what it is asked to do and fails where told to.
struct MockTransport {
    opened: Vec<usize>,
    writes: Vec<Vec<u8>>,
    fail_open: bool,
    fail_write_at: Option<usize>,
}

impl MockTransport {
    fn new() -> Self {
        MockTransport { opened: Vec::new(), writes: Vec::new(), fail_open: false, fail_write_at: None }
    }

    fn run(&mut self, endpoints: &[Endpoint], request: Request) -> Result<(), ProtocolError> {
        let descriptor = DeviceDescriptor::default();
        let (mut run, mut action) = Run::begin(endpoints, &descriptor, &request);
        for _ in 0..16 {
            let outcome = match action {
                Action::Open { endpoint } => {
                    self.opened.push(endpoint);
                    if self.fail_open {
                        Outcome::Failed
                    } else {
                        Outcome::Succeeded
                    }
                }
                Action::Write { report } => {
                    if self.fail_write_at == Some(self.writes.len()) {
                        Outcome::Failed
                    } else {
                        self.writes.push(report.as_bytes().to_vec());
                        Outcome::Succeeded
                    }
                }
                Action::Finish => {
                    assert!(run.is_over());
                    assert_eq!(run.phase(), Phase::Finished);
                    return Ok(());
                }
                Action::Abort { error } => {
                    assert!(run.is_over());
                    assert_eq!(run.phase(), Phase::Aborted { error });
                    return Err(error);
                }
            };
            action = run.step(outcome);
        }
        panic!("the run did not end");
    }
}

fn request(dpi: Option<u16>, wired_hz: Option<u16>, wireless_hz: Option<u16>) -> Request {
    Request { dpi, wired_hz, wireless_hz }
}

#[test]
fn commands_come_in_fixed_order() {
    assert_eq!(request(None, None, None).commands(), vec![]);
    assert_eq!(
        request(Some(800), Some(500), Some(4000)).commands(),
        vec![
            CommandKind::SetDpi(800),
            CommandKind::SetWiredPollingRate(500),
            CommandKind::SetWirelessPollingRate(4000),
        ]
    );
    assert_eq!(
        request(None, Some(125), None).commands(),
        vec![CommandKind::SetWiredPollingRate(125)]
    );
    assert_eq!(
        request(Some(1), None, Some(2)).commands(),
        vec![CommandKind::SetDpi(1), CommandKind::SetWirelessPollingRate(2)]
    );
}

#[test]
fn unsupported_wired_rate_is_rejected_without_a_write() {
    let mut transport = MockTransport::new();
    let result = transport.run(&[device()], request(None, Some(333), None));
    assert_eq!(result, Err(ProtocolError::InvalidParameter));
    assert_eq!(transport.writes.len(), 0);
}

#[test]
fn unsupported_wireless_rate_is_rejected_without_a_write() {
    let mut transport = MockTransport::new();
    let result = transport.run(&[device()], request(None, None, Some(3000)));
    assert_eq!(result, Err(ProtocolError::InvalidParameter));
    assert_eq!(transport.writes.len(), 0);
}

#[test]
fn commands_before_an_unsupported_one_are_written() {
    let mut transport = MockTransport::new();
    let result = transport.run(&[device()], request(Some(800), Some(333), Some(1000)));
    assert_eq!(result, Err(ProtocolError::InvalidParameter));
    assert_eq!(transport.writes.len(), 1);
    assert_eq!(&transport.writes[0][6..14], &[0x07, 0x04, 0x05, 0x01, 0x03, 0x20, 0x03, 0x20]);
}

#[test]
fn full_request_writes_three_reports_in_order() {
    let mut transport = MockTransport::new();
    let endpoints = vec![stranger(), device()];
    let result = transport.run(&endpoints, request(Some(1600), Some(1000), Some(8000)));
    assert_eq!(result, Ok(()));
    assert_eq!(transport.opened, vec![1]);
    assert_eq!(transport.writes.len(), 3);
    for report in &transport.writes {
        assert_eq!(report.len(), 91);
    }
    assert_eq!(&transport.writes[0][6..14], &[0x07, 0x04, 0x05, 0x01, 0x06, 0x40, 0x06, 0x40]);
    assert_eq!(transport.writes[0][89], 0x07);
    assert_eq!(&transport.writes[1][6..11], &[0x01, 0x00, 0x05, 0x01, 0x00]);
    assert_eq!(transport.writes[1][89], 0x05);
    assert_eq!(&transport.writes[2][6..11], &[0x02, 0x00, 0x40, 0x01, 0x01]);
    assert_eq!(transport.writes[2][89], 0x42);
}

#[test]
fn empty_request_opens_and_finishes() {
    let mut transport = MockTransport::new();
    let result = transport.run(&[device()], request(None, None, None));
    assert_eq!(result, Ok(()));
    assert_eq!(transport.opened, vec![0]);
    assert!(transport.writes.is_empty());
}

#[test]
fn missing_device_aborts_before_opening() {
    let mut transport = MockTransport::new();
    let result = transport.run(&[stranger()], request(Some(800), None, None));
    assert_eq!(result, Err(ProtocolError::DeviceNotFound));
    assert!(transport.opened.is_empty());
    assert!(transport.writes.is_empty());
    let mut transport = MockTransport::new();
    assert_eq!(
        transport.run(&[], request(Some(800), None, None)),
        Err(ProtocolError::DeviceNotFound)
    );
}

#[test]
fn failed_open_aborts_without_a_write() {
    let mut transport = MockTransport::new();
    transport.fail_open = true;
    let result = transport.run(&[device()], request(Some(800), Some(125), None));
    assert_eq!(result, Err(ProtocolError::DeviceOpenFailed));
    assert_eq!(transport.opened, vec![0]);
    assert!(transport.writes.is_empty());
}

#[test]
fn failed_write_aborts_the_rest() {
    let mut transport = MockTransport::new();
    transport.fail_write_at = Some(1);
    let result = transport.run(&[device()], request(Some(800), Some(125), Some(125)));
    assert_eq!(result, Err(ProtocolError::TransportError));
    assert_eq!(transport.writes.len(), 1);
    let mut transport = MockTransport::new();
    transport.fail_write_at = Some(0);
    let result = transport.run(&[device()], request(None, None, Some(125)));
    assert_eq!(result, Err(ProtocolError::TransportError));
    assert!(transport.writes.is_empty());
}

#[test]
fn ended_run_stays_as_it_is() {
    let endpoints = vec![device()];
    let descriptor = DeviceDescriptor::default();
    let (mut run, action) = Run::begin(&endpoints, &descriptor, &request(None, None, None));
    assert_eq!(action, Action::Open { endpoint: 0 });
    assert_eq!(run.phase(), Phase::Opening);
    assert!(!run.is_over());
    assert_eq!(run.step(Outcome::Succeeded), Action::Finish);
    assert_eq!(run.step(Outcome::Failed), Action::Finish);
    assert_eq!(run.step(Outcome::Succeeded), Action::Finish);
    assert_eq!(run.phase(), Phase::Finished);

    let (mut run, _) = Run::begin(&endpoints, &descriptor, &request(None, Some(7), None));
    let error = ProtocolError::InvalidParameter;
    assert_eq!(run.step(Outcome::Succeeded), Action::Abort { error });
    assert_eq!(run.step(Outcome::Succeeded), Action::Abort { error });
    assert_eq!(run.step(Outcome::Failed), Action::Abort { error });
    assert_eq!(run.phase(), Phase::Aborted { error });
}

#[test]
fn phases_follow_the_commands() {
    let endpoints = vec![device()];
    let descriptor = DeviceDescriptor::default();
    let (mut run, _) = Run::begin(&endpoints, &descriptor, &request(Some(400), None, Some(500)));
    assert!(matches!(run.step(Outcome::Succeeded), Action::Write { .. }));
    assert_eq!(run.phase(), Phase::Writing { index: 0 });
    assert!(matches!(run.step(Outcome::Succeeded), Action::Write { .. }));
    assert_eq!(run.phase(), Phase::Writing { index: 1 });
    assert_eq!(run.step(Outcome::Succeeded), Action::Finish);
}

use hc_12::protocol::{baud_command, mode_command, test_command};
use hc_12::rates::{BaudRate, TransmissionMode};
use hc_12::session::{AutoBaud, Command, Hc12, Hc12Error, Step};

fn open(baud: Option<BaudRate>) -> Command {
    let hc_12 = Hc12::new(baud, 0);
    let (command, _) = hc_12.command(1000);
    command
}

/// Runs rate detection against a module that answers only at `module_rate`,
/// or at no rate; returns the rates probed and the outcome.
fn detect(command: &mut Command, module_rate: Option<BaudRate>) -> (Vec<BaudRate>, Result<BaudRate, Hc12Error>) {
    let mut probed = Vec::new();
    let mut rate = BaudRate::candidate(0);
    loop {
        probed.push(rate);
        let reply: &[u8] = if Some(rate) == module_rate { b"OK\r\n" } else { b"" };
        match command.auto_baud(rate, reply) {
            Ok(AutoBaud::Found(found)) => return (probed, Ok(found)),
            Ok(AutoBaud::Probe(next)) => rate = next,
            Err(e) => return (probed, Err(e)),
        }
    }
}

#[test]
fn new_device_record() {
    let hc_12 = Hc12::new(None, 5);
    assert_eq!(hc_12.baud(), 9600);
    assert!(hc_12.mode_line_high());
    assert_eq!(hc_12.last_command_exit(), 5);
    assert_eq!(Hc12::new(Some(BaudRate::Baud4800), 5).baud(), 4800);
}

#[test]
fn quiet_wait_values() {
    let hc_12 = Hc12::new(None, 1000);
    assert_eq!(hc_12.quiet_wait(1000), 201);
    assert_eq!(hc_12.quiet_wait(1050), 151);
    assert_eq!(hc_12.quiet_wait(1200), 1);
    assert_eq!(hc_12.quiet_wait(1201), 0);
    assert_eq!(hc_12.quiet_wait(5000), 0);
    assert_eq!(hc_12.quiet_wait(10), 201);
}

#[test]
fn entry_without_wait() {
    let (command, steps) = Hc12::new(None, 0).command(1000);
    assert!(!command.device().mode_line_high());
    assert_eq!(steps.len(), 2);
    assert!(matches!(steps[0], Step::SetModeLine(false)));
    assert!(matches!(steps[1], Step::Sleep(200)));
}

#[test]
fn back_to_back_sessions_wait_out_quiet_window() {
    let command = open(None);
    let (hc_12, _) = command.close(2000);
    let (_, steps) = hc_12.command(2050);
    assert_eq!(steps.len(), 3);
    assert!(matches!(steps[0], Step::Sleep(151)));
    assert!(matches!(steps[1], Step::SetModeLine(false)));
    assert!(matches!(steps[2], Step::Sleep(200)));
}

#[test]
fn exchange_steps() {
    let command = open(None);
    let steps = command.send_command(test_command());
    assert_eq!(steps.len(), 4);
    assert!(matches!(steps[0], Step::ClearReceiveBuffer));
    match &steps[1] {
        Step::Write(bytes) => assert_eq!(bytes, &b"AT".to_vec()),
        _ => panic!("expected a write"),
    }
    assert!(matches!(steps[2], Step::Sleep(200)));
    assert!(matches!(steps[3], Step::Read(14, 200)));
}

#[test]
fn test_reply() {
    let command = open(None);
    assert_eq!(command.test(b"OK\r\n"), Ok(()));
    assert_eq!(command.test(b"OK"), Err(Hc12Error::Test));
    assert_eq!(command.test(b""), Err(Hc12Error::Test));
}

#[test]
fn auto_baud_detects_every_rate() {
    for i in 0..8 {
        let module_rate = BaudRate::candidate(i);
        let mut command = open(None);
        let (probed, outcome) = detect(&mut command, Some(module_rate));
        assert_eq!(outcome, Ok(module_rate));
        assert_eq!(probed.len(), i + 1);
        assert_eq!(command.device().baud(), module_rate.numeral());
    }
}

#[test]
fn auto_baud_fails_on_silent_module() {
    let mut command = open(Some(BaudRate::Baud2400));
    let (probed, outcome) = detect(&mut command, None);
    assert_eq!(outcome, Err(Hc12Error::AutoBaudRate));
    let expected: Vec<BaudRate> = (0..8).map(BaudRate::candidate).collect();
    assert_eq!(probed, expected);
    assert_eq!(command.device().baud(), 2400);
}

#[test]
fn set_baud_then_test() {
    let mut command = open(None);
    assert_eq!(baud_command(BaudRate::Baud38400), b"AT+B38400".to_vec());
    assert_eq!(command.set_baud(BaudRate::Baud38400, b"OK+B38400\r\n"), Ok(()));
    assert_eq!(command.device().baud(), 38400);
    assert_eq!(command.test(b"OK\r\n"), Ok(()));
}

#[test]
fn set_baud_mismatch_keeps_rate() {
    let mut command = open(None);
    assert_eq!(command.set_baud(BaudRate::Baud38400, b"OK+B19200\r\n"), Err(Hc12Error::BaudRate));
    assert_eq!(command.device().baud(), 9600);
}

#[test]
fn fu3_reply_forces_rate() {
    let mut command = open(Some(BaudRate::Baud19200));
    assert_eq!(mode_command(TransmissionMode::Fu3), b"AT+FU3".to_vec());
    assert_eq!(command.set_transmission_mode(TransmissionMode::Fu3, b"OK+FU3,B9600\r\n"), Ok(()));
    assert_eq!(command.device().baud(), 9600);
}

#[test]
fn fu1_reply_keeps_rate() {
    let mut command = open(Some(BaudRate::Baud19200));
    assert_eq!(command.set_transmission_mode(TransmissionMode::Fu1, b"OK+FU1\r\n"), Ok(()));
    assert_eq!(command.device().baud(), 19200);
}

#[test]
fn mode_reply_without_marker_fails() {
    let mut command = open(Some(BaudRate::Baud19200));
    assert_eq!(
        command.set_transmission_mode(TransmissionMode::Fu2, b"OK+FU3,B9600\r\n"),
        Err(Hc12Error::TransmissionMode)
    );
    assert_eq!(command.device().baud(), 19200);
}

#[test]
fn factory_reset_reply() {
    let command = open(Some(BaudRate::Baud1200));
    assert_eq!(command.set_default(b"OK+DEFAULT\r\n"), Ok(()));
    assert_eq!(command.set_default(b"ERROR\r\n"), Err(Hc12Error::Default));
    assert_eq!(command.device().baud(), 1200);
}

#[test]
fn close_after_failure_restores_mode_line() {
    let mut command = open(None);
    assert!(!command.device().mode_line_high());
    assert_eq!(command.set_baud(BaudRate::Baud1200, b"ERR"), Err(Hc12Error::BaudRate));
    let (hc_12, steps) = command.close(7000);
    assert!(hc_12.mode_line_high());
    assert_eq!(hc_12.last_command_exit(), 7000);
    assert_eq!(hc_12.baud(), 9600);
    assert_eq!(steps.len(), 1);
    assert!(matches!(steps[0], Step::SetModeLine(true)));
}

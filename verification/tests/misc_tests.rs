use comchat::batch::{batch_after_read, batch_command, batch_port_config, frame_command, plan_batch, BatchStep};
use comchat::cli::Cli;
use comchat::connections::PortRegistry;
use comchat::error::AppError;
use comchat::logging::LogHandles;
use comchat::config::AppConfig;
use comchat::model::AppEvent;
use comchat::selector::{baud_down, baud_up, flow_control_cycle, parity_cycle, stop_bits_cycle};
use comchat::model::{FlowControl, Parity, StopBits};
use comchat::serial::{
    data_bits_setting, open_failure, worker_after_read, worker_on_command, write_failure, CommandAction,
    DataBitsSetting, ReadOutcome, SerialCommand,
};
use comchat::text::{decimal_string, str_eq};

fn cli(batch: Option<&str>, port: Option<&str>, delay: Option<u64>) -> Cli {
    Cli { batch: batch.map(String::from), port: port.map(String::from), baud: 115_200, delay_ms: delay }
}

#[test]
fn batch_plan_errors_and_defaults() {
    match plan_batch(&cli(None, Some("COM1"), None)) {
        Err(AppError::Other(m)) => assert_eq!(m, "batch file path is required"),
        _ => panic!(),
    }
    match plan_batch(&cli(Some("cmds.txt"), None, None)) {
        Err(AppError::Other(m)) => assert_eq!(m, "serial port is required for batch mode (--port)"),
        _ => panic!(),
    }
    match plan_batch(&cli(Some("cmds.txt"), Some("COM1"), None)) {
        Ok(p) => {
            assert_eq!(p.batch_file, "cmds.txt");
            assert_eq!(p.port_name, "COM1");
            assert_eq!(p.baud, 115_200);
            assert_eq!(p.delay_ms, 0);
        }
        Err(_) => panic!(),
    }
    match plan_batch(&cli(Some("c"), Some("p"), Some(200))) {
        Ok(p) => {
            assert_eq!(p.delay_ms, 200);
            let c = batch_port_config(&p);
            assert_eq!(c.port_name, "p");
            assert_eq!(c.baud_rate, 115_200);
            assert_eq!(c.data_bits, 8);
            assert_eq!(c.stop_bits, StopBits::One);
            assert_eq!(c.parity, Parity::NoParity);
            assert_eq!(c.flow_control, FlowControl::NoFlow);
            assert_eq!(c.timeout_ms, 200);
        }
        Err(_) => panic!(),
    }
}

#[test]
fn batch_lines_are_framed_with_crlf() {
    assert_eq!(frame_command("AT"), b"AT\r\n".to_vec());
    assert_eq!(frame_command("é"), vec![0xc3, 0xa9, b'\r', b'\n']);
    assert!(batch_command("").is_none());
    let c = batch_command("status").unwrap();
    assert_eq!(c.text, "status");
    assert_eq!(c.bytes, b"status\r\n".to_vec());
}

#[test]
fn batch_read_steps() {
    match batch_after_read(ReadOutcome::Data(b"hi".to_vec())) {
        BatchStep::Response(t) => assert_eq!(t, "hi"),
        _ => panic!(),
    }
    match batch_after_read(ReadOutcome::Data(vec![0xff])) {
        BatchStep::Response(t) => assert_eq!(t, "\u{FFFD}"),
        _ => panic!(),
    }
    assert!(matches!(batch_after_read(ReadOutcome::Data(Vec::new())), BatchStep::Continue));
    assert!(matches!(batch_after_read(ReadOutcome::TimedOut), BatchStep::Finished));
    match batch_after_read(ReadOutcome::Failed("broken pipe".into())) {
        BatchStep::Fail(AppError::Serial(m)) => assert_eq!(m, "read error: broken pipe"),
        _ => panic!(),
    }
}

#[test]
fn worker_steps() {
    let s = worker_after_read(4, ReadOutcome::Data(b"x".to_vec()));
    assert!(s.keep_running);
    assert!(matches!(&s.events[..], [AppEvent::SerialData { port_id: 4, data }] if data == b"x"));
    let s = worker_after_read(4, ReadOutcome::Data(Vec::new()));
    assert!(s.keep_running && s.events.is_empty());
    let s = worker_after_read(4, ReadOutcome::TimedOut);
    assert!(s.keep_running && s.events.is_empty());
    let s = worker_after_read(4, ReadOutcome::Failed("gone".into()));
    assert!(!s.keep_running);
    assert!(matches!(&s.events[0], AppEvent::SerialError { port_id: 4, error } if error == "read error: gone"));
    assert!(matches!(&s.events[1], AppEvent::PortClosed { port_id: 4 }));
    assert!(matches!(worker_on_command(4, SerialCommand::Close), CommandAction::Stop(AppEvent::PortClosed { port_id: 4 })));
    assert!(matches!(worker_on_command(4, SerialCommand::Write(vec![1])), CommandAction::Write(d) if d == vec![1]));
    assert!(matches!(write_failure(4, "busy"), AppEvent::SerialError { port_id: 4, error } if error == "write error: busy"));
}

#[test]
fn data_bits_mapping() {
    assert_eq!(data_bits_setting(5), DataBitsSetting::Five);
    assert_eq!(data_bits_setting(6), DataBitsSetting::Six);
    assert_eq!(data_bits_setting(7), DataBitsSetting::Seven);
    assert_eq!(data_bits_setting(8), DataBitsSetting::Eight);
    assert_eq!(data_bits_setting(9), DataBitsSetting::Eight);
}

#[test]
fn open_failure_message() {
    match open_failure("COM3", "Access denied") {
        AppError::Serial(m) => assert_eq!(m, "Failed to open COM3: Access denied"),
        _ => panic!(),
    }
}

#[test]
fn registry_ids_and_errors() {
    let mut r: PortRegistry<&str> = PortRegistry::new();
    let a = r.reserve_id();
    let b = r.reserve_id();
    assert_eq!((a, b), (1, 2));
    r.insert(a, "first");
    assert_eq!(*r.get(a).unwrap(), "first");
    match r.get(b) {
        Err(AppError::Serial(m)) => assert_eq!(m, "Port 2 not found"),
        _ => panic!(),
    }
    assert_eq!(r.remove(a).unwrap(), "first");
    match r.remove(a) {
        Err(AppError::Serial(m)) => assert_eq!(m, "Port 1 not found"),
        _ => panic!(),
    }
    assert_eq!(r.reserve_id(), 3);
}

#[test]
fn settings_cycles() {
    let mut b = 9600;
    let mut seen = Vec::new();
    for _ in 0..6 {
        b = baud_up(b);
        seen.push(b);
    }
    assert_eq!(seen, vec![19200, 38400, 57600, 115200, 230400, 9600]);
    assert_eq!(baud_down(9600), 230400);
    assert_eq!(baud_down(115200), 57600);
    assert_eq!(baud_up(4800), 9600);
    assert_eq!(baud_down(460800), 230400);
    assert_eq!(parity_cycle(Parity::NoParity), Parity::Even);
    assert_eq!(parity_cycle(Parity::Odd), Parity::NoParity);
    assert_eq!(stop_bits_cycle(StopBits::Two), StopBits::One);
    assert_eq!(flow_control_cycle(FlowControl::Software), FlowControl::NoFlow);
}

#[test]
fn text_helpers() {
    assert_eq!(decimal_string(0), "0");
    assert_eq!(decimal_string(115200), "115200");
    assert_eq!(decimal_string(u64::MAX), "18446744073709551615");
    assert!(str_eq("abc", "abc"));
    assert!(!str_eq("abc", "abd"));
    assert!(!str_eq("ab", "abc"));
}

#[test]
fn log_routing() {
    let off = LogHandles::new(None, None);
    assert!(off.log_command("x").is_none());
    assert!(off.log_response("x").is_none());
    let mut cfg = AppConfig::default();
    let l = LogHandles::for_config(&cfg, Some("/cfg"));
    let c = l.log_command("hi").unwrap();
    assert!(c.path.ends_with("commands.log"));
    assert!(c.path.starts_with("/cfg"));
    assert!(c.path.contains("logs"));
    assert_eq!(c.text, "hi\n");
    cfg.default_log_dir = Some("/var/log/cc".into());
    let l = LogHandles::for_config(&cfg, Some("/cfg"));
    let r = l.log_response("ok").unwrap();
    assert!(r.path.starts_with("/var/log/cc"));
    assert!(r.path.ends_with("responses.log"));
}

#[test]
fn centered_rect_takes_middle_share() {
    assert_eq!(comchat::layout::centered_rect(60, 60, (0, 0, 100, 100)), (20, 20, 60, 60));
    assert_eq!(comchat::layout::centered_rect(100, 100, (3, 4, 50, 20)), (3, 4, 50, 20));
    assert_eq!(comchat::layout::centered_rect(50, 50, (0, 0, 80, 40)), (20, 10, 40, 20));
}

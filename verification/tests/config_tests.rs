use comchat::config::{config_dir_from, config_file_path, AppConfig, PortProfile};
use comchat::error::AppError;
use comchat::model::{FlowControl, Parity, SerialConfig, StopBits};

fn profile(port: &str, baud: u32) -> PortProfile {
    let mut p = PortProfile::default();
    p.port_name = port.to_string();
    p.baud_rate = baud;
    p
}

#[test]
fn port_profile_default_values() {
    let p = PortProfile::default();
    assert_eq!(p.name, "Default");
    assert_eq!(p.port_name, "");
    assert_eq!(p.baud_rate, 115_200);
    assert_eq!(p.data_bits, 8);
    assert_eq!(p.stop_bits, StopBits::One);
    assert_eq!(p.parity, Parity::NoParity);
    assert_eq!(p.flow_control, FlowControl::NoFlow);
    assert_eq!(p.timeout_ms, 100);
    assert!(!p.echo);
    assert!(p.commands_log_path.is_none());
}

#[test]
fn upsert_adds_then_replaces() {
    let mut cfg = AppConfig::default();
    cfg.upsert_profile(profile("COM1", 9600));
    cfg.upsert_profile(profile("COM2", 19200));
    assert_eq!(cfg.profiles.len(), 2);
    cfg.upsert_profile(profile("COM1", 57600));
    assert_eq!(cfg.profiles.len(), 2);
    assert_eq!(cfg.profiles[0].port_name, "COM1");
    assert_eq!(cfg.profiles[0].baud_rate, 57600);
    assert_eq!(cfg.profile_for_port("COM1").map(|p| p.baud_rate), Some(57600));
    assert_eq!(cfg.profile_for_port("COM2").map(|p| p.baud_rate), Some(19200));
    assert!(cfg.profile_for_port("COM3").is_none());
}

#[test]
fn lookup_finds_first_profile() {
    let mut cfg = AppConfig::default();
    cfg.profiles.push(profile("X", 1));
    cfg.profiles.push(profile("X", 2));
    assert_eq!(cfg.profile_for_port("X").map(|p| p.baud_rate), Some(1));
    cfg.upsert_profile(profile("X", 3));
    assert_eq!(cfg.profiles[0].baud_rate, 3);
    assert_eq!(cfg.profiles[1].baud_rate, 2);
}

#[test]
fn profile_from_config_copies_settings() {
    let mut c = SerialConfig::default();
    c.port_name = "/dev/ttyUSB0".to_string();
    c.baud_rate = 9600;
    c.parity = Parity::Even;
    let p = PortProfile::from_config(&c);
    assert_eq!(p.name, "/dev/ttyUSB0");
    assert_eq!(p.port_name, "/dev/ttyUSB0");
    assert_eq!(p.baud_rate, 9600);
    assert_eq!(p.parity, Parity::Even);
}

#[test]
fn serial_config_default_values() {
    let c = SerialConfig::default();
    assert_eq!(c.baud_rate, 115_200);
    assert_eq!(c.data_bits, 8);
    assert_eq!(c.timeout_ms, 100);
    assert!(!c.echo);
    assert!(c.profile_name.is_none());
}

#[test]
fn config_dir_choice() {
    match config_dir_from(Some("/custom".to_string()), Some("/home/u/.config".to_string())) {
        Ok(d) => assert_eq!(d, "/custom"),
        Err(_) => panic!("override must win"),
    }
    match config_dir_from(None, Some("/home/u/.config".to_string())) {
        Ok(d) => {
            assert!(d.ends_with("comchat"));
            assert!(d.starts_with("/home/u/.config"));
        }
        Err(_) => panic!("platform directory must be used"),
    }
    match config_dir_from(None, None) {
        Err(AppError::Config(m)) => assert_eq!(m, "could not determine config directory"),
        _ => panic!("expected a configuration error"),
    }
}

#[test]
fn config_file_path_names_toml() {
    let p = config_file_path("/tmp/comchat");
    assert!(p.ends_with("config.toml"));
    assert_ne!(p, "config.toml");
}

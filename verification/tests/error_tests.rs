use synchrosonic::error::{
    AppError, AudioError, ConfigError, DiscoveryError, IoErrorKind, IoFailure, ReceiverError, TransportError,
};

fn io(message: &str) -> IoFailure {
    IoFailure { kind: IoErrorKind::NotFound, message: message.to_string() }
}

#[test]
fn config_errors_name_the_path_and_cause() {
    let read = ConfigError::Read { path: "/etc/s.toml".to_string(), source: io("No such file or directory (os error 2)") };
    assert_eq!(read.to_string(), "failed to read config at /etc/s.toml: No such file or directory (os error 2)");
    let version = ConfigError::UnsupportedVersion { path: "/etc/s.toml".to_string(), found: 9, supported: 1 };
    assert_eq!(
        version.to_string(),
        "config at /etc/s.toml uses schema version 9, but this build supports up to 1"
    );
    assert_eq!(ConfigError::Serialize("bad key".to_string()).to_string(), "failed to serialize config: bad key");
}

#[test]
fn audio_and_transport_errors_read_like_their_cause() {
    let failed = AudioError::CommandFailed { command: "pw-dump".to_string(), stderr: "not found".to_string() };
    assert_eq!(failed.to_string(), "audio command `pw-dump` failed: not found");
    assert_eq!(AudioError::CaptureEnded.to_string(), "capture stream ended");
    let connect = TransportError::Connect { address: "10.0.0.7:51700".to_string(), source: io("refused") };
    assert_eq!(connect.to_string(), "failed to connect to receiver at 10.0.0.7:51700: refused");
    assert_eq!(TransportError::Audio(AudioError::CaptureEnded).to_string(), "capture stream ended");
    assert_eq!(TransportError::NotRunning.to_string(), "transport is not running");
}

#[test]
fn discovery_receiver_and_app_errors_read_like_their_cause() {
    assert_eq!(DiscoveryError::Browse("no socket".to_string()).to_string(), "failed to browse mDNS service: no socket");
    assert_eq!(ReceiverError::NotStarted.to_string(), "receiver runtime is not started");
    assert_eq!(
        AppError::Receiver(ReceiverError::Disabled("config".to_string())).to_string(),
        "receiver is disabled: config"
    );
}

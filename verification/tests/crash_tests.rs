use synchrosonic::crash::{
    crash_report_file_name, format_logs, panic_captured_message, recovered_session_summary,
    render_abnormal_termination_report, render_panic_report, CrashReportContext, PanicDetails, SessionMarker,
};
use synchrosonic::logging::StructuredLogEntry;

fn marker() -> SessionMarker {
    SessionMarker {
        app_version: "0.4.0".to_string(),
        release_channel: "Stable".to_string(),
        pid: 4242,
        started_at_unix_ms: 1_700_000_000_000,
        os: "linux".to_string(),
        kernel: "6.8.0".to_string(),
        config_path: "/home/a/.config/synchrosonic/config.toml".to_string(),
        state_path: "/home/a/.local/state/synchrosonic".to_string(),
    }
}

fn context() -> CrashReportContext {
    CrashReportContext {
        generated_unix_ms: 1_700_000_500_000,
        app_version: "0.4.0".to_string(),
        authors: "Ada Lovelace:Grace Hopper".to_string(),
        repository: "https://example.invalid/synchrosonic".to_string(),
    }
}

fn entry(fields: Vec<(String, String)>) -> StructuredLogEntry {
    StructuredLogEntry {
        timestamp_unix_ms: 12,
        level: "INFO".to_string(),
        target: "synchrosonic::receiver".to_string(),
        message: "listening".to_string(),
        fields,
        file: None,
        line: None,
    }
}

#[test]
fn recovered_summary_names_the_previous_process() {
    assert_eq!(
        recovered_session_summary(&Some(marker())),
        "Recovered stale session marker from PID 4242 started at 1700000000000."
    );
    assert_eq!(
        recovered_session_summary(&None),
        "Recovered a stale session marker, but its contents were unreadable."
    );
}

#[test]
fn logs_are_listed_one_per_line_with_encoded_fields() {
    assert_eq!(format_logs(&[], &[]), "(no structured logs were available)");
    let logs = vec![entry(Vec::new()), entry(vec![("port".to_string(), "51700".to_string())])];
    let fields = vec!["{}".to_string(), "{\"port\":\"51700\"}".to_string()];
    assert_eq!(
        format_logs(&logs, &fields),
        "- 12 INFO synchrosonic::receiver listening \n- 12 INFO synchrosonic::receiver listening {\"port\":\"51700\"}"
    );
}

#[test]
fn abnormal_termination_report_has_every_section() {
    let report = render_abnormal_termination_report(
        &context(),
        "linux",
        "x86_64",
        &Some(marker()),
        "{\"snapshot\":1}",
        "{\"config\":2}",
        "(no structured logs were available)",
    );
    assert_eq!(
        report,
        "SynchroSonic abnormal termination recovered\nGenerated: 1700000500000\nApp version: 0.4.0 (Stable release)\nDeveloper / Maintainer: Ada Lovelace, Grace Hopper\nRepository: https://example.invalid/synchrosonic\nIssues: https://github.com/UdayaSri0/AudioShare/issues\nBuild target: linux / x86_64\n\nPrevious session\n  PID: 4242\n  Started: 1700000000000\n  OS: linux\n  Kernel: 6.8.0\n  Config path: /home/a/.config/synchrosonic/config.toml\n  State path: /home/a/.local/state/synchrosonic\n\nLast known subsystem snapshot\n{\"snapshot\":1}\n\nSafe config summary\n{\"config\":2}\n\nRecent structured logs\n(no structured logs were available)"
    );
    let unreadable = render_abnormal_termination_report(&context(), "linux", "x86_64", &None, "{}", "{}", "");
    assert!(unreadable.contains(
        "\n\nPrevious session\n  Marker contents were unreadable, but the session did not close cleanly.\n\nLast known subsystem snapshot\n"
    ));
}

#[test]
fn panic_report_has_every_section() {
    let details = PanicDetails {
        thread_name: "main".to_string(),
        location: "src/main.rs:10".to_string(),
        message: "boom".to_string(),
        backtrace: "disabled backtrace".to_string(),
    };
    let report = render_panic_report(&context(), &details, "{}", "{}", "logs");
    assert_eq!(
        report,
        "SynchroSonic panic report\nGenerated: 1700000500000\nApp version: 0.4.0 (Stable release)\nDeveloper / Maintainer: Ada Lovelace, Grace Hopper\nRepository: https://example.invalid/synchrosonic\nIssues: https://github.com/UdayaSri0/AudioShare/issues\nThread: main\nLocation: src/main.rs:10\nMessage: boom\nBacktrace:\ndisabled backtrace\n\nRecent subsystem snapshot\n{}\n\nSafe config summary\n{}\n\nRecent structured logs\nlogs"
    );
}

#[test]
fn crash_report_names_and_messages() {
    assert_eq!(crash_report_file_name(1_700_000_123_456, "panic"), "crash-report-1700000123-panic.txt");
    assert_eq!(
        panic_captured_message("worker", "/tmp/crash-report-1-panic.txt"),
        "A panic was captured on thread worker; crash report written to /tmp/crash-report-1-panic.txt."
    );
}

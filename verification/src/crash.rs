//! Crash reports: the marker a running session leaves behind, the report
//! written when a previous session ended without removing it, and the
//! report written when a panic is caught.

use vstd::prelude::*;
use crate::logging::{StructuredLogEntry, StructuredLogEntryView};
use crate::metadata::{APP_BUG_TRACKER, authors_display, colon_pieces, join_nonblank, release_channel_label, release_label};
use crate::report::joined;
use crate::text::{append_decimal, append_str, decimal};

verus! {

/// What a running session records about itself, removed on a clean exit.
#[derive(Debug, Clone, PartialEq, Eq)]
pub struct SessionMarker {
    pub app_version: String,
    pub release_channel: String,
    pub pid: u32,
    pub started_at_unix_ms: u64,
    pub os: String,
    pub kernel: String,
    pub config_path: String,
    pub state_path: String,
}

pub struct SessionMarkerView {
    pub app_version: Seq<char>,
    pub release_channel: Seq<char>,
    pub pid: u32,
    pub started_at_unix_ms: u64,
    pub os: Seq<char>,
    pub kernel: Seq<char>,
    pub config_path: Seq<char>,
    pub state_path: Seq<char>,
}

impl View for SessionMarker {
    type V = SessionMarkerView;

    open spec fn view(&self) -> SessionMarkerView {
        SessionMarkerView {
            app_version: self.app_version@,
            release_channel: self.release_channel@,
            pid: self.pid,
            started_at_unix_ms: self.started_at_unix_ms,
            os: self.os@,
            kernel: self.kernel@,
            config_path: self.config_path@,
            state_path: self.state_path@,
        }
    }
}

pub open spec fn opt_marker_view(m: Option<SessionMarker>) -> Option<SessionMarkerView> {
    match m {
        Some(m) => Some(m@),
        None => None,
    }
}

/// When a report was written and by which build.
pub struct CrashReportContext {
    pub generated_unix_ms: u64,
    pub app_version: String,
    pub authors: String,
    pub repository: String,
}

/// The report's block about the previous session: its process, start,
/// host and paths, or a note that the marker could not be read.
pub open spec fn previous_session_text(marker: Option<SessionMarkerView>) -> Seq<char> {
    match marker {
        Some(m) => "Previous session\n  PID: "@ + decimal(m.pid as nat) + "\n  Started: "@
            + decimal(m.started_at_unix_ms as nat) + "\n  OS: "@ + m.os + "\n  Kernel: "@ + m.kernel
            + "\n  Config path: "@ + m.config_path + "\n  State path: "@ + m.state_path + "\n"@,
        None => "Previous session\n  Marker contents were unreadable, but the session did not close cleanly.\n"@,
    }
}

fn append_previous_session(out: &mut String, marker: &Option<SessionMarker>)
    ensures
        final(out)@ == old(out)@ + previous_session_text(opt_marker_view(*marker)),
{
    match marker {
        Some(m) => {
            append_str(out, "Previous session\n  PID: ");
            append_decimal(out, m.pid as u64);
            append_str(out, "\n  Started: ");
            append_decimal(out, m.started_at_unix_ms);
            append_str(out, "\n  OS: ");
            append_str(out, m.os.as_str());
            append_str(out, "\n  Kernel: ");
            append_str(out, m.kernel.as_str());
            append_str(out, "\n  Config path: ");
            append_str(out, m.config_path.as_str());
            append_str(out, "\n  State path: ");
            append_str(out, m.state_path.as_str());
            append_str(out, "\n");
            assert(out@ =~= old(out)@ + previous_session_text(opt_marker_view(*marker)));
        },
        None => {
            append_str(
                out,
                "Previous session\n  Marker contents were unreadable, but the session did not close cleanly.\n",
            );
        },
    }
}

/// The one-line summary of a recovered session.
pub open spec fn recovered_summary_text(marker: Option<SessionMarkerView>) -> Seq<char> {
    match marker {
        Some(m) => "Recovered stale session marker from PID "@ + decimal(m.pid as nat) + " started at "@
            + decimal(m.started_at_unix_ms as nat) + "."@,
        None => "Recovered a stale session marker, but its contents were unreadable."@,
    }
}

/// The one-line summary of a recovered session.
pub fn recovered_session_summary(marker: &Option<SessionMarker>) -> (r: String)
    ensures
        r@ == recovered_summary_text(opt_marker_view(*marker)),
{
    match marker {
        Some(m) => {
            let mut out = "Recovered stale session marker from PID ".to_owned();
            append_decimal(&mut out, m.pid as u64);
            append_str(&mut out, " started at ");
            append_decimal(&mut out, m.started_at_unix_ms);
            append_str(&mut out, ".");
            assert(out@ =~= recovered_summary_text(opt_marker_view(*marker)));
            out
        },
        None => "Recovered a stale session marker, but its contents were unreadable.".to_owned(),
    }
}

/// One log line: `- time level target message fields`, the fields as
/// already encoded (nothing when the entry has none).
pub open spec fn log_line(e: StructuredLogEntryView, fields_text: Seq<char>) -> Seq<char> {
    "- "@ + decimal(e.timestamp_unix_ms as nat) + " "@ + e.level + " "@ + e.target + " "@ + e.message + " "@
        + (if e.fields.len() == 0 { Seq::<char>::empty() } else { fields_text })
}

pub open spec fn log_lines(logs: Seq<StructuredLogEntryView>, fields_texts: Seq<Seq<char>>) -> Seq<Seq<char>> {
    Seq::new(logs.len(), |i: int| log_line(logs[i], fields_texts[i]))
}

/// The logs one per line, or a note that there were none.
pub open spec fn logs_text(logs: Seq<StructuredLogEntryView>, fields_texts: Seq<Seq<char>>) -> Seq<char> {
    if logs.len() == 0 {
        "(no structured logs were available)"@
    } else {
        joined(log_lines(logs, fields_texts), "\n"@)
    }
}

pub open spec fn log_views(s: Seq<StructuredLogEntry>) -> Seq<StructuredLogEntryView> {
    s.map_values(|e: StructuredLogEntry| e@)
}

pub open spec fn string_views(s: Seq<String>) -> Seq<Seq<char>> {
    s.map_values(|t: String| t@)
}

/// The logs of a crash report; `fields_json[i]` is the encoded field map
/// of `logs[i]`.
pub fn format_logs(logs: &[StructuredLogEntry], fields_json: &[String]) -> (r: String)
    requires
        fields_json@.len() == logs@.len(),
    ensures
        r@ == logs_text(log_views(logs@), string_views(fields_json@)),
{
    proof {
        reveal_strlit("(no structured logs were available)");
        reveal_strlit("\n");
    }
    if logs.len() == 0 {
        return "(no structured logs were available)".to_owned();
    }
    let ghost lines = log_lines(log_views(logs@), string_views(fields_json@));
    let mut out = String::new();
    let mut i: usize = 0;
    while i < logs.len()
        invariant
            1 <= logs@.len(),
            i <= logs@.len(),
            fields_json@.len() == logs@.len(),
            lines == log_lines(log_views(logs@), string_views(fields_json@)),
            out@ == joined(lines.subrange(0, i as int), "\n"@),
        decreases logs@.len() - i,
    {
        if i > 0 {
            append_str(&mut out, "\n");
        }
        let ghost before = out@;
        let entry = &logs[i];
        append_str(&mut out, "- ");
        append_decimal(&mut out, entry.timestamp_unix_ms);
        append_str(&mut out, " ");
        append_str(&mut out, entry.level.as_str());
        append_str(&mut out, " ");
        append_str(&mut out, entry.target.as_str());
        append_str(&mut out, " ");
        append_str(&mut out, entry.message.as_str());
        append_str(&mut out, " ");
        if entry.fields.len() > 0 {
            append_str(&mut out, fields_json[i].as_str());
        }
        proof {
            assert(entry@.fields.len() == entry.fields@.len());
            assert(out@ =~= before + log_line(entry@, fields_json@[i as int]@));
            let prev = lines.subrange(0, i as int);
            let next = lines.subrange(0, i + 1);
            assert(next.drop_last() =~= prev);
            assert(next.last() == log_line(entry@, fields_json@[i as int]@));
            if i == 0 {
                assert(joined(prev, "\n"@) =~= Seq::<char>::empty());
            }
        }
        i = i + 1;
    }
    assert(lines.subrange(0, logs@.len() as int) =~= lines);
    out
}

/// `Generated`, version with release channel, maintainers, repository
/// and issue tracker lines shared by both reports.
pub open spec fn report_provenance(c: CrashReportContext) -> Seq<char> {
    "Generated: "@ + decimal(c.generated_unix_ms as nat) + "\nApp version: "@ + c.app_version@ + " ("@
        + release_label(c.app_version@) + ")\nDeveloper / Maintainer: "@ + join_nonblank(colon_pieces(c.authors@))
        + "\nRepository: "@ + c.repository@ + "\nIssues: "@ + APP_BUG_TRACKER@ + "\n"@
}

fn append_provenance(out: &mut String, c: &CrashReportContext)
    ensures
        final(out)@ == old(out)@ + report_provenance(*c),
{
    append_str(out, "Generated: ");
    append_decimal(out, c.generated_unix_ms);
    append_str(out, "\nApp version: ");
    append_str(out, c.app_version.as_str());
    append_str(out, " (");
    append_str(out, release_channel_label(c.app_version.as_str()));
    append_str(out, ")\nDeveloper / Maintainer: ");
    let authors = authors_display(c.authors.as_str());
    append_str(out, authors.as_str());
    append_str(out, "\nRepository: ");
    append_str(out, c.repository.as_str());
    append_str(out, "\nIssues: ");
    append_str(out, APP_BUG_TRACKER);
    append_str(out, "\n");
    assert(out@ =~= old(out)@ + report_provenance(*c));
}

/// The snapshot, configuration summary and log sections closing a report.
pub open spec fn report_sections(
    snapshot_title: Seq<char>,
    snapshot_json: Seq<char>,
    config_json: Seq<char>,
    logs: Seq<char>,
) -> Seq<char> {
    snapshot_title + "\n"@ + snapshot_json + "\n\nSafe config summary\n"@ + config_json + "\n\nRecent structured logs\n"@
        + logs
}

fn append_sections(out: &mut String, snapshot_title: &str, snapshot_json: &str, config_json: &str, logs: &str)
    ensures
        final(out)@ == old(out)@ + report_sections(snapshot_title@, snapshot_json@, config_json@, logs@),
{
    append_str(out, snapshot_title);
    append_str(out, "\n");
    append_str(out, snapshot_json);
    append_str(out, "\n\nSafe config summary\n");
    append_str(out, config_json);
    append_str(out, "\n\nRecent structured logs\n");
    append_str(out, logs);
    assert(out@ =~= old(out)@ + report_sections(snapshot_title@, snapshot_json@, config_json@, logs@));
}

/// The report for a session that ended without removing its marker.
pub open spec fn abnormal_report_text(
    c: CrashReportContext,
    build_os: Seq<char>,
    build_arch: Seq<char>,
    marker: Option<SessionMarkerView>,
    snapshot_json: Seq<char>,
    config_json: Seq<char>,
    logs: Seq<char>,
) -> Seq<char> {
    "SynchroSonic abnormal termination recovered\n"@ + report_provenance(c) + "Build target: "@ + build_os + " / "@
        + build_arch + "\n\n"@ + previous_session_text(marker) + "\n"@
        + report_sections("Last known subsystem snapshot"@, snapshot_json, config_json, logs)
}

/// The report for a session that ended without removing its marker;
/// `snapshot_json` and `config_json` are the encoded snapshot and
/// configuration summary, `logs` the formatted logs.
#[verifier::spinoff_prover]
pub fn render_abnormal_termination_report(
    context: &CrashReportContext,
    build_os: &str,
    build_arch: &str,
    marker: &Option<SessionMarker>,
    snapshot_json: &str,
    config_json: &str,
    logs: &str,
) -> (r: String)
    ensures
        r@ == abnormal_report_text(
            *context,
            build_os@,
            build_arch@,
            opt_marker_view(*marker),
            snapshot_json@,
            config_json@,
            logs@,
        ),
{
    let mut out = "SynchroSonic abnormal termination recovered\n".to_owned();
    append_provenance(&mut out, context);
    append_str(&mut out, "Build target: ");
    append_str(&mut out, build_os);
    append_str(&mut out, " / ");
    append_str(&mut out, build_arch);
    append_str(&mut out, "\n\n");
    append_previous_session(&mut out, marker);
    append_str(&mut out, "\n");
    append_sections(&mut out, "Last known subsystem snapshot", snapshot_json, config_json, logs);
    proof {
        reveal_strlit("Last known subsystem snapshot");
    }
    assert(out@ =~= abnormal_report_text(
        *context,
        build_os@,
        build_arch@,
        opt_marker_view(*marker),
        snapshot_json@,
        config_json@,
        logs@,
    ));
    out
}

/// Where and how a panic happened.
pub struct PanicDetails {
    pub thread_name: String,
    pub location: String,
    pub message: String,
    pub backtrace: String,
}

/// The report for a caught panic.
pub open spec fn panic_report_text(
    c: CrashReportContext,
    p: PanicDetails,
    snapshot_json: Seq<char>,
    config_json: Seq<char>,
    logs: Seq<char>,
) -> Seq<char> {
    "SynchroSonic panic report\n"@ + report_provenance(c) + "Thread: "@ + p.thread_name@ + "\nLocation: "@
        + p.location@ + "\nMessage: "@ + p.message@ + "\nBacktrace:\n"@ + p.backtrace@ + "\n\n"@
        + report_sections("Recent subsystem snapshot"@, snapshot_json, config_json, logs)
}

/// The report for a caught panic; the sections are as for
/// `render_abnormal_termination_report`.
#[verifier::spinoff_prover]
pub fn render_panic_report(
    context: &CrashReportContext,
    panic: &PanicDetails,
    snapshot_json: &str,
    config_json: &str,
    logs: &str,
) -> (r: String)
    ensures
        r@ == panic_report_text(*context, *panic, snapshot_json@, config_json@, logs@),
{
    let mut out = "SynchroSonic panic report\n".to_owned();
    append_provenance(&mut out, context);
    append_str(&mut out, "Thread: ");
    append_str(&mut out, panic.thread_name.as_str());
    append_str(&mut out, "\nLocation: ");
    append_str(&mut out, panic.location.as_str());
    append_str(&mut out, "\nMessage: ");
    append_str(&mut out, panic.message.as_str());
    append_str(&mut out, "\nBacktrace:\n");
    append_str(&mut out, panic.backtrace.as_str());
    append_str(&mut out, "\n\n");
    append_sections(&mut out, "Recent subsystem snapshot", snapshot_json, config_json, logs);
    proof {
        reveal_strlit("Recent subsystem snapshot");
    }
    assert(out@ =~= panic_report_text(*context, *panic, snapshot_json@, config_json@, logs@));
    out
}

/// `crash-report-<seconds>-<kind>.txt`.
pub fn crash_report_file_name(now_unix_ms: u64, kind: &str) -> (r: String)
    ensures
        r@ == "crash-report-"@ + decimal((now_unix_ms / 1000) as nat) + "-"@ + kind@ + ".txt"@,
{
    let mut out = "crash-report-".to_owned();
    append_decimal(&mut out, now_unix_ms / 1000);
    append_str(&mut out, "-");
    append_str(&mut out, kind);
    append_str(&mut out, ".txt");
    out
}

/// The diagnostic recorded when a panic was caught and reported.
pub fn panic_captured_message(thread_name: &str, report_path: &str) -> (r: String)
    ensures
        r@ == "A panic was captured on thread "@ + thread_name@ + "; crash report written to "@ + report_path@ + "."@,
{
    let mut out = "A panic was captured on thread ".to_owned();
    append_str(&mut out, thread_name);
    append_str(&mut out, "; crash report written to ");
    append_str(&mut out, report_path);
    append_str(&mut out, ".");
    out
}

} // verus!

//! Timestamped diagnostic events shown to the user.

use vstd::prelude::*;

verus! {

#[derive(Debug, Clone, Copy, PartialEq, Eq, Structural)]
pub enum DiagnosticLevel {
    Info,
    Warning,
    Error,
}

#[derive(Debug, Clone, PartialEq, Eq)]
pub struct DiagnosticEvent {
    pub timestamp_unix_ms: u64,
    pub level: DiagnosticLevel,
    pub component: String,
    pub message: String,
}

pub struct DiagnosticEventView {
    pub timestamp_unix_ms: u64,
    pub level: DiagnosticLevel,
    pub component: Seq<char>,
    pub message: Seq<char>,
}

impl View for DiagnosticEvent {
    type V = DiagnosticEventView;

    open spec fn view(&self) -> DiagnosticEventView {
        DiagnosticEventView {
            timestamp_unix_ms: self.timestamp_unix_ms,
            level: self.level,
            component: self.component@,
            message: self.message@,
        }
    }
}

#[verifier::external_type_specification]
#[verifier::external_body]
pub struct ExSystemTime(std::time::SystemTime);

/// The system clock's reading (std `SystemTime::now`). Nothing is promised
/// of it: it is the wall clock.
#[verifier::external_body]
fn system_now() -> std::time::SystemTime {
    std::time::SystemTime::now()
}

/// The time from the Unix epoch to `t` (std `SystemTime::duration_since`),
/// or `None` where `t` lies before the epoch. Nothing is stated of the
/// duration.
#[verifier::external_body]
fn since_unix_epoch(t: &std::time::SystemTime) -> Option<core::time::Duration> {
    t.duration_since(std::time::UNIX_EPOCH).ok()
}

/// The whole milliseconds in `d` (std `Duration::as_millis`). Durations are
/// opaque here, so nothing is stated of the count.
#[verifier::external_body]
fn whole_millis(d: &core::time::Duration) -> u128 {
    d.as_millis()
}

#[verifier::external_type_specification]
#[verifier::external_body]
pub struct ExInstant(std::time::Instant);

/// A reading of the monotonic clock (std `Instant::now`). Nothing is
/// promised of it.
#[verifier::external_body]
pub(crate) fn instant_now() -> std::time::Instant {
    std::time::Instant::now()
}

/// The time the monotonic clock has advanced since `origin` (std
/// `Instant::elapsed`). Durations are opaque here; nothing is stated of it.
#[verifier::external_body]
fn elapsed_since(origin: &std::time::Instant) -> core::time::Duration {
    origin.elapsed()
}

/// Milliseconds the monotonic clock has advanced since `origin`, narrowed
/// to `u64`. Unlike the wall clock it never steps back.
pub(crate) fn monotonic_ms(origin: &std::time::Instant) -> u64 {
    whole_millis(&elapsed_since(origin)) as u64
}

/// Milliseconds since the Unix epoch by the system clock, narrowed to
/// `u64`, or zero when the clock reads before the epoch.
pub(crate) fn current_unix_ms() -> u64 {
    match since_unix_epoch(&system_now()) {
        Some(d) => whole_millis(&d) as u64,
        None => 0,
    }
}

impl DiagnosticEvent {
    /// An event of the given level, stamped with the given time.
    pub fn at(timestamp_unix_ms: u64, level: DiagnosticLevel, component: &str, message: &str) -> (r:
        Self)
        ensures
            r.timestamp_unix_ms == timestamp_unix_ms,
            r.level == level,
            r.component@ == component@,
            r.message@ == message@,
    {
        DiagnosticEvent {
            timestamp_unix_ms,
            level,
            component: component.to_owned(),
            message: message.to_owned(),
        }
    }

    pub fn info(component: &str, message: &str) -> (r: Self)
        ensures
            r.level == DiagnosticLevel::Info,
            r.component@ == component@,
            r.message@ == message@,
    {
        DiagnosticEvent::at(current_unix_ms(), DiagnosticLevel::Info, component, message)
    }

    pub fn warning(component: &str, message: &str) -> (r: Self)
        ensures
            r.level == DiagnosticLevel::Warning,
            r.component@ == component@,
            r.message@ == message@,
    {
        DiagnosticEvent::at(current_unix_ms(), DiagnosticLevel::Warning, component, message)
    }

    pub fn error(component: &str, message: &str) -> (r: Self)
        ensures
            r.level == DiagnosticLevel::Error,
            r.component@ == component@,
            r.message@ == message@,
    {
        DiagnosticEvent::at(current_unix_ms(), DiagnosticLevel::Error, component, message)
    }
}

} // verus!

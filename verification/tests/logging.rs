use gasket::error::Error;
use gasket::metrics::Registry;
use gasket::retries::Retry;
use gasket::runtime::{log_event, log_stage_error, LogLevel, LogRecord, StageEvent, Worker};

struct Counting;

impl Worker for Counting {
    type WorkUnit = u32;

    fn metrics(&self) -> Registry {
        Registry::new()
    }
}

fn line(record: LogRecord) -> (LogLevel, String, Option<Retry>) {
    (record.level, record.message, record.retry)
}

fn event_line(event: StageEvent<Counting>) -> (LogLevel, String, Option<Retry>) {
    line(log_event(&event))
}

#[test]
fn stage_errors_are_logged_by_kind() {
    let retry = Retry { failed: 2 };
    let cases = vec![
        (Error::ShouldRestart, LogLevel::Warn, "stage should restart"),
        (Error::RetryableError, LogLevel::Warn, "work should be retried"),
        (Error::WorkPanic, LogLevel::Error, "work panic"),
        (Error::RecvError, LogLevel::Error, "stage error while receiving message"),
        (Error::SendError, LogLevel::Error, "stage error while sending message"),
        (Error::NotConnected, LogLevel::Error, "stage not connected"),
        (Error::MaxRetries, LogLevel::Error, "stage error max retries reached"),
        (Error::DismissableError, LogLevel::Error, "stage error work error was dismissed"),
        (Error::TetherDropped, LogLevel::Error, "stage error tether dropped"),
    ];
    for (err, level, message) in cases {
        assert_eq!(line(log_stage_error(&err, &retry)), (level, message.to_string(), Some(retry)));
    }
}

#[test]
fn plain_events_are_logged_without_retries() {
    let cases = vec![
        (StageEvent::ExecuteOk, LogLevel::Trace, "unit executed"),
        (StageEvent::NextUnit(7), LogLevel::Trace, "next unit scheduled"),
        (StageEvent::WorkerIdle, LogLevel::Trace, "worker is idle"),
        (StageEvent::WorkerDone, LogLevel::Trace, "worker is done"),
        (StageEvent::MessagingError, LogLevel::Error, "messaging error"),
        (StageEvent::Dismissed, LogLevel::Info, "stage dismissed"),
        (StageEvent::BootstrapOk, LogLevel::Info, "stage bootstrap ok"),
        (StageEvent::TeardownOk, LogLevel::Info, "stage teardown ok"),
    ];
    for (event, level, message) in cases {
        assert_eq!(event_line(event), (level, message.to_string(), None));
    }
}

#[test]
fn failures_are_logged_as_stage_errors() {
    let retry = Retry { failed: 1 };
    let expected = (LogLevel::Error, "work panic".to_string(), Some(retry));
    assert_eq!(event_line(StageEvent::BootstrapError(Error::WorkPanic, retry)), expected);
    assert_eq!(event_line(StageEvent::ScheduleError(Error::WorkPanic, retry)), expected);
    assert_eq!(event_line(StageEvent::ExecuteError(7, Error::WorkPanic, retry)), expected);
    assert_eq!(event_line(StageEvent::TeardownError(Error::WorkPanic, retry)), expected);
}

#[test]
fn every_error_has_a_text() {
    assert_eq!(Error::SendError.describe(), "failed to send message");
    assert_eq!(Error::RecvError.describe(), "failed to receive message");
    assert_eq!(Error::NotConnected.describe(), "port is not connected");
    assert_eq!(Error::WorkPanic.describe(), "work panic");
    assert_eq!(Error::ShouldRestart.describe(), "stage should restart");
    assert_eq!(Error::RetryableError.describe(), "work should be retried");
    assert_eq!(Error::DismissableError.describe(), "work error was dismissed");
    assert_eq!(Error::MaxRetries.describe(), "max retries reached");
    assert_eq!(Error::TetherDropped.describe(), "tether dropped");
}

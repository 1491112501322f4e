//! What a stage has to say about itself in the log.
use crate::error::Error;
use crate::retries::Retry;
use crate::runtime::stage::{StageEvent, Worker};
use vstd::prelude::*;

verus! {

/// How much attention a record asks for.
#[derive(Clone, Copy, Debug, PartialEq, Eq, Structural)]
pub enum LogLevel {
    Trace,
    Info,
    Warn,
    Error,
}

/// One line of the log.
#[derive(Debug)]
pub struct LogRecord {
    pub level: LogLevel,
    pub message: String,
    /// The retries of the work that failed, where work has failed.
    pub retry: Option<Retry>,
}

impl View for LogRecord {
    type V = (LogLevel, Seq<char>, Option<Retry>);

    open spec fn view(&self) -> (LogLevel, Seq<char>, Option<Retry>) {
        (self.level, self.message@, self.retry)
    }
}

impl LogRecord {
    fn new(level: LogLevel, message: &str, retry: Option<Retry>) -> (record: LogRecord)
        ensures
            record@ == (level, message@, retry),
    {
        LogRecord { level, message: message.to_owned(), retry }
    }
}

/// The level and the message under which a stage error is logged. Errors that
/// ask for another attempt are warnings.
pub open spec fn stage_error_line(err: Error) -> (LogLevel, Seq<char>) {
    match err {
        Error::ShouldRestart => (LogLevel::Warn, "stage should restart"@),
        Error::RetryableError => (LogLevel::Warn, "work should be retried"@),
        Error::WorkPanic => (LogLevel::Error, "work panic"@),
        Error::RecvError => (LogLevel::Error, "stage error while receiving message"@),
        Error::SendError => (LogLevel::Error, "stage error while sending message"@),
        Error::NotConnected => (LogLevel::Error, "stage not connected"@),
        other => (LogLevel::Error, "stage error "@ + other.text()),
    }
}

/// The record of a stage error.
pub fn log_stage_error(err: &Error, retry: &Retry) -> (record: LogRecord)
    ensures
        record@ == (stage_error_line(*err).0, stage_error_line(*err).1, Some(*retry)),
{
    let retry: Option<Retry> = Some(*retry);
    match err {
        Error::ShouldRestart => LogRecord::new(LogLevel::Warn, "stage should restart", retry),
        Error::RetryableError => LogRecord::new(LogLevel::Warn, "work should be retried", retry),
        Error::WorkPanic => LogRecord::new(LogLevel::Error, "work panic", retry),
        Error::RecvError => {
            LogRecord::new(LogLevel::Error, "stage error while receiving message", retry)
        },
        Error::SendError => {
            LogRecord::new(LogLevel::Error, "stage error while sending message", retry)
        },
        Error::NotConnected => LogRecord::new(LogLevel::Error, "stage not connected", retry),
        x => {
            let message: String = "stage error ".to_owned().concat(x.describe());
            LogRecord { level: LogLevel::Error, message, retry }
        },
    }
}

impl<W> StageEvent<W> where W: Worker {
    /// The error that an event brings, and the retries of the work it befell.
    pub open spec fn failure(self) -> Option<(Error, Retry)> {
        match self {
            StageEvent::BootstrapError(e, r) => Some((e, r)),
            StageEvent::ScheduleError(e, r) => Some((e, r)),
            StageEvent::ExecuteError(_, e, r) => Some((e, r)),
            StageEvent::TeardownError(e, r) => Some((e, r)),
            _ => None,
        }
    }

    /// The line under which an event without a failure is logged: what happens
    /// turn after turn is traced, what changes the course of the stage is told.
    pub open spec fn plain_line(self) -> (LogLevel, Seq<char>) {
        match self {
            StageEvent::ExecuteOk => (LogLevel::Trace, "unit executed"@),
            StageEvent::NextUnit(_) => (LogLevel::Trace, "next unit scheduled"@),
            StageEvent::WorkerIdle => (LogLevel::Trace, "worker is idle"@),
            StageEvent::WorkerDone => (LogLevel::Trace, "worker is done"@),
            StageEvent::MessagingError => (LogLevel::Error, "messaging error"@),
            StageEvent::Dismissed => (LogLevel::Info, "stage dismissed"@),
            StageEvent::BootstrapOk => (LogLevel::Info, "stage bootstrap ok"@),
            _ => (LogLevel::Info, "stage teardown ok"@),
        }
    }

    /// The record that an event leaves in the log.
    pub open spec fn record(self) -> (LogLevel, Seq<char>, Option<Retry>) {
        match self.failure() {
            Some((err, retry)) => (
                stage_error_line(err).0,
                stage_error_line(err).1,
                Some(retry),
            ),
            None => (self.plain_line().0, self.plain_line().1, None),
        }
    }
}

/// The record of an event.
pub fn log_event<W>(event: &StageEvent<W>) -> (record: LogRecord) where W: Worker
    ensures
        record@ == event.record(),
{
    match event {
        StageEvent::ExecuteOk => LogRecord::new(LogLevel::Trace, "unit executed", None),
        StageEvent::BootstrapError(e, r) => log_stage_error(e, r),
        StageEvent::NextUnit(_) => LogRecord::new(LogLevel::Trace, "next unit scheduled", None),
        StageEvent::ScheduleError(e, r) => log_stage_error(e, r),
        StageEvent::ExecuteError(_, e, r) => log_stage_error(e, r),
        StageEvent::MessagingError => LogRecord::new(LogLevel::Error, "messaging error", None),
        StageEvent::Dismissed => LogRecord::new(LogLevel::Info, "stage dismissed", None),
        StageEvent::BootstrapOk => LogRecord::new(LogLevel::Info, "stage bootstrap ok", None),
        StageEvent::TeardownOk => LogRecord::new(LogLevel::Info, "stage teardown ok", None),
        StageEvent::TeardownError(e, r) => log_stage_error(e, r),
        StageEvent::WorkerIdle => LogRecord::new(LogLevel::Trace, "worker is idle", None),
        StageEvent::WorkerDone => LogRecord::new(LogLevel::Trace, "worker is done", None),
    }
}

} // verus!

//! The life of a stage.
//!
//! A stage is a machine that takes turns. In each turn the machine says what its
//! worker has to do, the caller has the worker do it, and the machine moves on
//! according to what came out. The machine's thread and the holder of the tether
//! share an anchor.
mod anchor;
mod handles;
pub mod laws;
mod logging;
mod machine;
mod policy;
mod stage;
mod tether;

pub use anchor::{made_with_clock_reading, turn_hands_over_phase_and_tick, Anchor, AnchorView};
pub use handles::mark_of;
pub use logging::{log_event, log_stage_error, stage_error_line, LogLevel, LogRecord};
pub use machine::{Actuation, Attempt, MachineView, StageMachine, Transition, Turn};
pub use policy::Policy;
pub use stage::{ScheduleResult, StageEvent, StagePhase, StageState, WorkSchedule, Worker};
pub use tether::{
    anchor_or_dropped, prepare_stage, StageSetup, Tether, TetherState, TetherView,
};

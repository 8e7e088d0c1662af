//! Core of a development-loop orchestrator for a compiled web project.
//!
//! The library holds the interruptible build-and-notify coordination engine:
//! an event bus carrying lifecycle messages, a shutdown flag, a build
//! pipeline whose stage sequence is data, and the watch-loop state machine
//! that runs the pipeline, publishes reload notifications exactly when a
//! build succeeds, and terminates cooperatively once shutdown is requested.
//! The fallible build stages themselves (style compiler, bundler, server
//! compiler) are external collaborators: callers invoke them and feed each
//! stage's outcome back into the pipeline state.

use vstd::prelude::*;

mod bus;
mod config;
mod flag;
mod pipeline;
mod watch;

pub use bus::EventBus;
pub use bus::bounded_push;
pub use bus::publish_to_all;
pub use config::Cli;
pub use config::Commands;
pub use config::Config;
pub use config::Opts;
pub use config::command_opts;
pub use config::has_subcommand_shim;
pub use config::normalize_args;
pub use flag::ShutdownFlag;
pub use pipeline::BuildOutcome;
pub use pipeline::Cause;
pub use pipeline::FsError;
pub use pipeline::PipelineState;
pub use pipeline::Stage;
pub use pipeline::StageOutcome;
pub use pipeline::cleanup_outcome;
pub use pipeline::lemma_failure_short_circuits;
pub use pipeline::plan_for;
pub use pipeline::plan_spec;
pub use watch::Phase;
pub use watch::ServeTarget;
pub use watch::SessionModel;
pub use watch::TaskKind;
pub use watch::WaitMode;
pub use watch::WatchAction;
pub use watch::WatchEvent;
pub use watch::WatchSession;
pub use watch::after_source_changes;
pub use watch::lemma_reload_implies_success;
pub use watch::lemma_shutdown_terminates;
pub use watch::lemma_source_changes_preserve_build;
pub use watch::publish_n;
pub use watch::send_reload;
pub use watch::serve_target;
pub use watch::startup_tasks;
pub use watch::startup_tasks_spec;
pub use watch::wait_mode;
pub use watch::watch_step;
pub use watch::watch_step_spec;

verus! {

/// A lifecycle message carried by the event bus.
#[derive(Debug, PartialEq, Eq)]
pub enum Msg {
    /// Sent when an interrupt requests shutdown.
    ShutDown,
    /// Sent by the file watcher when the source tree changed.
    SrcChanged,
    /// Instructs connected browser sessions to reload.
    Reload(String),
}

/// The mathematical value of a message: a reload payload is seen as its
/// character sequence.
pub enum MsgV {
    ShutDown,
    SrcChanged,
    Reload(Seq<char>),
}

impl View for Msg {
    type V = MsgV;

    open spec fn view(&self) -> MsgV {
        match self {
            Msg::ShutDown => MsgV::ShutDown,
            Msg::SrcChanged => MsgV::SrcChanged,
            Msg::Reload(s) => MsgV::Reload(s@),
        }
    }
}

impl Clone for Msg {
    /// Cloning a message preserves it exactly, including a reload payload.
    fn clone(&self) -> (r: Msg)
        ensures
            r == *self,
    {
        match self {
            Msg::ShutDown => Msg::ShutDown,
            Msg::SrcChanged => Msg::SrcChanged,
            Msg::Reload(s) => Msg::Reload(s.clone()),
        }
    }
}

} // verus!

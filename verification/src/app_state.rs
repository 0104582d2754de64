//! Application lifecycle: which panel is shown, and how the start / stop / reset
//! commands move the simulation between idle, running and stopped.

use vstd::prelude::*;

verus! {

/// Simulation lifecycle state.
#[derive(Debug, Clone, Copy, Default, PartialEq, Eq, Structural)]
pub enum SimState {
    #[default]
    Idle,
    Running,
    Stopped,
}

/// Which main panel is currently displayed.
#[derive(Debug, Clone, Copy, PartialEq, Eq, Structural)]
pub enum NavPanel {
    /// The map canvas.
    MapView,
    Stats,
    Config,
    EventLog,
    AbTest,
    Replay,
}

/// A user command from the menu, the sidebar buttons or the keyboard (`S`, `X`, `R`).
#[derive(Debug, Clone, Copy, PartialEq, Eq, Structural)]
pub enum SimCommand {
    Start,
    Stop,
    Reset,
}

/// What a command does: the next state and the work the application performs.
#[derive(Debug, Clone, Copy, PartialEq, Eq, Structural)]
pub struct SimTransition {
    /// The state after the command.
    pub next: SimState,
    /// Signal the running engine (if any) to stop and drop its channel.
    pub stop_engine: bool,
    /// Start a new engine with the current session and protocol.
    pub start_engine: bool,
    /// Forget the last snapshot and the selected mobile.
    pub clear_view: bool,
}

/// The effect of `cmd` in state `s`: Start works unless already running (it first
/// stops any old engine), Stop works only while running, Reset always stops the
/// engine, clears the view and returns to idle. A command that does not apply
/// changes nothing.
pub open spec fn spec_transition(s: SimState, cmd: SimCommand) -> SimTransition {
    match cmd {
        SimCommand::Start => if s != SimState::Running {
            SimTransition { next: SimState::Running, stop_engine: true, start_engine: true, clear_view: false }
        } else {
            SimTransition { next: s, stop_engine: false, start_engine: false, clear_view: false }
        },
        SimCommand::Stop => if s == SimState::Running {
            SimTransition { next: SimState::Stopped, stop_engine: true, start_engine: false, clear_view: false }
        } else {
            SimTransition { next: s, stop_engine: false, start_engine: false, clear_view: false }
        },
        SimCommand::Reset => SimTransition {
            next: SimState::Idle,
            stop_engine: true,
            start_engine: false,
            clear_view: true,
        },
    }
}

impl SimState {
    /// Applies a user command to the lifecycle state.
    pub fn on_command(self, cmd: SimCommand) -> (t: SimTransition)
        ensures
            t == spec_transition(self, cmd),
            t.clear_view <==> cmd == SimCommand::Reset,
            t.start_engine <==> (cmd == SimCommand::Start && self != SimState::Running),
            t.stop_engine <==> (cmd == SimCommand::Reset || (cmd == SimCommand::Start && self != SimState::Running)
                || (cmd == SimCommand::Stop && self == SimState::Running)),
            cmd == SimCommand::Start ==> t.next == SimState::Running,
            cmd == SimCommand::Stop ==> t.next == (if self == SimState::Running { SimState::Stopped } else { self }),
            cmd == SimCommand::Reset ==> t.next == SimState::Idle,
    {
        match cmd {
            SimCommand::Start => if self != SimState::Running {
                SimTransition { next: SimState::Running, stop_engine: true, start_engine: true, clear_view: false }
            } else {
                SimTransition { next: self, stop_engine: false, start_engine: false, clear_view: false }
            },
            SimCommand::Stop => if self == SimState::Running {
                SimTransition { next: SimState::Stopped, stop_engine: true, start_engine: false, clear_view: false }
            } else {
                SimTransition { next: self, stop_engine: false, start_engine: false, clear_view: false }
            },
            SimCommand::Reset => SimTransition {
                next: SimState::Idle,
                stop_engine: true,
                start_engine: false,
                clear_view: true,
            },
        }
    }

    /// The sidebar's state indicator: its label and RGB colour.
    pub fn indicator(self) -> (r: (&'static str, [u8; 3]))
        ensures
            r.0@ == match self {
                SimState::Idle => "● IDLE"@,
                SimState::Running => "● RUNNING"@,
                SimState::Stopped => "● STOPPED"@,
            },
            r.1@ == match self {
                SimState::Idle => seq![150u8, 150u8, 150u8],
                SimState::Running => seq![80u8, 220u8, 80u8],
                SimState::Stopped => seq![220u8, 80u8, 80u8],
            },
    {
        let r: (&'static str, [u8; 3]) = match self {
            SimState::Idle => ("● IDLE", [150, 150, 150]),
            SimState::Running => ("● RUNNING", [80, 220, 80]),
            SimState::Stopped => ("● STOPPED", [220, 80, 80]),
        };
        assert(r.1@ =~= match self {
            SimState::Idle => seq![150u8, 150u8, 150u8],
            SimState::Running => seq![80u8, 220u8, 80u8],
            SimState::Stopped => seq![220u8, 80u8, 80u8],
        });
        r
    }
}

/// Only a Start command brings the simulation into the running state, and an engine
/// is started exactly when that happens; a running engine is never started twice.
pub proof fn only_start_runs_the_engine(s: SimState, cmd: SimCommand)
    ensures
        spec_transition(s, cmd).start_engine <==> (cmd == SimCommand::Start && s != SimState::Running),
        (spec_transition(s, cmd).next == SimState::Running && s != SimState::Running) ==> cmd
            == SimCommand::Start,
        spec_transition(s, cmd).start_engine ==> spec_transition(s, cmd).stop_engine,
{
}

/// Only Reset clears the view: stopping or starting keeps the last snapshot and
/// the selected mobile on screen, whatever the state.
pub proof fn only_reset_clears_the_view(s: SimState, cmd: SimCommand)
    ensures
        spec_transition(s, cmd).clear_view <==> cmd == SimCommand::Reset,
{
}

/// Stop halts a running simulation and nothing else: from running it stops the
/// engine and lands in the stopped state; in any other state it changes nothing.
pub proof fn stop_only_halts_a_running_simulation(s: SimState)
    ensures
        s == SimState::Running ==> spec_transition(s, SimCommand::Stop) == (SimTransition {
            next: SimState::Stopped,
            stop_engine: true,
            start_engine: false,
            clear_view: false,
        }),
        s != SimState::Running ==> spec_transition(s, SimCommand::Stop) == (SimTransition {
            next: s,
            stop_engine: false,
            start_engine: false,
            clear_view: false,
        }),
{
}

/// Reset always returns to idle with the engine stopped, from any state.
pub proof fn reset_always_idles(s: SimState)
    ensures
        spec_transition(s, SimCommand::Reset).next == SimState::Idle,
        spec_transition(s, SimCommand::Reset).stop_engine,
{
}

/// Stopping a running simulation and starting it again runs it anew.
pub proof fn stop_then_start_restarts()
    ensures
        spec_transition(spec_transition(SimState::Running, SimCommand::Stop).next, SimCommand::Start).next
            == SimState::Running,
        spec_transition(spec_transition(SimState::Running, SimCommand::Stop).next, SimCommand::Start).start_engine,
{
}

} // verus!

//! The life of a capture session: not yet started, playing, paused, stopped.
//!
//! The pipeline itself lives outside this crate. A caller asks
//! [`SessionState::request`] what to demand of the pipeline, makes the demand,
//! and reports with [`SessionState::settle`] whether the pipeline went along.

use vstd::prelude::*;

verus! {

/// Where a session stands.
#[derive(Clone, Copy, Debug, PartialEq, Eq, Structural)]
pub enum SessionState {
    /// Made, but its pipeline has not been started.
    Uninitialized,
    Playing,
    Paused,
    /// Final: a stopped session is never started again.
    Stopped,
}

/// What a caller may ask of a started session.
#[derive(Clone, Copy, Debug, PartialEq, Eq, Structural)]
pub enum Command {
    Play,
    Pause,
    Stop,
}

/// The state to demand of the pipeline.
#[derive(Clone, Copy, Debug, PartialEq, Eq, Structural)]
pub enum PipelineState {
    Playing,
    Paused,
    /// Shut down, every resource released.
    Null,
}

/// Why the session did not change state.
#[derive(Clone, Copy, Debug, PartialEq, Eq, Structural)]
pub enum SessionError {
    /// The pipeline could not be built or started; there is no session.
    PipelineInitError,
    /// The command is not allowed in this state, or the pipeline refused it.
    StateTransitionError,
}

impl Command {
    /// The state a session is in once this command has gone through.
    pub open spec fn target(self) -> SessionState {
        match self {
            Command::Play => SessionState::Playing,
            Command::Pause => SessionState::Paused,
            Command::Stop => SessionState::Stopped,
        }
    }

    /// The pipeline state that carries out this command.
    pub open spec fn demand(self) -> PipelineState {
        match self {
            Command::Play => PipelineState::Playing,
            Command::Pause => PipelineState::Paused,
            Command::Stop => PipelineState::Null,
        }
    }
}

impl SessionState {
    /// Whether `command` is allowed here: anything while playing or paused,
    /// only another stop once stopped, nothing before the start.
    pub open spec fn permits(self, command: Command) -> bool {
        match self {
            SessionState::Uninitialized => false,
            SessionState::Playing => true,
            SessionState::Paused => true,
            SessionState::Stopped => command == Command::Stop,
        }
    }

    /// The state after `command`, given whether the pipeline accepted it. A
    /// command that is not allowed, or that the pipeline refused, changes
    /// nothing.
    pub open spec fn after(self, command: Command, accepted: bool) -> SessionState {
        if self.permits(command) && accepted {
            command.target()
        } else {
            self
        }
    }

    /// The state after the start of the pipeline was attempted.
    pub open spec fn after_start(self, started: bool) -> SessionState {
        if self == SessionState::Uninitialized && started {
            SessionState::Playing
        } else {
            self
        }
    }

    /// The state after a whole series of commands, each with the pipeline's
    /// answer.
    pub open spec fn after_all(self, commands: Seq<(Command, bool)>) -> SessionState
        decreases commands.len(),
    {
        if commands.len() == 0 {
            self
        } else {
            self.after(commands[0].0, commands[0].1).after_all(commands.skip(1))
        }
    }

    /// What to demand of the pipeline for `command`, or `None` where the
    /// command is not allowed and the pipeline is to be left alone.
    pub fn request(self, command: Command) -> (demand: Option<PipelineState>)
        ensures
            demand == if self.permits(command) {
                Some(command.demand())
            } else {
                None
            },
    {
        let permitted = match self {
            SessionState::Uninitialized => false,
            SessionState::Playing => true,
            SessionState::Paused => true,
            SessionState::Stopped => match command {
                Command::Stop => true,
                _ => false,
            },
        };
        if permitted {
            Some(
                match command {
                    Command::Play => PipelineState::Playing,
                    Command::Pause => PipelineState::Paused,
                    Command::Stop => PipelineState::Null,
                },
            )
        } else {
            None
        }
    }

    /// Records the outcome of `command`: the new state where the command was
    /// allowed and the pipeline accepted it, a transition error and the old
    /// state otherwise.
    pub fn settle(self, command: Command, accepted: bool) -> (r: Result<
        SessionState,
        SessionError,
    >)
        ensures
            r is Ok <==> self.permits(command) && accepted,
            r matches Ok(next) ==> next == self.after(command, accepted),
            r matches Err(e) ==> e == SessionError::StateTransitionError,
    {
        match self.request(command) {
            Some(_) => {
                if accepted {
                    Ok(
                        match command {
                            Command::Play => SessionState::Playing,
                            Command::Pause => SessionState::Paused,
                            Command::Stop => SessionState::Stopped,
                        },
                    )
                } else {
                    Err(SessionError::StateTransitionError)
                }
            },
            None => Err(SessionError::StateTransitionError),
        }
    }

    /// Records the outcome of starting the pipeline: playing where a fresh
    /// session's pipeline was built and started, an initialisation error
    /// otherwise.
    pub fn start(self, started: bool) -> (r: Result<SessionState, SessionError>)
        ensures
            r is Ok <==> self == SessionState::Uninitialized && started,
            r matches Ok(next) ==> next == SessionState::Playing,
            r matches Err(e) ==> e == SessionError::PipelineInitError,
    {
        match self {
            SessionState::Uninitialized => {
                if started {
                    Ok(SessionState::Playing)
                } else {
                    Err(SessionError::PipelineInitError)
                }
            },
            _ => Err(SessionError::PipelineInitError),
        }
    }
}

/// A stopped session stays stopped whatever is asked of it and whatever the
/// pipeline answers, and it refuses to play or pause.
pub proof fn lemma_stopped_is_final(commands: Seq<(Command, bool)>)
    ensures
        SessionState::Stopped.after_all(commands) == SessionState::Stopped,
        !SessionState::Stopped.permits(Command::Play),
        !SessionState::Stopped.permits(Command::Pause),
        SessionState::Stopped.after_start(true) == SessionState::Stopped,
    decreases commands.len(),
{
    if commands.len() > 0 {
        lemma_stopped_is_final(commands.skip(1));
    }
}

/// Once stopped, always stopped: if a series of commands passes through the
/// stopped state, it ends there.
pub proof fn lemma_no_way_back(state: SessionState, before: Seq<(Command, bool)>, later: Seq<(Command, bool)>)
    requires
        state.after_all(before) == SessionState::Stopped,
    ensures
        state.after_all(before + later) == SessionState::Stopped,
    decreases before.len(),
{
    if before.len() == 0 {
        assert(before + later =~= later);
        lemma_stopped_is_final(later);
    } else {
        assert((before + later).skip(1) =~= before.skip(1) + later);
        lemma_no_way_back(state.after(before[0].0, before[0].1), before.skip(1), later);
    }
}

} // verus!

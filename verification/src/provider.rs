//! The camera provider: one named input that hands the latest frame of one
//! capture session to whoever polls for it.

use vstd::prelude::*;
use vstd::string::StringExecFns;
use crate::frame::Frame;
use crate::pipeline::launch_description;
use crate::pipeline::launch_text;
use crate::session::Command;
use crate::session::PipelineState;
use crate::session::SessionError;
use crate::session::SessionState;
use crate::shared::SharedSlot;

verus! {

/// What a provider is, apart from the frames that pass through it.
pub struct ProviderView {
    /// The name under which frames are asked for.
    pub name: Seq<char>,
    /// The device frames are captured from.
    pub path: Seq<char>,
    /// The size frames are asked of the pipeline in.
    pub width: nat,
    pub height: nat,
    pub state: SessionState,
    /// The handle to the slot that this provider's frames pass through.
    pub video_buffer: SharedSlot,
}

impl ProviderView {
    /// The same provider in another state.
    pub open spec fn in_state(self, state: SessionState) -> ProviderView {
        ProviderView { state, ..self }
    }

    /// The same provider under another name.
    pub open spec fn named(self, name: Seq<char>) -> ProviderView {
        ProviderView { name, ..self }
    }
}

/// A named source of camera frames.
pub struct CamProvider {
    name: String,
    path: String,
    resolution: (usize, usize),
    video_buffer: SharedSlot,
    state: SessionState,
}

impl View for CamProvider {
    type V = ProviderView;

    closed spec fn view(&self) -> ProviderView {
        ProviderView {
            name: self.name@,
            path: self.path@,
            width: self.resolution.0 as nat,
            height: self.resolution.1 as nat,
            state: self.state,
            video_buffer: self.video_buffer,
        }
    }
}

impl CamProvider {
    /// A provider called `name` for the device at `path`, with an empty slot
    /// that announces `resolution`. Its pipeline is still to be launched from
    /// [`CamProvider::launch_description`] and reported to
    /// [`CamProvider::start`].
    pub fn new(path: &str, name: String, resolution: (usize, usize)) -> (provider: CamProvider)
        ensures
            provider@.name == name@,
            provider@.path == path@,
            provider@.width == resolution.0,
            provider@.height == resolution.1,
            provider@.state == SessionState::Uninitialized,
    {
        CamProvider {
            name,
            path: String::from_str(path),
            resolution,
            video_buffer: SharedSlot::new(resolution),
            state: SessionState::Uninitialized,
        }
    }

    /// The description of the pipeline to launch for this provider.
    pub fn launch_description(&self, named_device: bool) -> (text: String)
        ensures
            text@ == launch_text(named_device, self@.path, self@.width, self@.height),
    {
        launch_description(named_device, self.path.as_str(), self.resolution)
    }

    /// A handle to this provider's slot, for the thread on which frames are
    /// announced: what that thread delivers is what [`CamProvider::get`]
    /// reads.
    pub fn video_buffer(&self) -> (slot: SharedSlot)
        ensures
            slot == self@.video_buffer,
    {
        self.video_buffer.share()
    }

    pub fn state(&self) -> (state: SessionState)
        ensures
            state == self@.state,
    {
        self.state
    }

    /// What to demand of the pipeline for `command`, or `None` where the
    /// command is not allowed now and the pipeline is to be left alone.
    pub fn request(&self, command: Command) -> (demand: Option<PipelineState>)
        ensures
            demand == if self@.state.permits(command) {
                Some(command.demand())
            } else {
                None
            },
    {
        self.state.request(command)
    }

    /// Records whether the pipeline was built and started. A fresh provider
    /// whose pipeline started is playing; in every other case this is an
    /// initialisation error and nothing changes.
    pub fn start(&mut self, started: bool) -> (r: Result<(), SessionError>)
        ensures
            r is Ok <==> old(self)@.state == SessionState::Uninitialized && started,
            r matches Err(e) ==> e == SessionError::PipelineInitError,
            final(self)@ == old(self)@.in_state(old(self)@.state.after_start(started)),
    {
        match self.state.start(started) {
            Ok(next) => {
                self.state = next;
                Ok(())
            },
            Err(e) => Err(e),
        }
    }

    /// Records the outcome of `command`. Where the command was allowed and
    /// the pipeline accepted it the provider is in the command's state; in
    /// every other case this is a transition error and nothing changes.
    pub fn settle(&mut self, command: Command, accepted: bool) -> (r: Result<(), SessionError>)
        ensures
            r is Ok <==> old(self)@.state.permits(command) && accepted,
            r matches Err(e) ==> e == SessionError::StateTransitionError,
            final(self)@ == old(self)@.in_state(old(self)@.state.after(command, accepted)),
    {
        match self.state.settle(command, accepted) {
            Ok(next) => {
                self.state = next;
                Ok(())
            },
            Err(e) => Err(e),
        }
    }

    /// Records the outcome of asking the pipeline to play.
    pub fn play(&mut self, accepted: bool) -> (r: Result<(), SessionError>)
        ensures
            r is Ok <==> old(self)@.state.permits(Command::Play) && accepted,
            r matches Err(e) ==> e == SessionError::StateTransitionError,
            final(self)@ == old(self)@.in_state(old(self)@.state.after(Command::Play, accepted)),
    {
        self.settle(Command::Play, accepted)
    }

    /// Records the outcome of asking the pipeline to pause.
    pub fn pause(&mut self, accepted: bool) -> (r: Result<(), SessionError>)
        ensures
            r is Ok <==> old(self)@.state.permits(Command::Pause) && accepted,
            r matches Err(e) ==> e == SessionError::StateTransitionError,
            final(self)@ == old(self)@.in_state(old(self)@.state.after(Command::Pause, accepted)),
    {
        self.settle(Command::Pause, accepted)
    }

    /// Records the outcome of asking the pipeline to shut down.
    pub fn stop(&mut self, accepted: bool) -> (r: Result<(), SessionError>)
        ensures
            r is Ok <==> old(self)@.state.permits(Command::Stop) && accepted,
            r matches Err(e) ==> e == SessionError::StateTransitionError,
            final(self)@ == old(self)@.in_state(old(self)@.state.after(Command::Stop, accepted)),
    {
        self.settle(Command::Stop, accepted)
    }

    /// Gives the provider another name; frames are asked for under it from
    /// now on.
    pub fn set_name(&mut self, name: &str)
        ensures
            final(self)@ == old(self)@.named(name@),
    {
        self.name = String::from_str(name);
    }

    /// The names this provider answers to: its own, and no other.
    pub fn provides(&self) -> (names: Vec<String>)
        ensures
            names@.len() == 1,
            names@[0]@ == self@.name,
    {
        let mut names: Vec<String> = Vec::new();
        names.push(self.name.clone());
        names
    }

    /// A camera provider has no properties to set: nothing changes, and the
    /// answer is that the property was not taken.
    pub fn set_property(&mut self, property: &str) -> (taken: bool)
        ensures
            !taken,
            final(self)@ == old(self)@,
    {
        false
    }

    /// Whether `uniform_name` is this provider's name.
    pub fn answers_to(&self, uniform_name: &str) -> (b: bool)
        ensures
            b == (uniform_name@ == self@.name),
    {
        String::from_str(uniform_name) == self.name
    }

    /// The latest frame, for whoever asks under this provider's name. Asked
    /// under any other name the answer is `None` and the slot is not touched.
    /// Under the right name the slot is read as [`SharedSlot::read`] reads
    /// it, emptied if `invalidate` is set.
    pub fn get(&self, uniform_name: &str, invalidate: bool) -> (frame: Option<Frame>)
        ensures
            uniform_name@ != self@.name ==> frame is None,
            frame matches Some(f) ==> f@.well_formed(),
    {
        if self.answers_to(uniform_name) {
            self.video_buffer.read(invalidate)
        } else {
            None
        }
    }
}

} // verus!

//! The client's queue of input steps received from the host, played back one
//! step phase at a time.
use crate::input_pool::STEP_PHASE_FRAME_LENGTH;
use crate::packet::{InputStep, InputStepView};
use std::collections::VecDeque;
use vstd::prelude::*;

verus! {

/// Where the playback stands within the current step phase.
#[derive(Debug, Clone, Copy, PartialEq, Eq, Structural)]
pub enum StepPhase {
    Running,
    /// The last frame of the phase.
    Imminent,
    Over,
}

/// The phase at a frame index: over once all its frames have passed,
/// imminent on its last frame, running before.
pub open spec fn phase_at(frame_index: u32) -> StepPhase {
    if frame_index >= STEP_PHASE_FRAME_LENGTH {
        StepPhase::Over
    } else if frame_index == STEP_PHASE_FRAME_LENGTH - 1 {
        StepPhase::Imminent
    } else {
        StepPhase::Running
    }
}

/// What a [`PlaybackBuffer`] holds: the frames simulated so far, the steps
/// waiting in order of arrival, the frame within the current phase and how
/// many steps have arrived.
pub struct PlaybackBufferView {
    pub curr_frames: u64,
    pub steps: Seq<InputStepView>,
    pub curr_frame_index: u32,
    pub received_steps: u64,
}

/// The received input steps that wait to be played.
pub struct PlaybackBuffer {
    pub curr_frames: u64,
    steps: VecDeque<InputStep>,
    curr_frame_index: u32,
    received_steps: u64,
}

pub open spec fn steps_view(steps: Seq<InputStep>) -> Seq<InputStepView> {
    steps.map_values(|s: InputStep| s@)
}

impl View for PlaybackBuffer {
    type V = PlaybackBufferView;

    closed spec fn view(&self) -> PlaybackBufferView {
        PlaybackBufferView {
            curr_frames: self.curr_frames,
            steps: steps_view(self.steps@),
            curr_frame_index: self.curr_frame_index,
            received_steps: self.received_steps,
        }
    }
}

impl PlaybackBuffer {
    pub fn new() -> (b: PlaybackBuffer)
        ensures
            b@ == (PlaybackBufferView {
                curr_frames: 0,
                steps: Seq::empty(),
                curr_frame_index: 0,
                received_steps: 0,
            }),
    {
        let b = PlaybackBuffer {
            curr_frames: 0,
            steps: VecDeque::new(),
            curr_frame_index: 0,
            received_steps: 0,
        };
        assert(b@.steps =~= Seq::<InputStepView>::empty());
        b
    }

    /// Queues a step behind those already waiting.
    pub fn add_step(&mut self, step: InputStep)
        requires
            old(self)@.received_steps < u64::MAX,
        ensures
            final(self)@ == (PlaybackBufferView {
                steps: old(self)@.steps.push(step@),
                received_steps: (old(self)@.received_steps + 1) as u64,
                ..old(self)@
            }),
    {
        let ghost old_steps = self.steps@;
        self.steps.push_back(step);
        self.received_steps = self.received_steps + 1;
        assert(steps_view(self.steps@) =~= steps_view(old_steps).push(step@));
    }

    /// How many steps wait to be played.
    pub fn get_buffer_size(&self) -> (n: usize)
        ensures
            n == self@.steps.len(),
    {
        self.steps.len()
    }

    pub fn get_curr_phase(&self) -> (p: StepPhase)
        ensures
            p == phase_at(self@.curr_frame_index),
    {
        if self.curr_frame_index >= STEP_PHASE_FRAME_LENGTH {
            StepPhase::Over
        } else if self.curr_frame_index == STEP_PHASE_FRAME_LENGTH - 1 {
            StepPhase::Imminent
        } else {
            StepPhase::Running
        }
    }

    /// Whether a step waits to be played.
    pub fn is_next_step_ready(&self) -> (b: bool)
        ensures
            b == (self@.steps.len() > 0),
    {
        self.get_buffer_size() > 0
    }

    /// Takes the step that arrived first and starts a new phase for it;
    /// nothing, and no change, when no step waits.
    pub fn get_next_step(&mut self) -> (r: Option<InputStep>)
        ensures
            old(self)@.steps.len() == 0 ==> r is None && final(self)@ == old(self)@,
            old(self)@.steps.len() > 0 ==> (r matches Some(s) && s@ == old(self)@.steps[0]
                && final(self)@ == (PlaybackBufferView {
                steps: old(self)@.steps.drop_first(),
                curr_frame_index: 0,
                ..old(self)@
            })),
    {
        let ghost old_steps = self.steps@;
        match self.steps.pop_front() {
            Some(step) => {
                self.curr_frame_index = 0;
                assert(steps_view(self.steps@) =~= steps_view(old_steps).drop_first());
                Some(step)
            },
            None => None,
        }
    }

    /// Counts one simulated frame.
    pub fn update(&mut self)
        requires
            old(self)@.curr_frame_index < u32::MAX,
            old(self)@.curr_frames < u64::MAX,
        ensures
            final(self)@ == (PlaybackBufferView {
                curr_frame_index: (old(self)@.curr_frame_index + 1) as u32,
                curr_frames: (old(self)@.curr_frames + 1) as u64,
                ..old(self)@
            }),
    {
        self.curr_frame_index = self.curr_frame_index + 1;
        self.curr_frames = self.curr_frames + 1;
    }
}

/// Steps are played in the order they arrived: a step queued behind others
/// comes out after them, and into an empty buffer it comes out next.
pub proof fn lemma_playback_fifo(steps: Seq<InputStepView>, step: InputStepView)
    ensures
        steps.len() > 0 ==> steps.push(step)[0] == steps[0] && steps.push(step).drop_first()
            == steps.drop_first().push(step),
        steps.len() == 0 ==> steps.push(step)[0] == step && steps.push(step).drop_first()
            == Seq::<InputStepView>::empty(),
{
    if steps.len() > 0 {
        assert(steps.push(step).drop_first() =~= steps.drop_first().push(step));
    } else {
        assert(steps.push(step).drop_first() =~= Seq::<InputStepView>::empty());
    }
}

/// A phase runs for its frames, turns imminent on its last one and is over
/// after it; a fresh phase is running.
pub proof fn lemma_phase_progression(frame_index: u32)
    ensures
        phase_at(0) == StepPhase::Running,
        frame_index + 1 < STEP_PHASE_FRAME_LENGTH ==> phase_at(frame_index) == StepPhase::Running,
        phase_at((STEP_PHASE_FRAME_LENGTH - 1) as u32) == StepPhase::Imminent,
        frame_index >= STEP_PHASE_FRAME_LENGTH ==> phase_at(frame_index) == StepPhase::Over,
{
}

} // verus!

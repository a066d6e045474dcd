//! The recording controller's state machine.
//!
//! Two flags drive everything: `is_recording` while a capture session is
//! live, and `is_processing` between a stop request and the completion of
//! the transcription-and-paste sequence. A single hotkey toggle is the only
//! input; `spec_toggle` is the transition table and `toggle` executes it.

use vstd::prelude::*;

verus! {

/// Shared state for tracking recording status, observable by the hotkey
/// handler between toggles.
#[derive(Clone, Copy, PartialEq, Eq, Structural, Debug)]
pub struct RecordingState {
    pub is_recording: bool,
    pub is_processing: bool,
}

/// What the controller must do in response to one hotkey toggle.
#[derive(Clone, Copy, PartialEq, Eq, Structural, Debug)]
pub enum ToggleAction {
    /// Begin a capture session and announce that recording started.
    StartRecording,
    /// Stop the capture session and run the transcription sequence.
    StopRecording,
    /// No model is loaded: raise a transient notification, change nothing.
    NotifyNoModel,
    /// A transcription is still in flight: drop the toggle entirely.
    Ignored,
}

/// The transition table: next state and required action for one toggle.
///
/// A toggle while recording always stops (re-entrant stop takes precedence
/// over `is_processing`); a toggle while processing but not recording is
/// dropped; a toggle from idle starts a recording only when a model is
/// loaded.
pub open spec fn spec_toggle(st: RecordingState, model_loaded: bool) -> (RecordingState, ToggleAction) {
    if st.is_recording {
        (RecordingState { is_recording: false, is_processing: true }, ToggleAction::StopRecording)
    } else if st.is_processing {
        (st, ToggleAction::Ignored)
    } else if !model_loaded {
        (st, ToggleAction::NotifyNoModel)
    } else {
        (RecordingState { is_recording: true, is_processing: false }, ToggleAction::StartRecording)
    }
}

/// Applies one hotkey toggle to the state and reports the action the caller
/// must carry out.
pub fn toggle(st: &mut RecordingState, model_loaded: bool) -> (a: ToggleAction)
    ensures
        (*final(st), a) == spec_toggle(*old(st), model_loaded),
{
    if st.is_recording {
        st.is_recording = false;
        st.is_processing = true;
        ToggleAction::StopRecording
    } else if st.is_processing {
        ToggleAction::Ignored
    } else if !model_loaded {
        ToggleAction::NotifyNoModel
    } else {
        st.is_recording = true;
        ToggleAction::StartRecording
    }
}

/// Marks the transcription-and-paste sequence as finished, whatever its
/// outcome, so a new recording may start again.
pub fn finish_processing(st: &mut RecordingState)
    ensures
        final(st).is_processing == false,
        final(st).is_recording == old(st).is_recording,
{
    st.is_processing = false;
}

/// A capture session starts only from the fully idle state with a model
/// loaded; in particular a toggle can never start one while a previous
/// transcription is still processing, or while one is already recording.
pub proof fn lemma_start_only_when_ready(st: RecordingState, model_loaded: bool)
    ensures
        spec_toggle(st, model_loaded).1 == ToggleAction::StartRecording
            <==> !st.is_recording && !st.is_processing && model_loaded,
{
}

/// Toggling while idle with no model loaded never transitions to recording
/// and never starts a capture session: the state is left untouched and the
/// only effect is the "no model" notification.
pub proof fn lemma_no_model_refused(st: RecordingState, model_loaded: bool)
    requires
        !st.is_recording,
        !st.is_processing,
        !model_loaded,
    ensures
        spec_toggle(st, model_loaded) == (st, ToggleAction::NotifyNoModel),
        !spec_toggle(st, model_loaded).0.is_recording,
{
}

/// A toggle delivered while processing is true and recording is false is a
/// no-op: no new session starts and no flag changes.
pub proof fn lemma_toggle_while_processing_is_noop(st: RecordingState, model_loaded: bool)
    requires
        st.is_processing,
        !st.is_recording,
    ensures
        spec_toggle(st, model_loaded) == (st, ToggleAction::Ignored),
{
}

/// States the controller can be in: recording and processing are never
/// flagged together, since a stop leaves recording before processing
/// begins and a start is refused while processing.
pub open spec fn controller_inv(st: RecordingState) -> bool {
    !(st.is_recording && st.is_processing)
}

/// The state after a sequence of toggles, each with the model-loaded flag
/// it observed.
pub open spec fn toggles_fold(st: RecordingState, inputs: Seq<bool>) -> RecordingState
    decreases inputs.len(),
{
    if inputs.len() == 0 {
        st
    } else {
        toggles_fold(spec_toggle(st, inputs[0]).0, inputs.drop_first())
    }
}

/// The actions a sequence of toggles produces, in order.
pub open spec fn toggle_actions(st: RecordingState, inputs: Seq<bool>) -> Seq<ToggleAction>
    decreases inputs.len(),
{
    if inputs.len() == 0 {
        Seq::empty()
    } else {
        seq![spec_toggle(st, inputs[0]).1] + toggle_actions(spec_toggle(st, inputs[0]).0, inputs.drop_first())
    }
}

/// How often `a` occurs in `acts`.
pub open spec fn count_action(acts: Seq<ToggleAction>, a: ToggleAction) -> int
    decreases acts.len(),
{
    if acts.len() == 0 {
        0
    } else {
        (if acts[0] == a { 1int } else { 0int }) + count_action(acts.drop_first(), a)
    }
}

/// 1 while a capture session is live, else 0.
pub open spec fn session_flag(st: RecordingState) -> int {
    if st.is_recording { 1 } else { 0 }
}

/// Capture sessions are properly bracketed over every toggle sequence:
/// the starts outnumber the stops exactly by the one session still live
/// at the end, so at most one capture session is active at any instant —
/// a second start can only follow the previous session's stop. The flag
/// invariant is preserved along the way.
pub proof fn lemma_sessions_bracketed(st: RecordingState, inputs: Seq<bool>)
    requires
        controller_inv(st),
    ensures
        controller_inv(toggles_fold(st, inputs)),
        count_action(toggle_actions(st, inputs), ToggleAction::StartRecording)
            - count_action(toggle_actions(st, inputs), ToggleAction::StopRecording)
            == session_flag(toggles_fold(st, inputs)) - session_flag(st),
    decreases inputs.len(),
{
    if inputs.len() > 0 {
        let (st1, a1) = spec_toggle(st, inputs[0]);
        lemma_sessions_bracketed(st1, inputs.drop_first());
        let acts = toggle_actions(st, inputs);
        let rest = toggle_actions(st1, inputs.drop_first());
        assert(acts.drop_first() =~= rest);
        assert(acts[0] == a1);
    }
}

/// While a transcription is in flight and no completion has been signalled,
/// toggles produce no further stop — and so no further transcription
/// attempt: between the stop that began processing and `finish_processing`,
/// every toggle is dropped.
pub proof fn lemma_one_transcription_at_a_time(st: RecordingState, inputs: Seq<bool>)
    requires
        st.is_processing,
        !st.is_recording,
    ensures
        toggles_fold(st, inputs) == st,
        count_action(toggle_actions(st, inputs), ToggleAction::StopRecording) == 0,
        count_action(toggle_actions(st, inputs), ToggleAction::StartRecording) == 0,
    decreases inputs.len(),
{
    if inputs.len() > 0 {
        let (st1, a1) = spec_toggle(st, inputs[0]);
        lemma_one_transcription_at_a_time(st1, inputs.drop_first());
        let acts = toggle_actions(st, inputs);
        assert(acts.drop_first() =~= toggle_actions(st1, inputs.drop_first()));
        assert(acts[0] == a1);
    }
}

/// Two toggles in rapid succession from idle with a loaded model produce
/// exactly one recording start and one recording stop, ending in the
/// processing state; a third toggle before processing completes is dropped,
/// so exactly one transcription attempt follows.
pub proof fn lemma_double_toggle_one_utterance(st: RecordingState, model_loaded: bool)
    requires
        !st.is_recording,
        !st.is_processing,
        model_loaded,
    ensures
        ({
            let (s1, a1) = spec_toggle(st, model_loaded);
            let (s2, a2) = spec_toggle(s1, model_loaded);
            let (s3, a3) = spec_toggle(s2, model_loaded);
            &&& a1 == ToggleAction::StartRecording
            &&& a2 == ToggleAction::StopRecording
            &&& s2 == (RecordingState { is_recording: false, is_processing: true })
            &&& a3 == ToggleAction::Ignored
            &&& s3 == s2
        }),
{
}

} // verus!

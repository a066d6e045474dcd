use dictation_core::state::{finish_processing, toggle, RecordingState, ToggleAction};

#[test]
fn toggle_idle_no_model_is_refused() {
    let mut st = RecordingState { is_recording: false, is_processing: false };
    let a = toggle(&mut st, false);
    assert_eq!(a, ToggleAction::NotifyNoModel);
    assert_eq!(st, RecordingState { is_recording: false, is_processing: false });
}

#[test]
fn toggle_while_processing_is_dropped() {
    let mut st = RecordingState { is_recording: false, is_processing: true };
    let a = toggle(&mut st, true);
    assert_eq!(a, ToggleAction::Ignored);
    assert_eq!(st, RecordingState { is_recording: false, is_processing: true });
    let a2 = toggle(&mut st, false);
    assert_eq!(a2, ToggleAction::Ignored);
    assert_eq!(st, RecordingState { is_recording: false, is_processing: true });
}

#[test]
fn toggle_starts_recording_with_model() {
    let mut st = RecordingState { is_recording: false, is_processing: false };
    let a = toggle(&mut st, true);
    assert_eq!(a, ToggleAction::StartRecording);
    assert_eq!(st, RecordingState { is_recording: true, is_processing: false });
}

#[test]
fn rapid_double_toggle_yields_one_utterance() {
    let mut st = RecordingState { is_recording: false, is_processing: false };
    let mut starts = 0;
    let mut stops = 0;
    for _ in 0..3 {
        match toggle(&mut st, true) {
            ToggleAction::StartRecording => starts += 1,
            ToggleAction::StopRecording => stops += 1,
            ToggleAction::NotifyNoModel => panic!("model is loaded"),
            ToggleAction::Ignored => {}
        }
    }
    // toggle, toggle in rapid succession: exactly one start and one stop;
    // the third toggle lands while processing and is dropped.
    assert_eq!(starts, 1);
    assert_eq!(stops, 1);
    assert_eq!(st, RecordingState { is_recording: false, is_processing: true });
}

#[test]
fn stop_takes_precedence_over_processing() {
    let mut st = RecordingState { is_recording: true, is_processing: true };
    let a = toggle(&mut st, true);
    assert_eq!(a, ToggleAction::StopRecording);
    assert_eq!(st, RecordingState { is_recording: false, is_processing: true });
}

#[test]
fn finish_processing_reopens_the_machine() {
    let mut st = RecordingState { is_recording: false, is_processing: true };
    finish_processing(&mut st);
    assert_eq!(st, RecordingState { is_recording: false, is_processing: false });
    let a = toggle(&mut st, true);
    assert_eq!(a, ToggleAction::StartRecording);
}

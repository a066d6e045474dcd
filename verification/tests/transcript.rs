use dictation_core::engine::{
    assemble_transcript, prepare_transcription, process_transcription_result, trim_text,
    CompletionAction, TranscribeError, WhisperState,
};
use dictation_core::paste::{
    classify_actuation, copy_to_clipboard_and_paste, paste_key_sequence, PasteError, PasteKey,
    PasteOutcome, PasteStep,
};
use dictation_core::resample::ResampleError;

#[test]
fn trim_strips_surrounding_whitespace() {
    assert_eq!(trim_text("  hello world \n"), "hello world");
    assert_eq!(trim_text("no-trim"), "no-trim");
    assert_eq!(trim_text("   \t\r\n"), "");
    assert_eq!(trim_text(""), "");
    assert_eq!(trim_text(" inner  spaces stay "), "inner  spaces stay");
}

#[test]
fn transcript_joins_segments_in_order_and_trims() {
    let segments = vec![" Hello".to_string(), " world".to_string(), " \n".to_string()];
    assert_eq!(assemble_transcript(&segments), "Hello world");
    let empty: Vec<String> = Vec::new();
    assert_eq!(assemble_transcript(&empty), "");
    let spaces = vec![" ".to_string(), " ".to_string()];
    assert_eq!(assemble_transcript(&spaces), "");
}

#[test]
fn model_state_tracks_loaded_path() {
    let mut ws = WhisperState::new();
    assert!(ws.get_active_model().is_none());
    ws.record_model_loaded("/models/ggml-tiny.en.bin".to_string());
    assert_eq!(ws.get_active_model().unwrap(), "/models/ggml-tiny.en.bin");
    ws.record_model_loaded("/models/ggml-base.en.bin".to_string());
    assert_eq!(ws.get_active_model().unwrap(), "/models/ggml-base.en.bin");
}

#[test]
fn transcription_requires_a_loaded_model() {
    let ws = WhisperState::new();
    let samples = vec![0i32; 160];
    let r = prepare_transcription(&samples, 16000, &ws);
    assert!(matches!(r, Err(TranscribeError::NoModelLoaded)));
}

#[test]
fn transcription_rejects_zero_rate_before_model_check() {
    let ws = WhisperState::new();
    let samples = vec![0i32; 160];
    let r = prepare_transcription(&samples, 0, &ws);
    assert!(matches!(r, Err(TranscribeError::Resample(ResampleError::InvalidRate))));
}

#[test]
fn transcription_passes_16k_audio_through() {
    let mut ws = WhisperState::new();
    ws.record_model_loaded("/m/ggml-tiny.en.bin".to_string());
    let samples = vec![1, -2, 3];
    let out = prepare_transcription(&samples, 16000, &ws).unwrap();
    assert_eq!(out, samples);
}

#[test]
fn empty_transcript_is_no_speech_and_never_pastes() {
    let a = process_transcription_result(Ok(String::new()));
    assert!(matches!(a, CompletionAction::ReportNoSpeech));
}

#[test]
fn blank_audio_marker_is_no_speech_and_never_pastes() {
    let a = process_transcription_result(Ok("[BLANK_AUDIO]".to_string()));
    assert!(matches!(a, CompletionAction::ReportNoSpeech));
}

#[test]
fn real_text_is_pasted_verbatim() {
    let a = process_transcription_result(Ok("take a letter".to_string()));
    match a {
        CompletionAction::Paste(t) => assert_eq!(t, "take a letter"),
        _ => panic!("real text must reach the paste actuator"),
    }
}

#[test]
fn engine_errors_are_surfaced_not_pasted() {
    let a = process_transcription_result(Err(TranscribeError::Engine("decode failed".to_string())));
    match a {
        CompletionAction::ReportError(TranscribeError::Engine(m)) => assert_eq!(m, "decode failed"),
        _ => panic!("engine errors must be reported"),
    }
}

#[test]
fn silent_utterance_pipeline_never_pastes() {
    // device default rate 44100 Hz, a 2-second mono buffer of all zeros
    let mut ws = WhisperState::new();
    ws.record_model_loaded("/m/ggml-tiny.en.bin".to_string());
    let silence = vec![0i32; 88200];
    let pcm16k = prepare_transcription(&silence, 44100, &ws).unwrap();
    assert_eq!(pcm16k.len(), 32000);
    assert!(pcm16k.iter().all(|&s| s == 0));
    // the engine reports silence for such input; both sentinel shapes stay
    // away from the paste actuator
    for engine_text in ["", "[BLANK_AUDIO]"] {
        let a = process_transcription_result(Ok(engine_text.to_string()));
        assert!(matches!(&a, CompletionAction::ReportNoSpeech));
        assert!(!matches!(&a, CompletionAction::Paste(_)));
    }
}

#[test]
fn paste_chord_has_four_spaced_key_events() {
    let plan = paste_key_sequence();
    assert_eq!(
        plan,
        vec![
            PasteStep { key: PasteKey::CtrlDown, delay_before_ms: 50 },
            PasteStep { key: PasteKey::VDown, delay_before_ms: 20 },
            PasteStep { key: PasteKey::VUp, delay_before_ms: 20 },
            PasteStep { key: PasteKey::CtrlUp, delay_before_ms: 20 },
        ]
    );
}

#[test]
fn clipboard_failure_yields_no_keystroke_plan() {
    // whether the clipboard is reachable depends on the environment; either
    // the full chord comes back, or the clipboard failure and with it no
    // keystroke plan at all
    match copy_to_clipboard_and_paste("dictated text") {
        Ok(plan) => assert_eq!(plan, paste_key_sequence()),
        Err(PasteError::ClipboardFailure(msg)) => assert!(!msg.is_empty()),
    }
}

#[test]
fn keystroke_failure_after_clipboard_success_is_partial() {
    assert_eq!(classify_actuation(true), PasteOutcome::Delivered);
    assert_eq!(classify_actuation(false), PasteOutcome::DeliveredClipboardOnly);
}

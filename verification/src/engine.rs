//! Transcription-side rules: the loaded-model state, the guard that stops
//! inference without a model, assembly of the engine's text segments into
//! one trimmed transcript, and the classification that keeps empty or
//! silence-marker results away from the paste actuator.

use vstd::prelude::*;
use vstd::string::*;
use crate::level::all_in_range;
use crate::resample::{resample_to_16khz, resample_at, resampled_len, ResampleError};

verus! {

/// Whitespace stripped from the ends of a transcript.
pub open spec fn spec_is_space(c: char) -> bool {
    c == ' ' || c == '\t' || c == '\n' || c == '\r'
}

fn is_space(c: char) -> (r: bool)
    ensures
        r == spec_is_space(c),
{
    c == ' ' || c == '\t' || c == '\n' || c == '\r'
}

/// The sequence with its leading whitespace removed.
pub open spec fn trim_start_rec(s: Seq<char>) -> Seq<char>
    decreases s.len(),
{
    if s.len() > 0 && spec_is_space(s[0]) {
        trim_start_rec(s.drop_first())
    } else {
        s
    }
}

/// The sequence with its trailing whitespace removed.
pub open spec fn trim_end_rec(s: Seq<char>) -> Seq<char>
    decreases s.len(),
{
    if s.len() > 0 && spec_is_space(s.last()) {
        trim_end_rec(s.drop_last())
    } else {
        s
    }
}

/// The sequence with whitespace removed from both ends.
pub open spec fn trimmed(s: Seq<char>) -> Seq<char> {
    trim_end_rec(trim_start_rec(s))
}

proof fn lemma_trim_start_skip(s: Seq<char>, k: int)
    requires
        0 <= k <= s.len(),
        forall|j: int| 0 <= j < k ==> spec_is_space(#[trigger] s[j]),
        k == s.len() || !spec_is_space(s[k]),
    ensures
        trim_start_rec(s) == s.skip(k),
    decreases k,
{
    if k == 0 {
        assert(s.skip(0) =~= s);
    } else {
        let t = s.drop_first();
        assert(forall|j: int| 0 <= j < k - 1 ==> spec_is_space(#[trigger] t[j]));
        lemma_trim_start_skip(t, k - 1);
        assert(t.skip(k - 1) =~= s.skip(k));
    }
}

proof fn lemma_trim_end_take(t: Seq<char>, m: int)
    requires
        0 <= m <= t.len(),
        forall|j: int| m <= j < t.len() ==> spec_is_space(#[trigger] t[j]),
        m == 0 || !spec_is_space(t[m - 1]),
    ensures
        trim_end_rec(t) == t.take(m),
    decreases t.len(),
{
    if t.len() > m {
        let u = t.drop_last();
        assert(spec_is_space(t.last()));
        lemma_trim_end_take(u, m);
        assert(u.take(m) =~= t.take(m));
    } else {
        assert(t.take(m) =~= t);
    }
}

/// Removes leading and trailing whitespace from a string, character-wise.
pub fn trim_text(s: &str) -> (r: String)
    ensures
        r@ == trimmed(s@),
{
    let n = s.unicode_len();
    let mut start: usize = 0;
    while start < n && is_space(s.get_char(start))
        invariant
            n == s@.len(),
            start <= n,
            forall|j: int| 0 <= j < start ==> spec_is_space(#[trigger] s@[j]),
        decreases n - start,
    {
        start = start + 1;
    }
    proof {
        lemma_trim_start_skip(s@, start as int);
    }
    let mut end: usize = n;
    while end > start && is_space(s.get_char(end - 1))
        invariant
            n == s@.len(),
            start <= end <= n,
            forall|j: int| end <= j < n ==> spec_is_space(#[trigger] s@[j]),
        decreases end,
    {
        end = end - 1;
    }
    proof {
        let t = s@.skip(start as int);
        assert(forall|j: int| end - start <= j < t.len() ==> spec_is_space(#[trigger] t[j]));
        lemma_trim_end_take(t, end - start);
        assert(t.take(end - start) =~= s@.subrange(start as int, end as int));
    }
    let piece = s.substring_char(start, end);
    piece.to_owned()
}

/// Concatenation of all segment texts, in order.
pub open spec fn concat_segments(ss: Seq<String>) -> Seq<char>
    decreases ss.len(),
{
    if ss.len() == 0 {
        Seq::empty()
    } else {
        concat_segments(ss.drop_last()) + ss.last()@
    }
}

/// Joins the engine's text segments in order and trims surrounding
/// whitespace, yielding the transcript handed to the caller.
pub fn assemble_transcript(segments: &Vec<String>) -> (r: String)
    ensures
        r@ == trimmed(concat_segments(segments@)),
{
    let mut acc = String::new();
    let mut i: usize = 0;
    while i < segments.len()
        invariant
            i <= segments@.len(),
            acc@ == concat_segments(segments@.subrange(0, i as int)),
        decreases segments@.len() - i,
    {
        proof {
            assert(segments@.subrange(0, i as int + 1).drop_last()
                =~= segments@.subrange(0, i as int));
        }
        acc.append(segments[i].as_str());
        i = i + 1;
    }
    proof {
        assert(segments@.subrange(0, segments@.len() as int) =~= segments@);
    }
    trim_text(acc.as_str())
}

/// A transcript that means "no speech detected": the empty string, or the
/// literal marker the engine emits for silent or non-speech input.
pub open spec fn is_silence_text(t: Seq<char>) -> bool {
    t.len() == 0 || t == "[BLANK_AUDIO]"@
}

/// Why a transcription attempt failed.
#[derive(Debug)]
pub enum TranscribeError {
    /// No model context is loaded; the caller must load one first.
    NoModelLoaded,
    /// The buffer could not be brought to the engine's input rate.
    Resample(ResampleError),
    /// The engine itself reported a failure, with its message.
    Engine(String),
}

/// The loaded-model state: the path of the active model context, if one
/// has been loaded. The opaque engine context itself lives with the
/// embedding; loading both is a single step, so path presence and context
/// presence coincide.
pub struct WhisperState {
    pub model_path: Option<String>,
}

impl WhisperState {
    /// A model context is loaded exactly when a path is recorded.
    pub open spec fn loaded(self) -> bool {
        self.model_path is Some
    }

    pub fn new() -> (r: WhisperState)
        ensures
            !r.loaded(),
    {
        WhisperState { model_path: None }
    }

    /// Records that the engine successfully loaded a context from `path`,
    /// replacing any previous one.
    pub fn record_model_loaded(&mut self, path: String)
        ensures
            final(self).loaded(),
            final(self).model_path == Some(path),
    {
        self.model_path = Some(path);
    }

    /// The path of the active model, if any.
    pub fn get_active_model(&self) -> (r: Option<String>)
        ensures
            r is Some <==> self.loaded(),
            r matches Some(p) ==> self.model_path matches Some(q) && p@ == q@,
    {
        match &self.model_path {
            Some(p) => Some(p.clone()),
            None => None,
        }
    }
}

/// Everything that must hold before inference may run: the buffer is
/// brought to the engine's rate, and a model context must be loaded;
/// otherwise the distinct "no model loaded" condition is reported. The
/// engine call itself consumes the returned samples.
pub fn prepare_transcription(samples: &Vec<i32>, sample_rate: u32, ws: &WhisperState) -> (r: Result<Vec<i32>, TranscribeError>)
    requires
        all_in_range(samples@),
        samples@.len() * 16000 <= usize::MAX,
    ensures
        sample_rate == 0 ==> r == Err::<Vec<i32>, TranscribeError>(TranscribeError::Resample(ResampleError::InvalidRate)),
        sample_rate != 0 && !ws.loaded() ==> r == Err::<Vec<i32>, TranscribeError>(TranscribeError::NoModelLoaded),
        sample_rate != 0 && ws.loaded() ==> (r matches Ok(out) && {
            &&& out@.len() == resampled_len(samples@.len() as int, sample_rate as int)
            &&& forall|i: int| 0 <= i < out@.len()
                ==> (#[trigger] out@[i]) as int == resample_at(samples@, sample_rate as int, i)
            &&& all_in_range(out@)
        }),
        sample_rate == 16000 && ws.loaded() ==> (r matches Ok(out) && out@ == samples@),
{
    let resampled = match resample_to_16khz(samples, sample_rate) {
        Ok(v) => v,
        Err(e) => {
            return Err(TranscribeError::Resample(e));
        },
    };
    match &ws.model_path {
        Some(_) => Ok(resampled),
        None => Err(TranscribeError::NoModelLoaded),
    }
}

/// What the controller must do once the transcription attempt resolves.
pub enum CompletionAction {
    /// Real text came back: deliver it through the paste actuator and
    /// announce completion.
    Paste(String),
    /// The engine heard nothing usable: report "no speech", paste nothing.
    ReportNoSpeech,
    /// The attempt failed: surface the error, paste nothing.
    ReportError(TranscribeError),
}

/// Decides what follows a finished transcription attempt. Only a
/// non-empty transcript that is not the silence marker reaches the paste
/// actuator; empty or marker text is a non-error "no speech" outcome.
pub fn process_transcription_result(r: Result<String, TranscribeError>) -> (a: CompletionAction)
    ensures
        (match r {
            Ok(t) => {
                if is_silence_text(t@) {
                    a == CompletionAction::ReportNoSpeech
                } else {
                    a matches CompletionAction::Paste(p) && p@ == t@
                }
            },
            Err(e) => a == CompletionAction::ReportError(e),
        }),
        !(r matches Ok(t) && !is_silence_text(t@)) ==> !(a is Paste),
{
    match r {
        Ok(t) => {
            if t.as_str().is_empty() {
                return CompletionAction::ReportNoSpeech;
            }
            let marker = "[BLANK_AUDIO]".to_owned();
            if t == marker {
                CompletionAction::ReportNoSpeech
            } else {
                CompletionAction::Paste(t)
            }
        },
        Err(e) => CompletionAction::ReportError(e),
    }
}

} // verus!

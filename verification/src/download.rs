//! The model download manager's decisions: resolving a catalog id, the
//! idempotent already-downloaded fast path, the temporary sibling file's
//! name, chunk-by-chunk progress accounting, and the rule that the
//! temporary file is promoted to the final name only after the stream
//! completed.

use vstd::prelude::*;
use vstd::string::*;
use crate::catalog::{find_preset, found_at, PresetModel};

verus! {

/// Index of the last '.' of the name, or -1 when it has none.
pub open spec fn last_dot(f: Seq<char>) -> int
    decreases f.len(),
{
    if f.len() == 0 {
        -1
    } else if f.last() == '.' {
        f.len() - 1
    } else {
        last_dot(f.drop_last())
    }
}

/// The name's stem: everything before its last '.', or all of it when it
/// has none.
pub open spec fn name_stem(f: Seq<char>) -> Seq<char> {
    if last_dot(f) >= 0 {
        f.take(last_dot(f))
    } else {
        f
    }
}

/// The temporary sibling file's name: the stem with the extension "tmp".
pub open spec fn temp_name_spec(f: Seq<char>) -> Seq<char> {
    name_stem(f) + ".tmp"@
}

proof fn lemma_last_dot_bounds(f: Seq<char>)
    ensures
        -1 <= last_dot(f) < f.len(),
        last_dot(f) >= 0 ==> f[last_dot(f)] == '.',
        forall|j: int| last_dot(f) < j < f.len() ==> #[trigger] f[j] != '.',
    decreases f.len(),
{
    if f.len() > 0 && f.last() != '.' {
        lemma_last_dot_bounds(f.drop_last());
        assert forall|j: int| last_dot(f) < j < f.len() implies #[trigger] f[j] != '.' by {
            if j < f.len() - 1 {
                assert(f.drop_last()[j] != '.');
                assert(f.drop_last()[j] == f[j]);
            } else {
                assert(f[j] == f.last());
            }
        }
        if last_dot(f) >= 0 {
            assert(f.drop_last()[last_dot(f)] == f[last_dot(f)]);
        }
    }
}

proof fn lemma_last_dot_scan(f: Seq<char>, i: int)
    requires
        0 <= i <= f.len(),
        forall|j: int| i <= j < f.len() ==> #[trigger] f[j] != '.',
    ensures
        last_dot(f) == last_dot(f.take(i)),
    decreases f.len() - i,
{
    if i < f.len() {
        lemma_last_dot_scan(f, i + 1);
        assert(f.take(i + 1).drop_last() =~= f.take(i));
        assert(f.take(i + 1).last() == f[i]);
    } else {
        assert(f.take(i) =~= f);
    }
}

/// Computes the temporary sibling name for a model file: its extension is
/// replaced by "tmp", or ".tmp" is appended when it has no extension.
pub fn temp_file_name(filename: &str) -> (r: String)
    ensures
        r@ == temp_name_spec(filename@),
{
    let n = filename.unicode_len();
    let mut i: usize = n;
    while i > 0
        invariant
            n == filename@.len(),
            i <= n,
            forall|j: int| i <= j < n ==> #[trigger] filename@[j] != '.',
        decreases i,
    {
        if filename.get_char(i - 1) == '.' {
            proof {
                lemma_last_dot_scan(filename@, i as int);
                lemma_last_dot_bounds(filename@.take(i as int));
                assert(filename@.take(i as int).last() == filename@[i - 1]);
                assert(last_dot(filename@) == i - 1);
            }
            let stem = filename.substring_char(0, i - 1);
            proof {
                assert(stem@ =~= name_stem(filename@));
            }
            return stem.to_owned().concat(".tmp");
        }
        i = i - 1;
    }
    proof {
        lemma_last_dot_scan(filename@, 0);
        assert(filename@.take(0) =~= Seq::<char>::empty());
        assert(last_dot(filename@) == -1);
    }
    let all = filename.substring_char(0, n);
    proof {
        assert(all@ =~= name_stem(filename@));
    }
    all.to_owned().concat(".tmp")
}

/// What one download request must do.
pub enum DownloadPlan {
    /// The file already sits at its final name: done, touch nothing, fetch
    /// nothing.
    AlreadyDownloaded,
    /// Stream `url` into the temporary sibling file, then promote it.
    Fetch { url: String, temp_name: String, final_name: String },
}

/// Why a download request is refused outright.
#[derive(Clone, Copy, PartialEq, Eq, Structural, Debug)]
pub enum DownloadError {
    /// The id names no catalog entry.
    UnknownModel,
}

/// Decides one download request. An unknown id is refused; a file already
/// present under its final name finishes immediately — no temporary file,
/// no network; otherwise the entry's URL is to be streamed into the
/// temporary sibling file.
pub fn download_plan(presets: &Vec<PresetModel>, model_id: &String, file_exists: bool) -> (r: Result<DownloadPlan, DownloadError>)
    ensures
        r is Err <==> (forall|j: int| 0 <= j < presets@.len()
            ==> (#[trigger] presets@[j]).id@ != model_id@),
        r matches Err(e) ==> e is UnknownModel,
        r is Ok && file_exists ==> r == Ok::<DownloadPlan, DownloadError>(DownloadPlan::AlreadyDownloaded),
        r is Ok && !file_exists ==> (r matches Ok(p) && p matches DownloadPlan::Fetch { url, temp_name, final_name }
            && exists|i: int| #[trigger] found_at(presets@, model_id@, i)
                && url@ == presets@[i].url@
                && final_name@ == presets@[i].filename@
                && temp_name@ == temp_name_spec(presets@[i].filename@)),
{
    let idx = match find_preset(presets, model_id) {
        Some(i) => i,
        None => {
            return Err(DownloadError::UnknownModel);
        },
    };
    if file_exists {
        return Ok(DownloadPlan::AlreadyDownloaded);
    }
    let entry = &presets[idx];
    let temp_name = temp_file_name(entry.filename.as_str());
    proof {
        assert(found_at(presets@, model_id@, idx as int));
    }
    Ok(DownloadPlan::Fetch {
        url: entry.url.clone(),
        temp_name,
        final_name: entry.filename.clone(),
    })
}

/// One in-flight download: bytes received so far against the declared
/// total.
pub struct DownloadJob {
    pub received: u64,
    pub total: u64,
}

/// One progress notification: percentage (clipped at 100), bytes so far,
/// and the declared total.
#[derive(Clone, Copy, PartialEq, Eq, Structural, Debug)]
pub struct DownloadProgress {
    pub percent: u64,
    pub received: u64,
    pub total: u64,
}

impl DownloadJob {
    pub fn new(total: u64) -> (r: DownloadJob)
        ensures
            r.received == 0,
            r.total == total,
    {
        DownloadJob { received: 0, total }
    }

    /// Accounts one received chunk and, when a total was declared, yields
    /// the progress notification to emit; with no declared total nothing
    /// is emitted.
    pub fn on_chunk(&mut self, n: u64) -> (p: Option<DownloadProgress>)
        requires
            old(self).received + n <= u64::MAX,
        ensures
            final(self).received == old(self).received + n,
            final(self).total == old(self).total,
            old(self).total > 0 ==> (p matches Some(pr) && {
                &&& pr.received == final(self).received
                &&& pr.total == final(self).total
                &&& pr.percent == {
                    let raw = (final(self).received as int) * 100 / (final(self).total as int);
                    if raw < 100 { raw } else { 100int }
                }
            }),
            old(self).total == 0 ==> p is None,
    {
        self.received = self.received + n;
        if self.total == 0 {
            return None;
        }
        let raw: u128 = (self.received as u128) * 100 / (self.total as u128);
        let percent: u64 = if raw >= 100 { 100 } else { raw as u64 };
        Some(DownloadProgress { percent, received: self.received, total: self.total })
    }
}

/// What happens to the temporary file when the stream ends: it is renamed
/// to the final name only after the whole stream arrived; after a failure
/// it stays where it is, never visible under the final name, and a later
/// attempt starts from scratch.
#[derive(Clone, Copy, PartialEq, Eq, Structural, Debug)]
pub enum FinishAction {
    PromoteTempFile,
    LeaveTempFile,
}

/// Decides the fate of the temporary file from the stream's outcome.
pub fn download_epilogue(stream_complete: bool) -> (a: FinishAction)
    ensures
        a is PromoteTempFile <==> stream_complete,
{
    if stream_complete {
        FinishAction::PromoteTempFile
    } else {
        FinishAction::LeaveTempFile
    }
}

} // verus!

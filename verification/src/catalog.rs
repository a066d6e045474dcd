//! The preset model catalog: the static table of downloadable speech-model
//! artifacts, lookup by id, and the per-model status listing.

use vstd::prelude::*;

verus! {

/// One downloadable model artifact: catalog id, display name, local file
/// name under the models directory, human-readable size, and download URL.
#[derive(Clone)]
pub struct PresetModel {
    pub id: String,
    pub name: String,
    pub filename: String,
    pub size: String,
    pub url: String,
}

/// One catalog entry together with its local status, for display.
pub struct ModelInfo {
    pub id: String,
    pub name: String,
    pub filename: String,
    pub size: String,
    pub downloaded: bool,
    pub active: bool,
}

/// The fields of `m` spell out exactly the five given strings.
pub open spec fn is_entry(m: PresetModel, id: &str, name: &str, filename: &str, size: &str, url: &str) -> bool {
    m.id@ == id@ && m.name@ == name@ && m.filename@ == filename@ && m.size@ == size@ && m.url@ == url@
}

/// Builds one catalog entry from its five fields.
fn preset(id: &str, name: &str, filename: &str, size: &str, url: &str) -> (m: PresetModel)
    ensures
        is_entry(m, id, name, filename, size, url),
{
    PresetModel {
        id: id.to_owned(),
        name: name.to_owned(),
        filename: filename.to_owned(),
        size: size.to_owned(),
        url: url.to_owned(),
    }
}

/// The full preset catalog, in display order.
#[verifier::rlimit(60)]
pub fn get_preset_models() -> (r: Vec<PresetModel>)
    ensures
        r@.len() == 33,
        is_entry(r@[0], "tiny.en", "Tiny (English)", "ggml-tiny.en.bin", "78 MB", "https://huggingface.co/ggerganov/whisper.cpp/resolve/main/ggml-tiny.en.bin"),
        is_entry(r@[1], "base.en", "Base (English)", "ggml-base.en.bin", "148 MB", "https://huggingface.co/ggerganov/whisper.cpp/resolve/main/ggml-base.en.bin"),
        is_entry(r@[2], "small.en", "Small (English)", "ggml-small.en.bin", "488 MB", "https://huggingface.co/ggerganov/whisper.cpp/resolve/main/ggml-small.en.bin"),
        is_entry(r@[3], "medium.en", "Medium (English)", "ggml-medium.en.bin", "1.53 GB", "https://huggingface.co/ggerganov/whisper.cpp/resolve/main/ggml-medium.en.bin"),
        is_entry(r@[4], "tiny", "Tiny (Multilingual)", "ggml-tiny.bin", "78 MB", "https://huggingface.co/ggerganov/whisper.cpp/resolve/main/ggml-tiny.bin"),
        is_entry(r@[5], "base", "Base (Multilingual)", "ggml-base.bin", "148 MB", "https://huggingface.co/ggerganov/whisper.cpp/resolve/main/ggml-base.bin"),
        is_entry(r@[6], "small", "Small (Multilingual)", "ggml-small.bin", "488 MB", "https://huggingface.co/ggerganov/whisper.cpp/resolve/main/ggml-small.bin"),
        is_entry(r@[7], "medium", "Medium (Multilingual)", "ggml-medium.bin", "1.53 GB", "https://huggingface.co/ggerganov/whisper.cpp/resolve/main/ggml-medium.bin"),
        is_entry(r@[8], "large-v1", "Large v1", "ggml-large-v1.bin", "3.09 GB", "https://huggingface.co/ggerganov/whisper.cpp/resolve/main/ggml-large-v1.bin"),
        is_entry(r@[9], "large-v2", "Large v2", "ggml-large-v2.bin", "3.09 GB", "https://huggingface.co/ggerganov/whisper.cpp/resolve/main/ggml-large-v2.bin"),
        is_entry(r@[10], "large-v3", "Large v3 (Best)", "ggml-large-v3.bin", "3.1 GB", "https://huggingface.co/ggerganov/whisper.cpp/resolve/main/ggml-large-v3.bin"),
        is_entry(r@[11], "large-v3-turbo", "Large v3 Turbo (Fast)", "ggml-large-v3-turbo.bin", "1.62 GB", "https://huggingface.co/ggerganov/whisper.cpp/resolve/main/ggml-large-v3-turbo.bin"),
        is_entry(r@[12], "tiny.en-q5_1", "Tiny Q5 (English)", "ggml-tiny.en-q5_1.bin", "32 MB", "https://huggingface.co/ggerganov/whisper.cpp/resolve/main/ggml-tiny.en-q5_1.bin"),
        is_entry(r@[13], "tiny-q5_1", "Tiny Q5 (Multilingual)", "ggml-tiny-q5_1.bin", "32 MB", "https://huggingface.co/ggerganov/whisper.cpp/resolve/main/ggml-tiny-q5_1.bin"),
        is_entry(r@[14], "base.en-q5_1", "Base Q5 (English)", "ggml-base.en-q5_1.bin", "60 MB", "https://huggingface.co/ggerganov/whisper.cpp/resolve/main/ggml-base.en-q5_1.bin"),
        is_entry(r@[15], "base-q5_1", "Base Q5 (Multilingual)", "ggml-base-q5_1.bin", "60 MB", "https://huggingface.co/ggerganov/whisper.cpp/resolve/main/ggml-base-q5_1.bin"),
        is_entry(r@[16], "small.en-q5_1", "Small Q5 (English)", "ggml-small.en-q5_1.bin", "190 MB", "https://huggingface.co/ggerganov/whisper.cpp/resolve/main/ggml-small.en-q5_1.bin"),
        is_entry(r@[17], "small-q5_1", "Small Q5 (Multilingual)", "ggml-small-q5_1.bin", "190 MB", "https://huggingface.co/ggerganov/whisper.cpp/resolve/main/ggml-small-q5_1.bin"),
        is_entry(r@[18], "medium.en-q5_0", "Medium Q5 (English)", "ggml-medium.en-q5_0.bin", "539 MB", "https://huggingface.co/ggerganov/whisper.cpp/resolve/main/ggml-medium.en-q5_0.bin"),
        is_entry(r@[19], "medium-q5_0", "Medium Q5 (Multilingual)", "ggml-medium-q5_0.bin", "539 MB", "https://huggingface.co/ggerganov/whisper.cpp/resolve/main/ggml-medium-q5_0.bin"),
        is_entry(r@[20], "large-v2-q5_0", "Large v2 Q5", "ggml-large-v2-q5_0.bin", "1.08 GB", "https://huggingface.co/ggerganov/whisper.cpp/resolve/main/ggml-large-v2-q5_0.bin"),
        is_entry(r@[21], "large-v3-q5_0", "Large v3 Q5", "ggml-large-v3-q5_0.bin", "1.08 GB", "https://huggingface.co/ggerganov/whisper.cpp/resolve/main/ggml-large-v3-q5_0.bin"),
        is_entry(r@[22], "large-v3-turbo-q5_0", "Large v3 Turbo Q5", "ggml-large-v3-turbo-q5_0.bin", "574 MB", "https://huggingface.co/ggerganov/whisper.cpp/resolve/main/ggml-large-v3-turbo-q5_0.bin"),
        is_entry(r@[23], "tiny.en-q8_0", "Tiny Q8 (English)", "ggml-tiny.en-q8_0.bin", "44 MB", "https://huggingface.co/ggerganov/whisper.cpp/resolve/main/ggml-tiny.en-q8_0.bin"),
        is_entry(r@[24], "tiny-q8_0", "Tiny Q8 (Multilingual)", "ggml-tiny-q8_0.bin", "44 MB", "https://huggingface.co/ggerganov/whisper.cpp/resolve/main/ggml-tiny-q8_0.bin"),
        is_entry(r@[25], "base.en-q8_0", "Base Q8 (English)", "ggml-base.en-q8_0.bin", "82 MB", "https://huggingface.co/ggerganov/whisper.cpp/resolve/main/ggml-base.en-q8_0.bin"),
        is_entry(r@[26], "base-q8_0", "Base Q8 (Multilingual)", "ggml-base-q8_0.bin", "82 MB", "https://huggingface.co/ggerganov/whisper.cpp/resolve/main/ggml-base-q8_0.bin"),
        is_entry(r@[27], "small.en-q8_0", "Small Q8 (English)", "ggml-small.en-q8_0.bin", "264 MB", "https://huggingface.co/ggerganov/whisper.cpp/resolve/main/ggml-small.en-q8_0.bin"),
        is_entry(r@[28], "small-q8_0", "Small Q8 (Multilingual)", "ggml-small-q8_0.bin", "264 MB", "https://huggingface.co/ggerganov/whisper.cpp/resolve/main/ggml-small-q8_0.bin"),
        is_entry(r@[29], "medium.en-q8_0", "Medium Q8 (English)", "ggml-medium.en-q8_0.bin", "823 MB", "https://huggingface.co/ggerganov/whisper.cpp/resolve/main/ggml-medium.en-q8_0.bin"),
        is_entry(r@[30], "medium-q8_0", "Medium Q8 (Multilingual)", "ggml-medium-q8_0.bin", "823 MB", "https://huggingface.co/ggerganov/whisper.cpp/resolve/main/ggml-medium-q8_0.bin"),
        is_entry(r@[31], "large-v2-q8_0", "Large v2 Q8", "ggml-large-v2-q8_0.bin", "1.66 GB", "https://huggingface.co/ggerganov/whisper.cpp/resolve/main/ggml-large-v2-q8_0.bin"),
        is_entry(r@[32], "large-v3-turbo-q8_0", "Large v3 Turbo Q8", "ggml-large-v3-turbo-q8_0.bin", "874 MB", "https://huggingface.co/ggerganov/whisper.cpp/resolve/main/ggml-large-v3-turbo-q8_0.bin"),
{
    let mut v: Vec<PresetModel> = Vec::new();
    v.push(preset("tiny.en", "Tiny (English)", "ggml-tiny.en.bin", "78 MB", "https://huggingface.co/ggerganov/whisper.cpp/resolve/main/ggml-tiny.en.bin"));
    v.push(preset("base.en", "Base (English)", "ggml-base.en.bin", "148 MB", "https://huggingface.co/ggerganov/whisper.cpp/resolve/main/ggml-base.en.bin"));
    v.push(preset("small.en", "Small (English)", "ggml-small.en.bin", "488 MB", "https://huggingface.co/ggerganov/whisper.cpp/resolve/main/ggml-small.en.bin"));
    v.push(preset("medium.en", "Medium (English)", "ggml-medium.en.bin", "1.53 GB", "https://huggingface.co/ggerganov/whisper.cpp/resolve/main/ggml-medium.en.bin"));
    v.push(preset("tiny", "Tiny (Multilingual)", "ggml-tiny.bin", "78 MB", "https://huggingface.co/ggerganov/whisper.cpp/resolve/main/ggml-tiny.bin"));
    v.push(preset("base", "Base (Multilingual)", "ggml-base.bin", "148 MB", "https://huggingface.co/ggerganov/whisper.cpp/resolve/main/ggml-base.bin"));
    v.push(preset("small", "Small (Multilingual)", "ggml-small.bin", "488 MB", "https://huggingface.co/ggerganov/whisper.cpp/resolve/main/ggml-small.bin"));
    v.push(preset("medium", "Medium (Multilingual)", "ggml-medium.bin", "1.53 GB", "https://huggingface.co/ggerganov/whisper.cpp/resolve/main/ggml-medium.bin"));
    v.push(preset("large-v1", "Large v1", "ggml-large-v1.bin", "3.09 GB", "https://huggingface.co/ggerganov/whisper.cpp/resolve/main/ggml-large-v1.bin"));
    v.push(preset("large-v2", "Large v2", "ggml-large-v2.bin", "3.09 GB", "https://huggingface.co/ggerganov/whisper.cpp/resolve/main/ggml-large-v2.bin"));
    v.push(preset("large-v3", "Large v3 (Best)", "ggml-large-v3.bin", "3.1 GB", "https://huggingface.co/ggerganov/whisper.cpp/resolve/main/ggml-large-v3.bin"));
    v.push(preset("large-v3-turbo", "Large v3 Turbo (Fast)", "ggml-large-v3-turbo.bin", "1.62 GB", "https://huggingface.co/ggerganov/whisper.cpp/resolve/main/ggml-large-v3-turbo.bin"));
    v.push(preset("tiny.en-q5_1", "Tiny Q5 (English)", "ggml-tiny.en-q5_1.bin", "32 MB", "https://huggingface.co/ggerganov/whisper.cpp/resolve/main/ggml-tiny.en-q5_1.bin"));
    v.push(preset("tiny-q5_1", "Tiny Q5 (Multilingual)", "ggml-tiny-q5_1.bin", "32 MB", "https://huggingface.co/ggerganov/whisper.cpp/resolve/main/ggml-tiny-q5_1.bin"));
    v.push(preset("base.en-q5_1", "Base Q5 (English)", "ggml-base.en-q5_1.bin", "60 MB", "https://huggingface.co/ggerganov/whisper.cpp/resolve/main/ggml-base.en-q5_1.bin"));
    v.push(preset("base-q5_1", "Base Q5 (Multilingual)", "ggml-base-q5_1.bin", "60 MB", "https://huggingface.co/ggerganov/whisper.cpp/resolve/main/ggml-base-q5_1.bin"));
    v.push(preset("small.en-q5_1", "Small Q5 (English)", "ggml-small.en-q5_1.bin", "190 MB", "https://huggingface.co/ggerganov/whisper.cpp/resolve/main/ggml-small.en-q5_1.bin"));
    v.push(preset("small-q5_1", "Small Q5 (Multilingual)", "ggml-small-q5_1.bin", "190 MB", "https://huggingface.co/ggerganov/whisper.cpp/resolve/main/ggml-small-q5_1.bin"));
    v.push(preset("medium.en-q5_0", "Medium Q5 (English)", "ggml-medium.en-q5_0.bin", "539 MB", "https://huggingface.co/ggerganov/whisper.cpp/resolve/main/ggml-medium.en-q5_0.bin"));
    v.push(preset("medium-q5_0", "Medium Q5 (Multilingual)", "ggml-medium-q5_0.bin", "539 MB", "https://huggingface.co/ggerganov/whisper.cpp/resolve/main/ggml-medium-q5_0.bin"));
    v.push(preset("large-v2-q5_0", "Large v2 Q5", "ggml-large-v2-q5_0.bin", "1.08 GB", "https://huggingface.co/ggerganov/whisper.cpp/resolve/main/ggml-large-v2-q5_0.bin"));
    v.push(preset("large-v3-q5_0", "Large v3 Q5", "ggml-large-v3-q5_0.bin", "1.08 GB", "https://huggingface.co/ggerganov/whisper.cpp/resolve/main/ggml-large-v3-q5_0.bin"));
    v.push(preset("large-v3-turbo-q5_0", "Large v3 Turbo Q5", "ggml-large-v3-turbo-q5_0.bin", "574 MB", "https://huggingface.co/ggerganov/whisper.cpp/resolve/main/ggml-large-v3-turbo-q5_0.bin"));
    v.push(preset("tiny.en-q8_0", "Tiny Q8 (English)", "ggml-tiny.en-q8_0.bin", "44 MB", "https://huggingface.co/ggerganov/whisper.cpp/resolve/main/ggml-tiny.en-q8_0.bin"));
    v.push(preset("tiny-q8_0", "Tiny Q8 (Multilingual)", "ggml-tiny-q8_0.bin", "44 MB", "https://huggingface.co/ggerganov/whisper.cpp/resolve/main/ggml-tiny-q8_0.bin"));
    v.push(preset("base.en-q8_0", "Base Q8 (English)", "ggml-base.en-q8_0.bin", "82 MB", "https://huggingface.co/ggerganov/whisper.cpp/resolve/main/ggml-base.en-q8_0.bin"));
    v.push(preset("base-q8_0", "Base Q8 (Multilingual)", "ggml-base-q8_0.bin", "82 MB", "https://huggingface.co/ggerganov/whisper.cpp/resolve/main/ggml-base-q8_0.bin"));
    v.push(preset("small.en-q8_0", "Small Q8 (English)", "ggml-small.en-q8_0.bin", "264 MB", "https://huggingface.co/ggerganov/whisper.cpp/resolve/main/ggml-small.en-q8_0.bin"));
    v.push(preset("small-q8_0", "Small Q8 (Multilingual)", "ggml-small-q8_0.bin", "264 MB", "https://huggingface.co/ggerganov/whisper.cpp/resolve/main/ggml-small-q8_0.bin"));
    v.push(preset("medium.en-q8_0", "Medium Q8 (English)", "ggml-medium.en-q8_0.bin", "823 MB", "https://huggingface.co/ggerganov/whisper.cpp/resolve/main/ggml-medium.en-q8_0.bin"));
    v.push(preset("medium-q8_0", "Medium Q8 (Multilingual)", "ggml-medium-q8_0.bin", "823 MB", "https://huggingface.co/ggerganov/whisper.cpp/resolve/main/ggml-medium-q8_0.bin"));
    v.push(preset("large-v2-q8_0", "Large v2 Q8", "ggml-large-v2-q8_0.bin", "1.66 GB", "https://huggingface.co/ggerganov/whisper.cpp/resolve/main/ggml-large-v2-q8_0.bin"));
    v.push(preset("large-v3-turbo-q8_0", "Large v3 Turbo Q8", "ggml-large-v3-turbo-q8_0.bin", "874 MB", "https://huggingface.co/ggerganov/whisper.cpp/resolve/main/ggml-large-v3-turbo-q8_0.bin"));
    v
}

/// The catalog holds `id` first at index `i`.
pub open spec fn found_at(presets: Seq<PresetModel>, id: Seq<char>, i: int) -> bool {
    &&& 0 <= i < presets.len()
    &&& presets[i].id@ == id
    &&& forall|j: int| 0 <= j < i ==> presets[j].id@ != id
}

/// Index of the first catalog entry whose id equals `id`, if any.
pub fn find_preset(models: &Vec<PresetModel>, id: &String) -> (r: Option<usize>)
    ensures
        match r {
            Some(i) => 0 <= i < models@.len() && models@[i as int].id@ == id@
                && forall|j: int| 0 <= j < i ==> models@[j].id@ != id@,
            None => forall|j: int| 0 <= j < models@.len() ==> models@[j].id@ != id@,
        },
{
    let mut i: usize = 0;
    while i < models.len()
        invariant
            i <= models@.len(),
            forall|j: int| 0 <= j < i ==> models@[j].id@ != id@,
        decreases models@.len() - i,
    {
        if models[i].id == *id {
            return Some(i);
        }
        i = i + 1;
    }
    None
}

/// The active marker matches a catalog entry when the loaded model's file
/// name equals that entry's file name.
pub open spec fn marks_active(active_filename: Option<String>, filename: Seq<char>) -> bool {
    match active_filename {
        Some(f) => f@ == filename,
        None => false,
    }
}

/// Pairs every catalog entry with its local status: whether its file is
/// already downloaded, and whether it is the currently loaded model.
pub fn list_models(presets: &Vec<PresetModel>, downloaded: &Vec<bool>, active_filename: &Option<String>) -> (r: Vec<ModelInfo>)
    requires
        downloaded@.len() == presets@.len(),
    ensures
        r@.len() == presets@.len(),
        forall|i: int| 0 <= i < r@.len() ==> {
            &&& (#[trigger] r@[i]).id@ == presets@[i].id@
            &&& r@[i].name@ == presets@[i].name@
            &&& r@[i].filename@ == presets@[i].filename@
            &&& r@[i].size@ == presets@[i].size@
            &&& r@[i].downloaded == downloaded@[i]
            &&& r@[i].active == marks_active(*active_filename, presets@[i].filename@)
        },
{
    let mut r: Vec<ModelInfo> = Vec::new();
    let mut i: usize = 0;
    while i < presets.len()
        invariant
            downloaded@.len() == presets@.len(),
            i <= presets@.len(),
            r@.len() == i,
            forall|k: int| 0 <= k < i ==> {
                &&& (#[trigger] r@[k]).id@ == presets@[k].id@
                &&& r@[k].name@ == presets@[k].name@
                &&& r@[k].filename@ == presets@[k].filename@
                &&& r@[k].size@ == presets@[k].size@
                &&& r@[k].downloaded == downloaded@[k]
                &&& r@[k].active == marks_active(*active_filename, presets@[k].filename@)
            },
        decreases presets@.len() - i,
    {
        let p = &presets[i];
        let active = match active_filename {
            Some(f) => *f == p.filename,
            None => false,
        };
        r.push(ModelInfo {
            id: p.id.clone(),
            name: p.name.clone(),
            filename: p.filename.clone(),
            size: p.size.clone(),
            downloaded: downloaded[i],
            active: active,
        });
        i = i + 1;
    }
    r
}

/// The path of a model file inside the models directory.
pub fn model_file_path(models_dir: &str, filename: &str) -> (r: String)
    ensures
        r@ == models_dir@ + "/"@ + filename@,
{
    models_dir.to_owned().concat("/").concat(filename)
}

/// Resolves the saved model selection on startup: the index of its
/// catalog entry and the path its file must sit at, or nothing when no
/// selection is saved or the saved id names no entry. The caller loads
/// the model only if that file exists.
pub fn auto_load_plan(presets: &Vec<PresetModel>, saved: &Option<String>, models_dir: &str) -> (r: Option<(usize, String)>)
    ensures
        saved is None ==> r is None,
        (match (saved, r) {
            (Some(id), Some((i, path))) => found_at(presets@, id@, i as int)
                && path@ == models_dir@ + "/"@ + presets@[i as int].filename@,
            (Some(id), None) => forall|j: int| 0 <= j < presets@.len()
                ==> (#[trigger] presets@[j]).id@ != id@,
            _ => true,
        }),
{
    let id = match saved {
        Some(s) => s,
        None => {
            return None;
        },
    };
    let i = match find_preset(presets, id) {
        Some(i) => i,
        None => {
            return None;
        },
    };
    let path = model_file_path(models_dir, presets[i].filename.as_str());
    Some((i, path))
}

} // verus!

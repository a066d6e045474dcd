//! Input-device listing and selection: pairing enumerated device names
//! with the default marker, and resolving the saved microphone choice to a
//! device, falling back to the platform default when it is absent.

use vstd::prelude::*;

verus! {

/// One audio input device, as listed to the user.
#[derive(Clone)]
pub struct AudioDeviceInfo {
    pub id: String,
    pub name: String,
    pub is_default: bool,
}

/// Whether `name` is the platform default device's name.
pub open spec fn is_default_name(default_name: Option<String>, name: Seq<char>) -> bool {
    match default_name {
        Some(d) => d@ == name,
        None => false,
    }
}

/// Builds the device listing from the enumerated input device names and
/// the platform default's name: each device is identified by its name and
/// the default one is marked.
pub fn list_audio_devices(names: &Vec<String>, default_name: &Option<String>) -> (r: Vec<AudioDeviceInfo>)
    ensures
        r@.len() == names@.len(),
        forall|i: int| 0 <= i < r@.len() ==> {
            &&& (#[trigger] r@[i]).id@ == names@[i]@
            &&& r@[i].name@ == names@[i]@
            &&& r@[i].is_default == is_default_name(*default_name, names@[i]@)
        },
{
    let mut r: Vec<AudioDeviceInfo> = Vec::new();
    let mut i: usize = 0;
    while i < names.len()
        invariant
            i <= names@.len(),
            r@.len() == i,
            forall|k: int| 0 <= k < i ==> {
                &&& (#[trigger] r@[k]).id@ == names@[k]@
                &&& r@[k].name@ == names@[k]@
                &&& r@[k].is_default == is_default_name(*default_name, names@[k]@)
            },
        decreases names@.len() - i,
    {
        let name = &names[i];
        let is_default = match default_name {
            Some(d) => *d == *name,
            None => false,
        };
        r.push(AudioDeviceInfo { id: name.clone(), name: name.clone(), is_default });
        i = i + 1;
    }
    r
}

/// Resolves the saved microphone choice against the enumerated devices:
/// the first device carrying the selected name, or nothing — meaning the
/// platform default is to be used — when no name is saved or the saved
/// name is no longer present.
pub fn resolve_device(devices: &Vec<AudioDeviceInfo>, selected: &Option<String>) -> (r: Option<usize>)
    ensures
        selected is None ==> r is None,
        (match (selected, r) {
            (Some(sel), Some(i)) => 0 <= i < devices@.len() && devices@[i as int].name@ == sel@
                && forall|j: int| 0 <= j < i ==> devices@[j].name@ != sel@,
            (Some(sel), None) => forall|j: int| 0 <= j < devices@.len()
                ==> (#[trigger] devices@[j]).name@ != sel@,
            _ => true,
        }),
{
    let sel = match selected {
        Some(s) => s,
        None => {
            return None;
        },
    };
    let mut i: usize = 0;
    while i < devices.len()
        invariant
            selected matches Some(s) && s@ == sel@,
            i <= devices@.len(),
            forall|j: int| 0 <= j < i ==> (#[trigger] devices@[j]).name@ != sel@,
        decreases devices@.len() - i,
    {
        if devices[i].name == *sel {
            return Some(i);
        }
        i = i + 1;
    }
    None
}

} // verus!

//! Profiles: a named mapping table, built once from the key/action name
//! pairs of a profile file, and selected by name at startup. A name that
//! matches no profile is a configuration error found before any device is
//! touched.

use vstd::prelude::*;
use std::str::FromStr;
use crate::actions::XboxButton;
use crate::actions::action_of;
use crate::actions::str_eq;
use crate::mapping::Mapping;

verus! {

/// A configuration failure, fatal before any device is opened.
#[derive(Debug, Clone, Copy, PartialEq, Eq, Structural)]
pub enum ConfigError {
    /// A mapping entry names a physical key the input subsystem does not know.
    UnknownKeyName,
    /// A mapping entry names an action outside the fixed vocabulary.
    UnknownActionName,
    /// No loaded profile carries the requested name.
    ProfileNotFound,
}

/// The key code the input subsystem's key-name table assigns to a physical
/// key name, if the name is in the table.
pub uninterp spec fn key_code_of(name: Seq<char>) -> Option<u16>;

/// Relies on evdev's `KeyCode::from_str`: the translation of a physical key
/// name such as `KEY_W` to its code is a fixed table of that crate, a
/// function of the name alone.
#[verifier::external_body]
fn key_code_of_name(name: &str) -> (r: Option<u16>)
    ensures
        r == key_code_of(name@),
{
    evdev::KeyCode::from_str(name).ok().map(|k| k.0)
}

/// A named mapping table.
#[derive(Debug)]
pub struct Profile {
    pub name: String,
    pub mapping: Mapping,
}

/// Every entry's action name belongs to the vocabulary.
pub open spec fn names_valid(pairs: Seq<(u16, String)>) -> bool {
    forall|i: int| 0 <= i < pairs.len() ==> action_of((#[trigger] pairs[i]).1@) is Some
}

/// The table described by the entries, in order: a later binding of a key
/// overwrites an earlier one.
pub open spec fn mapping_of(pairs: Seq<(u16, String)>) -> Map<u16, XboxButton>
    decreases pairs.len(),
{
    if pairs.len() == 0 {
        Map::empty()
    } else {
        let last = pairs.last();
        let init = mapping_of(pairs.drop_last());
        match action_of(last.1@) {
            Some(a) => init.insert(last.0, a),
            None => init,
        }
    }
}

/// Builds the mapping table from key-code/action-name entries. Succeeds if
/// and only if every action name is in the vocabulary; the table then binds
/// exactly the listed keys, later entries overwriting earlier ones.
pub fn build_mapping(pairs: &Vec<(u16, String)>) -> (r: Result<Mapping, ConfigError>)
    ensures
        r is Ok <==> names_valid(pairs@),
        r matches Ok(m) ==> m@ == mapping_of(pairs@),
        r matches Err(e) ==> e == ConfigError::UnknownActionName,
{
    let mut m = Mapping::new();
    let mut i: usize = 0;
    proof {
        assert(pairs@.take(0) =~= Seq::<(u16, String)>::empty());
    }
    while i < pairs.len()
        invariant
            i <= pairs.len(),
            m@ == mapping_of(pairs@.take(i as int)),
            names_valid(pairs@.take(i as int)),
        decreases pairs.len() - i,
    {
        proof {
            assert(pairs@.take(i as int + 1).drop_last() =~= pairs@.take(i as int));
            assert(pairs@.take(i as int + 1).last() == pairs@[i as int]);
        }
        let key = pairs[i].0;
        match XboxButton::from_name(pairs[i].1.as_str()) {
            Some(action) => {
                m.insert(key, action);
            },
            None => {
                return Err(ConfigError::UnknownActionName);
            },
        }
        i = i + 1;
    }
    proof {
        assert(pairs@.take(pairs@.len() as int) =~= pairs@);
    }
    Ok(m)
}

/// Both names of a profile-file entry are known: the physical key to the
/// input subsystem's table, the action to the fixed vocabulary.
pub open spec fn entry_valid(e: (String, String)) -> bool {
    key_code_of(e.0@) is Some && action_of(e.1@) is Some
}

/// Every entry of the profile file is known.
pub open spec fn entries_valid(entries: Seq<(String, String)>) -> bool {
    forall|i: int| 0 <= i < entries.len() ==> entry_valid(#[trigger] entries[i])
}

/// The table described by key-name/action-name entries, in order: a later
/// binding of a key overwrites an earlier one.
pub open spec fn entries_mapping_of(entries: Seq<(String, String)>) -> Map<u16, XboxButton>
    decreases entries.len(),
{
    if entries.len() == 0 {
        Map::empty()
    } else {
        let last = entries.last();
        let init = entries_mapping_of(entries.drop_last());
        match (key_code_of(last.0@), action_of(last.1@)) {
            (Some(k), Some(a)) => init.insert(k, a),
            _ => init,
        }
    }
}

/// Builds one profile from the key-name/action-name entries of the profile
/// file. Succeeds if and only if every key name and every action name is
/// known; the profile's table then binds exactly the named keys, later
/// entries overwriting earlier ones.
pub fn build_profile(name: String, entries: &Vec<(String, String)>) -> (r: Result<
    Profile,
    ConfigError,
>)
    ensures
        r is Ok <==> entries_valid(entries@),
        r matches Ok(p) ==> p.name@ == name@ && p.mapping@ == entries_mapping_of(entries@),
        r matches Err(e) ==> e == ConfigError::UnknownKeyName || e
            == ConfigError::UnknownActionName,
{
    let mut m = Mapping::new();
    let mut i: usize = 0;
    proof {
        assert(entries@.take(0) =~= Seq::<(String, String)>::empty());
    }
    while i < entries.len()
        invariant
            i <= entries.len(),
            m@ == entries_mapping_of(entries@.take(i as int)),
            entries_valid(entries@.take(i as int)),
        decreases entries.len() - i,
    {
        proof {
            assert(entries@.take(i as int + 1).drop_last() =~= entries@.take(i as int));
            assert(entries@.take(i as int + 1).last() == entries@[i as int]);
        }
        let key = match key_code_of_name(entries[i].0.as_str()) {
            Some(k) => k,
            None => {
                return Err(ConfigError::UnknownKeyName);
            },
        };
        let action = match XboxButton::from_name(entries[i].1.as_str()) {
            Some(a) => a,
            None => {
                return Err(ConfigError::UnknownActionName);
            },
        };
        m.insert(key, action);
        i = i + 1;
    }
    proof {
        assert(entries@.take(entries@.len() as int) =~= entries@);
    }
    Ok(Profile { name, mapping: m })
}

/// Finds the first profile with the given name. Returns its index if and
/// only if one exists; otherwise the configuration error that aborts the run
/// before any session is opened.
pub fn find_profile(profiles: &Vec<Profile>, name: &str) -> (r: Result<usize, ConfigError>)
    ensures
        r matches Ok(i) ==> {
            &&& i < profiles@.len()
            &&& profiles@[i as int].name@ == name@
            &&& forall|j: int| 0 <= j < i ==> (#[trigger] profiles@[j]).name@ != name@
        },
        r is Err <==> (forall|j: int|
            0 <= j < profiles@.len() ==> (#[trigger] profiles@[j]).name@ != name@),
        r matches Err(e) ==> e == ConfigError::ProfileNotFound,
{
    let mut i: usize = 0;
    while i < profiles.len()
        invariant
            i <= profiles.len(),
            forall|j: int| 0 <= j < i ==> (#[trigger] profiles@[j]).name@ != name@,
        decreases profiles.len() - i,
    {
        if str_eq(profiles[i].name.as_str(), name) {
            return Ok(i);
        }
        i = i + 1;
    }
    Err(ConfigError::ProfileNotFound)
}

} // verus!

//! The artifact sweep's decisions: which entries of the data directory are
//! artifacts of this library, and which of those have expired.
use vstd::prelude::*;
use crate::paths::{ArtifactKind, ID_LEN, NAME_LEN, extension, is_artifact_name};

verus! {

/// The bytes of `.wav`.
pub open spec fn wav_ext_bytes() -> Seq<u8> {
    seq![46u8, 119u8, 97u8, 118u8]
}

/// The bytes of `.mp3`.
pub open spec fn mp3_ext_bytes() -> Seq<u8> {
    seq![46u8, 109u8, 112u8, 51u8]
}

/// A file name the sweep manages: exactly forty bytes, ending in `.wav` or
/// `.mp3`.
pub open spec fn managed_name(name: Seq<u8>) -> bool {
    &&& name.len() == NAME_LEN
    &&& (name.subrange(ID_LEN as int, NAME_LEN as int) == wav_ext_bytes()
        || name.subrange(ID_LEN as int, NAME_LEN as int) == mp3_ext_bytes())
}

/// Whether the sweep removes an entry: a managed name at least `expiry` old.
pub open spec fn expired(name: Seq<u8>, age_nanos: u128, expiry_nanos: u128) -> bool {
    managed_name(name) && age_nanos >= expiry_nanos
}

/// One entry of the data directory as the sweep sees it.
pub struct EntryInfo {
    /// The entry's file name, as bytes.
    pub name: Vec<u8>,
    /// Time since the entry was last modified, zero if that lies in the future.
    pub age_nanos: u128,
}

/// Whether `name` is a managed artifact name.
pub fn is_managed_name(name: &[u8]) -> (r: bool)
    ensures
        r == managed_name(name@),
{
    if name.len() != NAME_LEN {
        return false;
    }
    let dot = name[36] == 46u8;
    let wav = dot && name[37] == 119u8 && name[38] == 97u8 && name[39] == 118u8;
    let mp3 = dot && name[37] == 109u8 && name[38] == 112u8 && name[39] == 51u8;
    let ghost tail = name@.subrange(ID_LEN as int, NAME_LEN as int);
    assert(wav == (tail =~= wav_ext_bytes()));
    assert(mp3 == (tail =~= mp3_ext_bytes()));
    wav || mp3
}

/// Whether the sweep removes an entry with this name and age.
pub fn should_remove(name: &[u8], age_nanos: u128, expiry_nanos: u128) -> (r: bool)
    ensures
        r == expired(name@, age_nanos, expiry_nanos),
{
    is_managed_name(name) && age_nanos >= expiry_nanos
}

/// Marks the entries a sweep removes: exactly the managed names at least
/// `expiry` old; every other entry, foreign or too young, is kept.
pub fn select_expired(entries: &Vec<EntryInfo>, expiry_nanos: u128) -> (r: Vec<bool>)
    ensures
        r@.len() == entries@.len(),
        forall|i: int| 0 <= i < entries@.len() ==>
            #[trigger] r@[i] == expired(entries@[i].name@, entries@[i].age_nanos, expiry_nanos),
{
    let mut marks: Vec<bool> = Vec::new();
    let mut i: usize = 0;
    while i < entries.len()
        invariant
            i <= entries@.len(),
            marks@.len() == i,
            forall|j: int| 0 <= j < i ==>
                #[trigger] marks@[j] == expired(entries@[j].name@, entries@[j].age_nanos, expiry_nanos),
        decreases entries@.len() - i,
    {
        let e = &entries[i];
        marks.push(should_remove(e.name.as_slice(), e.age_nanos, expiry_nanos));
        i = i + 1;
    }
    marks
}

/// The bytes of an ASCII text.
pub open spec fn ascii_bytes(s: Seq<char>) -> Seq<u8> {
    s.map_values(|c: char| c as u8)
}

/// Every name the path allocator hands out is one the sweep manages, so no
/// artifact escapes expiry.
pub proof fn lemma_artifact_names_are_managed(name: Seq<char>, kind: ArtifactKind)
    requires
        is_artifact_name(name, kind),
    ensures
        managed_name(ascii_bytes(name)),
{
    let b = ascii_bytes(name);
    let tail = name.subrange(ID_LEN as int, NAME_LEN as int);
    assert(tail =~= extension(kind));
    assert(b[36] == tail[0] as u8);
    assert(b[37] == tail[1] as u8);
    assert(b[38] == tail[2] as u8);
    assert(b[39] == tail[3] as u8);
    match kind {
        ArtifactKind::WavTemp => {
            assert(b.subrange(ID_LEN as int, NAME_LEN as int) =~= wav_ext_bytes());
        },
        ArtifactKind::Mp3Output => {
            assert(b.subrange(ID_LEN as int, NAME_LEN as int) =~= mp3_ext_bytes());
        },
    }
}

} // verus!

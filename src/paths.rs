//! Artifact paths: a random hyphenated identifier plus a fixed extension,
//! joined to the data directory. Every name is exactly forty characters long,
//! which is how the sweep recognises the files it manages.
use vstd::prelude::*;
use vstd::string::{StrSliceExecFns, StringExecFns};

verus! {

/// Length of a hyphenated identifier.
pub const ID_LEN: usize = 36;

/// Length of every artifact file name: identifier plus extension.
pub const NAME_LEN: usize = 40;

/// What an artifact holds, which fixes its extension.
#[derive(Clone, Copy, Debug, PartialEq, Eq, Structural)]
pub enum ArtifactKind {
    /// An uploaded WAV stream staged on disk.
    WavTemp,
    /// An encoded MP3 file.
    Mp3Output,
}

/// The extension of an artifact kind, dot included.
pub open spec fn extension(kind: ArtifactKind) -> Seq<char> {
    match kind {
        ArtifactKind::WavTemp => seq!['.', 'w', 'a', 'v'],
        ArtifactKind::Mp3Output => seq!['.', 'm', 'p', '3'],
    }
}

/// A lowercase hexadecimal digit.
pub open spec fn is_lower_hex(c: char) -> bool {
    ('0' <= c && c <= '9') || ('a' <= c && c <= 'f')
}

/// Whether position `i` of a hyphenated identifier holds a hyphen.
pub open spec fn is_hyphen_position(i: int) -> bool {
    i == 8 || i == 13 || i == 18 || i == 23
}

/// The canonical hyphenated form of a 128-bit identifier:
/// `xxxxxxxx-xxxx-xxxx-xxxx-xxxxxxxxxxxx` in lowercase hexadecimal.
pub open spec fn is_hyphenated_id(s: Seq<char>) -> bool {
    &&& s.len() == ID_LEN
    &&& forall|i: int| 0 <= i < s.len() ==> if is_hyphen_position(i) {
        #[trigger] s[i] == '-'
    } else {
        is_lower_hex(s[i])
    }
}

/// An artifact file name of the given kind: identifier, then extension.
pub open spec fn is_artifact_name(name: Seq<char>, kind: ArtifactKind) -> bool {
    &&& name.len() == NAME_LEN
    &&& is_hyphenated_id(name.subrange(0, ID_LEN as int))
    &&& name.subrange(ID_LEN as int, NAME_LEN as int) == extension(kind)
}

/// What a directory path becomes before a file name is appended to it: a
/// separator is added unless it is empty or already ends with one.
pub open spec fn dir_prefix(dir: Seq<char>) -> Seq<char> {
    if dir.len() == 0 || dir.last() == '/' {
        dir
    } else {
        dir.push('/')
    }
}

/// Relies on `uuid::Uuid::new_v4`, rendered by its `Display` impl, which
/// writes the lowercase hyphenated form (`format_hyphenated` in uuid's fmt.rs).
#[verifier::external_body]
fn new_random_id() -> (r: String)
    ensures
        is_hyphenated_id(r@),
{
    uuid::Uuid::new_v4().to_string()
}

/// `dir` followed by `name`, with a `/` between them unless `dir` is empty
/// or already ends with one.
fn join_to_dir(dir: &str, name: &str) -> (r: String)
    ensures
        r@ == dir_prefix(dir@) + name@,
{
    let n = dir.unicode_len();
    let mut path = <String as StringExecFns>::from_str(dir);
    if n > 0 && dir.get_char(n - 1) != '/' {
        proof { reveal_strlit("/"); }
        path.append("/");
        assert(path@ =~= dir@.push('/'));
    }
    path.append(name);
    path
}

/// A fresh artifact path of the given kind inside `data_path`: the directory
/// (with a separator appended where needed) followed by a file name of
/// exactly forty characters, a random hyphenated identifier and the kind's
/// extension.
pub fn allocate(data_path: &str, kind: ArtifactKind) -> (r: String)
    ensures
        r@.len() == dir_prefix(data_path@).len() + NAME_LEN,
        r@.subrange(0, dir_prefix(data_path@).len() as int) == dir_prefix(data_path@),
        is_artifact_name(r@.subrange(dir_prefix(data_path@).len() as int, r@.len() as int), kind),
{
    let id = new_random_id();
    let ext = match kind {
        ArtifactKind::WavTemp => {
            proof { reveal_strlit(".wav"); }
            ".wav"
        },
        ArtifactKind::Mp3Output => {
            proof { reveal_strlit(".mp3"); }
            ".mp3"
        },
    };
    assert(ext@ =~= extension(kind));
    let name = id.concat(ext);
    let path = join_to_dir(data_path, name.as_str());
    let ghost p = dir_prefix(data_path@);
    assert(path@.subrange(0, p.len() as int) =~= p);
    assert(path@.subrange(p.len() as int, path@.len() as int) =~= name@);
    assert(name@.subrange(0, ID_LEN as int) =~= id@);
    assert(name@.subrange(ID_LEN as int, NAME_LEN as int) =~= extension(kind));
    path
}

/// A fresh path for a staged WAV upload inside `data_path`.
pub fn wav_path(data_path: &str) -> (r: String)
    ensures
        r@.len() == dir_prefix(data_path@).len() + NAME_LEN,
        r@.subrange(0, dir_prefix(data_path@).len() as int) == dir_prefix(data_path@),
        is_artifact_name(r@.subrange(dir_prefix(data_path@).len() as int, r@.len() as int), ArtifactKind::WavTemp),
{
    allocate(data_path, ArtifactKind::WavTemp)
}

/// A fresh path for an encoded MP3 file inside `data_path`.
pub fn mp3_path(data_path: &str) -> (r: String)
    ensures
        r@.len() == dir_prefix(data_path@).len() + NAME_LEN,
        r@.subrange(0, dir_prefix(data_path@).len() as int) == dir_prefix(data_path@),
        is_artifact_name(r@.subrange(dir_prefix(data_path@).len() as int, r@.len() as int), ArtifactKind::Mp3Output),
{
    allocate(data_path, ArtifactKind::Mp3Output)
}

} // verus!

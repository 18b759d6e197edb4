//! Picking music files and sub-directories out of a directory listing.
//!
//! Reading the disk is the caller's business. The caller hands over what it
//! found as a tree of [`DirEntry`] values; the functions here decide which of
//! those entries are playable and in which order they are queued.

use vstd::prelude::*;
use vstd::utf8::encode_utf8;

verus! {

/// One entry of a directory, as the caller found it on disk.
#[derive(Debug, PartialEq, Eq)]
pub struct DirEntry {
    /// The entry's own name: the last component of `path`.
    pub name: String,
    /// The path under which the entry can be opened.
    pub path: String,
    /// Whether the entry is itself a directory.
    pub is_dir: bool,
    /// The entries below a directory, in the order they were read. Empty for
    /// a plain file, and for a directory that the caller did not descend into.
    pub children: Vec<DirEntry>,
}

/// Why a directory did not become the play queue.
#[derive(Debug, Clone, Copy, PartialEq, Eq)]
pub enum ListingError {
    /// The directory, or something below it, could not be read.
    Unreadable,
    /// The directory holds more music files than the queue can number.
    TooManyFiles,
}

/// The views of a sequence of strings, one for one.
pub open spec fn texts(strings: Seq<String>) -> Seq<Seq<char>> {
    strings.map_values(|s: String| s@)
}

/// An ASCII upper-case letter becomes its lower-case form; every other byte
/// stays as it is.
pub open spec fn ascii_lower(b: u8) -> u8 {
    if 'A' as u8 <= b && b <= 'Z' as u8 {
        (b + 32) as u8
    } else {
        b
    }
}

/// `name` ends in a dot followed by `ext`, letters compared without regard to
/// ASCII case, and the dot is not the first byte of the name.
pub open spec fn has_extension(name: Seq<u8>, ext: Seq<u8>) -> bool {
    &&& name.len() > ext.len() + 1
    &&& name[name.len() - ext.len() - 1] == '.' as u8
    &&& forall|i: int|
        0 <= i < ext.len() ==> ascii_lower(name[name.len() - ext.len() + i]) == ascii_lower(
            #[trigger] ext[i],
        )
}

pub open spec fn ext_mp3() -> Seq<u8> {
    seq!['m' as u8, 'p' as u8, '3' as u8]
}

pub open spec fn ext_flac() -> Seq<u8> {
    seq!['f' as u8, 'l' as u8, 'a' as u8, 'c' as u8]
}

pub open spec fn ext_wav() -> Seq<u8> {
    seq!['w' as u8, 'a' as u8, 'v' as u8]
}

pub open spec fn ext_ogg() -> Seq<u8> {
    seq!['o' as u8, 'g' as u8, 'g' as u8]
}

/// A file name, given as its UTF-8 bytes, carries one of the extensions that
/// the player can decode: mp3, flac, wav or ogg.
pub open spec fn is_audio_name(name: Seq<u8>) -> bool {
    ||| has_extension(name, ext_mp3())
    ||| has_extension(name, ext_flac())
    ||| has_extension(name, ext_wav())
    ||| has_extension(name, ext_ogg())
}

/// The paths that a listing contributes to the play queue, in listing order.
///
/// With `recursive` set, a directory stands for the music files below it, at
/// the place where the directory itself was listed. Every other entry is
/// judged by the extension of its name alone.
pub open spec fn music_files(entries: Seq<DirEntry>, recursive: bool) -> Seq<Seq<char>>
    decreases entries,
{
    if entries.len() == 0 {
        Seq::empty()
    } else {
        let last = entries.last();
        let found = if recursive && last.is_dir {
            music_files(last.children@, true)
        } else if is_audio_name(encode_utf8(last.name@)) {
            seq![last.path@]
        } else {
            Seq::empty()
        };
        music_files(entries.drop_last(), recursive) + found
    }
}

/// The names of the directories among `entries`, in listing order.
pub open spec fn directory_names(entries: Seq<DirEntry>) -> Seq<Seq<char>> {
    entries.filter(|e: DirEntry| e.is_dir).map_values(|e: DirEntry| e.name@)
}

fn to_ascii_lower(b: u8) -> (lower: u8)
    ensures
        lower == ascii_lower(b),
{
    if 'A' as u8 <= b && b <= 'Z' as u8 {
        b + 32
    } else {
        b
    }
}

fn ends_with_extension(name: &[u8], ext: &[u8]) -> (found: bool)
    ensures
        found == has_extension(name@, ext@),
{
    if name.len() <= ext.len() || name.len() - ext.len() < 2 {
        return false;
    }
    let start: usize = name.len() - ext.len();
    if name[start - 1] != '.' as u8 {
        return false;
    }
    let mut i: usize = 0;
    while i < ext.len()
        invariant
            i <= ext.len(),
            start == name.len() - ext.len(),
            start >= 2,
            forall|j: int|
                0 <= j < i ==> ascii_lower(name@[start + j]) == ascii_lower(#[trigger] ext@[j]),
        decreases ext.len() - i,
    {
        if to_ascii_lower(name[start + i]) != to_ascii_lower(ext[i]) {
            return false;
        }
        i = i + 1;
    }
    true
}

/// Whether a file of this name is one that the player can decode.
pub fn is_supported_audio_file(name: &str) -> (supported: bool)
    ensures
        supported == is_audio_name(encode_utf8(name@)),
{
    let bytes = name.as_bytes();
    let mp3: [u8; 3] = ['m' as u8, 'p' as u8, '3' as u8];
    let flac: [u8; 4] = ['f' as u8, 'l' as u8, 'a' as u8, 'c' as u8];
    let wav: [u8; 3] = ['w' as u8, 'a' as u8, 'v' as u8];
    let ogg: [u8; 3] = ['o' as u8, 'g' as u8, 'g' as u8];
    assert(mp3@ =~= ext_mp3());
    assert(flac@ =~= ext_flac());
    assert(wav@ =~= ext_wav());
    assert(ogg@ =~= ext_ogg());
    ends_with_extension(bytes, mp3.as_slice()) || ends_with_extension(bytes, flac.as_slice())
        || ends_with_extension(bytes, wav.as_slice()) || ends_with_extension(
        bytes,
        ogg.as_slice(),
    )
}

/// Lists the music files of a directory whose entries are `entries`.
///
/// With `recursive` set, the files below each sub-directory are listed where
/// the sub-directory stands; otherwise only the entries themselves count.
pub fn list_music_files(entries: &Vec<DirEntry>, recursive: bool) -> (files: Vec<String>)
    ensures
        texts(files@) == music_files(entries@, recursive),
    decreases entries,
{
    let mut files: Vec<String> = Vec::new();
    let mut i: usize = 0;
    while i < entries.len()
        invariant
            i <= entries.len(),
            texts(files@) == music_files(entries@.take(i as int), recursive),
        decreases entries.len() - i,
    {
        let entry = &entries[i];
        let ghost before = files@;
        let ghost seen = entries@.take(i + 1);
        assert(seen.last() == entries@[i as int]);
        assert(seen.drop_last() =~= entries@.take(i as int));
        if recursive && entry.is_dir {
            let mut below = list_music_files(&entry.children, true);
            let ghost added = below@;
            files.append(&mut below);
            assert(texts(before + added) =~= texts(before) + texts(added));
        } else if is_supported_audio_file(entry.name.as_str()) {
            files.push(entry.path.clone());
            assert(texts(before.push(entry.path)) =~= texts(before) + seq![entry.path@]);
        } else {
            assert(texts(before) =~= texts(before) + Seq::<Seq<char>>::empty());
        }
        i = i + 1;
    }
    assert(entries@.take(entries@.len() as int) =~= entries@);
    files
}

/// Lists the names of the sub-directories among `entries`.
pub fn sub_directories(entries: &Vec<DirEntry>) -> (names: Vec<String>)
    ensures
        texts(names@) == directory_names(entries@),
{
    let ghost is_dir = |e: DirEntry| e.is_dir;
    let mut names: Vec<String> = Vec::new();
    let mut i: usize = 0;
    assert(entries@.take(0).filter(is_dir) =~= Seq::<DirEntry>::empty());
    while i < entries.len()
        invariant
            i <= entries.len(),
            is_dir == (|e: DirEntry| e.is_dir),
            texts(names@) == entries@.take(i as int).filter(is_dir).map_values(
                |e: DirEntry| e.name@,
            ),
        decreases entries.len() - i,
    {
        let entry = &entries[i];
        let ghost before = names@;
        proof {
            let seen = entries@.take(i as int);
            assert(entries@.take(i + 1) =~= seen + seq![*entry]);
            Seq::filter_distributes_over_add(seen, seq![*entry], is_dir);
            reveal(Seq::filter);
            assert(seq![*entry].drop_last() =~= Seq::<DirEntry>::empty());
            assert(Seq::<DirEntry>::empty().filter(is_dir) =~= Seq::<DirEntry>::empty());
        }
        if entry.is_dir {
            names.push(entry.name.clone());
            assert(texts(before.push(entry.name)) =~= texts(before).push(entry.name@));
        }
        i = i + 1;
    }
    assert(entries@.take(entries@.len() as int) =~= entries@);
    names
}

} // verus!

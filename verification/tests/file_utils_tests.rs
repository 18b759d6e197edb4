use music_controller::file_utils::{
    is_supported_audio_file, list_music_files, sub_directories, DirEntry,
};
use std::path::Path;

fn file(name: &str, path: &str) -> DirEntry {
    DirEntry { name: name.to_string(), path: path.to_string(), is_dir: false, children: Vec::new() }
}

fn dir(name: &str, path: &str, children: Vec<DirEntry>) -> DirEntry {
    DirEntry { name: name.to_string(), path: path.to_string(), is_dir: true, children }
}

fn extension_says_audio(name: &str) -> bool {
    match Path::new(name).extension().and_then(|e| e.to_str()) {
        Some(ext) => {
            ext.eq_ignore_ascii_case("mp3") || ext.eq_ignore_ascii_case("flac")
                || ext.eq_ignore_ascii_case("wav") || ext.eq_ignore_ascii_case("ogg")
        }
        None => false,
    }
}

#[test]
fn the_four_audio_extensions_are_supported() {
    assert!(is_supported_audio_file("a.mp3"));
    assert!(is_supported_audio_file("b.flac"));
    assert!(is_supported_audio_file("c.wav"));
    assert!(is_supported_audio_file("d.ogg"));
}

#[test]
fn extensions_are_matched_without_regard_to_case() {
    assert!(is_supported_audio_file("A.MP3"));
    assert!(is_supported_audio_file("song.FlAc"));
    assert!(is_supported_audio_file("song.Wav"));
    assert!(is_supported_audio_file("song.oGG"));
}

#[test]
fn other_names_are_not_supported() {
    assert!(!is_supported_audio_file("c.txt"));
    assert!(!is_supported_audio_file("mp3"));
    assert!(!is_supported_audio_file("amp3"));
    assert!(!is_supported_audio_file("a.mp"));
    assert!(!is_supported_audio_file("a.mp3.txt"));
    assert!(!is_supported_audio_file("a.mp3 "));
    assert!(!is_supported_audio_file("a.mp4"));
    assert!(!is_supported_audio_file(""));
    assert!(!is_supported_audio_file("."));
}

#[test]
fn a_name_that_is_only_an_extension_is_not_supported() {
    assert!(!is_supported_audio_file(".mp3"));
    assert!(!is_supported_audio_file(".flac"));
    assert!(is_supported_audio_file("..mp3"));
    assert!(is_supported_audio_file("a.b.ogg"));
}

#[test]
fn names_with_letters_beyond_ascii_are_judged_by_their_ending() {
    assert!(is_supported_audio_file("caf\u{e9}.mp3"));
    assert!(is_supported_audio_file("\u{266b}.wav"));
    assert!(!is_supported_audio_file("song.mp\u{b3}"));
    assert!(!is_supported_audio_file("song.\u{41c}P3"));
}

#[test]
fn support_agrees_with_the_extension_of_the_name() {
    let names = [
        "a.mp3", "A.MP3", "b.wav", "c.txt", ".mp3", "..mp3", "x.y.flac", "flac", "a.", "a.ogg.",
        "noext", "a.mp33", "a.Ogg", ".hidden.wav", "a.wave", "\u{e9}.flac", "a b.mp3", "-.mp3",
    ];
    for name in names {
        assert_eq!(is_supported_audio_file(name), extension_says_audio(name), "{}", name);
    }
}

#[test]
fn listing_keeps_order_and_drops_what_is_not_music() {
    let entries = vec![
        file("b.wav", "music/b.wav"),
        file("notes.txt", "music/notes.txt"),
        file("a.mp3", "music/a.mp3"),
        file("cover.jpg", "music/cover.jpg"),
        file("c.OGG", "music/c.OGG"),
    ];
    let found = list_music_files(&entries, false);
    assert_eq!(found, vec!["music/b.wav".to_string(), "music/a.mp3".to_string(), "music/c.OGG".to_string()]);
    let found_deep = list_music_files(&entries, true);
    assert_eq!(found_deep, found);
}

#[test]
fn an_empty_listing_has_no_music() {
    let entries: Vec<DirEntry> = Vec::new();
    assert!(list_music_files(&entries, false).is_empty());
    assert!(list_music_files(&entries, true).is_empty());
}

#[test]
fn sub_directories_are_entered_only_when_recursive() {
    let entries = vec![
        file("a.mp3", "m/a.mp3"),
        dir("live", "m/live", vec![file("x.flac", "m/live/x.flac"), file("y.txt", "m/live/y.txt")]),
        file("b.wav", "m/b.wav"),
    ];
    assert_eq!(list_music_files(&entries, false), vec!["m/a.mp3".to_string(), "m/b.wav".to_string()]);
    assert_eq!(
        list_music_files(&entries, true),
        vec!["m/a.mp3".to_string(), "m/live/x.flac".to_string(), "m/b.wav".to_string()]
    );
}

#[test]
fn nested_directories_are_listed_where_they_stand() {
    let deepest = dir("c", "r/a/c", vec![file("3.ogg", "r/a/c/3.ogg")]);
    let first = dir("a", "r/a", vec![file("1.mp3", "r/a/1.mp3"), deepest, file("2.mp3", "r/a/2.mp3")]);
    let empty = dir("e", "r/e", Vec::new());
    let entries = vec![first, empty, file("4.wav", "r/4.wav")];
    assert_eq!(
        list_music_files(&entries, true),
        vec![
            "r/a/1.mp3".to_string(),
            "r/a/c/3.ogg".to_string(),
            "r/a/2.mp3".to_string(),
            "r/4.wav".to_string(),
        ]
    );
    assert_eq!(list_music_files(&entries, false), vec!["r/4.wav".to_string()]);
}

#[test]
fn a_directory_named_like_music_counts_as_a_file_when_not_recursive() {
    let entries = vec![dir("album.mp3", "m/album.mp3", vec![file("t.wav", "m/album.mp3/t.wav")])];
    assert_eq!(list_music_files(&entries, false), vec!["m/album.mp3".to_string()]);
    assert_eq!(list_music_files(&entries, true), vec!["m/album.mp3/t.wav".to_string()]);
}

#[test]
fn the_path_is_queued_and_the_name_is_judged() {
    let entries = vec![file("a.mp3", "somewhere/else"), file("b", "dir/b.mp3")];
    assert_eq!(list_music_files(&entries, false), vec!["somewhere/else".to_string()]);
}

#[test]
fn sub_directories_gives_the_names_of_directories_in_order() {
    let entries = vec![
        dir("rock", "m/rock", vec![dir("live", "m/rock/live", Vec::new())]),
        file("a.mp3", "m/a.mp3"),
        dir("jazz", "m/jazz", Vec::new()),
        file("folder", "m/folder"),
    ];
    assert_eq!(sub_directories(&entries), vec!["rock".to_string(), "jazz".to_string()]);
}

#[test]
fn sub_directories_of_nothing_is_nothing() {
    let entries: Vec<DirEntry> = Vec::new();
    assert!(sub_directories(&entries).is_empty());
    let only_files = vec![file("a.mp3", "a.mp3")];
    assert!(sub_directories(&only_files).is_empty());
}

use lumina_core::buffer::{buffer_from_parts, file_buffer, read_file_buffer};
use lumina_core::catalog::{has_audio_extension, select_audio_files, text_less_or_equal};
use lumina_core::config::AppConfig;
use lumina_core::info::{file_info_for_name, get_file_info, infer_artist_title};
use lumina_core::mime::{get_mime_type, is_audio_extension};
use lumina_core::path::split_extension;
use lumina_core::text::{eq_ignore_ascii_case, is_all_ascii_digits, trimmed_range};

fn pair(a: &str, b: &str) -> (String, String) {
    (a.to_string(), b.to_string())
}

#[test]
fn track_number_is_not_an_artist() {
    assert_eq!(infer_artist_title("03 - Track Name"), pair("Unknown Artist", "Track Name"));
}

#[test]
fn artist_and_title_around_separator() {
    assert_eq!(infer_artist_title("Daft Punk - One More Time"), pair("Daft Punk", "One More Time"));
}

#[test]
fn stem_without_separator_is_title() {
    assert_eq!(infer_artist_title("justtitle"), pair("Unknown Artist", "justtitle"));
}

#[test]
fn only_first_separator_splits() {
    assert_eq!(infer_artist_title("A - B - C"), pair("A", "B - C"));
}

#[test]
fn parts_are_trimmed() {
    assert_eq!(infer_artist_title("  Artist   -   Title \t"), pair("Artist", "Title"));
    assert_eq!(infer_artist_title("Artist\u{3000} - \u{a0}Title"), pair("Artist", "Title"));
}

#[test]
fn empty_left_part_counts_as_track_number() {
    assert_eq!(infer_artist_title(" - Title"), pair("Unknown Artist", "Title"));
}

#[test]
fn dash_without_spaces_is_no_separator() {
    assert_eq!(infer_artist_title("Artist-Title"), pair("Unknown Artist", "Artist-Title"));
    assert_eq!(infer_artist_title(""), pair("Unknown Artist", ""));
}

#[test]
fn non_ascii_digits_are_an_artist() {
    assert_eq!(infer_artist_title("\u{0663} - Song"), pair("\u{0663}", "Song"));
    assert_eq!(infer_artist_title("12a - Song"), pair("12a", "Song"));
}

#[test]
fn unknown_extension_falls_back_to_mpeg() {
    assert_eq!(get_mime_type("xyz"), "audio/mpeg");
    assert_eq!(get_mime_type(""), "audio/mpeg");
}

#[test]
fn mime_table_ignores_case() {
    assert_eq!(get_mime_type("mp3"), "audio/mpeg");
    assert_eq!(get_mime_type("WAV"), "audio/wav");
    assert_eq!(get_mime_type("Ogg"), "audio/ogg");
    assert_eq!(get_mime_type("FLAC"), "audio/flac");
    assert_eq!(get_mime_type("m4a"), "audio/mp4");
    assert_eq!(get_mime_type("AAC"), "audio/aac");
    assert_eq!(get_mime_type("wMa"), "audio/x-ms-wma");
    assert_eq!(get_mime_type("flac "), "audio/mpeg");
}

#[test]
fn audio_extension_allow_list() {
    for e in ["mp3", "WAV", "ogg", "Flac", "m4a", "aac", "WMA"] {
        assert!(is_audio_extension(e));
    }
    for e in ["txt", "mp4", "", "mp33", "jpg"] {
        assert!(!is_audio_extension(e));
    }
}

#[test]
fn folder_scan_keeps_audio_sorted() {
    let paths = vec![
        "/music/a.mp3".to_string(),
        "/music/b.txt".to_string(),
        "/music/C.FLAC".to_string(),
        "/music/d.MP3".to_string(),
    ];
    assert_eq!(
        select_audio_files(&paths),
        vec!["/music/C.FLAC".to_string(), "/music/a.mp3".to_string(), "/music/d.MP3".to_string()]
    );
}

#[test]
fn folder_scan_of_nothing_is_empty() {
    assert!(select_audio_files(&vec![]).is_empty());
    let paths = vec!["/m/notes".to_string(), "/m/.mp3".to_string(), "/m/x.doc".to_string()];
    assert!(select_audio_files(&paths).is_empty());
}

#[test]
fn folder_scan_orders_by_code_point() {
    let paths = vec![
        "/m/\u{e9}.ogg".to_string(),
        "/m/z.ogg".to_string(),
        "/m/ab.wav".to_string(),
        "/m/a.wav".to_string(),
        "/m/a.wav".to_string(),
    ];
    let mut expected = paths.clone();
    expected.sort();
    assert_eq!(select_audio_files(&paths), expected);
}

#[test]
fn audio_path_uses_file_name_extension() {
    assert!(has_audio_extension("/x/song.Mp3"));
    assert!(!has_audio_extension("/x.mp3/song"));
    assert!(!has_audio_extension("/x/.wav"));
    assert!(has_audio_extension("/x/y.tar.ogg"));
}

#[test]
fn text_order_matches_string_order() {
    let words = ["", "a", "ab", "b", "B", "\u{e9}", "\u{1F600}", "\u{ffff}"];
    for a in words {
        for b in words {
            assert_eq!(text_less_or_equal(a, b), a <= b, "{:?} {:?}", a, b);
        }
    }
}

#[test]
fn split_extension_follows_file_stem() {
    assert_eq!(split_extension("song.mp3"), ("song".to_string(), Some("mp3".to_string())));
    assert_eq!(split_extension("a.b.c"), ("a.b".to_string(), Some("c".to_string())));
    assert_eq!(split_extension(".hidden"), (".hidden".to_string(), None));
    assert_eq!(split_extension("noext"), ("noext".to_string(), None));
    assert_eq!(split_extension("end."), ("end".to_string(), Some("".to_string())));
}

#[test]
fn file_info_from_path() {
    let info = get_file_info("/music/Daft Punk - One More Time.mp3", Some(1234)).unwrap();
    assert_eq!(info.name, "Daft Punk - One More Time.mp3");
    assert_eq!(info.artist, "Daft Punk");
    assert_eq!(info.title, "One More Time");
    assert_eq!(info.size, Some(1234));
}

#[test]
fn file_info_for_missing_file_has_no_size() {
    let info = get_file_info("/nonexistent/03 - Track Name.flac", None).unwrap();
    assert_eq!(info.artist, "Unknown Artist");
    assert_eq!(info.title, "Track Name");
    assert_eq!(info.size, None);
}

#[test]
fn file_info_fails_without_file_name() {
    assert!(get_file_info("", None).is_err());
    assert!(get_file_info("/", None).is_err());
    assert_eq!(get_file_info("/a/..", None).err(), Some("path has no file name: /a/..".to_string()));
}

#[test]
fn file_info_for_name_strips_extension() {
    let info = file_info_for_name("justtitle.ogg", Some(0));
    assert_eq!(info.title, "justtitle");
    assert_eq!(info.artist, "Unknown Artist");
    assert_eq!(info.name, "justtitle.ogg");
}

#[test]
fn buffer_is_base64_with_type_and_name() {
    let b = file_buffer("/music/song.FLAC", &b"abcd".to_vec());
    assert_eq!(b.buffer, "YWJjZA==");
    assert_eq!(b.mime_type, "audio/flac");
    assert_eq!(b.name, "song.FLAC");
}

#[test]
fn buffer_of_empty_file_without_extension() {
    let b = file_buffer("/music/track", &vec![]);
    assert_eq!(b.buffer, "");
    assert_eq!(b.mime_type, "audio/mpeg");
    assert_eq!(b.name, "track");
}

#[test]
fn buffer_without_file_name() {
    let b = buffer_from_parts(None, "AA==".to_string());
    assert_eq!(b.buffer, "AA==");
    assert_eq!(b.name, "unknown");
    assert_eq!(b.mime_type, "audio/mpeg");
    let c = buffer_from_parts(Some("x.xyz".to_string()), String::new());
    assert_eq!(c.mime_type, "audio/mpeg");
    assert_eq!(c.name, "x.xyz");
}

#[test]
fn absent_document_reads_as_defaults() {
    let c = AppConfig::loaded_or_default(None);
    assert_eq!(c.get_api_key(), "");
    assert!(!c.has_api_key());
    assert_eq!(c.get_current_index(), -1);
    assert!(c.get_playlist().is_empty());
}

#[test]
fn playlist_round_trip() {
    let items = vec![
        serde_json::Value::String("/m/a.mp3".to_string()),
        serde_json::Value::Bool(true),
        serde_json::Value::Null,
        serde_json::Value::from(7),
    ];
    let mut c = AppConfig::default();
    c.save_playlist(items.clone());
    assert_eq!(c.get_playlist(), items);
}

#[test]
fn key_survives_playlist_update() {
    let mut c = AppConfig::default();
    c.set_api_key("k1".to_string());
    c.save_playlist(vec![serde_json::Value::from("x")]);
    c.save_current_index(3);
    assert_eq!(c.get_api_key(), "k1");
    assert!(c.has_api_key());
    assert_eq!(c.get_current_index(), 3);
    c.save_current_index(-5);
    assert_eq!(c.get_current_index(), -5);
}

#[test]
fn loaded_document_is_kept() {
    let mut stored = AppConfig::default();
    stored.set_api_key(String::new());
    let c = AppConfig::loaded_or_default(Some(stored));
    assert!(c.has_api_key());
    assert_eq!(c.get_api_key(), "");
}

#[test]
fn text_helpers() {
    assert!(eq_ignore_ascii_case("MiXeD", "mixed"));
    assert!(!eq_ignore_ascii_case("abc", "abd"));
    assert!(!eq_ignore_ascii_case("\u{212a}", "k"));
    assert!(is_all_ascii_digits("0123456789"));
    assert!(is_all_ascii_digits(""));
    assert!(!is_all_ascii_digits("1 2"));
    assert_eq!(trimmed_range("  ab c  ", 0, 8), "ab c");
    assert_eq!(trimmed_range("xx   yy", 2, 5), "");
}

#[test]
fn missing_file_gives_no_buffer() {
    assert_eq!(read_file_buffer("/nonexistent", None), None);
    let b = read_file_buffer("/m/a.wav", Some(vec![0u8, 255])).unwrap();
    assert_eq!(b.buffer, "AP8=");
    assert_eq!(b.mime_type, "audio/wav");
    assert_eq!(b.name, "a.wav");
}

use audiocrab::cli::Browser;
use audiocrab::download::{
    bucket_dir_for_id, download_args, flat_entries, flat_listing, full_metadata_args, is_audio_ext,
    is_image_ext, lines_of_output, numbered_file_name, pick_downloaded_files, video_metas,
    video_temp_dir, yt_dlp_warning, free_file_name, DirEntry,
};

#[test]
fn output_lines_are_trimmed_and_blank_ones_dropped() {
    assert_eq!(lines_of_output(" a \r\n\n  \nb\nc"), vec!["a", "b", "c"]);
    assert_eq!(lines_of_output(""), Vec::<String>::new());
    assert_eq!(lines_of_output("\n\n"), Vec::<String>::new());
    assert_eq!(lines_of_output("x\n"), vec!["x"]);
}

#[test]
fn flat_listing_entries_from_yt_dlp_lines() {
    let line_a = "{\"ie_key\": \"Youtube\", \"id\": \"abc\", \"title\": \"Song\", \"url\": \"https://y/abc\", \"playlist_id\": \"PL1\", \"playlist_title\": \"Mix\"}";
    let line_b = "{\"extractor\": \"SoundCloud\", \"id\": \"s1\", \"webpage_url\": \"https://sc/s1\", \"url\": \"https://ignored\"}";
    let line_c = "{\"id\": 5, \"webpage_url\": null, \"url\": \"https://not-used\"}";
    let joined = format!("{}\n\n{}\n{}\n", line_a, line_b, line_c);
    let out = joined.as_str();
    let entries = flat_entries(out, "https://link/").unwrap();
    assert_eq!(entries.len(), 3);
    assert_eq!(entries[0].id, "youtube:abc");
    assert_eq!(entries[0].extractor, "youtube");
    assert_eq!(entries[0].title, "Song");
    assert_eq!(entries[0].url, "https://y/abc");
    assert_eq!(entries[0].playlist_id.as_deref(), Some("PL1"));
    assert_eq!(entries[0].playlist_title.as_deref(), Some("Mix"));
    assert_eq!(entries[1].id, "soundcloud:s1");
    assert_eq!(entries[1].url, "https://sc/s1");
    assert_eq!(entries[1].title, "");
    assert_eq!(entries[1].playlist_id, None);
    assert_eq!(entries[2].id, "unknown:");
    assert_eq!(entries[2].url, "https://link/");
}

#[test]
fn a_line_that_is_not_json_fails_the_listing() {
    let out = "{\"id\": \"a\"}\nnot json\n{\"id\": \"b\"}\n[1,2\n";
    let err = flat_entries(out, "https://l/").unwrap_err();
    assert_eq!(err.line, "not json");
    let err = video_metas("oops").unwrap_err();
    assert_eq!(err.line, "oops");
}

#[test]
fn full_metadata_from_yt_dlp_lines() {
    let out = "{\"extractor\": \"Youtube\", \"id\": \"v1\", \"title\": \"T\", \"artist\": \"A\", \"album\": \"B\", \"duration\": 12.5, \"upload_date\": \"20240101\", \"url\": \"https://u\", \"thumbnail\": \"https://t\", \"ie_key\": \"Other\"}";
    let metas = video_metas(out).unwrap();
    assert_eq!(metas.len(), 1);
    let m = &metas[0];
    assert_eq!(m.id, "youtube:v1");
    assert_eq!(m.extractor_id, "v1");
    assert_eq!(m.title, "T");
    assert_eq!(m.artist.as_deref(), Some("A"));
    assert_eq!(m.album.as_deref(), Some("B"));
    assert_eq!(m.upload_date.as_deref(), Some("20240101"));
    assert_eq!(m.webpage_url, "https://u");
    assert_eq!(m.thumbnail_url.as_deref(), Some("https://t"));
    let bare = video_metas("{}").unwrap();
    assert_eq!(bare[0].id, "unknown:");
    assert_eq!(bare[0].webpage_url, "");
}

#[test]
fn links_are_normalised_before_listing() {
    let l = flat_listing("HTTPS://Example.COM").unwrap();
    assert_eq!(l.link, "https://example.com/");
    assert_eq!(l.args, vec!["--flat-playlist", "-j", "--no-warnings", "--ignore-errors", "https://example.com/"]);
    assert!(flat_listing("not a url").is_err());
    assert_eq!(
        full_metadata_args(&vec!["u1".to_string(), "u2".to_string()]),
        vec!["-j", "--no-warnings", "--ignore-errors", "u1", "u2"]
    );
}

#[test]
fn download_command_line() {
    let args = download_args("/tmp/t/abc", 3, Some(Browser::Firefox), "https://v");
    assert_eq!(
        args,
        vec![
            "-f", "bestaudio/best", "--extract-audio", "--audio-format", "vorbis", "-P", "/tmp/t/abc",
            "--retries", "3", "--continue", "--ignore-errors", "--embed-metadata", "--write-thumbnail",
            "--convert-thumbnail", "jpg", "--no-warnings", "--cookies-from-browser", "firefox", "https://v",
        ]
    );
    let plain = download_args("d", 10, None, "u");
    assert_eq!(plain.len(), 17);
    assert_eq!(plain[8], "10");
    assert_eq!(video_temp_dir("/tmp/t", "abc"), "/tmp/t/abc");
}

#[test]
fn files_go_to_a_bucket_named_by_the_last_character() {
    assert_eq!(bucket_dir_for_id("/lib", "youtube:abcZ"), "/lib/z");
    assert_eq!(bucket_dir_for_id("/lib", "x:9"), "/lib/9");
    assert_eq!(bucket_dir_for_id("/lib", ""), "/lib/x");
    assert_eq!(numbered_file_name("song", "ogg", 2), "song_2.ogg");
}

#[test]
fn audio_and_image_extensions() {
    for e in ["mp3", "m4a", "aac", "opus", "ogg", "flac", "wav", "webm"] {
        assert!(is_audio_ext(e));
        assert!(!is_image_ext(e));
    }
    for e in ["jpg", "jpeg", "png", "webp", "bmp"] {
        assert!(is_image_ext(e));
        assert!(!is_audio_ext(e));
    }
    assert!(!is_audio_ext("MP3"));
    assert!(!is_audio_ext(""));
    assert!(!is_image_ext("gif"));
}

fn entry(path: &str, ext: &str, is_file: bool) -> DirEntry {
    DirEntry { path: path.to_string(), ext: ext.to_string(), is_file }
}

#[test]
fn picks_first_audio_file_and_first_thumbnail() {
    let entries = vec![
        entry("/t/cover.txt", "txt", true),
        entry("/t/dir.ogg", "ogg", false),
        entry("/t/a.OGG", "OGG", true),
        entry("/t/b.mp3", "mp3", true),
        entry("/t/c.JPG", "JPG", true),
        entry("/t/d.png", "png", true),
    ];
    let picked = pick_downloaded_files(&entries).unwrap();
    assert_eq!(picked.audio_path, "/t/a.OGG");
    assert_eq!(picked.thumbnail_path.as_deref(), Some("/t/c.JPG"));
    let no_thumb = pick_downloaded_files(&vec![entry("/t/a.flac", "flac", true)]).unwrap();
    assert_eq!(no_thumb.thumbnail_path, None);
    assert!(pick_downloaded_files(&vec![entry("/t/c.jpg", "jpg", true)]).is_none());
}

#[test]
fn a_moved_file_takes_the_first_free_name() {
    let names = |v: &[&str]| v.iter().map(|s| s.to_string()).collect::<Vec<String>>();
    assert_eq!(free_file_name("song.ogg", "song", "ogg", &names(&[])), "song.ogg");
    assert_eq!(free_file_name("song.ogg", "song", "ogg", &names(&["other.ogg"])), "song.ogg");
    assert_eq!(free_file_name("song.ogg", "song", "ogg", &names(&["song.ogg"])), "song_1.ogg");
    assert_eq!(
        free_file_name("song.ogg", "song", "ogg", &names(&["song_2.ogg", "song.ogg", "song_1.ogg"])),
        "song_3.ogg"
    );
    assert_eq!(free_file_name("cover", "cover", "", &names(&["cover"])), "cover_1.");
}

#[test]
fn yt_dlp_failures_with_error_output_are_reported() {
    assert_eq!(yt_dlp_warning(false, "ERROR: gone").as_deref(), Some("yt-dlp warning: ERROR: gone"));
    assert_eq!(yt_dlp_warning(false, ""), None);
    assert_eq!(yt_dlp_warning(true, "noise"), None);
}

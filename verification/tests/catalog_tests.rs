use audiocrab::catalog::{complete_ids_query, placeholder_list, sorted_ids_query, tagged_videos_query, weighted_ids_query};
use audiocrab::cli::FilterSpec;

fn filter(tags: &[&str], mode: &str) -> FilterSpec {
    FilterSpec {
        playlist: None,
        tags: tags.iter().map(|s| s.to_string()).collect(),
        artist: None,
        album: None,
        match_mode: mode.to_string(),
    }
}

#[test]
fn default_filter_selects_every_complete_track() {
    let q = weighted_ids_query(&FilterSpec::default());
    assert_eq!(
        q.sql,
        "SELECT v.id, v.weight FROM videos v WHERE v.status = 'complete' GROUP BY v.id ORDER BY v.weight DESC, v.id"
    );
    assert!(q.params.is_empty());
    let d = FilterSpec::default();
    assert_eq!(d.match_mode, "and");
    assert!(d.tags.is_empty() && d.playlist.is_none() && d.artist.is_none() && d.album.is_none());
}

#[test]
fn all_conditions_in_and_mode() {
    let mut f = filter(&["chill", "jazz"], "and");
    f.artist = Some("Miles".to_string());
    f.album = Some("Kind of Blue".to_string());
    f.playlist = Some("Evening".to_string());
    let q = sorted_ids_query(&f, "title", false);
    let tag = "EXISTS (SELECT 1 FROM video_tags evt JOIN tags et ON et.id = evt.tag_id WHERE evt.video_id = v.id AND et.name = ?)";
    assert_eq!(
        q.sql,
        format!(
            "SELECT v.id FROM videos v JOIN video_source_playlists vsp ON v.id = vsp.video_id JOIN source_playlists sp ON vsp.source_playlist_id = sp.id WHERE v.status = 'complete' AND (v.artist = ? AND v.album = ? AND sp.title = ? AND {tag} AND {tag}) GROUP BY v.id ORDER BY v.title ASC, v.id"
        )
    );
    assert_eq!(q.params, vec!["Miles", "Kind of Blue", "Evening", "chill", "jazz"]);
    assert_eq!(q.sql.matches('?').count(), q.params.len());
}

#[test]
fn or_mode_tests_links_by_sub_query_without_joins() {
    let mut f = filter(&["a", "b", "c"], "or");
    f.artist = Some("X".to_string());
    f.playlist = Some("Evening".to_string());
    let q = weighted_ids_query(&f);
    assert_eq!(
        q.sql,
        "SELECT v.id, v.weight FROM videos v WHERE v.status = 'complete' AND (v.artist = ? OR EXISTS (SELECT 1 FROM video_source_playlists ovsp JOIN source_playlists osp ON osp.id = ovsp.source_playlist_id WHERE ovsp.video_id = v.id AND osp.title = ?) OR EXISTS (SELECT 1 FROM video_tags ovt JOIN tags ot ON ot.id = ovt.tag_id WHERE ovt.video_id = v.id AND ot.name IN (?, ?, ?))) GROUP BY v.id ORDER BY v.weight DESC, v.id"
    );
    assert_eq!(q.params, vec!["X", "Evening", "a", "b", "c"]);
    assert!(!q.sql.contains(" JOIN video_source_playlists vsp"));
    assert!(!q.sql.contains(" JOIN video_tags vt"));
    let d = sorted_ids_query(&filter(&[], "or"), "play_count", true);
    assert_eq!(
        d.sql,
        "SELECT v.id FROM videos v WHERE v.status = 'complete' GROUP BY v.id ORDER BY v.play_count DESC, v.id"
    );
}

#[test]
fn lookup_statements_have_one_placeholder_per_value() {
    assert_eq!(placeholder_list(0), "");
    assert_eq!(placeholder_list(1), "?");
    assert_eq!(placeholder_list(3), "?, ?, ?");
    let ids = vec!["yt:1".to_string(), "yt:2".to_string()];
    let q = complete_ids_query(&ids);
    assert_eq!(q.sql, "SELECT id FROM videos WHERE id IN (?, ?) AND status = 'complete'");
    assert_eq!(q.params, ids);
    assert_eq!(
        tagged_videos_query(2),
        "SELECT v.id, v.extractor, v.extractor_id, v.title, v.artist, v.album, v.duration, v.upload_date, v.webpage_url, v.thumbnail_url FROM videos v JOIN video_tags vt ON vt.video_id = v.id WHERE vt.tag_id IN (?, ?) GROUP BY v.id"
    );
}

#[test]
fn every_placeholder_gets_a_value() {
    let mut filters = Vec::new();
    for mode in ["and", "or"] {
        for tags in [&[][..], &["one"][..], &["one", "two", "three"][..]] {
            let mut f = filter(tags, mode);
            filters.push(f.clone());
            f.artist = Some("A".to_string());
            filters.push(f.clone());
            f.album = Some("B".to_string());
            f.playlist = Some("C".to_string());
            filters.push(f);
        }
    }
    for f in &filters {
        let w = weighted_ids_query(f);
        assert_eq!(w.sql.matches('?').count(), w.params.len());
        for column in ["title", "artist", "album", "upload_date", "created_at", "play_count"] {
            let s = sorted_ids_query(f, column, column.len() % 2 == 0);
            assert_eq!(s.sql.matches('?').count(), s.params.len());
        }
    }
    for n in 0..5 {
        let ids: Vec<String> = (0..n).map(|i| format!("yt:{i}")).collect();
        assert_eq!(complete_ids_query(&ids).sql.matches('?').count(), n);
        assert_eq!(tagged_videos_query(n).matches('?').count(), n);
    }
}

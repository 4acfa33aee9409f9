use audiocrab::download::FlatEntry;
use audiocrab::job::{entry_ids, plan_download, source_playlist, summarize, JobSummary};

fn entry(id: &str, url: &str, playlist: Option<(&str, Option<&str>)>) -> FlatEntry {
    FlatEntry {
        id: id.to_string(),
        extractor: "youtube".to_string(),
        extractor_id: id.to_string(),
        title: String::new(),
        url: url.to_string(),
        playlist_id: playlist.map(|p| p.0.to_string()),
        playlist_title: playlist.and_then(|p| p.1.map(str::to_string)),
    }
}

#[test]
fn known_entries_are_skipped() {
    let flat = vec![
        entry("a", "ua", Some(("PL", Some("Mix")))),
        entry("b", "ub", None),
        entry("c", "uc", None),
    ];
    assert_eq!(entry_ids(&flat), vec!["a", "b", "c"]);
    let plan = plan_download(&flat, &vec!["b".to_string(), "z".to_string()]);
    assert_eq!(plan.known_ids, vec!["b"]);
    assert_eq!(plan.new_urls, vec!["ua", "uc"]);
    assert_eq!(plan.skipped, 1);
    assert_eq!(plan.known_ids.len() + plan.new_urls.len(), flat.len());
}

#[test]
fn source_playlist_comes_from_the_first_entry() {
    let flat = vec![entry("a", "ua", Some(("PL", None))), entry("b", "ub", Some(("PL2", Some("T"))))];
    assert_eq!(source_playlist(&flat), Some(("PL".to_string(), String::new())));
    assert_eq!(source_playlist(&vec![entry("b", "ub", None)]), None);
    assert_eq!(source_playlist(&Vec::new()), None);
}

#[test]
fn summary_counts_each_attempt_once() {
    let s = summarize(5, 2, &vec![true, false, true]);
    assert_eq!(s, JobSummary { total_in_link: 5, skipped_duplicate: 2, downloaded: 2, failed: 1 });
    assert_eq!(summarize(0, 0, &Vec::new()), JobSummary::default());
}

//! The bookkeeping of a download job: which entries of a link are new, which are
//! already in the library, and the job's final tally.

use vstd::prelude::*;
use crate::download::{FlatEntry, FlatEntryView};
use crate::queue::{views, lemma_views_push};
use crate::text::{opt_view, str_eq};

verus! {

/// How a download job went.
#[derive(Debug, Default, Clone, Copy, PartialEq, Eq, Structural)]
pub struct JobSummary {
    pub total_in_link: usize,
    pub skipped_duplicate: usize,
    pub downloaded: usize,
    pub failed: usize,
}

/// The plain form of a list of flat entries.
pub open spec fn entry_views(es: Seq<FlatEntry>) -> Seq<FlatEntryView> {
    es.map_values(|e: FlatEntry| e@)
}

/// The source playlist a listing belongs to: the first entry's playlist id, with the
/// first entry's playlist title (empty when it has none).
pub open spec fn source_playlist_of(es: Seq<FlatEntryView>) -> Option<(Seq<char>, Seq<char>)> {
    if es.len() > 0 && es[0].playlist_id is Some {
        Some(
            (
                es[0].playlist_id->0,
                match es[0].playlist_title {
                    Some(t) => t,
                    None => ""@,
                },
            ),
        )
    } else {
        None
    }
}

/// The ids of the entries, in order.
pub open spec fn ids_of(es: Seq<FlatEntryView>) -> Seq<Seq<char>> {
    es.map_values(|e: FlatEntryView| e.id)
}

/// The ids of the entries already completely downloaded, in order.
pub open spec fn known_entry_ids(es: Seq<FlatEntryView>, known: Seq<Seq<char>>) -> Seq<Seq<char>>
    decreases es.len(),
{
    if es.len() == 0 {
        Seq::empty()
    } else {
        known_entry_ids(es.drop_last(), known) + if known.contains(es.last().id) {
            seq![es.last().id]
        } else {
            Seq::empty()
        }
    }
}

/// The URLs of the entries not yet downloaded, in order.
pub open spec fn new_entry_urls(es: Seq<FlatEntryView>, known: Seq<Seq<char>>) -> Seq<Seq<char>>
    decreases es.len(),
{
    if es.len() == 0 {
        Seq::empty()
    } else {
        new_entry_urls(es.drop_last(), known) + if known.contains(es.last().id) {
            Seq::empty()
        } else {
            seq![es.last().url]
        }
    }
}

/// Which entries of a listing are new and which are already in the library.
#[derive(Debug)]
pub struct DownloadPlan {
    /// The ids of the entries already downloaded completely, in listing order.
    pub known_ids: Vec<String>,
    /// The URLs of the remaining entries, in listing order.
    pub new_urls: Vec<String>,
    /// How many entries were skipped as already downloaded.
    pub skipped: usize,
}

/// The source playlist of a listing, with its title, if its first entry has one.
pub fn source_playlist(flat: &Vec<FlatEntry>) -> (r: Option<(String, String)>)
    ensures
        match source_playlist_of(entry_views(flat@)) {
            None => r is None,
            Some(p) => r matches Some(x) && x.0@ == p.0 && x.1@ == p.1,
        },
{
    if flat.len() == 0 {
        return None;
    }
    let first = &flat[0];
    match &first.playlist_id {
        Some(pid) => {
            let title = match &first.playlist_title {
                Some(t) => t.clone(),
                None => String::from_str(""),
            };
            Some((pid.clone(), title))
        },
        None => None,
    }
}

/// The ids of the entries of a listing, in order.
pub fn entry_ids(flat: &Vec<FlatEntry>) -> (ids: Vec<String>)
    ensures
        views(ids@) == ids_of(entry_views(flat@)),
{
    let mut ids: Vec<String> = Vec::new();
    let mut i: usize = 0;
    while i < flat.len()
        invariant
            i <= flat.len(),
            views(ids@) == ids_of(entry_views(flat@)).take(i as int),
        decreases flat.len() - i,
    {
        let id = flat[i].id.clone();
        proof {
            lemma_views_push(ids@, id);
        }
        ids.push(id);
        assert(views(ids@) =~= ids_of(entry_views(flat@)).take(i + 1));
        i = i + 1;
    }
    assert(ids_of(entry_views(flat@)).take(flat.len() as int) =~= ids_of(entry_views(flat@)));
    ids
}

fn contains_text(haystack: &Vec<String>, needle: &str) -> (b: bool)
    ensures
        b == views(haystack@).contains(needle@),
{
    let mut i: usize = 0;
    while i < haystack.len()
        invariant
            i <= haystack.len(),
            forall|j: int| 0 <= j < i ==> views(haystack@)[j] != needle@,
        decreases haystack.len() - i,
    {
        if str_eq(haystack[i].as_str(), needle) {
            assert(views(haystack@)[i as int] == needle@);
            return true;
        }
        i = i + 1;
    }
    false
}

/// Splits a listing into the entries already downloaded (`known` holds their ids)
/// and the new ones.
pub fn plan_download(flat: &Vec<FlatEntry>, known: &Vec<String>) -> (p: DownloadPlan)
    ensures
        views(p.known_ids@) == known_entry_ids(entry_views(flat@), views(known@)),
        views(p.new_urls@) == new_entry_urls(entry_views(flat@), views(known@)),
        p.skipped == flat.len() - p.new_urls.len(),
{
    let ghost es = entry_views(flat@);
    let ghost kn = views(known@);
    let mut known_ids: Vec<String> = Vec::new();
    let mut new_urls: Vec<String> = Vec::new();
    let mut i: usize = 0;
    while i < flat.len()
        invariant
            i <= flat.len(),
            es == entry_views(flat@),
            kn == views(known@),
            views(known_ids@) == known_entry_ids(es.take(i as int), kn),
            views(new_urls@) == new_entry_urls(es.take(i as int), kn),
            new_urls.len() <= i,
        decreases flat.len() - i,
    {
        assert(es.take(i + 1).drop_last() == es.take(i as int));
        assert(es.take(i + 1).last() == flat@[i as int]@);
        if contains_text(known, flat[i].id.as_str()) {
            let id = flat[i].id.clone();
            proof {
                lemma_views_push(known_ids@, id);
            }
            known_ids.push(id);
            assert(views(new_urls@) =~= new_entry_urls(es.take(i + 1), kn));
        } else {
            let url = flat[i].url.clone();
            proof {
                lemma_views_push(new_urls@, url);
            }
            new_urls.push(url);
            assert(views(known_ids@) =~= known_entry_ids(es.take(i + 1), kn));
        }
        i = i + 1;
    }
    assert(es.take(flat.len() as int) == es);
    let skipped = flat.len() - new_urls.len();
    DownloadPlan { known_ids, new_urls, skipped }
}

/// How many of the outcomes are successes.
pub open spec fn count_ok(outcomes: Seq<bool>) -> nat
    decreases outcomes.len(),
{
    if outcomes.len() == 0 {
        0
    } else {
        count_ok(outcomes.drop_last()) + if outcomes.last() {
            1nat
        } else {
            0nat
        }
    }
}

proof fn lemma_count_ok_le(outcomes: Seq<bool>)
    ensures
        count_ok(outcomes) <= outcomes.len(),
    decreases outcomes.len(),
{
    if outcomes.len() > 0 {
        lemma_count_ok_le(outcomes.drop_last());
    }
}

/// The tally of a job over a listing of `total` entries, of which `skipped` were
/// already downloaded, with one outcome per download attempted.
pub fn summarize(total: usize, skipped: usize, outcomes: &Vec<bool>) -> (s: JobSummary)
    ensures
        s.total_in_link == total,
        s.skipped_duplicate == skipped,
        s.downloaded == count_ok(outcomes@),
        s.failed == outcomes.len() - count_ok(outcomes@),
{
    let mut ok: usize = 0;
    let mut i: usize = 0;
    while i < outcomes.len()
        invariant
            i <= outcomes.len(),
            ok == count_ok(outcomes@.take(i as int)),
            ok <= i,
        decreases outcomes.len() - i,
    {
        assert(outcomes@.take(i + 1).drop_last() == outcomes@.take(i as int));
        if outcomes[i] {
            ok = ok + 1;
        }
        i = i + 1;
    }
    assert(outcomes@.take(outcomes.len() as int) == outcomes@);
    JobSummary { total_in_link: total, skipped_duplicate: skipped, downloaded: ok, failed: outcomes.len() - ok }
}

/// Every entry of a listing is either skipped as known or fetched as new.
pub proof fn law_entries_are_skipped_or_fetched(es: Seq<FlatEntryView>, known: Seq<Seq<char>>)
    ensures
        known_entry_ids(es, known).len() + new_entry_urls(es, known).len() == es.len(),
    decreases es.len(),
{
    if es.len() > 0 {
        law_entries_are_skipped_or_fetched(es.drop_last(), known);
    }
}

/// Every attempted download is counted once, as downloaded or as failed.
pub proof fn law_outcomes_counted_once(outcomes: Seq<bool>)
    ensures
        count_ok(outcomes) + (outcomes.len() - count_ok(outcomes)) == outcomes.len(),
        count_ok(outcomes) <= outcomes.len(),
{
    lemma_count_ok_le(outcomes);
}

/// An entry is skipped exactly when its track id is among the known ids: every id
/// listed as known is a known one; when every entry's id is known nothing is fetched
/// and every id is listed, in order; when none is known, every entry's URL is fetched,
/// in order, and none is listed.
pub proof fn law_known_entries_are_skipped(es: Seq<FlatEntryView>, known: Seq<Seq<char>>)
    ensures
        forall|x: Seq<char>| #[trigger] known_entry_ids(es, known).contains(x) ==> known.contains(x),
        (forall|i: int| 0 <= i < es.len() ==> known.contains(#[trigger] es[i].id)) ==> {
            &&& new_entry_urls(es, known).len() == 0
            &&& known_entry_ids(es, known).len() == es.len()
            &&& forall|i: int| 0 <= i < es.len() ==> #[trigger] known_entry_ids(es, known)[i] == es[i].id
        },
        (forall|i: int| 0 <= i < es.len() ==> !known.contains(#[trigger] es[i].id)) ==> {
            &&& known_entry_ids(es, known).len() == 0
            &&& new_entry_urls(es, known).len() == es.len()
            &&& forall|i: int| 0 <= i < es.len() ==> #[trigger] new_entry_urls(es, known)[i] == es[i].url
        },
    decreases es.len(),
{
    if es.len() > 0 {
        let p = es.drop_last();
        law_known_entries_are_skipped(p, known);
        assert forall|i: int| 0 <= i < p.len() implies p[i] == es[i] by {}
        assert forall|x: Seq<char>| #[trigger] known_entry_ids(es, known).contains(x) implies known.contains(x) by {
            let k = choose|k: int| 0 <= k < known_entry_ids(es, known).len() && known_entry_ids(es, known)[k] == x;
            if k < known_entry_ids(p, known).len() {
                assert(known_entry_ids(p, known)[k] == x);
                assert(known_entry_ids(p, known).contains(x));
            }
        }
        if forall|i: int| 0 <= i < es.len() ==> known.contains(#[trigger] es[i].id) {
            assert(known.contains(es[es.len() - 1].id));
            assert forall|i: int| 0 <= i < p.len() implies known.contains(#[trigger] p[i].id) by {
                assert(known.contains(es[i].id));
            }
        }
        if forall|i: int| 0 <= i < es.len() ==> !known.contains(#[trigger] es[i].id) {
            assert(!known.contains(es[es.len() - 1].id));
            assert forall|i: int| 0 <= i < p.len() implies !known.contains(#[trigger] p[i].id) by {
                assert(!known.contains(es[i].id));
            }
        }
    }
}

} // verus!

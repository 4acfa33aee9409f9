//! The catalogue queries: which statement and which parameters select the tracks a
//! filter asks for, in the order the player needs them.

use vstd::prelude::*;
use crate::cli::{FilterSpec, FilterView, SortKey, sort_column};
use crate::queue::{views, lemma_views_push};
use crate::text::str_eq;

verus! {

/// A statement for the catalogue and the text values bound to its `?` placeholders,
/// in order.
#[derive(Debug, Clone)]
pub struct CatalogQuery {
    pub sql: String,
    pub params: Vec<String>,
}

/// The parts joined with `sep` between each two of them.
pub open spec fn join_with(parts: Seq<Seq<char>>, sep: Seq<char>) -> Seq<char>
    decreases parts.len(),
{
    if parts.len() == 0 {
        Seq::empty()
    } else if parts.len() == 1 {
        parts[0]
    } else {
        join_with(parts.drop_last(), sep) + sep + parts.last()
    }
}

/// `n` placeholders separated by commas: `?, ?, ?`.
pub open spec fn placeholders(n: nat) -> Seq<char> {
    join_with(Seq::new(n, |i: int| "?"@), ", "@)
}

/// The condition that a track carries the tag bound to its placeholder.
pub open spec fn has_tag_condition() -> Seq<char> {
    "EXISTS (SELECT 1 FROM video_tags evt JOIN tags et ON et.id = evt.tag_id WHERE evt.video_id = v.id AND et.name = ?)"@
}

/// The condition that a track is linked to the source playlist bound to its
/// placeholder, used when any condition may match.
pub open spec fn in_playlist_condition() -> Seq<char> {
    "EXISTS (SELECT 1 FROM video_source_playlists ovsp JOIN source_playlists osp ON osp.id = ovsp.source_playlist_id WHERE ovsp.video_id = v.id AND osp.title = ?)"@
}

/// The condition that a track carries one of `n` tags bound to its placeholders,
/// used when any condition may match.
pub open spec fn any_tag_condition(n: nat) -> Seq<char> {
    "EXISTS (SELECT 1 FROM video_tags ovt JOIN tags ot ON ot.id = ovt.tag_id WHERE ovt.video_id = v.id AND ot.name IN ("@ + placeholders(n) + "))"@
}

/// Whether the filter combines its conditions with "or".
pub open spec fn any_match(f: FilterView) -> bool {
    f.match_mode == "or"@
}

/// The conditions a filter places on a track, in order: artist, album, source
/// playlist, then the tags. When any condition may match, the playlist and the tags
/// are tested by sub-queries, so that a track without such links can still match by
/// another condition, and one condition names all the tags; otherwise the playlist
/// is tested on the joined table and there is one condition per tag.
pub open spec fn filter_conditions(f: FilterView) -> Seq<Seq<char>> {
    let artist = if f.artist is Some {
        seq!["v.artist = ?"@]
    } else {
        Seq::empty()
    };
    let album = if f.album is Some {
        seq!["v.album = ?"@]
    } else {
        Seq::empty()
    };
    let playlist = if f.playlist is None {
        Seq::empty()
    } else if any_match(f) {
        seq![in_playlist_condition()]
    } else {
        seq!["sp.title = ?"@]
    };
    let tags = if f.tags.len() == 0 {
        Seq::empty()
    } else if any_match(f) {
        seq![any_tag_condition(f.tags.len())]
    } else {
        Seq::new(f.tags.len(), |i: int| has_tag_condition())
    };
    artist + album + playlist + tags
}

/// The values bound to the conditions' placeholders, in the same order.
pub open spec fn filter_params(f: FilterView) -> Seq<Seq<char>> {
    let artist = match f.artist {
        Some(a) => seq![a],
        None => Seq::empty(),
    };
    let album = match f.album {
        Some(a) => seq![a],
        None => Seq::empty(),
    };
    let playlist = match f.playlist {
        Some(p) => seq![p],
        None => Seq::empty(),
    };
    artist + album + playlist + f.tags
}

/// The joins a filter needs: the source playlists when it names one and every
/// condition must match. When any condition may match nothing is joined, so that no
/// track is lost for want of a link.
pub open spec fn filter_joins(f: FilterView) -> Seq<char> {
    if f.playlist is Some && !any_match(f) {
        " JOIN video_source_playlists vsp ON v.id = vsp.video_id JOIN source_playlists sp ON vsp.source_playlist_id = sp.id"@
    } else {
        Seq::empty()
    }
}

/// The restriction to completely downloaded tracks, followed by the filter's conditions
/// combined with "or" or "and".
pub open spec fn filter_where(f: FilterView) -> Seq<char> {
    let conds = filter_conditions(f);
    let sep = if any_match(f) {
        " OR "@
    } else {
        " AND "@
    };
    " WHERE v.status = 'complete'"@ + if conds.len() == 0 {
        Seq::empty()
    } else {
        " AND ("@ + join_with(conds, sep) + ")"@
    }
}

/// The statement selecting each matching track's id and weight, heaviest first and
/// then by id.
pub open spec fn weighted_ids_sql(f: FilterView) -> Seq<char> {
    "SELECT v.id, v.weight FROM videos v"@ + filter_joins(f) + filter_where(f)
        + " GROUP BY v.id ORDER BY v.weight DESC, v.id"@
}

/// The statement selecting each matching track's id ordered by `column` in the given
/// direction, then by id.
pub open spec fn sorted_ids_sql(f: FilterView, column: Seq<char>, descending: bool) -> Seq<char> {
    "SELECT v.id FROM videos v"@ + filter_joins(f) + filter_where(f) + " GROUP BY v.id ORDER BY v."@
        + column + " "@ + (if descending {
        "DESC"@
    } else {
        "ASC"@
    }) + ", v.id"@
}

/// The statement selecting which of `n` ids belong to completely downloaded tracks.
pub open spec fn complete_ids_sql(n: nat) -> Seq<char> {
    "SELECT id FROM videos WHERE id IN ("@ + placeholders(n) + ") AND status = 'complete'"@
}

/// The statement selecting the metadata of the tracks carrying any of `n` tags.
pub open spec fn tagged_videos_sql(n: nat) -> Seq<char> {
    "SELECT v.id, v.extractor, v.extractor_id, v.title, v.artist, v.album, v.duration, v.upload_date, v.webpage_url, v.thumbnail_url FROM videos v JOIN video_tags vt ON vt.video_id = v.id WHERE vt.tag_id IN ("@
        + placeholders(n) + ") GROUP BY v.id"@
}

/// The strings of `parts` joined with `sep` between each two of them.
pub fn join_strings(parts: &Vec<String>, sep: &str) -> (r: String)
    ensures
        r@ == join_with(views(parts@), sep@),
{
    let mut r = String::new();
    let mut i: usize = 0;
    while i < parts.len()
        invariant
            i <= parts.len(),
            r@ == join_with(views(parts@).take(i as int), sep@),
        decreases parts.len() - i,
    {
        let ghost before = views(parts@).take(i as int);
        let ghost after = views(parts@).take(i + 1);
        assert(after.drop_last() == before);
        assert(after.last() == parts@[i as int]@);
        if i > 0 {
            r.append(sep);
        } else {
            assert(before.len() == 0);
        }
        r.append(parts[i].as_str());
        i = i + 1;
    }
    assert(views(parts@).take(parts.len() as int) == views(parts@));
    r
}

/// `n` placeholders separated by commas.
pub fn placeholder_list(n: usize) -> (r: String)
    ensures
        r@ == placeholders(n as nat),
{
    let mut marks: Vec<String> = Vec::new();
    let mut i: usize = 0;
    while i < n
        invariant
            i <= n,
            views(marks@) == Seq::new(i as nat, |j: int| "?"@),
        decreases n - i,
    {
        let mark = String::from_str("?");
        proof {
            lemma_views_push(marks@, mark);
        }
        marks.push(mark);
        assert(views(marks@) =~= Seq::new((i + 1) as nat, |j: int| "?"@));
        i = i + 1;
    }
    join_strings(&marks, ", ")
}

fn text_of(s: &str) -> (r: String)
    ensures
        r@ == s@,
{
    String::from_str(s)
}

fn concat3(a: &str, b: &str, c: &str) -> (r: String)
    ensures
        r@ == a@ + b@ + c@,
{
    let mut r = String::from_str(a);
    r.append(b);
    r.append(c);
    r
}

pub(crate) fn clone_strings(v: &Vec<String>) -> (r: Vec<String>)
    ensures
        views(r@) == views(v@),
{
    let mut r: Vec<String> = Vec::new();
    let mut i: usize = 0;
    while i < v.len()
        invariant
            i <= v.len(),
            views(r@) == views(v@).take(i as int),
        decreases v.len() - i,
    {
        let item = v[i].clone();
        proof {
            lemma_views_push(r@, item);
        }
        r.push(item);
        assert(views(r@) =~= views(v@).take(i + 1));
        i = i + 1;
    }
    assert(views(v@).take(v.len() as int) == views(v@));
    r
}

/// The joins, the `WHERE` clause and the parameters of a filter.
fn filter_parts(filter: &FilterSpec) -> (r: (String, String, Vec<String>))
    ensures
        r.0@ == filter_joins(filter@),
        r.1@ == filter_where(filter@),
        views(r.2@) == filter_params(filter@),
{
    let f = filter;
    let ghost fv = filter@;
    let any = str_eq(f.match_mode.as_str(), "or");
    let mut conditions: Vec<String> = Vec::new();
    let mut params: Vec<String> = Vec::new();
    if let Some(artist) = &f.artist {
        conditions.push(text_of("v.artist = ?"));
        params.push(artist.clone());
    }
    if let Some(album) = &f.album {
        conditions.push(text_of("v.album = ?"));
        params.push(album.clone());
    }
    if let Some(playlist) = &f.playlist {
        if any {
            conditions.push(text_of(
                "EXISTS (SELECT 1 FROM video_source_playlists ovsp JOIN source_playlists osp ON osp.id = ovsp.source_playlist_id WHERE ovsp.video_id = v.id AND osp.title = ?)",
            ));
        } else {
            conditions.push(text_of("sp.title = ?"));
        }
        params.push(playlist.clone());
    }
    let ghost head_conds = views(conditions@);
    let ghost head_params = views(params@);
    if f.tags.len() > 0 {
        if any {
            let marks = placeholder_list(f.tags.len());
            conditions.push(concat3(
                "EXISTS (SELECT 1 FROM video_tags ovt JOIN tags ot ON ot.id = ovt.tag_id WHERE ovt.video_id = v.id AND ot.name IN (",
                marks.as_str(),
                "))",
            ));
        } else {
            let mut i: usize = 0;
            while i < f.tags.len()
                invariant
                    i <= f.tags.len(),
                    views(conditions@) == head_conds + Seq::new(
                        i as nat,
                        |j: int| has_tag_condition(),
                    ),
                decreases f.tags.len() - i,
            {
                let cond = text_of(
                    "EXISTS (SELECT 1 FROM video_tags evt JOIN tags et ON et.id = evt.tag_id WHERE evt.video_id = v.id AND et.name = ?)",
                );
                proof {
                    lemma_views_push(conditions@, cond);
                }
                conditions.push(cond);
                assert(views(conditions@) =~= head_conds + Seq::new(
                    (i + 1) as nat,
                    |j: int| has_tag_condition(),
                ));
                i = i + 1;
            }
        }
        let mut k: usize = 0;
        while k < f.tags.len()
            invariant
                k <= f.tags.len(),
                views(params@) == head_params + views(f.tags@).take(k as int),
            decreases f.tags.len() - k,
        {
            let tag = f.tags[k].clone();
            proof {
                lemma_views_push(params@, tag);
            }
            params.push(tag);
            assert(views(params@) =~= head_params + views(f.tags@).take(k + 1));
            k = k + 1;
        }
        assert(views(f.tags@).take(f.tags.len() as int) == views(f.tags@));
    }
    assert(views(conditions@) =~= filter_conditions(fv));
    assert(views(params@) =~= filter_params(fv));
    let mut joins = String::new();
    if f.playlist.is_some() && !any {
        joins.append(
            " JOIN video_source_playlists vsp ON v.id = vsp.video_id JOIN source_playlists sp ON vsp.source_playlist_id = sp.id",
        );
    }
    let mut clause = text_of(" WHERE v.status = 'complete'");
    if conditions.len() > 0 {
        let combined = if any {
            join_strings(&conditions, " OR ")
        } else {
            join_strings(&conditions, " AND ")
        };
        clause.append(" AND (");
        clause.append(combined.as_str());
        clause.append(")");
    }
    (joins, clause, params)
}

/// The statement and parameters that list each matching complete track's id and
/// weight, heaviest first and then by id.
pub fn weighted_ids_query(filter: &FilterSpec) -> (q: CatalogQuery)
    ensures
        q.sql@ == weighted_ids_sql(filter@),
        views(q.params@) == filter_params(filter@),
{
    let (joins, clause, params) = filter_parts(filter);
    let mut sql = text_of("SELECT v.id, v.weight FROM videos v");
    sql.append(joins.as_str());
    sql.append(clause.as_str());
    sql.append(" GROUP BY v.id ORDER BY v.weight DESC, v.id");
    CatalogQuery { sql, params }
}

/// The statement and parameters that list each matching complete track's id, ordered
/// by the column `sort_key` in the given direction and then by id.
pub fn sorted_ids_query(filter: &FilterSpec, sort_key: &str, descending: bool) -> (q: CatalogQuery)
    ensures
        q.sql@ == sorted_ids_sql(filter@, sort_key@, descending),
        views(q.params@) == filter_params(filter@),
{
    let (joins, clause, params) = filter_parts(filter);
    let mut sql = text_of("SELECT v.id FROM videos v");
    sql.append(joins.as_str());
    sql.append(clause.as_str());
    sql.append(" GROUP BY v.id ORDER BY v.");
    sql.append(sort_key);
    sql.append(" ");
    if descending {
        sql.append("DESC");
    } else {
        sql.append("ASC");
    }
    sql.append(", v.id");
    CatalogQuery { sql, params }
}

/// The statement and parameters that pick out which of `ids` belong to completely
/// downloaded tracks.
pub fn complete_ids_query(ids: &Vec<String>) -> (q: CatalogQuery)
    ensures
        q.sql@ == complete_ids_sql(ids.len() as nat),
        views(q.params@) == views(ids@),
{
    let marks = placeholder_list(ids.len());
    let sql = concat3("SELECT id FROM videos WHERE id IN (", marks.as_str(), ") AND status = 'complete'");
    CatalogQuery { sql, params: clone_strings(ids) }
}

/// The statement that lists the metadata of the tracks carrying any of `n` tags.
pub fn tagged_videos_query(n: usize) -> (sql: String)
    ensures
        sql@ == tagged_videos_sql(n as nat),
{
    let marks = placeholder_list(n);
    concat3(
        "SELECT v.id, v.extractor, v.extractor_id, v.title, v.artist, v.album, v.duration, v.upload_date, v.webpage_url, v.thumbnail_url FROM videos v JOIN video_tags vt ON vt.video_id = v.id WHERE vt.tag_id IN (",
        marks.as_str(),
        ") GROUP BY v.id",
    )
}

/// The number of `?` placeholders among the first `i` characters of `s`.
pub open spec fn marks_before(s: Seq<char>, i: int) -> nat
    decreases i,
{
    if i <= 0 {
        0
    } else {
        marks_before(s, i - 1) + if s[i - 1] == '?' {
            1nat
        } else {
            0nat
        }
    }
}

/// The number of `?` placeholders in `s`.
pub open spec fn mark_count(s: Seq<char>) -> nat {
    marks_before(s, s.len() as int)
}

/// The placeholders of each part, added up.
pub open spec fn sum_marks(parts: Seq<Seq<char>>) -> nat
    decreases parts.len(),
{
    if parts.len() == 0 {
        0
    } else {
        sum_marks(parts.drop_last()) + mark_count(parts.last())
    }
}

proof fn lemma_marks_prefix(a: Seq<char>, b: Seq<char>, j: int)
    requires
        0 <= j <= a.len(),
    ensures
        marks_before(a + b, j) == marks_before(a, j),
    decreases j,
{
    if j > 0 {
        lemma_marks_prefix(a, b, j - 1);
        assert((a + b)[j - 1] == a[j - 1]);
    }
}

proof fn lemma_marks_suffix(a: Seq<char>, b: Seq<char>, k: int)
    requires
        0 <= k <= b.len(),
    ensures
        marks_before(a + b, a.len() + k) == mark_count(a) + marks_before(b, k),
    decreases k,
{
    if k == 0 {
        lemma_marks_prefix(a, b, a.len() as int);
    } else {
        lemma_marks_suffix(a, b, k - 1);
        assert((a + b)[a.len() + k - 1] == b[k - 1]);
    }
}

/// The placeholders of two texts put together are those of each, added up.
pub proof fn lemma_mark_count_concat(a: Seq<char>, b: Seq<char>)
    ensures
        mark_count(a + b) == mark_count(a) + mark_count(b),
{
    lemma_marks_suffix(a, b, b.len() as int);
}

proof fn lemma_sum_marks_concat(p: Seq<Seq<char>>, q: Seq<Seq<char>>)
    ensures
        sum_marks(p + q) == sum_marks(p) + sum_marks(q),
    decreases q.len(),
{
    if q.len() == 0 {
        assert(p + q =~= p);
    } else {
        lemma_sum_marks_concat(p, q.drop_last());
        assert((p + q).drop_last() =~= p + q.drop_last());
        assert((p + q).last() == q.last());
    }
}

/// Joining parts with a separator that holds no placeholder keeps exactly the parts'
/// placeholders.
proof fn lemma_join_marks(parts: Seq<Seq<char>>, sep: Seq<char>)
    requires
        mark_count(sep) == 0,
    ensures
        mark_count(join_with(parts, sep)) == sum_marks(parts),
    decreases parts.len(),
{
    if parts.len() == 0 {
    } else if parts.len() == 1 {
        assert(sum_marks(parts.drop_last()) == 0);
        assert(parts.last() == parts[0]);
    } else {
        lemma_join_marks(parts.drop_last(), sep);
        lemma_mark_count_concat(join_with(parts.drop_last(), sep), sep);
        lemma_mark_count_concat(join_with(parts.drop_last(), sep) + sep, parts.last());
    }
}

proof fn lemma_sum_marks_ones(n: nat, s: Seq<char>)
    requires
        mark_count(s) == 1,
    ensures
        sum_marks(Seq::new(n, |i: int| s)) == n,
    decreases n,
{
    if n > 0 {
        lemma_sum_marks_ones((n - 1) as nat, s);
        assert(Seq::new(n, |i: int| s).drop_last() =~= Seq::new((n - 1) as nat, |i: int| s));
    }
}

proof fn lemma_plain_literals_0()
    ensures
        mark_count("SELECT v.id, v.weight FROM videos v"@) == 0,
{
    reveal_with_fuel(marks_before, 40);
    reveal_strlit("SELECT v.id, v.weight FROM videos v");
    assert(marks_before("SELECT v.id, v.weight FROM videos v"@, 35) == 0);
}

proof fn lemma_plain_literals_1()
    ensures
        mark_count("SELECT v.id FROM videos v"@) == 0,
{
    reveal_with_fuel(marks_before, 40);
    reveal_strlit("SELECT v.id FROM videos v");
    assert(marks_before("SELECT v.id FROM videos v"@, 25) == 0);
}

proof fn lemma_plain_literals_2()
    ensures
        mark_count(" JOIN video_source_playlists vsp ON v.id = vsp.video_id JOIN source_playlists sp ON vsp.source_playlist_id = sp.id"@) == 0,
{
    reveal_with_fuel(marks_before, 40);
    reveal_strlit(" JOIN video_source_playlists vsp ON v.id = vsp.video_id JOIN source_playlists sp ON vsp.source_playlist_id = sp.id");
    assert(marks_before(" JOIN video_source_playlists vsp ON v.id = vsp.video_id JOIN source_playlists sp ON vsp.source_playlist_id = sp.id"@, 38) == 0);
    assert(marks_before(" JOIN video_source_playlists vsp ON v.id = vsp.video_id JOIN source_playlists sp ON vsp.source_playlist_id = sp.id"@, 76) == 0);
    assert(marks_before(" JOIN video_source_playlists vsp ON v.id = vsp.video_id JOIN source_playlists sp ON vsp.source_playlist_id = sp.id"@, 114) == 0);
}

proof fn lemma_plain_literals_3()
    ensures
        mark_count("EXISTS (SELECT 1 FROM video_tags ovt JOIN tags ot ON ot.id = ovt.tag_id WHERE ovt.video_id = v.id AND ot.name IN ("@) == 0,
{
    reveal_with_fuel(marks_before, 40);
    reveal_strlit("EXISTS (SELECT 1 FROM video_tags ovt JOIN tags ot ON ot.id = ovt.tag_id WHERE ovt.video_id = v.id AND ot.name IN (");
    assert(marks_before("EXISTS (SELECT 1 FROM video_tags ovt JOIN tags ot ON ot.id = ovt.tag_id WHERE ovt.video_id = v.id AND ot.name IN ("@, 38) == 0);
    assert(marks_before("EXISTS (SELECT 1 FROM video_tags ovt JOIN tags ot ON ot.id = ovt.tag_id WHERE ovt.video_id = v.id AND ot.name IN ("@, 76) == 0);
    assert(marks_before("EXISTS (SELECT 1 FROM video_tags ovt JOIN tags ot ON ot.id = ovt.tag_id WHERE ovt.video_id = v.id AND ot.name IN ("@, 114) == 0);
}

proof fn lemma_plain_literals_4()
    ensures
        mark_count(" WHERE v.status = 'complete'"@) == 0,
{
    reveal_with_fuel(marks_before, 40);
    reveal_strlit(" WHERE v.status = 'complete'");
    assert(marks_before(" WHERE v.status = 'complete'"@, 28) == 0);
}

proof fn lemma_plain_literals_5()
    ensures
        mark_count(" GROUP BY v.id ORDER BY v.weight DESC, v.id"@) == 0,
{
    reveal_with_fuel(marks_before, 40);
    reveal_strlit(" GROUP BY v.id ORDER BY v.weight DESC, v.id");
    assert(marks_before(" GROUP BY v.id ORDER BY v.weight DESC, v.id"@, 38) == 0);
    assert(marks_before(" GROUP BY v.id ORDER BY v.weight DESC, v.id"@, 43) == 0);
}

proof fn lemma_plain_literals_6()
    ensures
        mark_count(" GROUP BY v.id ORDER BY v."@) == 0,
{
    reveal_with_fuel(marks_before, 40);
    reveal_strlit(" GROUP BY v.id ORDER BY v.");
    assert(marks_before(" GROUP BY v.id ORDER BY v."@, 26) == 0);
}

proof fn lemma_plain_literals_7()
    ensures
        mark_count("SELECT id FROM videos WHERE id IN ("@) == 0,
{
    reveal_with_fuel(marks_before, 40);
    reveal_strlit("SELECT id FROM videos WHERE id IN (");
    assert(marks_before("SELECT id FROM videos WHERE id IN ("@, 35) == 0);
}

proof fn lemma_plain_literals_8()
    ensures
        mark_count(") AND status = 'complete'"@) == 0,
{
    reveal_with_fuel(marks_before, 40);
    reveal_strlit(") AND status = 'complete'");
    assert(marks_before(") AND status = 'complete'"@, 25) == 0);
}

proof fn lemma_plain_literals_9()
    ensures
        mark_count(") GROUP BY v.id"@) == 0,
{
    reveal_with_fuel(marks_before, 40);
    reveal_strlit(") GROUP BY v.id");
    assert(marks_before(") GROUP BY v.id"@, 15) == 0);
}

proof fn lemma_plain_literals_10()
    ensures
        mark_count(" AND ("@) == 0,
{
    reveal_with_fuel(marks_before, 40);
    reveal_strlit(" AND (");
    assert(marks_before(" AND ("@, 6) == 0);
}

proof fn lemma_plain_literals_11()
    ensures
        mark_count(")"@) == 0,
{
    reveal_with_fuel(marks_before, 40);
    reveal_strlit(")");
    assert(marks_before(")"@, 1) == 0);
}

proof fn lemma_plain_literals_12()
    ensures
        mark_count(" OR "@) == 0,
{
    reveal_with_fuel(marks_before, 40);
    reveal_strlit(" OR ");
    assert(marks_before(" OR "@, 4) == 0);
}

proof fn lemma_plain_literals_13()
    ensures
        mark_count(" AND "@) == 0,
{
    reveal_with_fuel(marks_before, 40);
    reveal_strlit(" AND ");
    assert(marks_before(" AND "@, 5) == 0);
}

proof fn lemma_plain_literals_14()
    ensures
        mark_count(", "@) == 0,
{
    reveal_with_fuel(marks_before, 40);
    reveal_strlit(", ");
    assert(marks_before(", "@, 2) == 0);
}

proof fn lemma_plain_literals_15()
    ensures
        mark_count(" "@) == 0,
{
    reveal_with_fuel(marks_before, 40);
    reveal_strlit(" ");
    assert(marks_before(" "@, 1) == 0);
}

proof fn lemma_plain_literals_16()
    ensures
        mark_count("DESC"@) == 0,
{
    reveal_with_fuel(marks_before, 40);
    reveal_strlit("DESC");
    assert(marks_before("DESC"@, 4) == 0);
}

proof fn lemma_plain_literals_17()
    ensures
        mark_count("ASC"@) == 0,
{
    reveal_with_fuel(marks_before, 40);
    reveal_strlit("ASC");
    assert(marks_before("ASC"@, 3) == 0);
}

proof fn lemma_plain_literals_18()
    ensures
        mark_count(", v.id"@) == 0,
{
    reveal_with_fuel(marks_before, 40);
    reveal_strlit(", v.id");
    assert(marks_before(", v.id"@, 6) == 0);
}

proof fn lemma_plain_literals_19()
    ensures
        mark_count("))"@) == 0,
{
    reveal_with_fuel(marks_before, 40);
    reveal_strlit("))");
    assert(marks_before("))"@, 2) == 0);
}

proof fn lemma_plain_literals()
    ensures
        mark_count("SELECT v.id, v.weight FROM videos v"@) == 0,
        mark_count("SELECT v.id FROM videos v"@) == 0,
        mark_count(" JOIN video_source_playlists vsp ON v.id = vsp.video_id JOIN source_playlists sp ON vsp.source_playlist_id = sp.id"@) == 0,
        mark_count("EXISTS (SELECT 1 FROM video_tags ovt JOIN tags ot ON ot.id = ovt.tag_id WHERE ovt.video_id = v.id AND ot.name IN ("@) == 0,
        mark_count(" WHERE v.status = 'complete'"@) == 0,
        mark_count(" GROUP BY v.id ORDER BY v.weight DESC, v.id"@) == 0,
        mark_count(" GROUP BY v.id ORDER BY v."@) == 0,
        mark_count("SELECT id FROM videos WHERE id IN ("@) == 0,
        mark_count(") AND status = 'complete'"@) == 0,
        mark_count(") GROUP BY v.id"@) == 0,
        mark_count(" AND ("@) == 0,
        mark_count(")"@) == 0,
        mark_count(" OR "@) == 0,
        mark_count(" AND "@) == 0,
        mark_count(", "@) == 0,
        mark_count(" "@) == 0,
        mark_count("DESC"@) == 0,
        mark_count("ASC"@) == 0,
        mark_count(", v.id"@) == 0,
        mark_count("))"@) == 0,
{
    lemma_plain_literals_0();
    lemma_plain_literals_1();
    lemma_plain_literals_2();
    lemma_plain_literals_3();
    lemma_plain_literals_4();
    lemma_plain_literals_5();
    lemma_plain_literals_6();
    lemma_plain_literals_7();
    lemma_plain_literals_8();
    lemma_plain_literals_9();
    lemma_plain_literals_10();
    lemma_plain_literals_11();
    lemma_plain_literals_12();
    lemma_plain_literals_13();
    lemma_plain_literals_14();
    lemma_plain_literals_15();
    lemma_plain_literals_16();
    lemma_plain_literals_17();
    lemma_plain_literals_18();
    lemma_plain_literals_19();
}

proof fn lemma_long_literal()
    ensures
        mark_count("SELECT v.id, v.extractor, v.extractor_id, v.title, v.artist, v.album, v.duration, v.upload_date, v.webpage_url, v.thumbnail_url FROM videos v JOIN video_tags vt ON vt.video_id = v.id WHERE vt.tag_id IN ("@) == 0,
{
    reveal_with_fuel(marks_before, 40);
    reveal_strlit("SELECT v.id, v.extractor, v.extractor_id, v.title, v.artist, v.album, v.duration, v.upload_date, v.webpage_url, v.thumbnail_url FROM videos v JOIN video_tags vt ON vt.video_id = v.id WHERE vt.tag_id IN (");
    assert(marks_before("SELECT v.id, v.extractor, v.extractor_id, v.title, v.artist, v.album, v.duration, v.upload_date, v.webpage_url, v.thumbnail_url FROM videos v JOIN video_tags vt ON vt.video_id = v.id WHERE vt.tag_id IN ("@, 38) == 0);
    assert(marks_before("SELECT v.id, v.extractor, v.extractor_id, v.title, v.artist, v.album, v.duration, v.upload_date, v.webpage_url, v.thumbnail_url FROM videos v JOIN video_tags vt ON vt.video_id = v.id WHERE vt.tag_id IN ("@, 76) == 0);
    assert(marks_before("SELECT v.id, v.extractor, v.extractor_id, v.title, v.artist, v.album, v.duration, v.upload_date, v.webpage_url, v.thumbnail_url FROM videos v JOIN video_tags vt ON vt.video_id = v.id WHERE vt.tag_id IN ("@, 114) == 0);
    assert(marks_before("SELECT v.id, v.extractor, v.extractor_id, v.title, v.artist, v.album, v.duration, v.upload_date, v.webpage_url, v.thumbnail_url FROM videos v JOIN video_tags vt ON vt.video_id = v.id WHERE vt.tag_id IN ("@, 152) == 0);
    assert(marks_before("SELECT v.id, v.extractor, v.extractor_id, v.title, v.artist, v.album, v.duration, v.upload_date, v.webpage_url, v.thumbnail_url FROM videos v JOIN video_tags vt ON vt.video_id = v.id WHERE vt.tag_id IN ("@, 190) == 0);
    assert(marks_before("SELECT v.id, v.extractor, v.extractor_id, v.title, v.artist, v.album, v.duration, v.upload_date, v.webpage_url, v.thumbnail_url FROM videos v JOIN video_tags vt ON vt.video_id = v.id WHERE vt.tag_id IN ("@, 203) == 0);
}

proof fn lemma_marked_literals_0()
    ensures
        mark_count("v.artist = ?"@) == 1,
{
    reveal_with_fuel(marks_before, 40);
    reveal_strlit("v.artist = ?");
    assert(marks_before("v.artist = ?"@, 12) == 1);
}

proof fn lemma_marked_literals_1()
    ensures
        mark_count("v.album = ?"@) == 1,
{
    reveal_with_fuel(marks_before, 40);
    reveal_strlit("v.album = ?");
    assert(marks_before("v.album = ?"@, 11) == 1);
}

proof fn lemma_marked_literals_2()
    ensures
        mark_count("sp.title = ?"@) == 1,
{
    reveal_with_fuel(marks_before, 40);
    reveal_strlit("sp.title = ?");
    assert(marks_before("sp.title = ?"@, 12) == 1);
}

proof fn lemma_marked_literals_3()
    ensures
        mark_count("?"@) == 1,
{
    reveal_with_fuel(marks_before, 40);
    reveal_strlit("?");
    assert(marks_before("?"@, 1) == 1);
}

proof fn lemma_marked_literals_4()
    ensures
        mark_count("EXISTS (SELECT 1 FROM video_tags evt JOIN tags et ON et.id = evt.tag_id WHERE evt.video_id = v.id AND et.name = ?)"@) == 1,
{
    reveal_with_fuel(marks_before, 40);
    reveal_strlit("EXISTS (SELECT 1 FROM video_tags evt JOIN tags et ON et.id = evt.tag_id WHERE evt.video_id = v.id AND et.name = ?)");
    assert(marks_before("EXISTS (SELECT 1 FROM video_tags evt JOIN tags et ON et.id = evt.tag_id WHERE evt.video_id = v.id AND et.name = ?)"@, 38) == 0);
    assert(marks_before("EXISTS (SELECT 1 FROM video_tags evt JOIN tags et ON et.id = evt.tag_id WHERE evt.video_id = v.id AND et.name = ?)"@, 76) == 0);
    assert(marks_before("EXISTS (SELECT 1 FROM video_tags evt JOIN tags et ON et.id = evt.tag_id WHERE evt.video_id = v.id AND et.name = ?)"@, 114) == 1);
}

proof fn lemma_marked_literals_5()
    ensures
        mark_count("EXISTS (SELECT 1 FROM video_source_playlists ovsp JOIN source_playlists osp ON osp.id = ovsp.source_playlist_id WHERE ovsp.video_id = v.id AND osp.title = ?)"@) == 1,
{
    reveal_with_fuel(marks_before, 40);
    reveal_strlit("EXISTS (SELECT 1 FROM video_source_playlists ovsp JOIN source_playlists osp ON osp.id = ovsp.source_playlist_id WHERE ovsp.video_id = v.id AND osp.title = ?)");
    assert(marks_before("EXISTS (SELECT 1 FROM video_source_playlists ovsp JOIN source_playlists osp ON osp.id = ovsp.source_playlist_id WHERE ovsp.video_id = v.id AND osp.title = ?)"@, 38) == 0);
    assert(marks_before("EXISTS (SELECT 1 FROM video_source_playlists ovsp JOIN source_playlists osp ON osp.id = ovsp.source_playlist_id WHERE ovsp.video_id = v.id AND osp.title = ?)"@, 76) == 0);
    assert(marks_before("EXISTS (SELECT 1 FROM video_source_playlists ovsp JOIN source_playlists osp ON osp.id = ovsp.source_playlist_id WHERE ovsp.video_id = v.id AND osp.title = ?)"@, 114) == 0);
    assert(marks_before("EXISTS (SELECT 1 FROM video_source_playlists ovsp JOIN source_playlists osp ON osp.id = ovsp.source_playlist_id WHERE ovsp.video_id = v.id AND osp.title = ?)"@, 152) == 0);
    assert(marks_before("EXISTS (SELECT 1 FROM video_source_playlists ovsp JOIN source_playlists osp ON osp.id = ovsp.source_playlist_id WHERE ovsp.video_id = v.id AND osp.title = ?)"@, 157) == 1);
}

proof fn lemma_marked_literals()
    ensures
        mark_count("v.artist = ?"@) == 1,
        mark_count("v.album = ?"@) == 1,
        mark_count("sp.title = ?"@) == 1,
        mark_count("?"@) == 1,
        mark_count("EXISTS (SELECT 1 FROM video_tags evt JOIN tags et ON et.id = evt.tag_id WHERE evt.video_id = v.id AND et.name = ?)"@) == 1,
        mark_count("EXISTS (SELECT 1 FROM video_source_playlists ovsp JOIN source_playlists osp ON osp.id = ovsp.source_playlist_id WHERE ovsp.video_id = v.id AND osp.title = ?)"@) == 1,
{
    lemma_marked_literals_0();
    lemma_marked_literals_1();
    lemma_marked_literals_2();
    lemma_marked_literals_3();
    lemma_marked_literals_4();
    lemma_marked_literals_5();
}

/// `n` placeholders separated by commas hold exactly `n` placeholders.
pub proof fn lemma_placeholder_marks(n: nat)
    ensures
        mark_count(placeholders(n)) == n,
{
    lemma_marked_literals();
    lemma_plain_literals();
    lemma_sum_marks_ones(n, "?"@);
    lemma_join_marks(Seq::new(n, |i: int| "?"@), ", "@);
}

proof fn lemma_condition_marks(f: FilterView)
    ensures
        sum_marks(filter_conditions(f)) == filter_params(f).len(),
        mark_count(filter_joins(f)) == 0,
{
    lemma_marked_literals();
    lemma_plain_literals();
    let artist: Seq<Seq<char>> = if f.artist is Some { seq!["v.artist = ?"@] } else { Seq::empty() };
    let album: Seq<Seq<char>> = if f.album is Some { seq!["v.album = ?"@] } else { Seq::empty() };
    let playlist: Seq<Seq<char>> = if f.playlist is None {
        Seq::empty()
    } else if any_match(f) {
        seq![in_playlist_condition()]
    } else {
        seq!["sp.title = ?"@]
    };
    let tags: Seq<Seq<char>> = if f.tags.len() == 0 {
        Seq::empty()
    } else if any_match(f) {
        seq![any_tag_condition(f.tags.len())]
    } else {
        Seq::new(f.tags.len(), |i: int| has_tag_condition())
    };
    assert(filter_conditions(f) == artist + album + playlist + tags);
    lemma_sum_marks_concat(artist + album + playlist, tags);
    lemma_sum_marks_concat(artist + album, playlist);
    lemma_sum_marks_concat(artist, album);
    assert(sum_marks(artist) == if f.artist is Some { 1nat } else { 0nat }) by {
        if f.artist is Some {
            assert(sum_marks(artist.drop_last()) == 0);
        }
    }
    assert(sum_marks(album) == if f.album is Some { 1nat } else { 0nat }) by {
        if f.album is Some {
            assert(sum_marks(album.drop_last()) == 0);
        }
    }
    assert(sum_marks(playlist) == if f.playlist is Some { 1nat } else { 0nat }) by {
        if f.playlist is Some {
            assert(sum_marks(playlist.drop_last()) == 0);
        }
    }
    assert(sum_marks(tags) == f.tags.len()) by {
        if f.tags.len() > 0 {
            if any_match(f) {
                let th = "EXISTS (SELECT 1 FROM video_tags ovt JOIN tags ot ON ot.id = ovt.tag_id WHERE ovt.video_id = v.id AND ot.name IN ("@;
                lemma_placeholder_marks(f.tags.len());
                lemma_mark_count_concat(th, placeholders(f.tags.len()));
                lemma_mark_count_concat(th + placeholders(f.tags.len()), "))"@);
                assert(sum_marks(tags.drop_last()) == 0);
            } else {
                lemma_sum_marks_ones(f.tags.len(), has_tag_condition());
                assert(tags =~= Seq::new(f.tags.len(), |i: int| has_tag_condition()));
            }
        }
    }
    let ap: Seq<Seq<char>> = match f.artist { Some(a) => seq![a], None => Seq::empty() };
    let lp: Seq<Seq<char>> = match f.album { Some(a) => seq![a], None => Seq::empty() };
    let pp: Seq<Seq<char>> = match f.playlist { Some(p) => seq![p], None => Seq::empty() };
    assert(filter_params(f).len() == ap.len() + lp.len() + pp.len() + f.tags.len());
}

proof fn lemma_where_marks(f: FilterView)
    ensures
        mark_count(filter_where(f)) == filter_params(f).len(),
{
    lemma_plain_literals();
    lemma_condition_marks(f);
    let conds = filter_conditions(f);
    let sep = if any_match(f) { " OR "@ } else { " AND "@ };
    let tail: Seq<char> = if conds.len() == 0 {
        Seq::empty()
    } else {
        " AND ("@ + join_with(conds, sep) + ")"@
    };
    if conds.len() > 0 {
        lemma_join_marks(conds, sep);
        lemma_mark_count_concat(" AND ("@, join_with(conds, sep));
        lemma_mark_count_concat(" AND ("@ + join_with(conds, sep), ")"@);
    }
    lemma_mark_count_concat(" WHERE v.status = 'complete'"@, tail);
}

/// The weighted listing binds each of its parameters: its statement holds exactly as
/// many placeholders as the filter gives values.
pub proof fn law_weighted_query_binds_every_param(f: FilterView)
    ensures
        mark_count(weighted_ids_sql(f)) == filter_params(f).len(),
{
    lemma_plain_literals();
    lemma_condition_marks(f);
    lemma_where_marks(f);
    let a = "SELECT v.id, v.weight FROM videos v"@;
    lemma_mark_count_concat(a, filter_joins(f));
    lemma_mark_count_concat(a + filter_joins(f), filter_where(f));
    lemma_mark_count_concat(a + filter_joins(f) + filter_where(f), " GROUP BY v.id ORDER BY v.weight DESC, v.id"@);
}

/// The sorted listing binds each of its parameters, for a sort column whose name holds
/// no placeholder.
pub proof fn law_sorted_query_binds_every_param(f: FilterView, column: Seq<char>, descending: bool)
    requires
        mark_count(column) == 0,
    ensures
        mark_count(sorted_ids_sql(f, column, descending)) == filter_params(f).len(),
{
    lemma_plain_literals();
    lemma_condition_marks(f);
    lemma_where_marks(f);
    let a = "SELECT v.id FROM videos v"@;
    let dir = if descending { "DESC"@ } else { "ASC"@ };
    let s1 = a + filter_joins(f);
    let s2 = s1 + filter_where(f);
    let s3 = s2 + " GROUP BY v.id ORDER BY v."@;
    let s4 = s3 + column;
    let s5 = s4 + " "@;
    let s6 = s5 + dir;
    lemma_mark_count_concat(a, filter_joins(f));
    lemma_mark_count_concat(s1, filter_where(f));
    lemma_mark_count_concat(s2, " GROUP BY v.id ORDER BY v."@);
    lemma_mark_count_concat(s3, column);
    lemma_mark_count_concat(s4, " "@);
    lemma_mark_count_concat(s5, dir);
    lemma_mark_count_concat(s6, ", v.id"@);
}

/// Every sort key's column name is free of placeholders.
pub proof fn lemma_sort_columns_unmarked(k: SortKey)
    ensures
        mark_count(sort_column(k)) == 0,
{
    reveal_with_fuel(marks_before, 40);
    reveal_strlit("title");
    reveal_strlit("artist");
    reveal_strlit("album");
    reveal_strlit("upload_date");
    reveal_strlit("created_at");
    reveal_strlit("play_count");
}

/// The listing of complete ids binds one placeholder per id.
pub proof fn law_complete_ids_query_binds_every_id(n: nat)
    ensures
        mark_count(complete_ids_sql(n)) == n,
{
    lemma_plain_literals();
    lemma_placeholder_marks(n);
    let a = "SELECT id FROM videos WHERE id IN ("@;
    lemma_mark_count_concat(a, placeholders(n));
    lemma_mark_count_concat(a + placeholders(n), ") AND status = 'complete'"@);
}

/// The listing of tagged tracks binds one placeholder per tag.
pub proof fn law_tagged_videos_query_binds_every_tag(n: nat)
    ensures
        mark_count(tagged_videos_sql(n)) == n,
{
    lemma_plain_literals();
    lemma_long_literal();
    lemma_placeholder_marks(n);
    let a = "SELECT v.id, v.extractor, v.extractor_id, v.title, v.artist, v.album, v.duration, v.upload_date, v.webpage_url, v.thumbnail_url FROM videos v JOIN video_tags vt ON vt.video_id = v.id WHERE vt.tag_id IN ("@;
    lemma_mark_count_concat(a, placeholders(n));
    lemma_mark_count_concat(a + placeholders(n), ") GROUP BY v.id"@);
}

/// Which tracks a filter selects: its joins and its `WHERE` clause.
pub open spec fn filter_selection(f: FilterView) -> Seq<char> {
    filter_joins(f) + filter_where(f)
}

/// The weighted and the sorted listings select the same tracks for a filter: both
/// statements hold the same joins and conditions, and differ only in the columns
/// they return and in their order.
pub proof fn law_sorted_and_weighted_share_selection(f: FilterView, column: Seq<char>, descending: bool)
    ensures
        weighted_ids_sql(f) == "SELECT v.id, v.weight FROM videos v"@ + filter_selection(f)
            + " GROUP BY v.id ORDER BY v.weight DESC, v.id"@,
        sorted_ids_sql(f, column, descending) == "SELECT v.id FROM videos v"@ + filter_selection(f)
            + (" GROUP BY v.id ORDER BY v."@ + column + " "@ + (if descending {
            "DESC"@
        } else {
            "ASC"@
        }) + ", v.id"@),
{
    let dir = if descending { "DESC"@ } else { "ASC"@ };
    assert(weighted_ids_sql(f) =~= "SELECT v.id, v.weight FROM videos v"@ + filter_selection(f)
        + " GROUP BY v.id ORDER BY v.weight DESC, v.id"@);
    assert(sorted_ids_sql(f, column, descending) =~= "SELECT v.id FROM videos v"@ + filter_selection(f)
        + (" GROUP BY v.id ORDER BY v."@ + column + " "@ + dir + ", v.id"@));
}

} // verus!

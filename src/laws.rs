//! Properties of the search, proved over the contracts of `find_id`.
use vstd::prelude::*;
use crate::find_id::{
    all_matches, dedup_spec, file_matches, hit, matches_upto, strategy_matches, tree_matches,
    value_matches, MatchRecord, Strategy, guid_record, short_id_record, media_record, owner_of,
};
use crate::text::lower_of;
use crate::xml::{xml_parse_of, NodeView};

verus! {

/// A record is among the first `n` reports of a strategy exactly when the
/// strategy reports it for one of the first `n` nodes.
pub proof fn lemma_matches_upto_contains(
    k: Strategy,
    q: Seq<char>,
    ns: Seq<NodeView>,
    n: int,
    r: MatchRecord,
)
    requires
        0 <= n,
    ensures
        matches_upto(k, q, ns, n).contains(r) <==> exists|i: int|
            0 <= i < n && #[trigger] hit(k, q, ns, i) == Some(r),
    decreases n,
{
    if n > 0 {
        lemma_matches_upto_contains(k, q, ns, n - 1, r);
        let prev = matches_upto(k, q, ns, n - 1);
        match hit(k, q, ns, n - 1) {
            Some(h) => {
                let cur = prev.push(h);
                assert(cur.contains(r) <==> (prev.contains(r) || h == r)) by {
                    if cur.contains(r) {
                        let j = choose|j: int| 0 <= j < cur.len() && cur[j] == r;
                        if j < prev.len() {
                            assert(prev[j] == r);
                        }
                    }
                    if prev.contains(r) {
                        let j = choose|j: int| 0 <= j < prev.len() && prev[j] == r;
                        assert(cur[j] == r);
                    }
                    if h == r {
                        assert(cur[prev.len() as int] == r);
                    }
                }
            },
            None => {},
        }
    }
}

/// For every node whose `ID` contains the lower-cased query once lower-cased,
/// the by-ID strategy reports that element.
pub proof fn lemma_guid_found(q: Seq<char>, ns: Seq<NodeView>, i: int, v: Seq<char>)
    requires
        0 <= i < ns.len(),
        ns[i].id == Some(v),
        value_matches(q, v),
    ensures
        strategy_matches(Strategy::Guid, q, ns).contains(guid_record(ns[i])),
{
    lemma_matches_upto_contains(Strategy::Guid, q, ns, ns.len() as int, guid_record(ns[i]));
    assert(hit(Strategy::Guid, q, ns, i) == Some(guid_record(ns[i])));
}

/// For every node whose `ShortID` contains the lower-cased query once
/// lower-cased, the by-short-ID strategy reports that element.
pub proof fn lemma_short_id_found(q: Seq<char>, ns: Seq<NodeView>, i: int, v: Seq<char>)
    requires
        0 <= i < ns.len(),
        ns[i].short_id == Some(v),
        value_matches(q, v),
    ensures
        strategy_matches(Strategy::ShortId, q, ns).contains(short_id_record(ns[i])),
{
    lemma_matches_upto_contains(Strategy::ShortId, q, ns, ns.len() as int, short_id_record(ns[i]));
    assert(hit(Strategy::ShortId, q, ns, i) == Some(short_id_record(ns[i])));
}

/// For every `MediaID` element whose `ID` contains the lower-cased query once
/// lower-cased, and that has an element two levels above it, the
/// by-media-ID strategy reports that owner.
pub proof fn lemma_media_id_found(q: Seq<char>, ns: Seq<NodeView>, i: int, v: Seq<char>, o: int)
    requires
        0 <= i < ns.len(),
        ns[i].tag == "MediaID"@,
        ns[i].id == Some(v),
        value_matches(q, v),
        owner_of(ns, i) == Some(o),
    ensures
        strategy_matches(Strategy::MediaId, q, ns).contains(media_record(ns, o, v)),
{
    lemma_matches_upto_contains(Strategy::MediaId, q, ns, ns.len() as int, media_record(ns, o, v));
    assert(hit(Strategy::MediaId, q, ns, i) == Some(media_record(ns, o, v)));
}

/// Where the query matches no node for a strategy, the strategy reports
/// nothing.
pub proof fn lemma_nothing_found(k: Strategy, q: Seq<char>, ns: Seq<NodeView>)
    requires
        forall|i: int| 0 <= i < ns.len() ==> #[trigger] hit(k, q, ns, i) is None,
    ensures
        strategy_matches(k, q, ns) == Seq::<MatchRecord>::empty(),
{
    let s = strategy_matches(k, q, ns);
    if s.len() > 0 {
        lemma_matches_upto_contains(k, q, ns, ns.len() as int, s[0]);
        assert(s.contains(s[0]));
    }
    assert(s =~= Seq::<MatchRecord>::empty());
}

/// The search depends on the query only through its lower-cased form: two
/// queries that lower-case alike give the same results.
pub proof fn lemma_case_insensitive(
    q1: Seq<char>,
    q2: Seq<char>,
    files: Seq<Seq<char>>,
    check_guid: bool,
    check_short_id: bool,
    check_media_id: bool,
)
    requires
        lower_of(q1) == lower_of(q2),
    ensures
        dedup_spec(all_matches(lower_of(q1), files, check_guid, check_short_id, check_media_id))
            == dedup_spec(
            all_matches(lower_of(q2), files, check_guid, check_short_id, check_media_id),
        ),
{
}

/// De-duplication keeps exactly the records of its input, each once.
pub proof fn lemma_dedup(s: Seq<MatchRecord>)
    ensures
        forall|r: MatchRecord| dedup_spec(s).contains(r) <==> s.contains(r),
        forall|i: int, j: int|
            0 <= i < j < dedup_spec(s).len() ==> dedup_spec(s)[i] != dedup_spec(s)[j],
    decreases s.len(),
{
    if s.len() > 0 {
        let p = s.drop_last();
        lemma_dedup(p);
        let d = dedup_spec(p);
        assert forall|r: MatchRecord| dedup_spec(s).contains(r) <==> s.contains(r) by {
            assert(s =~= p.push(s.last()));
            if p.contains(r) {
                let j = choose|j: int| 0 <= j < p.len() && p[j] == r;
                assert(s[j] == r);
            }
            if s.contains(r) && r != s.last() {
                let j = choose|j: int| 0 <= j < s.len() && s[j] == r;
                assert(p[j] == r);
            }
            if !d.contains(s.last()) {
                let e = d.push(s.last());
                if e.contains(r) && r != s.last() {
                    let j = choose|j: int| 0 <= j < e.len() && e[j] == r;
                    assert(d[j] == r);
                }
                if d.contains(r) {
                    let j = choose|j: int| 0 <= j < d.len() && d[j] == r;
                    assert(e[j] == r);
                }
                assert(e[d.len() as int] == s.last());
            }
        }
    }
}

/// A file that does not parse contributes nothing: the results are those of
/// the other files alone.
pub proof fn lemma_bad_file_ignored(
    q: Seq<char>,
    files: Seq<Seq<char>>,
    k: int,
    check_guid: bool,
    check_short_id: bool,
    check_media_id: bool,
)
    requires
        0 <= k < files.len(),
        xml_parse_of(files[k]) is None,
    ensures
        all_matches(q, files, check_guid, check_short_id, check_media_id) == all_matches(
            q,
            files.remove(k),
            check_guid,
            check_short_id,
            check_media_id,
        ),
    decreases files.len(),
{
    let rest = files.remove(k);
    if k == files.len() - 1 {
        assert(rest =~= files.drop_last());
        assert(file_matches(q, files.last(), check_guid, check_short_id, check_media_id)
            =~= Seq::<MatchRecord>::empty());
        assert(all_matches(q, files, check_guid, check_short_id, check_media_id) =~= all_matches(
            q,
            rest,
            check_guid,
            check_short_id,
            check_media_id,
        ));
    } else {
        lemma_bad_file_ignored(q, files.drop_last(), k, check_guid, check_short_id, check_media_id);
        assert(rest.drop_last() =~= files.drop_last().remove(k));
        assert(rest.last() == files.last());
    }
}

/// With no files there are no results.
pub proof fn lemma_no_files(q: Seq<char>, check_guid: bool, check_short_id: bool, check_media_id: bool)
    ensures
        dedup_spec(all_matches(q, Seq::empty(), check_guid, check_short_id, check_media_id))
            == Seq::<MatchRecord>::empty(),
{
}

/// With only the by-short-ID strategy enabled, every record carries a
/// matching short ID and none of the media fields.
pub proof fn lemma_short_id_only(q: Seq<char>, ns: Seq<NodeView>)
    ensures
        forall|r: MatchRecord|
            #[trigger] tree_matches(q, ns, false, true, false).contains(r) ==> value_matches(
                q,
                r.short_id,
            ) && r.media_id == Seq::<char>::empty() && r.language == Seq::<char>::empty()
                && r.audio_file == Seq::<char>::empty(),
{
    assert forall|r: MatchRecord| #[trigger]
        tree_matches(q, ns, false, true, false).contains(r) implies value_matches(q, r.short_id)
        && r.media_id == Seq::<char>::empty() && r.language == Seq::<char>::empty() && r.audio_file
        == Seq::<char>::empty() by {
        assert(tree_matches(q, ns, false, true, false) =~= strategy_matches(Strategy::ShortId, q, ns));
        lemma_matches_upto_contains(Strategy::ShortId, q, ns, ns.len() as int, r);
        let i = choose|i: int| 0 <= i < ns.len() && #[trigger] hit(Strategy::ShortId, q, ns, i) == Some(r);
    }
}

/// With only the by-ID strategy enabled, every record carries a matching ID
/// and none of the media fields.
pub proof fn lemma_guid_only(q: Seq<char>, ns: Seq<NodeView>)
    ensures
        forall|r: MatchRecord|
            #[trigger] tree_matches(q, ns, true, false, false).contains(r) ==> value_matches(q, r.id)
                && r.media_id == Seq::<char>::empty() && r.language == Seq::<char>::empty()
                && r.audio_file == Seq::<char>::empty(),
{
    assert forall|r: MatchRecord| #[trigger]
        tree_matches(q, ns, true, false, false).contains(r) implies value_matches(q, r.id)
        && r.media_id == Seq::<char>::empty() && r.language == Seq::<char>::empty() && r.audio_file
        == Seq::<char>::empty() by {
        assert(tree_matches(q, ns, true, false, false) =~= strategy_matches(Strategy::Guid, q, ns));
        lemma_matches_upto_contains(Strategy::Guid, q, ns, ns.len() as int, r);
        let i = choose|i: int| 0 <= i < ns.len() && #[trigger] hit(Strategy::Guid, q, ns, i) == Some(r);
    }
}

/// With only the by-media-ID strategy enabled, every record carries a
/// matching media ID and the short ID "?".
pub proof fn lemma_media_id_only(q: Seq<char>, ns: Seq<NodeView>)
    ensures
        forall|r: MatchRecord|
            #[trigger] tree_matches(q, ns, false, false, true).contains(r) ==> value_matches(
                q,
                r.media_id,
            ) && r.short_id == "?"@,
{
    assert forall|r: MatchRecord| #[trigger]
        tree_matches(q, ns, false, false, true).contains(r) implies value_matches(q, r.media_id)
        && r.short_id == "?"@ by {
        assert(tree_matches(q, ns, false, false, true) =~= strategy_matches(Strategy::MediaId, q, ns));
        lemma_matches_upto_contains(Strategy::MediaId, q, ns, ns.len() as int, r);
        let i = choose|i: int| 0 <= i < ns.len() && #[trigger] hit(Strategy::MediaId, q, ns, i) == Some(r);
    }
}

} // verus!

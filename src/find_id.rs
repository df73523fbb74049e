//! The search: three matching strategies over a parsed document, the search of
//! one file's text, and the de-duplicated search of many files.
use vstd::prelude::*;
use vstd::string::*;
use crate::text::{contains_seq, contains_str, lower_of, lowercase};
use crate::xml::{parse_tree, tree_view_of, xml_parse_of, NodeView, XmlTree};

verus! {

/// One XML element that matched a query.
#[derive(Debug)]
pub struct MatchInfo {
    pub tag: String,
    pub name: String,
    pub id: String,
    pub short_id: String,
    pub media_id: String,
    pub language: String,
    pub audio_file: String,
}

/// The mathematical value of a `MatchInfo`.
pub struct MatchRecord {
    pub tag: Seq<char>,
    pub name: Seq<char>,
    pub id: Seq<char>,
    pub short_id: Seq<char>,
    pub media_id: Seq<char>,
    pub language: Seq<char>,
    pub audio_file: Seq<char>,
}

impl View for MatchInfo {
    type V = MatchRecord;

    open spec fn view(&self) -> MatchRecord {
        MatchRecord {
            tag: self.tag@,
            name: self.name@,
            id: self.id@,
            short_id: self.short_id@,
            media_id: self.media_id@,
            language: self.language@,
            audio_file: self.audio_file@,
        }
    }
}

impl PartialEq for MatchInfo {
    fn eq(&self, o: &MatchInfo) -> (r: bool)
        ensures
            r == (self@ == o@),
    {
        self.tag == o.tag && self.name == o.name && self.id == o.id && self.short_id == o.short_id
            && self.media_id == o.media_id && self.language == o.language && self.audio_file
            == o.audio_file
    }
}

impl vstd::std_specs::cmp::PartialEqSpecImpl for MatchInfo {
    open spec fn obeys_eq_spec() -> bool {
        true
    }

    open spec fn eq_spec(&self, o: &MatchInfo) -> bool {
        self@ == o@
    }
}

impl Eq for MatchInfo {

}

/// The values of a sequence of matches.
pub open spec fn records(v: Seq<MatchInfo>) -> Seq<MatchRecord> {
    v.map_values(|m: MatchInfo| m@)
}

/// A one-line JSON object with the seven fields of a match, in order.
pub open spec fn json_line(m: MatchRecord) -> Seq<char> {
    "{\"tag\": \""@ + m.tag + "\", \"name\": \""@ + m.name + "\", \"id\": \""@ + m.id
        + "\", \"short_id\": \""@ + m.short_id + "\", \"media_id\": \""@ + m.media_id
        + "\", \"language\": \""@ + m.language + "\", \"audio_file\": \""@ + m.audio_file
        + "\"}"@
}

impl MatchInfo {
    /// The match as a one-line JSON object.
    pub fn to_string(&self) -> (r: String)
        ensures
            r@ == json_line(self@),
    {
        let mut s = String::from_str("{\"tag\": \"");
        s.append(self.tag.as_str());
        s.append("\", \"name\": \"");
        s.append(self.name.as_str());
        s.append("\", \"id\": \"");
        s.append(self.id.as_str());
        s.append("\", \"short_id\": \"");
        s.append(self.short_id.as_str());
        s.append("\", \"media_id\": \"");
        s.append(self.media_id.as_str());
        s.append("\", \"language\": \"");
        s.append(self.language.as_str());
        s.append("\", \"audio_file\": \"");
        s.append(self.audio_file.as_str());
        s.append("\"}");
        s
    }

    /// A copy with the same fields.
    pub fn copy(&self) -> (r: MatchInfo)
        ensures
            r@ == self@,
    {
        MatchInfo {
            tag: self.tag.clone(),
            name: self.name.clone(),
            id: self.id.clone(),
            short_id: self.short_id.clone(),
            media_id: self.media_id.clone(),
            language: self.language.clone(),
            audio_file: self.audio_file.clone(),
        }
    }
}

/// The three ways of matching a query.
#[derive(PartialEq, Eq, Structural, Clone, Copy, Debug)]
pub enum Strategy {
    /// By the `ID` attribute of any element.
    Guid,
    /// By the `ShortID` attribute of any element.
    ShortId,
    /// By the `ID` attribute of a `MediaID` element, reported on its owner.
    MediaId,
}

/// An attribute's value, or "?" where it is absent.
pub open spec fn or_unknown(o: Option<Seq<char>>) -> Seq<char> {
    match o {
        Some(s) => s,
        None => "?"@,
    }
}

/// The query, already lower-cased, occurs in the lower-cased value.
pub open spec fn value_matches(q: Seq<char>, v: Seq<char>) -> bool {
    contains_seq(lower_of(v), q)
}

/// The record the by-ID strategy makes of an element.
pub open spec fn guid_record(n: NodeView) -> MatchRecord {
    MatchRecord {
        tag: n.tag,
        name: or_unknown(n.name),
        id: or_unknown(n.id),
        short_id: or_unknown(n.short_id),
        media_id: Seq::empty(),
        language: Seq::empty(),
        audio_file: Seq::empty(),
    }
}

/// The record the by-short-ID strategy makes of an element.
pub open spec fn short_id_record(n: NodeView) -> MatchRecord {
    MatchRecord {
        tag: n.tag,
        name: or_unknown(n.name),
        id: or_unknown(n.id),
        short_id: or_unknown(n.short_id),
        media_id: Seq::empty(),
        language: Seq::empty(),
        audio_file: Seq::empty(),
    }
}

/// The element two levels above node `i` (parent element, then its parent
/// element), where both exist.
pub open spec fn owner_of(ns: Seq<NodeView>, i: int) -> Option<int> {
    match ns[i].parent {
        Some(p) => if 0 <= p < ns.len() {
            match ns[p].parent {
                Some(o) => if 0 <= o < ns.len() {
                    Some(o)
                } else {
                    None
                },
                None => None,
            }
        } else {
            None
        },
        None => None,
    }
}

/// The first of the children `cs[k..]` whose tag name contains `key`.
pub open spec fn first_child_with(ns: Seq<NodeView>, cs: Seq<int>, key: Seq<char>, k: int) -> Option<
    int,
>
    decreases cs.len() - k,
{
    if k < 0 || k >= cs.len() {
        None
    } else if contains_seq(ns[cs[k]].tag, key) {
        Some(cs[k])
    } else {
        first_child_with(ns, cs, key, k + 1)
    }
}

/// The text of the first child of `o` whose tag name contains `key`; "?" where
/// there is no such child or it has no text.
pub open spec fn child_text(ns: Seq<NodeView>, o: int, key: Seq<char>) -> Seq<char> {
    match first_child_with(ns, ns[o].children, key, 0) {
        Some(c) => or_unknown(ns[c].text),
        None => "?"@,
    }
}

/// The record the by-media-ID strategy makes of the owner `o` of a match.
pub open spec fn media_record(ns: Seq<NodeView>, o: int, media_id: Seq<char>) -> MatchRecord {
    MatchRecord {
        tag: ns[o].tag,
        name: or_unknown(ns[o].name),
        id: or_unknown(ns[o].id),
        short_id: "?"@,
        media_id: media_id,
        language: child_text(ns, o, "Language"@),
        audio_file: child_text(ns, o, "AudioFile"@),
    }
}

/// What strategy `k` reports for node `i` and the lower-cased query `q`.
pub open spec fn hit(k: Strategy, q: Seq<char>, ns: Seq<NodeView>, i: int) -> Option<MatchRecord> {
    match k {
        Strategy::Guid => match ns[i].id {
            Some(v) => if value_matches(q, v) {
                Some(guid_record(ns[i]))
            } else {
                None
            },
            None => None,
        },
        Strategy::ShortId => match ns[i].short_id {
            Some(v) => if value_matches(q, v) {
                Some(short_id_record(ns[i]))
            } else {
                None
            },
            None => None,
        },
        Strategy::MediaId => match ns[i].id {
            Some(v) => if ns[i].tag == "MediaID"@ && value_matches(q, v) {
                match owner_of(ns, i) {
                    Some(o) => Some(media_record(ns, o, v)),
                    None => None,
                }
            } else {
                None
            },
            None => None,
        },
    }
}

/// What strategy `k` reports for the first `n` nodes, in node order.
pub open spec fn matches_upto(k: Strategy, q: Seq<char>, ns: Seq<NodeView>, n: int) -> Seq<
    MatchRecord,
>
    decreases n,
{
    if n <= 0 {
        Seq::empty()
    } else {
        let prev = matches_upto(k, q, ns, n - 1);
        match hit(k, q, ns, n - 1) {
            Some(r) => prev.push(r),
            None => prev,
        }
    }
}

/// What strategy `k` reports for a whole document.
pub open spec fn strategy_matches(k: Strategy, q: Seq<char>, ns: Seq<NodeView>) -> Seq<MatchRecord> {
    matches_upto(k, q, ns, ns.len() as int)
}

/// What the enabled strategies report for a document, by-ID first, then by
/// short ID, then by media ID.
pub open spec fn tree_matches(
    q: Seq<char>,
    ns: Seq<NodeView>,
    check_guid: bool,
    check_short_id: bool,
    check_media_id: bool,
) -> Seq<MatchRecord> {
    (if check_guid {
        strategy_matches(Strategy::Guid, q, ns)
    } else {
        Seq::empty()
    }) + (if check_short_id {
        strategy_matches(Strategy::ShortId, q, ns)
    } else {
        Seq::empty()
    }) + (if check_media_id {
        strategy_matches(Strategy::MediaId, q, ns)
    } else {
        Seq::empty()
    })
}

/// What one file's text contributes: nothing where it does not parse.
pub open spec fn file_matches(
    q: Seq<char>,
    text: Seq<char>,
    check_guid: bool,
    check_short_id: bool,
    check_media_id: bool,
) -> Seq<MatchRecord> {
    match xml_parse_of(text) {
        Some(ns) => tree_matches(q, tree_view_of(ns), check_guid, check_short_id, check_media_id),
        None => Seq::empty(),
    }
}

/// What the files contribute, file after file.
pub open spec fn all_matches(
    q: Seq<char>,
    files: Seq<Seq<char>>,
    check_guid: bool,
    check_short_id: bool,
    check_media_id: bool,
) -> Seq<MatchRecord>
    decreases files.len(),
{
    if files.len() == 0 {
        Seq::empty()
    } else {
        all_matches(q, files.drop_last(), check_guid, check_short_id, check_media_id)
            + file_matches(q, files.last(), check_guid, check_short_id, check_media_id)
    }
}

/// The records in order of first occurrence, each once.
pub open spec fn dedup_spec(s: Seq<MatchRecord>) -> Seq<MatchRecord>
    decreases s.len(),
{
    if s.len() == 0 {
        Seq::empty()
    } else {
        let d = dedup_spec(s.drop_last());
        if d.contains(s.last()) {
            d
        } else {
            d.push(s.last())
        }
    }
}

/// Node `i` is a `MediaID` element whose `ID` matches the query but that has
/// no element two levels above it, so the by-media-ID strategy skips it.
pub open spec fn media_skipped(q: Seq<char>, ns: Seq<NodeView>, i: int) -> bool {
    &&& ns[i].tag == "MediaID"@
    &&& ns[i].id matches Some(v) && value_matches(q, v)
    &&& owner_of(ns, i) is None
}

/// The indices of the skipped `MediaID` nodes among the first `n`, in order.
pub open spec fn skipped_upto(q: Seq<char>, ns: Seq<NodeView>, n: int) -> Seq<int>
    decreases n,
{
    if n <= 0 {
        Seq::empty()
    } else {
        let prev = skipped_upto(q, ns, n - 1);
        if media_skipped(q, ns, n - 1) {
            prev.push(n - 1)
        } else {
            prev
        }
    }
}

/// The texts of a list of files.
pub open spec fn texts(files: Seq<String>) -> Seq<Seq<char>> {
    files.map_values(|f: String| f@)
}

/// An attribute's value, or "?" where it is absent.
fn value_or_unknown(o: &Option<String>) -> (r: String)
    ensures
        r@ == or_unknown(crate::xml::opt_view(*o)),
{
    match o {
        Some(v) => v.clone(),
        None => String::from_str("?"),
    }
}

/// Whether the lower-cased `value` contains the lower-cased `query`.
fn query_matches(query: &str, value: &str) -> (r: bool)
    ensures
        r == value_matches(query@, value@),
{
    let low = lowercase(value);
    contains_str(low.as_str(), query)
}

/// The by-ID record for node `i`, if its `ID` matches.
fn guid_hit_at(query: &str, tree: &XmlTree, i: usize) -> (r: Option<MatchInfo>)
    requires
        i < tree@.len(),
    ensures
        match r {
            Some(m) => hit(Strategy::Guid, query@, tree@, i as int) == Some(m@),
            None => hit(Strategy::Guid, query@, tree@, i as int) is None,
        },
{
    let node = &tree.nodes[i];
    assert(node@ == tree@[i as int]);
    match &node.id {
        Some(id) => {
            if query_matches(query, id.as_str()) {
                Some(
                    MatchInfo {
                        tag: node.tag.clone(),
                        name: value_or_unknown(&node.name),
                        id: id.clone(),
                        short_id: value_or_unknown(&node.short_id),
                        media_id: String::new(),
                        language: String::new(),
                        audio_file: String::new(),
                    },
                )
            } else {
                None
            }
        },
        None => None,
    }
}

/// The by-short-ID record for node `i`, if its `ShortID` matches.
fn short_id_hit_at(query: &str, tree: &XmlTree, i: usize) -> (r: Option<MatchInfo>)
    requires
        i < tree@.len(),
    ensures
        match r {
            Some(m) => hit(Strategy::ShortId, query@, tree@, i as int) == Some(m@),
            None => hit(Strategy::ShortId, query@, tree@, i as int) is None,
        },
{
    let node = &tree.nodes[i];
    assert(node@ == tree@[i as int]);
    match &node.short_id {
        Some(short_id) => {
            if query_matches(query, short_id.as_str()) {
                Some(
                    MatchInfo {
                        tag: node.tag.clone(),
                        name: value_or_unknown(&node.name),
                        id: value_or_unknown(&node.id),
                        short_id: short_id.clone(),
                        media_id: String::new(),
                        language: String::new(),
                        audio_file: String::new(),
                    },
                )
            } else {
                None
            }
        },
        None => None,
    }
}

/// The text of the first child of node `o` whose tag name contains `key`.
fn child_text_of(tree: &XmlTree, o: usize, key: &str) -> (r: String)
    requires
        tree.wf(),
        o < tree@.len(),
    ensures
        r@ == child_text(tree@, o as int, key@),
{
    let ghost ns = tree@;
    let owner = &tree.nodes[o];
    assert(owner@ == ns[o as int]);
    let ghost cs = ns[o as int].children;
    let mut k: usize = 0;
    while k < owner.children.len()
        invariant
            ns == tree@,
            tree.wf(),
            o < ns.len(),
            owner@ == ns[o as int],
            cs == ns[o as int].children,
            cs.len() == owner.children@.len(),
            k <= cs.len(),
            first_child_with(ns, cs, key@, 0) == first_child_with(ns, cs, key@, k as int),
        decreases cs.len() - k,
    {
        let c = owner.children[k];
        assert(cs[k as int] == c as int);
        assert(0 <= cs[k as int] < ns.len());
        let child = &tree.nodes[c];
        assert(child@ == ns[c as int]);
        if contains_str(child.tag.as_str(), key) {
            return value_or_unknown(&child.text);
        }
        k = k + 1;
    }
    String::from_str("?")
}

/// The by-media-ID record for node `i`, if it is a `MediaID` element that has
/// an `ID` attribute that matches, and an owner two levels up.
fn media_hit_at(query: &str, tree: &XmlTree, i: usize) -> (r: Option<MatchInfo>)
    requires
        tree.wf(),
        i < tree@.len(),
    ensures
        match r {
            Some(m) => hit(Strategy::MediaId, query@, tree@, i as int) == Some(m@),
            None => hit(Strategy::MediaId, query@, tree@, i as int) is None,
        },
{
    let ghost ns = tree@;
    let node = &tree.nodes[i];
    assert(node@ == ns[i as int]);
    if !(node.tag == String::from_str("MediaID")) {
        return None;
    }
    let media_id = match &node.id {
        Some(v) => v.clone(),
        None => {
            return None;
        },
    };
    if !query_matches(query, media_id.as_str()) {
        return None;
    }
    let p = match node.parent {
        Some(p) => p,
        None => {
            return None;
        },
    };
    let parent = &tree.nodes[p];
    assert(parent@ == ns[p as int]);
    let o = match parent.parent {
        Some(o) => o,
        None => {
            return None;
        },
    };
    let owner = &tree.nodes[o];
    assert(owner@ == ns[o as int]);
    assert(owner_of(ns, i as int) == Some(o as int));
    let language = child_text_of(tree, o, "Language");
    let audio_file = child_text_of(tree, o, "AudioFile");
    Some(
        MatchInfo {
            tag: owner.tag.clone(),
            name: value_or_unknown(&owner.name),
            id: value_or_unknown(&owner.id),
            short_id: String::from_str("?"),
            media_id,
            language,
            audio_file,
        },
    )
}

/// Applies strategy `k` to every node of the tree, in node order.
fn scan(k: Strategy, query: &str, tree: &XmlTree) -> (r: Vec<MatchInfo>)
    requires
        tree.wf(),
    ensures
        records(r@) == strategy_matches(k, query@, tree@),
{
    let mut results: Vec<MatchInfo> = Vec::new();
    let mut i: usize = 0;
    while i < tree.nodes.len()
        invariant
            tree.wf(),
            i <= tree@.len(),
            tree@.len() == tree.nodes@.len(),
            records(results@) == matches_upto(k, query@, tree@, i as int),
        decreases tree.nodes@.len() - i,
    {
        let found = match k {
            Strategy::Guid => guid_hit_at(query, tree, i),
            Strategy::ShortId => short_id_hit_at(query, tree, i),
            Strategy::MediaId => media_hit_at(query, tree, i),
        };
        match found {
            Some(m) => {
                let ghost before = results@;
                results.push(m);
                assert(records(results@) =~= records(before).push(m@));
            },
            None => {},
        }
        i = i + 1;
    }
    results
}

/// The elements whose `ID` attribute, lower-cased, contains the lower-cased
/// `query`, in node order.
pub fn search_guid(query: &str, tree: &XmlTree) -> (r: Vec<MatchInfo>)
    requires
        tree.wf(),
    ensures
        records(r@) == strategy_matches(Strategy::Guid, query@, tree@),
{
    scan(Strategy::Guid, query, tree)
}

/// The elements whose `ShortID` attribute, lower-cased, contains the
/// lower-cased `query`, in node order.
pub fn search_short_id(query: &str, tree: &XmlTree) -> (r: Vec<MatchInfo>)
    requires
        tree.wf(),
    ensures
        records(r@) == strategy_matches(Strategy::ShortId, query@, tree@),
{
    scan(Strategy::ShortId, query, tree)
}

/// For each `MediaID` element that has an `ID` attribute which, lower-cased,
/// contains the lower-cased `query`, a record of the element two levels above
/// it; such an element without that ancestor is skipped.
pub fn search_media_id(query: &str, tree: &XmlTree) -> (r: Vec<MatchInfo>)
    requires
        tree.wf(),
    ensures
        records(r@) == strategy_matches(Strategy::MediaId, query@, tree@),
{
    scan(Strategy::MediaId, query, tree)
}

/// The indices of the `MediaID` nodes whose `ID` matches the lower-cased
/// `query` but that have no element two levels above them, in node order.
pub fn skipped_media_ids(query: &str, tree: &XmlTree) -> (r: Vec<usize>)
    requires
        tree.wf(),
    ensures
        r@.map_values(|i: usize| i as int) == skipped_upto(query@, tree@, tree@.len() as int),
{
    let ghost ns = tree@;
    let mut out: Vec<usize> = Vec::new();
    let mut i: usize = 0;
    while i < tree.nodes.len()
        invariant
            ns == tree@,
            tree.wf(),
            i <= ns.len(),
            ns.len() == tree.nodes@.len(),
            out@.map_values(|i: usize| i as int) == skipped_upto(query@, ns, i as int),
        decreases ns.len() - i,
    {
        let node = &tree.nodes[i];
        assert(node@ == ns[i as int]);
        let mut skipped = false;
        if node.tag == String::from_str("MediaID") {
            match &node.id {
                Some(v) => {
                    if query_matches(query, v.as_str()) {
                        skipped = match node.parent {
                            Some(p) => {
                                let parent = &tree.nodes[p];
                                assert(parent@ == ns[p as int]);
                                parent.parent.is_none()
                            },
                            None => true,
                        };
                    }
                },
                None => {},
            }
        }
        assert(skipped == media_skipped(query@, ns, i as int));
        if skipped {
            let ghost before = out@;
            out.push(i);
            assert(out@.map_values(|i: usize| i as int) =~= before.map_values(|i: usize| i as int).push(
                i as int,
            ));
        }
        i = i + 1;
    }
    out
}

/// The query in the lower-cased form that the strategies take.
pub fn normalize_query(query: &str) -> (r: String)
    ensures
        r@ == lower_of(query@),
{
    lowercase(query)
}

/// Applies the enabled strategies to a tree with a lower-cased query.
pub fn search_tree(
    query: &str,
    tree: &XmlTree,
    check_guid: bool,
    check_short_id: bool,
    check_media_id: bool,
) -> (r: Vec<MatchInfo>)
    requires
        tree.wf(),
    ensures
        records(r@) == tree_matches(query@, tree@, check_guid, check_short_id, check_media_id),
{
    let mut result: Vec<MatchInfo> = Vec::new();
    if check_guid {
        let mut found = search_guid(query, tree);
        result.append(&mut found);
    }
    assert(records(result@) =~= (if check_guid {
        strategy_matches(Strategy::Guid, query@, tree@)
    } else {
        Seq::empty()
    }));
    let ghost first = records(result@);
    if check_short_id {
        let mut found = search_short_id(query, tree);
        result.append(&mut found);
    }
    assert(records(result@) =~= first + (if check_short_id {
        strategy_matches(Strategy::ShortId, query@, tree@)
    } else {
        Seq::empty()
    }));
    let ghost second = records(result@);
    if check_media_id {
        let mut found = search_media_id(query, tree);
        result.append(&mut found);
    }
    assert(records(result@) =~= second + (if check_media_id {
        strategy_matches(Strategy::MediaId, query@, tree@)
    } else {
        Seq::empty()
    }));
    result
}

/// Searches one file's text with a lower-cased query; a text that is not
/// well-formed XML yields nothing.
pub fn search_text(
    query: &str,
    text: &str,
    check_guid: bool,
    check_short_id: bool,
    check_media_id: bool,
) -> (r: Vec<MatchInfo>)
    ensures
        records(r@) == file_matches(query@, text@, check_guid, check_short_id, check_media_id),
{
    match parse_tree(text) {
        Some(tree) => search_tree(query, &tree, check_guid, check_short_id, check_media_id),
        None => Vec::new(),
    }
}

/// Searches one file's text; the query is matched without regard to case.
pub fn search_file(
    query: &str,
    text: &str,
    check_guid: bool,
    check_short_id: bool,
    check_media_id: bool,
) -> (r: Vec<MatchInfo>)
    ensures
        records(r@) == file_matches(
            lower_of(query@),
            text@,
            check_guid,
            check_short_id,
            check_media_id,
        ),
{
    let q = lowercase(query);
    search_text(q.as_str(), text, check_guid, check_short_id, check_media_id)
}

/// The matches in order of first occurrence, each once.
pub fn dedup(matches: &Vec<MatchInfo>) -> (r: Vec<MatchInfo>)
    ensures
        records(r@) == dedup_spec(records(matches@)),
{
    let mut out: Vec<MatchInfo> = Vec::new();
    let mut i: usize = 0;
    while i < matches.len()
        invariant
            i <= matches@.len(),
            records(out@) == dedup_spec(records(matches@.take(i as int))),
        decreases matches@.len() - i,
    {
        let m = &matches[i];
        let mut seen = false;
        let mut j: usize = 0;
        while j < out.len()
            invariant
                j <= out@.len(),
                seen == exists|k: int| 0 <= k < j && out@[k]@ == m@,
            decreases out@.len() - j,
        {
            if out[j] == *m {
                seen = true;
            }
            j = j + 1;
        }
        let ghost prev = records(out@);
        assert(records(matches@.take(i + 1)).drop_last() =~= records(matches@.take(i as int)));
        assert(records(matches@.take(i + 1)).last() == m@);
        if seen {
            proof {
                let k = choose|k: int| 0 <= k < j && out@[k]@ == m@;
                assert(prev[k] == m@);
            }
        } else {
            assert(!prev.contains(m@)) by {
                if prev.contains(m@) {
                    let k = choose|k: int| 0 <= k < prev.len() && prev[k] == m@;
                    assert(out@[k]@ == m@);
                }
            }
            out.push(m.copy());
            assert(records(out@) =~= prev.push(m@));
        }
        i = i + 1;
    }
    assert(matches@.take(matches@.len() as int) =~= matches@);
    out
}

/// Searches the texts of many files and returns each distinct match once.
/// The query is matched without regard to case; a file that is not
/// well-formed XML contributes nothing and stops no other.
pub fn find_id(
    query: &str,
    files: &Vec<String>,
    check_guid: bool,
    check_short_id: bool,
    check_media_id: bool,
) -> (r: Vec<MatchInfo>)
    ensures
        records(r@) == dedup_spec(
            all_matches(lower_of(query@), texts(files@), check_guid, check_short_id, check_media_id),
        ),
{
    let q = lowercase(query);
    let ghost qv = lower_of(query@);
    let mut all: Vec<MatchInfo> = Vec::new();
    let mut i: usize = 0;
    while i < files.len()
        invariant
            q@ == qv,
            i <= files@.len(),
            records(all@) == all_matches(
                qv,
                texts(files@.take(i as int)),
                check_guid,
                check_short_id,
                check_media_id,
            ),
        decreases files@.len() - i,
    {
        let ghost before = records(all@);
        let mut found = search_text(q.as_str(), files[i].as_str(), check_guid, check_short_id, check_media_id);
        let ghost got = records(found@);
        all.append(&mut found);
        assert(records(all@) =~= before + got);
        assert(texts(files@.take(i + 1)).drop_last() =~= texts(files@.take(i as int)));
        assert(texts(files@.take(i + 1)).last() == files@[i as int]@);
        i = i + 1;
    }
    assert(files@.take(files@.len() as int) =~= files@);
    dedup(&all)
}

} // verus!

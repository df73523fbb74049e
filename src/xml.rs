//! A parsed XML document held as plain values: one record per node, in the
//! order of the parser's node ids, with parent and child links by index.
use vstd::prelude::*;
use vstd::string::*;
use roxmltree::Document;

verus! {

#[verifier::external_type_specification]
#[verifier::external_body]
pub struct ExDocument<'input>(Document<'input>);

/// The nodes of a parsed document, indexed by node id. Each node is given as
/// its tag name (empty for a node that is not an element), what `attribute`
/// returns for each attribute name, the index of its parent element, the
/// indices of its children in order, and what `text` returns.
pub uninterp spec fn doc_nodes(d: Document) -> Seq<
    (Seq<char>, Map<Seq<char>, Seq<char>>, Option<int>, Seq<int>, Option<Seq<char>>),
>;

/// What `Document::parse` gives for a text: `None` where it fails, else the
/// nodes of the document, as `doc_nodes` states them.
pub uninterp spec fn xml_parse_of(text: Seq<char>) -> Option<
    Seq<(Seq<char>, Map<Seq<char>, Seq<char>>, Option<int>, Seq<int>, Option<Seq<char>>)>,
>;

/// One node as the parser reports it.
pub type DocNode = (Seq<char>, Map<Seq<char>, Seq<char>>, Option<int>, Seq<int>, Option<Seq<char>>);

/// Relies on `roxmltree::Document::parse`: it either fails or yields a document
/// of at most `u32::MAX` nodes; which, depends on the text alone.
#[verifier::external_body]
fn parse_document<'a>(text: &'a str) -> (r: Option<Document<'a>>)
    ensures
        match r {
            Some(d) => xml_parse_of(text@) == Some(doc_nodes(d)) && doc_nodes(d).len()
                <= u32::MAX,
            None => xml_parse_of(text@) is None,
        },
{
    Document::parse(text).ok()
}

/// Relies on `roxmltree::Document::get_node`: a node exists for each id below
/// the number of nodes.
#[verifier::external_body]
fn has_node(d: &Document, i: usize) -> (r: bool)
    requires
        i < u32::MAX,
    ensures
        r == (i < doc_nodes(*d).len()),
{
    d.get_node(roxmltree::NodeId::from(i)).is_some()
}

/// Relies on `roxmltree::Node::tag_name`: the local name of an element.
#[verifier::external_body]
fn node_tag(d: &Document, i: usize) -> (r: String)
    requires
        i < doc_nodes(*d).len(),
    ensures
        r@ == doc_nodes(*d)[i as int].0,
{
    d.get_node(roxmltree::NodeId::from(i)).unwrap().tag_name().name().to_string()
}

/// Relies on `roxmltree::Node::attribute`: the value of the attribute of that
/// name, if the node has one.
#[verifier::external_body]
fn node_attribute(d: &Document, i: usize, name: &str) -> (r: Option<String>)
    requires
        i < doc_nodes(*d).len(),
    ensures
        match r {
            Some(v) => doc_nodes(*d)[i as int].1.contains_key(name@) && v@ == doc_nodes(
                *d,
            )[i as int].1[name@],
            None => !doc_nodes(*d)[i as int].1.contains_key(name@),
        },
{
    d.get_node(roxmltree::NodeId::from(i)).unwrap().attribute(name).map(|v| v.to_string())
}

/// Relies on `roxmltree::Node::parent_element`: the id of the nearest ancestor
/// that is an element.
#[verifier::external_body]
fn node_parent_element(d: &Document, i: usize) -> (r: Option<usize>)
    requires
        i < doc_nodes(*d).len(),
    ensures
        match r {
            Some(p) => doc_nodes(*d)[i as int].2 == Some(p as int) && p < doc_nodes(*d).len(),
            None => doc_nodes(*d)[i as int].2 is None,
        },
{
    d.get_node(roxmltree::NodeId::from(i)).unwrap().parent_element().map(|p| p.id().get_usize())
}

/// Relies on `roxmltree::Node::children`: the ids of the children, in order.
#[verifier::external_body]
fn node_children(d: &Document, i: usize) -> (r: Vec<usize>)
    requires
        i < doc_nodes(*d).len(),
    ensures
        r@.map_values(|c: usize| c as int) == doc_nodes(*d)[i as int].3,
        forall|k: int| 0 <= k < r@.len() ==> r@[k] < doc_nodes(*d).len(),
{
    d.get_node(roxmltree::NodeId::from(i)).unwrap().children().map(|c| c.id().get_usize()).collect()
}

/// Relies on `roxmltree::Node::text`: an element's leading text, or a text or
/// comment node's own text.
#[verifier::external_body]
fn node_text(d: &Document, i: usize) -> (r: Option<String>)
    requires
        i < doc_nodes(*d).len(),
    ensures
        match r {
            Some(t) => doc_nodes(*d)[i as int].4 == Some(t@),
            None => doc_nodes(*d)[i as int].4 is None,
        },
{
    d.get_node(roxmltree::NodeId::from(i)).unwrap().text().map(|t| t.to_string())
}

/// One node of a document: the tag name (empty for a node that is not an
/// element), the three attributes the search reads, the index of the parent
/// element, the indices of the children and the node's text.
pub struct XmlNode {
    pub tag: String,
    pub name: Option<String>,
    pub id: Option<String>,
    pub short_id: Option<String>,
    pub parent: Option<usize>,
    pub children: Vec<usize>,
    pub text: Option<String>,
}

/// The mathematical value of an `XmlNode`.
pub struct NodeView {
    pub tag: Seq<char>,
    pub name: Option<Seq<char>>,
    pub id: Option<Seq<char>>,
    pub short_id: Option<Seq<char>>,
    pub parent: Option<int>,
    pub children: Seq<int>,
    pub text: Option<Seq<char>>,
}

pub open spec fn opt_view(o: Option<String>) -> Option<Seq<char>> {
    match o {
        Some(s) => Some(s@),
        None => None,
    }
}

impl View for XmlNode {
    type V = NodeView;

    open spec fn view(&self) -> NodeView {
        NodeView {
            tag: self.tag@,
            name: opt_view(self.name),
            id: opt_view(self.id),
            short_id: opt_view(self.short_id),
            parent: match self.parent {
                Some(p) => Some(p as int),
                None => None,
            },
            children: self.children@.map_values(|c: usize| c as int),
            text: opt_view(self.text),
        }
    }
}

/// The value of an attribute in a parser's attribute map.
pub open spec fn attr_of(attrs: Map<Seq<char>, Seq<char>>, key: Seq<char>) -> Option<Seq<char>> {
    if attrs.contains_key(key) {
        Some(attrs[key])
    } else {
        None
    }
}

/// A parser's node as the library holds it.
pub open spec fn node_view_of(n: DocNode) -> NodeView {
    NodeView {
        tag: n.0,
        name: attr_of(n.1, "Name"@),
        id: attr_of(n.1, "ID"@),
        short_id: attr_of(n.1, "ShortID"@),
        parent: n.2,
        children: n.3,
        text: n.4,
    }
}

/// A parser's nodes as the library holds them.
pub open spec fn tree_view_of(ns: Seq<DocNode>) -> Seq<NodeView> {
    ns.map_values(|n: DocNode| node_view_of(n))
}

/// A document as a sequence of nodes, indexed by node id.
pub struct XmlTree {
    pub nodes: Vec<XmlNode>,
}

impl View for XmlTree {
    type V = Seq<NodeView>;

    open spec fn view(&self) -> Seq<NodeView> {
        self.nodes@.map_values(|n: XmlNode| n@)
    }
}

/// Every parent and child link of every node points at a node of the tree.
pub open spec fn links_in_range(ns: Seq<NodeView>) -> bool {
    forall|i: int|
        0 <= i < ns.len() ==> {
            &&& (#[trigger] ns[i]).parent matches Some(p) ==> 0 <= p < ns.len()
            &&& forall|k: int| 0 <= k < ns[i].children.len() ==> 0 <= #[trigger] ns[i].children[k] < ns.len()
        }
}

impl XmlTree {
    pub open spec fn wf(&self) -> bool {
        links_in_range(self@)
    }
}

/// Reads node `i` of a parsed document into the library's form.
fn read_node(d: &Document, i: usize) -> (r: XmlNode)
    requires
        i < doc_nodes(*d).len(),
    ensures
        r@ == node_view_of(doc_nodes(*d)[i as int]),
        r.parent matches Some(p) ==> p < doc_nodes(*d).len(),
        forall|k: int| 0 <= k < r.children@.len() ==> r.children@[k] < doc_nodes(*d).len(),
{
    let tag = node_tag(d, i);
    let name = node_attribute(d, i, "Name");
    let id = node_attribute(d, i, "ID");
    let short_id = node_attribute(d, i, "ShortID");
    let parent = node_parent_element(d, i);
    let children = node_children(d, i);
    let text = node_text(d, i);
    let r = XmlNode { tag, name, id, short_id, parent, children, text };
    assert(r@.children =~= doc_nodes(*d)[i as int].3);
    r
}

/// Reads every node of a parsed document into the library's form.
fn tree_of_document(d: &Document) -> (r: XmlTree)
    requires
        doc_nodes(*d).len() <= u32::MAX,
    ensures
        r@ == tree_view_of(doc_nodes(*d)),
        r.wf(),
{
    let ghost ns = doc_nodes(*d);
    let mut nodes: Vec<XmlNode> = Vec::new();
    let mut i: usize = 0;
    while i < u32::MAX as usize && has_node(d, i)
        invariant
            ns == doc_nodes(*d),
            ns.len() <= u32::MAX,
            i <= ns.len(),
            nodes@.len() == i,
            forall|j: int| 0 <= j < i ==> (#[trigger] nodes@[j])@ == node_view_of(ns[j]),
            forall|j: int|
                0 <= j < i ==> ((#[trigger] nodes@[j]).parent matches Some(p) ==> p < ns.len()),
            forall|j: int, k: int|
                0 <= j < i && 0 <= k < nodes@[j].children@.len() ==> #[trigger] nodes@[j].children@[k]
                    < ns.len(),
        decreases ns.len() - i,
    {
        let n = read_node(d, i);
        nodes.push(n);
        i = i + 1;
    }
    let r = XmlTree { nodes };
    assert(r@ =~= tree_view_of(ns));
    assert forall|j: int| 0 <= j < r@.len() implies {
        &&& (#[trigger] r@[j]).parent matches Some(p) ==> 0 <= p < r@.len()
        &&& forall|k: int| 0 <= k < r@[j].children.len() ==> 0 <= #[trigger] r@[j].children[k] < r@.len()
    } by {
        assert(r@[j] == r.nodes@[j]@);
        assert forall|k: int| 0 <= k < r@[j].children.len() implies 0 <= #[trigger] r@[j].children[k] < r@.len() by {
            assert(r@[j].children[k] == r.nodes@[j].children@[k] as int);
        }
    }
    r
}

/// Parses a text into a tree of nodes; `None` where the text is not
/// well-formed XML.
pub fn parse_tree(text: &str) -> (r: Option<XmlTree>)
    ensures
        match xml_parse_of(text@) {
            Some(ns) => r matches Some(t) && t@ == tree_view_of(ns) && t.wf(),
            None => r is None,
        },
{
    match parse_document(text) {
        Some(d) => Some(tree_of_document(&d)),
        None => None,
    }
}

} // verus!

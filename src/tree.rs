//! An owned, index-addressed copy of a parsed XML document.
//!
//! Every node of the document sits in one vector, in document order; a node
//! names its children by their positions in that vector. Lookups never fail:
//! an index that points nowhere simply finds nothing.
use vstd::prelude::*;

verus! {

/// What an attribute holds: its namespace URI (if it has one), its local name and its value.
pub struct AttributeModel {
    pub namespace: Option<Seq<char>>,
    pub name: Seq<char>,
    pub value: Seq<char>,
}

/// What a node holds. `text` is the text the parser reports for the node (for
/// an element, that of its first child when that child is text).
pub struct NodeModel {
    pub element: bool,
    pub name: Seq<char>,
    pub text: Option<Seq<char>>,
    pub attributes: Seq<AttributeModel>,
    pub children: Seq<usize>,
}

/// A whole document: its nodes in document order and the position of its root element.
pub struct DocumentModel {
    pub nodes: Seq<NodeModel>,
    pub root: usize,
}

pub open spec fn string_option_view(o: Option<String>) -> Option<Seq<char>> {
    match o {
        Some(s) => Some(s@),
        None => None,
    }
}

/// The document that parsing `text` yields, or `None` when `text` is not well-formed XML.
pub uninterp spec fn parsed_document(text: Seq<char>) -> Option<DocumentModel>;

/// Node `id` exists and is an element whose local name is `tag`.
pub open spec fn is_tagged(d: DocumentModel, id: usize, tag: Seq<char>) -> bool {
    &&& id < d.nodes.len()
    &&& d.nodes[id as int].element
    &&& d.nodes[id as int].name == tag
}

/// The first of `ids` that is an element named `tag`.
pub open spec fn first_tagged(d: DocumentModel, ids: Seq<usize>, tag: Seq<char>) -> Option<usize>
    decreases ids.len(),
{
    if ids.len() == 0 {
        None
    } else if is_tagged(d, ids[0], tag) {
        Some(ids[0])
    } else {
        first_tagged(d, ids.drop_first(), tag)
    }
}

/// The children of `node`; none when `node` does not exist.
pub open spec fn children_of(d: DocumentModel, node: usize) -> Seq<usize> {
    if node < d.nodes.len() {
        d.nodes[node as int].children
    } else {
        Seq::empty()
    }
}

/// The first child of `node` that is an element named `tag`.
pub open spec fn child_of(d: DocumentModel, node: usize, tag: Seq<char>) -> Option<usize> {
    first_tagged(d, children_of(d, node), tag)
}

/// The value of the first attribute without a namespace whose name is `name`.
pub open spec fn first_attribute(attrs: Seq<AttributeModel>, name: Seq<char>) -> Option<Seq<char>>
    decreases attrs.len(),
{
    if attrs.len() == 0 {
        None
    } else if attrs[0].namespace is None && attrs[0].name == name {
        Some(attrs[0].value)
    } else {
        first_attribute(attrs.drop_first(), name)
    }
}

pub open spec fn attribute_of(d: DocumentModel, node: usize, name: Seq<char>) -> Option<Seq<char>> {
    if node < d.nodes.len() {
        first_attribute(d.nodes[node as int].attributes, name)
    } else {
        None
    }
}

pub open spec fn text_of(d: DocumentModel, node: usize) -> Option<Seq<char>> {
    if node < d.nodes.len() {
        d.nodes[node as int].text
    } else {
        None
    }
}

pub struct XmlAttribute {
    namespace: Option<String>,
    name: String,
    value: String,
}

impl View for XmlAttribute {
    type V = AttributeModel;

    closed spec fn view(&self) -> AttributeModel {
        AttributeModel {
            namespace: string_option_view(self.namespace),
            name: self.name@,
            value: self.value@,
        }
    }
}

pub struct XmlNode {
    element: bool,
    name: String,
    text: Option<String>,
    attributes: Vec<XmlAttribute>,
    children: Vec<usize>,
}

impl View for XmlNode {
    type V = NodeModel;

    closed spec fn view(&self) -> NodeModel {
        NodeModel {
            element: self.element,
            name: self.name@,
            text: string_option_view(self.text),
            attributes: self.attributes@.map_values(|a: XmlAttribute| a@),
            children: self.children@,
        }
    }
}

pub struct XmlDocument {
    nodes: Vec<XmlNode>,
    root: usize,
}

impl View for XmlDocument {
    type V = DocumentModel;

    closed spec fn view(&self) -> DocumentModel {
        DocumentModel { nodes: self.nodes@.map_values(|n: XmlNode| n@), root: self.root }
    }
}

#[verifier::external_type_specification]
#[verifier::external_body]
pub struct ExXmlError(roxmltree::Error);

/// Relies on `roxmltree::Document::parse`: the document it builds, copied node by
/// node in document order (the order of `descendants`, which is that of `NodeId`),
/// depends on `text` alone.
#[verifier::external_body]
pub(crate) fn parse_xml(text: &str) -> (r: Result<XmlDocument, roxmltree::Error>)
    ensures
        r is Ok <==> parsed_document(text@) is Some,
        r is Ok ==> r->Ok_0@ == parsed_document(text@)->Some_0,
{
    let doc = roxmltree::Document::parse(text)?;
    let nodes = doc.descendants().map(|n| XmlNode {
        element: n.is_element(),
        name: n.tag_name().name().to_string(),
        text: n.text().map(str::to_string),
        attributes: n.attributes().map(|a| XmlAttribute {
            namespace: a.namespace().map(str::to_string),
            name: a.name().to_string(),
            value: a.value().to_string(),
        }).collect(),
        children: n.children().map(|c| c.id().get_usize()).collect(),
    }).collect();
    Ok(XmlDocument { nodes, root: doc.root_element().id().get_usize() })
}

impl XmlDocument {
    /// Position of the root element.
    pub fn root(&self) -> (r: usize)
        ensures
            r == self@.root,
    {
        self.root
    }

    /// Number of children of `node` (none when `node` does not exist).
    pub fn child_count(&self, node: usize) -> (r: usize)
        ensures
            r == children_of(self@, node).len(),
    {
        if node < self.nodes.len() {
            self.nodes[node].children.len()
        } else {
            0
        }
    }

    /// The `i`-th child of `node`.
    pub fn child_at(&self, node: usize, i: usize) -> (r: usize)
        requires
            i < children_of(self@, node).len(),
        ensures
            r == children_of(self@, node)[i as int],
    {
        self.nodes[node].children[i]
    }

    fn tagged(&self, id: usize, tag: &String) -> (r: bool)
        ensures
            r == is_tagged(self@, id, tag@),
    {
        id < self.nodes.len() && self.nodes[id].element && self.nodes[id].name == *tag
    }

    /// Whether node `id` exists and is an element named `tag`.
    pub fn has_tag_name(&self, id: usize, tag: &str) -> (r: bool)
        ensures
            r == is_tagged(self@, id, tag@),
    {
        let tag = tag.to_owned();
        self.tagged(id, &tag)
    }

    /// The first child of `node` that is an element named `tag`.
    pub fn child(&self, node: usize, tag: &str) -> (r: Option<usize>)
        ensures
            r == child_of(self@, node, tag@),
    {
        let key = tag.to_owned();
        let n = self.child_count(node);
        let ghost kids = children_of(self@, node);
        let mut i: usize = 0;
        assert(kids.skip(0) =~= kids);
        while i < n
            invariant
                n == kids.len(),
                kids == children_of(self@, node),
                i <= n,
                key@ == tag@,
                first_tagged(self@, kids, tag@) == first_tagged(self@, kids.skip(i as int), tag@),
            decreases n - i,
        {
            let c = self.child_at(node, i);
            assert(kids.skip(i as int).drop_first() =~= kids.skip(i + 1));
            assert(kids.skip(i as int)[0] == c);
            if self.tagged(c, &key) {
                return Some(c);
            }
            i = i + 1;
        }
        None
    }

    /// The value of the first attribute of `node` without a namespace whose name is `name`.
    pub fn attribute(&self, node: usize, name: &str) -> (r: Option<String>)
        ensures
            string_option_view(r) == attribute_of(self@, node, name@),
    {
        if node >= self.nodes.len() {
            return None;
        }
        let key = name.to_owned();
        let attrs = &self.nodes[node].attributes;
        let ghost model = self@.nodes[node as int].attributes;
        let mut i: usize = 0;
        assert(model.skip(0) =~= model);
        while i < attrs.len()
            invariant
                node < self@.nodes.len(),
                model == self@.nodes[node as int].attributes,
                model == attrs@.map_values(|a: XmlAttribute| a@),
                i <= attrs.len(),
                key@ == name@,
                first_attribute(model, name@) == first_attribute(model.skip(i as int), name@),
            decreases attrs.len() - i,
        {
            assert(model.skip(i as int).drop_first() =~= model.skip(i + 1));
            let a = &attrs[i];
            assert(model.skip(i as int)[0] == a@);
            if a.namespace.is_none() && a.name == key {
                return Some(a.value.clone());
            }
            i = i + 1;
        }
        None
    }

    /// The text the parser reports for `node`.
    pub fn text(&self, node: usize) -> (r: Option<String>)
        ensures
            string_option_view(r) == text_of(self@, node),
    {
        if node >= self.nodes.len() {
            return None;
        }
        match &self.nodes[node].text {
            Some(t) => Some(t.clone()),
            None => None,
        }
    }
}

} // verus!

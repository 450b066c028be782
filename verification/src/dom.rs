//! XML elements: the library's own description of the stanzas that it builds,
//! and the minidom tree that carries a stanza over the wire.
use vstd::prelude::*;
use minidom::{Element, ElementBuilder, Node};
use crate::attrs::{Attributes, AttrView, as_map, keys_unique};

verus! {

/// minidom's DOM element.
#[verifier::external_type_specification]
#[verifier::external_body]
pub struct ExElement(Element);

/// minidom's builder for an element.
#[verifier::external_type_specification]
#[verifier::external_body]
pub struct ExElementBuilder(ElementBuilder);

/// minidom's tree node (element or text).
#[verifier::external_type_specification]
#[verifier::external_body]
pub struct ExNode(Node);

/// minidom's error type, for reading and writing.
#[verifier::external_type_specification]
#[verifier::external_body]
pub struct ExDomError(minidom::Error);

/// A child of a minidom element, as text.
pub enum DomNodeView {
    Element(DomView),
    Text(Seq<char>),
}

/// What a minidom element holds, as text: its local name, its namespace, the
/// namespace prefixes it declares (`None` for the default namespace), its
/// attributes, and its children in order.
pub struct DomView {
    pub name: Seq<char>,
    pub namespace: Seq<char>,
    pub prefixes: Map<Option<Seq<char>>, Seq<char>>,
    pub attributes: Map<Seq<char>, Seq<char>>,
    pub children: Seq<DomNodeView>,
}

/// What a minidom element holds (its fields, read as text).
pub uninterp spec fn dom_view(element: Element) -> DomView;

/// What a minidom element builder holds so far.
pub uninterp spec fn builder_view(builder: ElementBuilder) -> DomView;

/// What a minidom node holds.
pub uninterp spec fn node_view(node: Node) -> DomNodeView;

/// An element with this name and namespace and nothing else.
pub open spec fn bare_view(name: Seq<char>, namespace: Seq<char>) -> DomView {
    DomView {
        name,
        namespace,
        prefixes: Map::empty(),
        attributes: Map::empty(),
        children: Seq::empty(),
    }
}

/// Some direct child element has this name and namespace.
pub open spec fn has_child_view(v: DomView, name: Seq<char>, namespace: Seq<char>) -> bool {
    exists|i: int|
        0 <= i < v.children.len() && (#[trigger] v.children[i] matches DomNodeView::Element(c) && c.name == name
            && c.namespace == namespace)
}

/// An attribute name that minidom can always write: non-empty, ASCII letters
/// only (so a valid XML name without a prefix).
pub open spec fn simple_name(k: Seq<char>) -> bool {
    &&& k.len() > 0
    &&& forall|i: int| 0 <= i < k.len() ==> ('a' <= #[trigger] k[i] <= 'z') || ('A' <= k[i] <= 'Z')
}

/// An element that minidom writes without panicking: no declared prefixes
/// and only simple attribute names, in it and in every child element.
pub open spec fn dom_writable(v: DomView) -> bool
    decreases v,
{
    &&& v.prefixes == Map::<Option<Seq<char>>, Seq<char>>::empty()
    &&& forall|k: Seq<char>| #[trigger] v.attributes.contains_key(k) ==> simple_name(k)
    &&& forall|i: int|
        0 <= i < v.children.len() ==> match #[trigger] v.children[i] {
            DomNodeView::Element(c) => dom_writable(c),
            DomNodeView::Text(_) => true,
        }
}

/// `Element::builder(name, namespace)`: starts an element with this local name
/// and namespace, no prefixes, no attributes and no children.
#[verifier::external_body]
pub(crate) fn dom_builder(name: &str, namespace: &str) -> (r: ElementBuilder)
    ensures
        builder_view(r) == bare_view(name@, namespace@),
{
    Element::builder(name, namespace)
}

/// `ElementBuilder::attr(name, value)`: sets the attribute, replacing an
/// earlier value of the same name (minidom keeps attributes in a map).
#[verifier::external_body]
pub(crate) fn dom_attr(builder: ElementBuilder, name: &str, value: &str) -> (r: ElementBuilder)
    ensures
        builder_view(r) == (DomView {
            attributes: builder_view(builder).attributes.insert(name@, value@),
            ..builder_view(builder)
        }),
{
    builder.attr(name, value)
}

/// `ElementBuilder::append(node)`: appends the node as the last child.
#[verifier::external_body]
pub(crate) fn dom_append(builder: ElementBuilder, node: Node) -> (r: ElementBuilder)
    ensures
        builder_view(r) == (DomView {
            children: builder_view(builder).children.push(node_view(node)),
            ..builder_view(builder)
        }),
{
    builder.append(node)
}

/// `ElementBuilder::build()`: the finished element, holding what the builder holds.
#[verifier::external_body]
pub(crate) fn dom_build(builder: ElementBuilder) -> (r: Element)
    ensures
        dom_view(r) == builder_view(builder),
{
    builder.build()
}

/// `Node::from(element)`: the element as a child node.
#[verifier::external_body]
pub(crate) fn dom_element_node(element: Element) -> (r: Node)
    ensures
        node_view(r) == DomNodeView::Element(dom_view(element)),
{
    Node::from(element)
}

/// `Node::from(text)`: a text node.
#[verifier::external_body]
pub(crate) fn dom_text_node(text: String) -> (r: Node)
    ensures
        node_view(r) == DomNodeView::Text(text@),
{
    Node::from(text)
}

/// What minidom's `Element::write_to` writes for an element holding this, or
/// `None` where it returns an error (an invalid element name, namespace or
/// text).
pub uninterp spec fn dom_text(v: DomView) -> Option<Seq<u8>>;

/// `Element::write_to`: the element serialised as XML bytes, or minidom's
/// error. minidom unwraps the check of attribute names and asserts on the
/// declared prefixes, so the element must be writable (see `dom_writable`).
#[verifier::external_body]
pub(crate) fn dom_write(element: &Element) -> (r: Result<Vec<u8>, minidom::Error>)
    requires
        dom_writable(dom_view(*element)),
    ensures
        r is Ok <==> dom_text(dom_view(*element)) is Some,
        r matches Ok(bytes) ==> bytes@ == dom_text(dom_view(*element))->0,
{
    let mut out: Vec<u8> = Vec::new();
    element.write_to(&mut out).map(|_| out)
}

/// minidom's reading of a document, as `str::parse::<Element>` gives it, or
/// `None` where it returns an error.
pub uninterp spec fn dom_parsed(text: Seq<char>) -> Option<DomView>;

/// `text.parse::<Element>()`: minidom's reading of a document.
#[verifier::external_body]
pub(crate) fn dom_parse(text: &str) -> (r: Result<Element, minidom::Error>)
    ensures
        r is Ok <==> dom_parsed(text@) is Some,
        r matches Ok(e) ==> dom_parsed(text@) == Some(dom_view(e)),
{
    text.parse::<Element>()
}

/// minidom's reading of a document with `Element::from_reader_with_prefixes`,
/// unprefixed names defaulting to `default_ns`, or `None` on an error.
pub uninterp spec fn dom_read(bytes: Seq<u8>, default_ns: Seq<char>) -> Option<DomView>;

/// `Element::from_reader_with_prefixes(bytes, default_ns)`: minidom's reading
/// of a document in which unprefixed names default to `default_ns`.
#[verifier::external_body]
pub(crate) fn dom_read_with_default_ns(bytes: &[u8], default_ns: String) -> (r: Result<Element, minidom::Error>)
    ensures
        r is Ok <==> dom_read(bytes@, default_ns@) is Some,
        r matches Ok(e) ==> dom_read(bytes@, default_ns@) == Some(dom_view(e)),
{
    Element::from_reader_with_prefixes(bytes, default_ns)
}

/// `Element::name()`: the element's local name.
#[verifier::external_body]
pub(crate) fn dom_name(element: &Element) -> (r: String)
    ensures
        r@ == dom_view(*element).name,
{
    element.name().to_string()
}

/// `Element::has_child(name, namespace)`: whether a direct child element has
/// this name and this namespace.
#[verifier::external_body]
pub(crate) fn dom_has_child(element: &Element, name: &str, namespace: &str) -> (r: bool)
    ensures
        r == has_child_view(dom_view(*element), name@, namespace@),
{
    element.has_child(name, namespace)
}

/// A child of an element: another element or a run of text.
#[derive(Debug)]
pub enum XmlNode {
    Element(XmlElement),
    Text(String),
}

/// An XML element as the library builds it: local name, namespace,
/// attributes in the order they were set, and children in order.
#[derive(Debug)]
pub struct XmlElement {
    pub name: String,
    pub namespace: String,
    pub attributes: Attributes,
    pub children: Vec<XmlNode>,
}

/// Every attribute name is simple (see `simple_name`).
pub open spec fn simple_names(s: Seq<AttrView>) -> bool {
    forall|i: int| 0 <= i < s.len() ==> simple_name(#[trigger] s[i].0)
}

/// Names stored in the map are among the entries' names.
pub proof fn lemma_as_map_keys(s: Seq<AttrView>)
    requires
        simple_names(s),
    ensures
        forall|k: Seq<char>| #[trigger] as_map(s).contains_key(k) ==> simple_name(k),
    decreases s.len(),
{
    if s.len() > 0 {
        assert(simple_names(s.drop_last())) by {
            assert forall|i: int| 0 <= i < s.drop_last().len() implies simple_name(#[trigger] s.drop_last()[i].0) by {
                assert(s.drop_last()[i] == s[i]);
            }
        }
        lemma_as_map_keys(s.drop_last());
        assert(simple_name(s[s.len() - 1].0));
        assert forall|k: Seq<char>| #[trigger] as_map(s).contains_key(k) implies simple_name(k) by {
            if k != s.last().0 {
                assert(as_map(s.drop_last()).contains_key(k));
            }
        }
    }
}

/// With no name twice, the map holds each entry's value under its name and
/// holds no other name.
pub proof fn lemma_as_map_unique(s: Seq<AttrView>)
    requires
        keys_unique(s),
    ensures
        forall|i: int|
            0 <= i < s.len() ==> #[trigger] as_map(s).contains_key(s[i].0) && as_map(s)[s[i].0] == s[i].1,
        forall|k: Seq<char>| #[trigger] as_map(s).contains_key(k) ==> exists|i: int| 0 <= i < s.len() && s[i].0 == k,
    decreases s.len(),
{
    if s.len() > 0 {
        let rest = s.drop_last();
        assert(keys_unique(rest)) by {
            assert forall|i: int, j: int| 0 <= i < rest.len() && 0 <= j < rest.len() && i != j implies #[trigger] rest[i].0 != #[trigger] rest[j].0 by {
                assert(rest[i] == s[i] && rest[j] == s[j]);
            }
        }
        lemma_as_map_unique(rest);
        assert(as_map(s) == as_map(rest).insert(s.last().0, s.last().1));
        assert forall|i: int| 0 <= i < s.len() implies #[trigger] as_map(s).contains_key(s[i].0) && as_map(s)[s[i].0] == s[i].1 by {
            if i < s.len() - 1 {
                assert(rest[i] == s[i]);
                assert(s[i].0 != s[s.len() - 1].0);
                assert(as_map(rest).contains_key(rest[i].0));
            }
        }
        assert forall|k: Seq<char>| #[trigger] as_map(s).contains_key(k) implies exists|i: int| 0 <= i < s.len() && s[i].0 == k by {
            if k == s.last().0 {
                assert(s[s.len() - 1].0 == k);
            } else {
                assert(as_map(rest).contains_key(k));
                let i = choose|i: int| 0 <= i < rest.len() && rest[i].0 == k;
                assert(s[i] == rest[i]);
            }
        }
    }
}

/// minidom's element holds what the library's element holds: the same name
/// and namespace, no declared prefix, each attribute's value under its name
/// and no other attribute, and as many children, each text the same text and
/// each element one of the same name and namespace.
pub proof fn law_dom_holds_the_element(e: XmlElement, v: DomView)
    requires
        e.wf(),
        e.describes(v),
    ensures
        v.name == e.name@,
        v.namespace == e.namespace@,
        v.prefixes == Map::<Option<Seq<char>>, Seq<char>>::empty(),
        forall|i: int|
            0 <= i < e.attributes@.len() ==> #[trigger] v.attributes.contains_key(e.attributes@[i].0)
                && v.attributes[e.attributes@[i].0] == e.attributes@[i].1,
        forall|k: Seq<char>|
            #[trigger] v.attributes.contains_key(k) ==> exists|i: int| 0 <= i < e.attributes@.len() && e.attributes@[i].0 == k,
        v.children.len() == e.children@.len(),
        forall|i: int|
            0 <= i < e.children@.len() ==> match #[trigger] e.children@[i] {
                XmlNode::Element(c) => v.children[i] matches DomNodeView::Element(cv) && cv.name == c.name@
                    && cv.namespace == c.namespace@,
                XmlNode::Text(t) => v.children[i] == DomNodeView::Text(t@),
            },
{
    lemma_as_map_unique(e.attributes@);
    assert forall|i: int|
        0 <= i < e.attributes@.len() implies #[trigger] v.attributes.contains_key(e.attributes@[i].0)
            && v.attributes[e.attributes@[i].0] == e.attributes@[i].1 by {
        assert(as_map(e.attributes@).contains_key(e.attributes@[i].0));
    }
    assert forall|i: int|
        0 <= i < e.children@.len() implies match #[trigger] e.children@[i] {
            XmlNode::Element(c) => v.children[i] matches DomNodeView::Element(cv) && cv.name == c.name@
                && cv.namespace == c.namespace@,
            XmlNode::Text(t) => v.children[i] == DomNodeView::Text(t@),
        } by {
        match e.children@[i] {
            XmlNode::Element(c) => {
                let cv = v.children[i]->Element_0;
                assert(c.describes(cv));
            },
            XmlNode::Text(_) => {},
        }
    }
}

impl XmlElement {
    /// Well-formed: the attributes, and those of every child element, have
    /// no name twice and only simple names.
    pub open spec fn wf(&self) -> bool
        decreases self,
    {
        &&& self.attributes.wf()
        &&& simple_names(self.attributes@)
        &&& forall|i: int|
            0 <= i < self.children@.len() ==> match #[trigger] self.children@[i] {
                XmlNode::Element(c) => c.wf(),
                XmlNode::Text(_) => true,
            }
    }

    /// `v` holds what this element describes: the same name and namespace, no
    /// declared prefixes, the attributes as a map, and children that match
    /// one for one (elements recursively, texts equal).
    pub open spec fn describes(&self, v: DomView) -> bool
        decreases self,
    {
        &&& v.name == self.name@
        &&& v.namespace == self.namespace@
        &&& v.prefixes == Map::<Option<Seq<char>>, Seq<char>>::empty()
        &&& v.attributes == as_map(self.attributes@)
        &&& v.children.len() == self.children@.len()
        &&& forall|i: int|
            0 <= i < self.children@.len() ==> match #[trigger] self.children@[i] {
                XmlNode::Element(c) => v.children[i] matches DomNodeView::Element(cv) && c.describes(cv),
                XmlNode::Text(t) => v.children[i] == DomNodeView::Text(t@),
            }
    }

    /// What a well-formed element describes is writable by minidom.
    pub proof fn lemma_describes_writable(&self, v: DomView)
        requires
            self.wf(),
            self.describes(v),
        ensures
            dom_writable(v),
        decreases self,
    {
        lemma_as_map_keys(self.attributes@);
        assert forall|i: int| 0 <= i < v.children.len() implies match #[trigger] v.children[i] {
            DomNodeView::Element(c) => dom_writable(c),
            DomNodeView::Text(_) => true,
        } by {
            match self.children@[i] {
                XmlNode::Element(c) => {
                    assert(decreases_to!(self => self.children));
                    assert(decreases_to!(self.children => self.children@[i]));
                    let cv = v.children[i]->Element_0;
                    c.lemma_describes_writable(cv);
                },
                XmlNode::Text(_) => {},
            }
        }
    }

    /// An element with this name and namespace, and nothing in it.
    pub fn bare(name: &str, namespace: &str) -> (r: XmlElement)
        ensures
            r.wf(),
            r.name@ == name@,
            r.namespace@ == namespace@,
            r.attributes@.len() == 0,
            r.children@.len() == 0,
    {
        let r = XmlElement {
            name: name.to_owned(),
            namespace: namespace.to_owned(),
            attributes: Attributes::new(),
            children: Vec::new(),
        };
        assert(simple_names(r.attributes@));
        r
    }

    /// The minidom element with the same name, namespace, attributes and
    /// children, built through minidom's builder.
    pub fn to_dom(&self) -> (r: Element)
        requires
            self.wf(),
        ensures
            self.describes(dom_view(r)),
            dom_writable(dom_view(r)),
        decreases self,
    {
        let mut builder = dom_builder(self.name.as_str(), self.namespace.as_str());
        let mut i: usize = 0;
        while i < self.attributes.len()
            invariant
                i <= self.attributes@.len(),
                builder_view(builder) == (DomView {
                    attributes: as_map(self.attributes@.subrange(0, i as int)),
                    ..bare_view(self.name@, self.namespace@)
                }),
            decreases self.attributes@.len() - i,
        {
            let ghost before = builder_view(builder);
            builder = dom_attr(builder, self.attributes.key_at(i).as_str(), self.attributes.value_at(i).as_str());
            proof {
                let s = self.attributes@.subrange(0, i + 1);
                assert(s.drop_last() =~= self.attributes@.subrange(0, i as int));
                assert(s.last() == self.attributes@[i as int]);
            }
            i = i + 1;
        }
        assert(self.attributes@.subrange(0, self.attributes@.len() as int) =~= self.attributes@);
        let ghost attrs_done = builder_view(builder);
        let mut j: usize = 0;
        while j < self.children.len()
            invariant
                j <= self.children@.len(),
                self.wf(),
                builder_view(builder).name == self.name@,
                builder_view(builder).namespace == self.namespace@,
                builder_view(builder).prefixes == Map::<Option<Seq<char>>, Seq<char>>::empty(),
                builder_view(builder).attributes == as_map(self.attributes@),
                builder_view(builder).children.len() == j,
                forall|k: int|
                    0 <= k < j ==> match #[trigger] self.children@[k] {
                        XmlNode::Element(c) => builder_view(builder).children[k] matches DomNodeView::Element(cv)
                            && c.describes(cv),
                        XmlNode::Text(t) => builder_view(builder).children[k] == DomNodeView::Text(t@),
                    },
            decreases self.children@.len() - j,
        {
            let node = match &self.children[j] {
                XmlNode::Element(child) => {
                    assert(child.wf());
                    assert(decreases_to!(self => self.children));
                    assert(decreases_to!(self.children => self.children@[j as int]));
                    dom_element_node(child.to_dom())
                },
                XmlNode::Text(text) => dom_text_node(text.clone()),
            };
            let ghost before = builder_view(builder);
            builder = dom_append(builder, node);
            assert forall|k: int|
                0 <= k < j + 1 implies match #[trigger] self.children@[k] {
                    XmlNode::Element(c) => builder_view(builder).children[k] matches DomNodeView::Element(cv)
                        && c.describes(cv),
                    XmlNode::Text(t) => builder_view(builder).children[k] == DomNodeView::Text(t@),
                } by {
                if k < j {
                    assert(builder_view(builder).children[k] == before.children[k]);
                }
            }
            j = j + 1;
        }
        let r = dom_build(builder);
        proof {
            self.lemma_describes_writable(dom_view(r));
        }
        r
    }
}

} // verus!

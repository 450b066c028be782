//! Reading the first events of an XML document with xml-rs.
use vstd::prelude::*;
use xml::reader::EventReader;
use crate::attrs::{Attributes, AttrView, keys_unique, lemma_store, lookup, store};

verus! {

/// A qualified XML name as xml-rs reports it.
#[derive(Clone, Debug)]
pub struct XmlName {
    pub local_name: String,
    pub namespace: Option<String>,
    pub prefix: Option<String>,
}

/// An attribute of a start tag as xml-rs reports it.
#[derive(Clone, Debug)]
pub struct XmlAttribute {
    pub name: XmlName,
    pub value: String,
}

/// An event of xml-rs's reader, as far as the library reads it: the start of
/// the document, a start tag with its name and attributes, or anything else.
#[derive(Debug)]
pub enum ReadEvent {
    StartDocument,
    StartElement { name: XmlName, attributes: Vec<XmlAttribute> },
    Other,
}

/// A qualified name as text.
pub struct XmlNameView {
    pub local_name: Seq<char>,
    pub namespace: Option<Seq<char>>,
    pub prefix: Option<Seq<char>>,
}

/// An attribute as text: its name and its value.
pub type XmlAttributeView = (XmlNameView, Seq<char>);

/// An event as text.
pub enum ReadEventView {
    StartDocument,
    StartElement { name: XmlNameView, attributes: Seq<XmlAttributeView> },
    Other,
}

pub open spec fn opt_text(o: Option<String>) -> Option<Seq<char>> {
    match o {
        Some(s) => Some(s@),
        None => None,
    }
}

impl View for XmlName {
    type V = XmlNameView;

    open spec fn view(&self) -> XmlNameView {
        XmlNameView { local_name: self.local_name@, namespace: opt_text(self.namespace), prefix: opt_text(self.prefix) }
    }
}

impl View for XmlAttribute {
    type V = XmlAttributeView;

    open spec fn view(&self) -> XmlAttributeView {
        (self.name@, self.value@)
    }
}

/// The attributes of a start tag as text.
pub open spec fn attributes_view(attributes: Seq<XmlAttribute>) -> Seq<XmlAttributeView> {
    attributes.map_values(|a: XmlAttribute| a@)
}

impl View for ReadEvent {
    type V = ReadEventView;

    open spec fn view(&self) -> ReadEventView {
        match self {
            ReadEvent::StartDocument => ReadEventView::StartDocument,
            ReadEvent::StartElement { name, attributes } => ReadEventView::StartElement {
                name: name@,
                attributes: attributes_view(attributes@),
            },
            ReadEvent::Other => ReadEventView::Other,
        }
    }
}

/// A read result as text.
pub open spec fn read_result_view(r: Result<ReadEvent, ()>) -> Result<ReadEventView, ()> {
    match r {
        Ok(e) => Ok(e@),
        Err(()) => Err(()),
    }
}

/// The text that xml-rs's `Display` gives a name: `{namespace}` where there
/// is a namespace, then `prefix:` where there is a prefix, then the local name.
pub open spec fn name_text(n: XmlNameView) -> Seq<char> {
    (match n.namespace {
        Some(ns) => seq!['{'] + ns + seq!['}'],
        None => Seq::<char>::empty(),
    }) + (match n.prefix {
        Some(p) => p + seq![':'],
        None => Seq::<char>::empty(),
    }) + n.local_name
}

impl XmlName {
    /// The name as xml-rs displays it (what `to_string` gives).
    pub fn to_text(&self) -> (r: String)
        ensures
            r@ == name_text(self@),
    {
        let mut r = String::new();
        match &self.namespace {
            Some(ns) => {
                r.append("{");
                r.append(ns.as_str());
                r.append("}");
                proof {
                    reveal_strlit("{");
                    reveal_strlit("}");
                }
            },
            None => {},
        }
        match &self.prefix {
            Some(p) => {
                r.append(p.as_str());
                r.append(":");
                proof {
                    reveal_strlit(":");
                }
            },
            None => {},
        }
        r.append(self.local_name.as_str());
        assert(r@ =~= name_text(self@));
        r
    }
}

/// The attribute as (name text, value).
pub open spec fn attribute_entry(a: XmlAttributeView) -> AttrView {
    (name_text(a.0), a.1)
}

/// The attributes stored one after the other, each name as xml-rs displays it;
/// a later attribute of the same name replaces an earlier one's value.
pub open spec fn store_all(s: Seq<XmlAttributeView>) -> Seq<AttrView>
    decreases s.len(),
{
    if s.len() == 0 {
        Seq::empty()
    } else {
        let a = attribute_entry(s.last());
        store(store_all(s.drop_last()), a.0, a.1)
    }
}

/// Reading a start tag's attributes keeps, for each displayed name, the value
/// of the last attribute that displays as it: no name is kept twice, a name
/// is kept exactly where some attribute displays as it, and it keeps the
/// value of the last such attribute.
pub proof fn law_store_all_keeps_last(s: Seq<XmlAttributeView>)
    ensures
        keys_unique(store_all(s)),
        forall|k: Seq<char>|
            #[trigger] lookup(store_all(s), k) is None <==> (forall|i: int| 0 <= i < s.len() ==> name_text(s[i].0) != k),
        forall|k: Seq<char>, i: int|
            #![trigger lookup(store_all(s), k), s[i]]
            0 <= i < s.len() && name_text(s[i].0) == k && (forall|j: int| i < j < s.len() ==> name_text(s[j].0) != k)
                ==> lookup(store_all(s), k) == Some(s[i].1),
    decreases s.len(),
{
    if s.len() > 0 {
        let rest = s.drop_last();
        law_store_all_keeps_last(rest);
        let a = attribute_entry(s.last());
        lemma_store(store_all(rest), a.0, a.1);
        assert forall|i: int| 0 <= i < rest.len() implies #[trigger] rest[i] == s[i] by {}
        assert forall|k: Seq<char>|
            #[trigger] lookup(store_all(s), k) is None <==> (forall|i: int| 0 <= i < s.len() ==> name_text(s[i].0) != k) by {
            if k != a.0 {
                if lookup(store_all(s), k) is None {
                    assert forall|i: int| 0 <= i < s.len() implies name_text(s[i].0) != k by {
                        if i < rest.len() {
                            assert(rest[i] == s[i]);
                        }
                    }
                } else {
                    assert(lookup(store_all(rest), k) is Some);
                    let i = choose|i: int| 0 <= i < rest.len() && name_text(rest[i].0) == k;
                    assert(s[i] == rest[i]);
                }
            } else {
                assert(name_text(s[s.len() - 1].0) == k);
            }
        }
        assert forall|k: Seq<char>, i: int|
            #![trigger lookup(store_all(s), k), s[i]]
            0 <= i < s.len() && name_text(s[i].0) == k && (forall|j: int| i < j < s.len() ==> name_text(s[j].0) != k)
                implies lookup(store_all(s), k) == Some(s[i].1) by {
            if i == s.len() - 1 {
                assert(k == a.0);
            } else {
                assert(name_text(s[s.len() - 1].0) != k);
                assert(rest[i] == s[i]);
                assert forall|j: int| i < j < rest.len() implies name_text(rest[j].0) != k by {
                    assert(rest[j] == s[j]);
                }
                assert(lookup(store_all(rest), k) == Some(rest[i].1));
            }
        }
    }
}

/// Collects the attributes of a start tag: each is stored under its displayed
/// name, a later one replacing the value of an earlier one of the same name.
pub fn collect_attributes(attributes: Vec<XmlAttribute>) -> (r: Attributes)
    ensures
        r.wf(),
        r@ == store_all(attributes_view(attributes@)),
{
    let mut r = Attributes::new();
    let mut i: usize = 0;
    while i < attributes.len()
        invariant
            i <= attributes@.len(),
            r.wf(),
            r@ == store_all(attributes_view(attributes@).subrange(0, i as int)),
        decreases attributes@.len() - i,
    {
        let a = &attributes[i];
        let key = a.name.to_text();
        let value = a.value.clone();
        r.insert(key, value);
        proof {
            let s = attributes_view(attributes@).subrange(0, i + 1);
            assert(s.drop_last() =~= attributes_view(attributes@).subrange(0, i as int));
            assert(s.last() == attributes@[i as int]@);
        }
        i = i + 1;
    }
    assert(attributes_view(attributes@).subrange(0, attributes@.len() as int) =~= attributes_view(attributes@));
    r
}

/// The first two events that xml-rs's `EventReader` yields on this document
/// (an error stays an error: the reader repeats it).
pub uninterp spec fn xml_leading_events(doc: Seq<u8>) -> (Result<ReadEventView, ()>, Result<ReadEventView, ()>);

/// `EventReader::new(doc)` followed by two calls of `EventReader::next()`:
/// the first two events of the document, each reduced to what the library
/// reads, or an error. They are a function of the bytes alone and are given
/// the name `xml_leading_events`; nothing more is stated of xml-rs's reading.
#[verifier::external_body]
pub(crate) fn xml_read_leading_events(doc: &[u8]) -> (r: (Result<ReadEvent, ()>, Result<ReadEvent, ()>))
    ensures
        (read_result_view(r.0), read_result_view(r.1)) == xml_leading_events(doc@),
{
    let mut reader = EventReader::new(doc);
    let mut next = || reader.next().map_err(|_| ()).map(|event| match event {
        xml::reader::XmlEvent::StartDocument { .. } => ReadEvent::StartDocument,
        xml::reader::XmlEvent::StartElement { name, attributes, .. } => ReadEvent::StartElement {
            name: XmlName { local_name: name.local_name, namespace: name.namespace, prefix: name.prefix },
            attributes: attributes.into_iter().map(|a| XmlAttribute {
                name: XmlName { local_name: a.name.local_name, namespace: a.name.namespace, prefix: a.name.prefix },
                value: a.value,
            }).collect(),
        },
        _ => ReadEvent::Other,
    });
    (next(), next())
}

} // verus!

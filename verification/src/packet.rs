//! Packets of an XMPP stream: the stream header, stanzas, and the stream end,
//! and their conversion from and to text.
use vstd::prelude::*;
use minidom::Element;
use crate::attrs::{Attributes, AttrView};
use crate::dom::{DomView, dom_parse, dom_parsed, dom_read, dom_read_with_default_ns, dom_text, dom_view, dom_writable, dom_write};
use crate::text::{replace_all, str_replace, utf8_to_string};
use crate::xml_events::{ReadEvent, ReadEventView, XmlAttributeView, XmlNameView, attributes_view, collect_attributes, store_all, xml_leading_events, xml_read_leading_events};

verus! {

/// A unit of an XMPP stream.
#[derive(Debug)]
pub enum Packet {
    /// The stream header, with its attributes.
    Start(Attributes),
    /// A stanza (or any other top-level element of the stream).
    Stanza(Element),
    /// The end of the stream.
    End,
}

/// Why a packet could not be written or read.
#[derive(Debug, PartialEq, Eq, Structural)]
pub enum PacketError {
    /// The packet is not of the kind that the operation handles.
    InvalidPacketType,
    /// The XML could not be read or written.
    MalformedXml,
    /// The text starts with an element that the importer does not handle
    /// (presence, message, or any other unknown element).
    UnsupportedStanza,
}

pub type PacketExportResult = Result<String, PacketError>;

pub type PacketImportResult = Result<Packet, PacketError>;

/// The text that opens the stream header, before its attributes.
pub open spec fn header_prefix() -> Seq<char> {
    "<?xml version='1.0'?><stream:stream "@
}

/// One attribute of the stream header: `key='value'`.
pub open spec fn attr_text(a: AttrView) -> Seq<char> {
    a.0 + "='"@ + a.1 + "'"@
}

/// The attributes of the stream header, each `key='value'`, separated by
/// single spaces.
pub open spec fn attrs_text(s: Seq<AttrView>) -> Seq<char>
    decreases s.len(),
{
    if s.len() == 0 {
        Seq::empty()
    } else if s.len() == 1 {
        attr_text(s[0])
    } else {
        attrs_text(s.drop_last()) + " "@ + attr_text(s.last())
    }
}

/// The stream header with these attributes.
pub open spec fn start_text(s: Seq<AttrView>) -> Seq<char> {
    header_prefix() + attrs_text(s) + ">"@
}

/// The text that closes the stream.
pub open spec fn end_text() -> Seq<char> {
    "</stream:stream>"@
}

/// The text that the importer searches for before reading (a features element
/// whose `stream` prefix is not declared) ...
pub open spec fn features_tag() -> Seq<char> {
    "<stream:features>"@
}

/// ... and the text it puts in its place, which declares the prefix.
pub open spec fn features_tag_declared() -> Seq<char> {
    "<stream:features xmlns:stream='http://etherx.jabber.org/streams'>"@
}

/// The namespace that an `iq` stanza's unprefixed names default to.
pub open spec fn client_ns() -> Seq<char> {
    "jabber:client"@
}

/// What the importer makes of a text, up to the stanza element itself.
pub enum ImportOutcome {
    Start(Seq<AttrView>),
    Stanza(DomView),
    Malformed,
    Unsupported,
}

/// The importer's outcome on a text: the text is read with its features tag
/// declared; the document's second event (after the start of the document)
/// decides. A prefixed `stream` element is a stream header with its attributes,
/// a prefixed `features` element is a stanza read from the declared text, an
/// unprefixed `iq` element is a stanza read from the unchanged text with
/// `jabber:client` as default namespace; any other start is unsupported. Where
/// xml-rs or minidom cannot read the text, it is malformed.
pub open spec fn import_outcome(content: Seq<char>) -> ImportOutcome {
    let fixed = replace_all(content, features_tag(), features_tag_declared());
    let events = xml_leading_events(vstd::utf8::encode_utf8(fixed));
    if events.0 is Err || events.1 is Err {
        ImportOutcome::Malformed
    } else {
        match events.1->Ok_0 {
            ReadEventView::StartElement { name, attributes } => {
                if name.prefix is Some {
                    if name.local_name == "stream"@ {
                        ImportOutcome::Start(store_all(attributes))
                    } else if name.local_name == "features"@ {
                        if dom_parsed(fixed) is Some {
                            ImportOutcome::Stanza(dom_parsed(fixed)->0)
                        } else {
                            ImportOutcome::Malformed
                        }
                    } else {
                        ImportOutcome::Unsupported
                    }
                } else if name.local_name == "iq"@ {
                    if dom_read(vstd::utf8::encode_utf8(content), client_ns()) is Some {
                        ImportOutcome::Stanza(dom_read(vstd::utf8::encode_utf8(content), client_ns())->0)
                    } else {
                        ImportOutcome::Malformed
                    }
                } else {
                    ImportOutcome::Unsupported
                }
            },
            _ => ImportOutcome::Unsupported,
        }
    }
}

/// The import result agrees with the outcome.
pub open spec fn import_result_is(r: PacketImportResult, o: ImportOutcome) -> bool {
    match o {
        ImportOutcome::Start(a) => r matches Ok(Packet::Start(x)) && x.wf() && x@ == a,
        ImportOutcome::Stanza(v) => r matches Ok(Packet::Stanza(e)) && dom_view(e) == v,
        ImportOutcome::Malformed => r == Err::<Packet, PacketError>(PacketError::MalformedXml),
        ImportOutcome::Unsupported => r == Err::<Packet, PacketError>(PacketError::UnsupportedStanza),
    }
}

/// The text holds a packet that the importer reads: a stream header or a
/// supported stanza.
pub open spec fn import_accepts(content: Seq<char>) -> bool {
    import_outcome(content) is Start || import_outcome(content) is Stanza
}

/// `r` is what writing a stanza holding `v` gives: the UTF-8 text that
/// minidom writes, or malformed XML where minidom fails or its bytes are not
/// UTF-8.
pub open spec fn stanza_written(r: PacketExportResult, v: DomView) -> bool {
    match dom_text(v) {
        Some(bytes) => if vstd::utf8::valid_utf8(bytes) {
            r matches Ok(s) && s@ == vstd::utf8::decode_utf8(bytes)
        } else {
            r == Err::<String, PacketError>(PacketError::MalformedXml)
        },
        None => r == Err::<String, PacketError>(PacketError::MalformedXml),
    }
}

/// minidom writes a stanza holding `v`, and what it writes is UTF-8 text.
pub open spec fn stanza_writes(v: DomView) -> bool {
    dom_text(v) matches Some(bytes) && vstd::utf8::valid_utf8(bytes)
}

/// The text of a stanza holding `v`, where minidom writes it.
pub open spec fn stanza_text(v: DomView) -> Seq<char> {
    vstd::utf8::decode_utf8(dom_text(v)->0)
}

/// The packet can be written: a stream header, the stream end, or a stanza
/// that minidom writes without panicking (see `dom_writable`) and without
/// error (see `stanza_writes`).
pub open spec fn exportable(packet: Packet) -> bool {
    packet matches Packet::Stanza(e) ==> dom_writable(dom_view(e)) && stanza_writes(dom_view(e))
}

/// Writes packets as the text sent on the stream.
pub struct PacketExporter;

impl PacketExporter {
    /// The text of a packet: the stream header with its attributes, a stanza
    /// as minidom writes it, or the stream end. The packet must be one that
    /// can be written (see `exportable`).
    pub fn export(packet: Packet) -> (r: PacketExportResult)
        requires
            exportable(packet),
        ensures
            packet matches Packet::Start(a) ==> r matches Ok(s) && s@ == start_text(a@),
            packet is End ==> (r matches Ok(s) && s@ == end_text()),
            packet matches Packet::Stanza(e) ==> (r matches Ok(s) && s@ == stanza_text(dom_view(e))),
    {
        match packet {
            Packet::Start(_) => PacketExporter::create_start_packet(packet),
            Packet::Stanza(element) => PacketExporter::create_stanza(element),
            Packet::End => Ok("</stream:stream>".to_owned()),
        }
    }

    /// Like `export`, for a stanza that minidom may fail to write: the error
    /// is then `MalformedXml` (see `stanza_written`). The stanza must still be
    /// one that minidom writes without panicking.
    pub fn try_export(packet: Packet) -> (r: PacketExportResult)
        requires
            packet matches Packet::Stanza(e) ==> dom_writable(dom_view(e)),
        ensures
            packet matches Packet::Start(a) ==> r matches Ok(s) && s@ == start_text(a@),
            packet is End ==> (r matches Ok(s) && s@ == end_text()),
            packet matches Packet::Stanza(e) ==> stanza_written(r, dom_view(e)),
    {
        let written = match &packet {
            Packet::Stanza(element) => PacketExporter::write_stanza(element).is_ok(),
            _ => true,
        };
        if written {
            PacketExporter::export(packet)
        } else {
            Err(PacketError::MalformedXml)
        }
    }

    /// A stanza as minidom writes it (see `stanza_text`). The element must be
    /// one that minidom writes without panicking and without error.
    pub fn create_stanza(element: Element) -> (r: PacketExportResult)
        requires
            dom_writable(dom_view(element)),
            stanza_writes(dom_view(element)),
        ensures
            r matches Ok(s) && s@ == stanza_text(dom_view(element)),
    {
        PacketExporter::write_stanza(&element)
    }

    /// What writing a stanza gives (see `stanza_written`).
    fn write_stanza(element: &Element) -> (r: PacketExportResult)
        requires
            dom_writable(dom_view(*element)),
        ensures
            stanza_written(r, dom_view(*element)),
    {
        match dom_write(element) {
            Ok(bytes) => match utf8_to_string(bytes) {
                Some(s) => Ok(s),
                None => Err(PacketError::MalformedXml),
            },
            Err(_) => Err(PacketError::MalformedXml),
        }
    }

    /// The stream header with the attributes of a `Start` packet:
    /// `<?xml version='1.0'?><stream:stream ` then each attribute as
    /// `key='value'`, separated by spaces, then `>`. Any other packet is of
    /// the wrong type.
    pub fn create_start_packet(packet: Packet) -> (r: PacketExportResult)
        ensures
            packet matches Packet::Start(a) ==> r matches Ok(s) && s@ == start_text(a@),
            !(packet is Start) ==> r == Err::<String, PacketError>(PacketError::InvalidPacketType),
    {
        match packet {
            Packet::Start(map) => {
                let mut result = "<?xml version='1.0'?><stream:stream ".to_owned();
                let mut i: usize = 0;
                while i < map.len()
                    invariant
                        i <= map@.len(),
                        result@ == header_prefix() + attrs_text(map@.subrange(0, i as int)),
                    decreases map@.len() - i,
                {
                    if i > 0 {
                        result.append(" ");
                    }
                    result.append(map.key_at(i).as_str());
                    result.append("='");
                    result.append(map.value_at(i).as_str());
                    result.append("'");
                    proof {
                        let s = map@.subrange(0, i + 1);
                        assert(s.drop_last() =~= map@.subrange(0, i as int));
                        assert(s.last() == map@[i as int]);
                        if i == 0 {
                            assert(map@.subrange(0, 0) =~= Seq::<AttrView>::empty());
                        }
                    }
                    assert(result@ =~= header_prefix() + attrs_text(map@.subrange(0, i + 1)));
                    i = i + 1;
                }
                result.append(">");
                assert(map@.subrange(0, map@.len() as int) =~= map@);
                assert(result@ =~= start_text(map@));
                Ok(result)
            },
            _ => Err(PacketError::InvalidPacketType),
        }
    }
}

/// Reads packets from the text received on the stream.
pub struct PacketImporter;

impl PacketImporter {
    /// The attributes of a start tag as a map: each stored under its name as
    /// xml-rs displays it, a later one replacing an earlier of the same name.
    pub fn convert_attributes(attributes: Vec<crate::xml_events::XmlAttribute>) -> (r: Attributes)
        ensures
            r.wf(),
            r@ == store_all(attributes_view(attributes@)),
    {
        collect_attributes(attributes)
    }

    /// The packet that a received text holds, as `import_outcome` describes:
    /// a stream header with its attributes, or a stanza as minidom reads it.
    /// The text must hold one (see `import_accepts`).
    pub fn import(content: String) -> (r: PacketImportResult)
        requires
            import_accepts(content@),
        ensures
            r is Ok,
            import_result_is(r, import_outcome(content@)),
    {
        PacketImporter::read_packet(&content)
    }

    /// Like `import`, for any text: where the text holds no packet that the
    /// importer reads, the error says why (malformed or unsupported).
    pub fn try_import(content: String) -> (r: PacketImportResult)
        ensures
            import_result_is(r, import_outcome(content@)),
    {
        let r = PacketImporter::read_packet(&content);
        match r {
            Ok(_) => PacketImporter::import(content),
            Err(e) => Err(e),
        }
    }

    /// What `try_import` gives.
    fn read_packet(content: &String) -> (r: PacketImportResult)
        ensures
            import_result_is(r, import_outcome(content@)),
    {
        proof {
            reveal_strlit("<stream:features>");
        }
        let new_content = str_replace(
            content.as_str(),
            "<stream:features>",
            "<stream:features xmlns:stream='http://etherx.jabber.org/streams'>",
        );
        let events = xml_read_leading_events(new_content.as_str().as_bytes());
        let root = match events {
            (Ok(_), Ok(root)) => root,
            _ => {
                return Err(PacketError::MalformedXml);
            },
        };
        match root {
            ReadEvent::StartElement { name, attributes } => {
                if name.prefix.is_some() {
                    if name.local_name == "stream".to_owned() {
                        return Ok(Packet::Start(PacketImporter::convert_attributes(attributes)));
                    } else if name.local_name == "features".to_owned() {
                        return match dom_parse(new_content.as_str()) {
                            Ok(element) => Ok(Packet::Stanza(element)),
                            Err(_) => Err(PacketError::MalformedXml),
                        };
                    } else {
                        return Err(PacketError::UnsupportedStanza);
                    }
                }
                if name.local_name == "iq".to_owned() {
                    match dom_read_with_default_ns(content.as_str().as_bytes(), "jabber:client".to_owned()) {
                        Ok(element) => Ok(Packet::Stanza(element)),
                        Err(_) => Err(PacketError::MalformedXml),
                    }
                } else {
                    Err(PacketError::UnsupportedStanza)
                }
            },
            _ => Err(PacketError::UnsupportedStanza),
        }
    }
}

/// The text that the importer's reader reads: `content` with each undeclared
/// `<stream:features>` tag declaring the stream prefix, in UTF-8.
pub open spec fn read_bytes(content: Seq<char>) -> Seq<u8> {
    vstd::utf8::encode_utf8(
        replace_all(
            content,
            "<stream:features>"@,
            "<stream:features xmlns:stream='http://etherx.jabber.org/streams'>"@,
        ),
    )
}

/// Every `iq` is read, whatever its attributes or contents: where the
/// document's first element is an unprefixed `iq`, the text imports as the
/// stanza that minidom reads from it with `jabber:client` as default
/// namespace, or as malformed where minidom cannot read it.
pub proof fn law_import_reads_every_iq(
    content: Seq<char>,
    first: ReadEventView,
    name: XmlNameView,
    attributes: Seq<XmlAttributeView>,
)
    requires
        xml_leading_events(read_bytes(content)) == (
            Ok::<ReadEventView, ()>(first),
            Ok::<ReadEventView, ()>(ReadEventView::StartElement { name, attributes }),
        ),
        name.prefix is None,
        name.local_name == "iq"@,
    ensures
        import_outcome(content) == match dom_read(vstd::utf8::encode_utf8(content), "jabber:client"@) {
            Some(v) => ImportOutcome::Stanza(v),
            None => ImportOutcome::Malformed,
        },
{
    reveal_strlit("iq");
    reveal_strlit("stream");
}

/// Every stream header is read, whatever its attributes: where the first
/// element is a prefixed `stream`, the text imports as a header whose
/// attributes are those of the tag (a later one of a name replacing an
/// earlier).
pub proof fn law_import_reads_every_header(
    content: Seq<char>,
    first: ReadEventView,
    name: XmlNameView,
    attributes: Seq<XmlAttributeView>,
)
    requires
        xml_leading_events(read_bytes(content)) == (
            Ok::<ReadEventView, ()>(first),
            Ok::<ReadEventView, ()>(ReadEventView::StartElement { name, attributes }),
        ),
        name.prefix is Some,
        name.local_name == "stream"@,
    ensures
        import_outcome(content) == ImportOutcome::Start(store_all(attributes)),
{
}

/// Every features element is read: where the first element is a prefixed
/// `features`, the text imports as the stanza that minidom reads from the
/// text with the stream prefix declared, or as malformed where it cannot.
pub proof fn law_import_reads_every_features(
    content: Seq<char>,
    first: ReadEventView,
    name: XmlNameView,
    attributes: Seq<XmlAttributeView>,
)
    requires
        xml_leading_events(read_bytes(content)) == (
            Ok::<ReadEventView, ()>(first),
            Ok::<ReadEventView, ()>(ReadEventView::StartElement { name, attributes }),
        ),
        name.prefix is Some,
        name.local_name == "features"@,
    ensures
        import_outcome(content) == match dom_parsed(
            replace_all(
                content,
                "<stream:features>"@,
                "<stream:features xmlns:stream='http://etherx.jabber.org/streams'>"@,
            ),
        ) {
            Some(v) => ImportOutcome::Stanza(v),
            None => ImportOutcome::Malformed,
        },
{
    reveal_strlit("features");
    reveal_strlit("stream");
    assert("features"@.len() != "stream"@.len());
    let fixed = replace_all(content, features_tag(), features_tag_declared());
    assert(vstd::utf8::encode_utf8(fixed) == read_bytes(content));
}

/// The stream header lists its attributes in order: with none it is
/// `<?xml version='1.0'?><stream:stream >`; with one, `key='value'` stands
/// between that opening and `>`; and each further attribute adds a space and
/// its `key='value'` just before the closing `>`.
pub proof fn law_header_text_lists_attributes(s: Seq<AttrView>, a: AttrView)
    ensures
        start_text(Seq::empty()) == "<?xml version='1.0'?><stream:stream >"@,
        start_text(seq![a]) == "<?xml version='1.0'?><stream:stream "@ + a.0 + "='"@ + a.1 + "'>"@,
        s.len() > 0 ==> start_text(s.push(a)) == start_text(s).drop_last() + " "@ + a.0 + "='"@ + a.1 + "'>"@,
{
    reveal_strlit("<?xml version='1.0'?><stream:stream >");
    reveal_strlit("<?xml version='1.0'?><stream:stream ");
    reveal_strlit(">");
    reveal_strlit("'>");
    reveal_strlit("'");
    reveal_strlit("='");
    reveal_strlit(" ");
    assert(start_text(Seq::empty()) =~= "<?xml version='1.0'?><stream:stream >"@);
    assert(start_text(seq![a]) =~= "<?xml version='1.0'?><stream:stream "@ + a.0 + "='"@ + a.1 + "'>"@);
    if s.len() > 0 {
        assert(s.push(a).drop_last() =~= s);
        assert(start_text(s).drop_last() =~= header_prefix() + attrs_text(s));
        assert(start_text(s.push(a)) =~= start_text(s).drop_last() + " "@ + a.0 + "='"@ + a.1 + "'>"@);
    }
}

/// The first element is one that the importer reads: a prefixed `stream` or
/// `features`, or an unprefixed `iq`.
pub open spec fn supported_root(ev: ReadEventView) -> bool {
    match ev {
        ReadEventView::StartElement { name, attributes } => (name.prefix is Some && (name.local_name == "stream"@
            || name.local_name == "features"@)) || (name.prefix is None && name.local_name == "iq"@),
        _ => false,
    }
}

/// The importer takes nothing else: a text that xml-rs cannot read up to
/// its first element is malformed, and a first element that is neither a
/// prefixed `stream` or `features` nor an unprefixed `iq` (or no element at
/// all) is unsupported.
pub proof fn law_import_refuses_the_rest(content: Seq<char>)
    ensures
        (xml_leading_events(read_bytes(content)).0 is Err || xml_leading_events(read_bytes(content)).1 is Err)
            ==> import_outcome(content) == ImportOutcome::Malformed,
        (xml_leading_events(read_bytes(content)).0 is Ok && xml_leading_events(read_bytes(content)).1 is Ok
            && !supported_root(xml_leading_events(read_bytes(content)).1->Ok_0))
            ==> import_outcome(content) == ImportOutcome::Unsupported,
{
    let fixed = replace_all(content, features_tag(), features_tag_declared());
    assert(vstd::utf8::encode_utf8(fixed) == read_bytes(content));
}

} // verus!

use xmpp::attrs::Attributes;
use xmpp::dom::XmlElement;
use xmpp::packet::{Packet, PacketError, PacketExporter, PacketImporter};
use xmpp::xml_events::{XmlAttribute, XmlName};

fn attrs(pairs: &[(&str, &str)]) -> Attributes {
    let mut a = Attributes::new();
    for (k, v) in pairs {
        a.insert(k.to_string(), v.to_string());
    }
    a
}

fn plain_name(local: &str) -> XmlName {
    XmlName { local_name: local.to_string(), namespace: None, prefix: None }
}

#[test]
fn attributes_insert_replaces_in_place() {
    let mut a = attrs(&[("from", "a"), ("to", "b")]);
    a.insert("from".to_string(), "c".to_string());
    assert_eq!(a.len(), 2);
    assert_eq!(a.key_at(0), "from");
    assert_eq!(a.value_at(0), "c");
    assert_eq!(a.get(&"from".to_string()).map(|s| s.as_str()), Some("c"));
    assert_eq!(a.get(&"to".to_string()).map(|s| s.as_str()), Some("b"));
    assert_eq!(a.get(&"version".to_string()), None);
    assert!(!a.is_empty());
    assert!(Attributes::new().is_empty());
}

#[test]
fn export_end_packet() {
    assert_eq!(PacketExporter::export(Packet::End).unwrap(), "</stream:stream>");
}

#[test]
fn export_start_packet_without_attributes() {
    assert_eq!(
        PacketExporter::export(Packet::Start(Attributes::new())).unwrap(),
        "<?xml version='1.0'?><stream:stream >"
    );
}

#[test]
fn export_start_packet_with_attributes() {
    let a = attrs(&[("to", "example.com"), ("version", "1.0")]);
    assert_eq!(
        PacketExporter::export(Packet::Start(a)).unwrap(),
        "<?xml version='1.0'?><stream:stream to='example.com' version='1.0'>"
    );
}

#[test]
fn create_start_packet_refuses_other_packets() {
    assert_eq!(PacketExporter::create_start_packet(Packet::End).unwrap_err(), PacketError::InvalidPacketType);
    let e = XmlElement::bare("a", "b").to_dom();
    assert_eq!(PacketExporter::create_start_packet(Packet::Stanza(e)).unwrap_err(), PacketError::InvalidPacketType);
}

#[test]
fn export_stanza() {
    let e = XmlElement::bare("starttls", "urn:ietf:params:xml:ns:xmpp-tls").to_dom();
    assert_eq!(
        PacketExporter::export(Packet::Stanza(e)).unwrap(),
        "<starttls xmlns='urn:ietf:params:xml:ns:xmpp-tls'/>"
    );
}

#[test]
fn convert_attributes_later_replaces_earlier() {
    let list = vec![
        XmlAttribute { name: plain_name("id"), value: "1".to_string() },
        XmlAttribute {
            name: XmlName {
                local_name: "lang".to_string(),
                namespace: Some("http://www.w3.org/XML/1998/namespace".to_string()),
                prefix: Some("xml".to_string()),
            },
            value: "en".to_string(),
        },
        XmlAttribute { name: plain_name("id"), value: "2".to_string() },
    ];
    let a = PacketImporter::convert_attributes(list);
    assert_eq!(a.len(), 2);
    assert_eq!(a.key_at(0), "id");
    assert_eq!(a.value_at(0), "2");
    assert_eq!(a.key_at(1), "{http://www.w3.org/XML/1998/namespace}xml:lang");
    assert_eq!(a.value_at(1), "en");
}

#[test]
fn xml_name_text() {
    assert_eq!(plain_name("from").to_text(), "from");
    let n = XmlName { local_name: "stream".to_string(), namespace: None, prefix: Some("stream".to_string()) };
    assert_eq!(n.to_text(), "stream:stream");
}

#[test]
fn import_stream_header() {
    let text = "<?xml version='1.0'?><stream:stream xmlns='jabber:client' xmlns:stream='http://etherx.jabber.org/streams' id='abc' from='example.com' version='1.0'>";
    match PacketImporter::import(text.to_string()) {
        Ok(Packet::Start(a)) => {
            assert_eq!(a.len(), 3);
            assert_eq!(a.get(&"id".to_string()).unwrap(), "abc");
            assert_eq!(a.get(&"from".to_string()).unwrap(), "example.com");
            assert_eq!(a.get(&"version".to_string()).unwrap(), "1.0");
        }
        other => panic!("unexpected {:?}", other),
    }
}

#[test]
fn import_features_with_undeclared_prefix() {
    let text = "<stream:features><starttls xmlns='urn:ietf:params:xml:ns:xmpp-tls'><required/></starttls></stream:features>";
    assert!(matches!(PacketImporter::import(text.to_string()), Ok(Packet::Stanza(_))));
}

#[test]
fn import_iq_stanza() {
    let text = "<iq type='get' id='1' from='example.com'><query xmlns='jabber:iq:version'/></iq>";
    match PacketImporter::import(text.to_string()) {
        Ok(Packet::Stanza(e)) => {
            assert_eq!(e.name(), "iq");
            assert_eq!(e.ns(), "jabber:client");
        }
        other => panic!("unexpected {:?}", other),
    }
}

#[test]
fn import_unsupported_stanzas() {
    for text in [
        "<presence from='a@b'/>",
        "<message to='a@b'><body>hi</body></message>",
        "<foo/>",
        "<stream:error xmlns:stream='http://etherx.jabber.org/streams'/>",
    ] {
        assert_eq!(PacketImporter::try_import(text.to_string()).unwrap_err(), PacketError::UnsupportedStanza, "{}", text);
    }
}

#[test]
fn import_malformed_text() {
    for text in ["", "<iq", "<unknown:thing/>"] {
        assert_eq!(PacketImporter::try_import(text.to_string()).unwrap_err(), PacketError::MalformedXml, "{}", text);
    }
}

#[test]
fn import_features_keeps_the_tree() {
    let text = "<stream:features><starttls xmlns='urn:ietf:params:xml:ns:xmpp-tls'><required/></starttls></stream:features>";
    match PacketImporter::import(text.to_string()) {
        Ok(Packet::Stanza(e)) => {
            assert_eq!(e.name(), "features");
            assert_eq!(e.ns(), "http://etherx.jabber.org/streams");
            assert!(e.has_child("starttls", "urn:ietf:params:xml:ns:xmpp-tls"));
        }
        other => panic!("unexpected {:?}", other),
    }
}

#[test]
fn try_import_agrees_with_import_on_supported_text() {
    let text = "<iq type='result' id='b1'/>";
    match PacketImporter::try_import(text.to_string()) {
        Ok(Packet::Stanza(e)) => {
            assert_eq!(e.name(), "iq");
            assert_eq!(e.attr("id"), Some("b1"));
        }
        other => panic!("unexpected {:?}", other),
    }
}

#[test]
fn try_export_writes_like_export() {
    let e = XmlElement::bare("presence", "jabber:client").to_dom();
    assert_eq!(PacketExporter::try_export(Packet::Stanza(e)).unwrap(), "<presence xmlns='jabber:client'/>");
    assert_eq!(PacketExporter::try_export(Packet::End).unwrap(), "</stream:stream>");
}

#[test]
fn try_export_reports_an_unwritable_name() {
    let e = XmlElement::bare("not a name", "jabber:client").to_dom();
    assert_eq!(PacketExporter::try_export(Packet::Stanza(e)).unwrap_err(), PacketError::MalformedXml);
}

#[test]
fn create_stanza_writes_children_and_attributes() {
    let mut e = XmlElement::bare("auth", "urn:ietf:params:xml:ns:xmpp-sasl");
    e.attributes.insert("mechanism".to_string(), "PLAIN".to_string());
    e.children.push(xmpp::dom::XmlNode::Text("AGEAYg==".to_string()));
    assert_eq!(
        PacketExporter::create_stanza(e.to_dom()).unwrap(),
        "<auth xmlns='urn:ietf:params:xml:ns:xmpp-sasl' mechanism=\"PLAIN\">AGEAYg==</auth>"
    );
}

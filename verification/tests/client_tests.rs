use xmpp::client::{Client, ConnectStep, XMPPEvent};
use xmpp::dom::XmlNode;
use xmpp::packet::{Packet, PacketError, PacketExporter};
use xmpp::sasl_auth::plain_auth_text;
use xmpp::user::User;
use xmpp::xmpp_stream::XMPPStream;

fn example_client() -> Client {
    Client::new(User::new("example@127.0.0.1", "example"))
}

fn stanza_text(step: &ConnectStep) -> String {
    match step {
        ConnectStep::SendStanza(e) => PacketExporter::export(Packet::Stanza(e.to_dom())).unwrap(),
        other => panic!("{:?}", other),
    }
}

#[test]
fn plain_payload_of_example_user() {
    assert_eq!(plain_auth_text("example", "example"), "AGV4YW1wbGUAZXhhbXBsZQ==");
    assert_eq!(plain_auth_text("", ""), "AAA=");
    assert_eq!(plain_auth_text("a", "b"), "AGEAYg==");
}

#[test]
fn connect_steps_in_order() {
    let client = example_client();
    let steps = client.connect_steps();
    assert_eq!(steps.len(), 9);
    assert!(matches!(steps[0], ConnectStep::StartStream));
    assert!(matches!(steps[1], ConnectStep::Read));
    assert_eq!(
        stanza_text(&steps[2]),
        "<auth xmlns='urn:ietf:params:xml:ns:xmpp-sasl' mechanism=\"PLAIN\">AGV4YW1wbGUAZXhhbXBsZQ==</auth>"
    );
    assert!(matches!(steps[3], ConnectStep::Read));
    assert!(matches!(steps[4], ConnectStep::StartStream));
    assert!(matches!(steps[6], ConnectStep::Read));
    assert!(matches!(steps[8], ConnectStep::Read));
}

#[test]
fn resource_bind_request() {
    let client = example_client();
    let bind = client.generate_resource_bind();
    assert_eq!(bind.name, "iq");
    assert_eq!(bind.namespace, "jabber:client");
    assert_eq!(bind.attributes.get(&"type".to_string()).unwrap(), "set");
    assert_eq!(bind.attributes.get(&"id".to_string()).unwrap(), "123");
    match &bind.children[0] {
        XmlNode::Element(b) => {
            assert_eq!(b.name, "bind");
            assert_eq!(b.namespace, "urn:ietf:params:xml:ns:xmpp-bind");
        }
        other => panic!("{:?}", other),
    }
    let text = PacketExporter::export(Packet::Stanza(bind.to_dom())).unwrap();
    assert!(text.starts_with("<iq xmlns='jabber:client'"));
    assert!(text.contains("<bind xmlns='urn:ietf:params:xml:ns:xmpp-bind'><resource xmlns=''>Kug</resource></bind>")
        || text.contains("<bind xmlns='urn:ietf:params:xml:ns:xmpp-bind'><resource>Kug</resource></bind>"), "{}", text);
}

#[test]
fn initial_presence() {
    let client = example_client();
    let presence = client.initial_presence();
    assert_eq!(presence.name, "presence");
    assert_eq!(presence.children.len(), 1);
    let text = PacketExporter::export(Packet::Stanza(presence.to_dom())).unwrap();
    assert!(text.starts_with("<presence xmlns='jabber:client'>"), "{}", text);
}

#[test]
fn server_address_uses_client_port() {
    assert_eq!(Client::server_address("127.0.0.1"), "127.0.0.1:5222");
}

#[test]
fn disconnect_drops_stream_and_ends_it() {
    let mut client = example_client();
    let stream = XMPPStream::new("127.0.0.1:5222".to_string(), User::new("example@127.0.0.1", "example"));
    client.attach(stream);
    assert!(client.stream.is_some());
    assert!(matches!(client.disconnect(), Packet::End));
    assert!(client.stream.is_none());
}

#[test]
fn events_hold_the_read_packet() {
    let mut client = example_client();
    client.attach(XMPPStream::new("127.0.0.1:5222".to_string(), User::new("example@127.0.0.1", "example")));
    let events = client
        .events("<iq type='get' id='v1' from='127.0.0.1'><query xmlns='jabber:iq:version'/></iq>".to_string())
        .unwrap();
    assert_eq!(events.len(), 1);
    assert!(matches!(&events[0], XMPPEvent::Test(Packet::Stanza(_))));
    assert_eq!(client.try_events("<message/>".to_string()).unwrap_err(), PacketError::UnsupportedStanza);
}

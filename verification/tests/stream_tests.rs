use xmpp::packet::{Packet, PacketError, PacketExporter};
use xmpp::user::User;
use xmpp::xmpp_stream::{StreamAction, StreamEvent, StreamFailure, StreamPhase, XMPPStream};

const HEADER_FROM_DOMAIN: &str = "<?xml version='1.0'?><stream:stream xmlns='jabber:client' xmlns:stream='http://etherx.jabber.org/streams' id='s1' from='example.com' version='1.0'>";
const HEADER_FROM_OTHER: &str = "<?xml version='1.0'?><stream:stream xmlns='jabber:client' xmlns:stream='http://etherx.jabber.org/streams' id='s1' from='evil.org' version='1.0'>";
const HEADER_WITHOUT_FROM: &str = "<?xml version='1.0'?><stream:stream xmlns='jabber:client' xmlns:stream='http://etherx.jabber.org/streams' id='s1' version='1.0'>";
const FEATURES_TLS: &str = "<stream:features><starttls xmlns='urn:ietf:params:xml:ns:xmpp-tls'><required/></starttls></stream:features>";
const FEATURES_NO_TLS: &str = "<stream:features><mechanisms xmlns='urn:ietf:params:xml:ns:xmpp-sasl'><mechanism>PLAIN</mechanism></mechanisms></stream:features>";
const PROCEED: &str = "<proceed xmlns='urn:ietf:params:xml:ns:xmpp-tls'/>";
const FAILURE: &str = "<failure xmlns='urn:ietf:params:xml:ns:xmpp-tls'/>";

fn new_stream() -> XMPPStream {
    XMPPStream::new("127.0.0.1:5222".to_string(), User::new("example@example.com/home", "secret"))
}

fn received(s: &str) -> StreamEvent {
    StreamEvent::Received(s.to_string())
}

/// Drives the stream to the phase where the server's features are read.
fn up_to_features(s: &mut XMPPStream) {
    s.start_stream(StreamEvent::Begin);
    s.start_stream(StreamEvent::Done);
    s.start_stream(StreamEvent::Done);
    assert!(matches!(s.start_stream(received(HEADER_FROM_DOMAIN)), StreamAction::ReadPlain));
}

#[test]
fn stream_start_header_text() {
    let s = new_stream();
    let text = PacketExporter::export(s.stream_start_packet()).unwrap();
    assert_eq!(
        text,
        "<?xml version='1.0'?><stream:stream from='example@example.com/home' to='example.com' version='1.0' xmlns='jabber:client' xmlns:stream='http://etherx.jabber.org/streams'>"
    );
}

#[test]
fn full_negotiation() {
    let mut s = new_stream();
    match s.start_stream(StreamEvent::Begin) {
        StreamAction::ConnectPlain(addr) => assert_eq!(addr, "127.0.0.1:5222"),
        other => panic!("{:?}", other),
    }
    match s.start_stream(StreamEvent::Done) {
        StreamAction::SendPlain(p @ Packet::Start(_)) => assert!(PacketExporter::export(p).unwrap().contains("to='example.com'")),
        other => panic!("{:?}", other),
    }
    assert!(matches!(s.start_stream(StreamEvent::Done), StreamAction::ReadPlain));
    assert!(matches!(s.start_stream(received(HEADER_FROM_DOMAIN)), StreamAction::ReadPlain));
    assert_eq!(s.header_attrs.get(&"id".to_string()).unwrap(), "s1");
    match s.start_stream(received(FEATURES_TLS)) {
        StreamAction::SendPlain(p @ Packet::Stanza(_)) => {
            assert_eq!(PacketExporter::export(p).unwrap(), "<starttls xmlns='urn:ietf:params:xml:ns:xmpp-tls'/>")
        }
        other => panic!("{:?}", other),
    }
    assert!(s.stream_features.is_some());
    assert!(matches!(s.start_stream(StreamEvent::Done), StreamAction::ReadPlain));
    match s.start_stream(received(PROCEED)) {
        StreamAction::UpgradeTls(domain) => assert_eq!(domain, "example.com"),
        other => panic!("{:?}", other),
    }
    assert!(matches!(s.start_stream(StreamEvent::Done), StreamAction::SendSecure(Packet::Start(_))));
    assert!(s.header_attrs.is_empty());
    assert!(s.stream_features.is_none());
    assert!(matches!(s.start_stream(StreamEvent::Done), StreamAction::ReadSecure));
    assert!(!s.started);
    assert!(matches!(s.start_stream(received(HEADER_FROM_DOMAIN)), StreamAction::Finished));
    assert!(s.started);
    assert_eq!(s.phase, StreamPhase::Started);
}

#[test]
fn header_from_another_domain_fails() {
    let mut s = new_stream();
    s.try_start_stream(StreamEvent::Begin);
    s.try_start_stream(StreamEvent::Done);
    s.try_start_stream(StreamEvent::Done);
    match s.try_start_stream(received(HEADER_FROM_OTHER)) {
        StreamAction::Fail(f) => assert_eq!(f, StreamFailure::InvalidHeader),
        other => panic!("{:?}", other),
    }
    assert!(s.header_attrs.is_empty());
    assert_eq!(s.phase, StreamPhase::AwaitingHeader);
}

#[test]
fn header_without_from_fails() {
    let mut s = new_stream();
    s.try_start_stream(StreamEvent::Begin);
    s.try_start_stream(StreamEvent::Done);
    s.try_start_stream(StreamEvent::Done);
    match s.try_start_stream(received(HEADER_WITHOUT_FROM)) {
        StreamAction::Fail(f) => assert_eq!(f, StreamFailure::MissingFrom),
        other => panic!("{:?}", other),
    }
}

#[test]
fn unreadable_header_fails() {
    let mut s = new_stream();
    s.try_start_stream(StreamEvent::Begin);
    s.try_start_stream(StreamEvent::Done);
    s.try_start_stream(StreamEvent::Done);
    match s.try_start_stream(received("<presence/>")) {
        StreamAction::Fail(f) => assert_eq!(f, StreamFailure::UnreadablePacket(PacketError::UnsupportedStanza)),
        other => panic!("{:?}", other),
    }
}

#[test]
fn features_without_starttls_fail() {
    let mut s = new_stream();
    up_to_features(&mut s);
    match s.try_start_stream(received(FEATURES_NO_TLS)) {
        StreamAction::Fail(f) => assert_eq!(f, StreamFailure::NoStartTls),
        other => panic!("{:?}", other),
    }
}

#[test]
fn header_instead_of_features_fails() {
    let mut s = new_stream();
    up_to_features(&mut s);
    match s.try_start_stream(received(HEADER_FROM_DOMAIN)) {
        StreamAction::Fail(f) => assert_eq!(f, StreamFailure::FeaturesNotStanza),
        other => panic!("{:?}", other),
    }
}

#[test]
fn start_tls_request_is_bare_starttls() {
    let mut s = new_stream();
    up_to_features(&mut s);
    s.start_stream(received(FEATURES_TLS));
    match s.start_tls() {
        Packet::Stanza(e) => {
            assert_eq!(e.name(), "starttls");
            assert_eq!(e.ns(), "urn:ietf:params:xml:ns:xmpp-tls");
            assert_eq!(e.children().count(), 0);
            assert_eq!(e.attrs().count(), 0);
        }
        other => panic!("{:?}", other),
    }
}

#[test]
fn tls_confirmation_on_proceed_gives_domain() {
    let s = new_stream();
    assert_eq!(s.tls_confirmation(PROCEED.to_string()).unwrap(), "example.com");
    assert_eq!(s.tls_confirmation(FAILURE.to_string()).unwrap_err(), StreamFailure::NoProceed);
}

#[test]
fn refused_starttls_fails() {
    let mut s = new_stream();
    up_to_features(&mut s);
    s.try_start_stream(received(FEATURES_TLS));
    s.try_start_stream(StreamEvent::Done);
    match s.try_start_stream(received(FAILURE)) {
        StreamAction::Fail(f) => assert_eq!(f, StreamFailure::NoProceed),
        other => panic!("{:?}", other),
    }
    assert_eq!(s.tls_confirmation("not xml".to_string()).unwrap_err(), StreamFailure::UnreadableConfirmation);
}

#[test]
fn secure_header_from_another_domain_fails() {
    let mut s = new_stream();
    up_to_features(&mut s);
    s.try_start_stream(received(FEATURES_TLS));
    s.try_start_stream(StreamEvent::Done);
    s.try_start_stream(received(PROCEED));
    s.try_start_stream(StreamEvent::Done);
    s.try_start_stream(StreamEvent::Done);
    match s.try_start_stream(received(HEADER_FROM_OTHER)) {
        StreamAction::Fail(f) => assert_eq!(f, StreamFailure::InvalidSecureHeader),
        other => panic!("{:?}", other),
    }
    assert!(!s.started);
}

#[test]
fn unexpected_event_fails_and_changes_nothing() {
    let mut s = new_stream();
    match s.try_start_stream(StreamEvent::Done) {
        StreamAction::Fail(f) => assert_eq!(f, StreamFailure::UnexpectedEvent),
        other => panic!("{:?}", other),
    }
    assert_eq!(s.phase, StreamPhase::Idle);
    match s.try_start_stream(received(HEADER_FROM_DOMAIN)) {
        StreamAction::Fail(f) => assert_eq!(f, StreamFailure::UnexpectedEvent),
        other => panic!("{:?}", other),
    }
}

#[test]
fn is_valid_header_accepts_own_domain_once() {
    let mut s = new_stream();
    let mut other = xmpp::attrs::Attributes::new();
    other.insert("from".to_string(), "evil.org".to_string());
    assert!(!s.is_valid_header(Packet::Start(other)));
    assert!(!s.is_valid_header(Packet::End));
    let mut own = xmpp::attrs::Attributes::new();
    own.insert("from".to_string(), "example.com".to_string());
    assert!(s.is_valid_header(Packet::Start(own)));
    assert_eq!(s.header_attrs.len(), 1);
    // Once a header is kept, any packet passes and the kept one stays.
    assert!(s.is_valid_header(Packet::End));
    assert_eq!(s.header_attrs.get(&"from".to_string()).unwrap(), "example.com");
}

#[test]
fn begin_restarts_the_opening() {
    let mut s = new_stream();
    up_to_features(&mut s);
    assert!(matches!(s.start_stream(StreamEvent::Begin), StreamAction::ConnectPlain(_)));
    assert_eq!(s.phase, StreamPhase::Connected);
}

#[test]
fn accepts_only_what_the_opening_goes_on_with() {
    let mut s = new_stream();
    up_to_features(&mut s);
    assert!(s.accepts(&received(FEATURES_TLS)));
    assert!(!s.accepts(&received(FEATURES_NO_TLS)));
    assert!(!s.accepts(&received(HEADER_FROM_DOMAIN)));
    s.start_stream(received(FEATURES_TLS));
    s.start_stream(StreamEvent::Done);
    assert!(s.accepts(&received(PROCEED)));
    assert!(!s.accepts(&received(FAILURE)));
    assert!(!s.accepts(&received("not xml")));
    assert!(s.accepts(&StreamEvent::Done));
}

#[test]
fn header_acceptance_follows_the_domain() {
    let mut s = new_stream();
    s.start_stream(StreamEvent::Begin);
    s.start_stream(StreamEvent::Done);
    s.start_stream(StreamEvent::Done);
    assert!(s.accepts(&received(HEADER_FROM_DOMAIN)));
    assert!(!s.accepts(&received(HEADER_FROM_OTHER)));
    assert!(!s.accepts(&received(HEADER_WITHOUT_FROM)));
    assert!(!s.accepts(&received(FEATURES_TLS)));
}

//! Opening an XMPP stream: the stream header, the server's features, the
//! switch to TLS and the header again over TLS (RFC 6120, 4 and 5). The
//! decisions are taken here one event at a time; the caller does the network
//! work that each step asks for and reports back.
use vstd::prelude::*;
use minidom::Element;
use crate::attrs::{Attributes, AttrView, keys_unique, lookup, lemma_key_index_unique, lemma_store_new};
use crate::dom::{DomNodeView, DomView, XmlElement, bare_view, dom_has_child, dom_name, dom_parse, dom_parsed, dom_view, dom_writable, has_child_view};
use crate::jid::{jid_parse, jid_text, law_jid_parse_text_roundtrip};
use crate::packet::{ImportOutcome, Packet, PacketError, PacketImporter, import_outcome};
use crate::user::User;

verus! {

/// The namespace of STARTTLS negotiation.
pub open spec fn tls_ns() -> Seq<char> {
    "urn:ietf:params:xml:ns:xmpp-tls"@
}

/// The attributes of the header that opens the client's stream: its JID as
/// `from`, its domain as `to`, version 1.0 and the two namespaces.
pub open spec fn start_attrs(user: User) -> Seq<AttrView> {
    seq![
        ("from"@, jid_text(user.username@)),
        ("to"@, user.username@.domain),
        ("version"@, "1.0"@),
        ("xmlns"@, "jabber:client"@),
        ("xmlns:stream"@, "http://etherx.jabber.org/streams"@),
    ]
}

/// How far the opening of the stream has come.
#[derive(Debug, PartialEq, Eq, Structural)]
pub enum StreamPhase {
    Idle,
    Connected,
    HeaderSent,
    AwaitingHeader,
    AwaitingFeatures,
    StartTlsSent,
    AwaitingProceed,
    Upgrading,
    SecureHeaderSent,
    AwaitingSecureHeader,
    Started,
}

/// What the caller reports after doing what the last step asked.
#[derive(Debug)]
pub enum StreamEvent {
    /// Start (or start again) opening the stream.
    Begin,
    /// The connection was made, the packet sent or the upgrade done.
    Done,
    /// This text was read from the connection.
    Received(String),
}

/// Why opening the stream failed.
#[derive(Debug, PartialEq, Eq, Structural)]
pub enum StreamFailure {
    /// A received text could not be read as a packet.
    UnreadablePacket(PacketError),
    /// The server's header has no `from` attribute.
    MissingFrom,
    /// The server's header is not a header from the user's domain.
    InvalidHeader,
    /// The same, on the stream over TLS.
    InvalidSecureHeader,
    /// The server sent something other than a stanza where its features
    /// were expected.
    FeaturesNotStanza,
    /// The server's features do not offer STARTTLS.
    NoStartTls,
    /// The server's answer to STARTTLS is not XML.
    UnreadableConfirmation,
    /// The server's answer to STARTTLS is not `proceed`.
    NoProceed,
    /// The event does not fit the phase.
    UnexpectedEvent,
}

/// What the caller is to do next.
#[derive(Debug)]
pub enum StreamAction {
    /// Open a TCP connection to this address.
    ConnectPlain(String),
    /// Send this packet over the plain connection.
    SendPlain(Packet),
    /// Read from the plain connection.
    ReadPlain,
    /// Switch the connection to TLS, checking the certificate against this domain.
    UpgradeTls(String),
    /// Send this packet over TLS.
    SendSecure(Packet),
    /// Read from the TLS connection.
    ReadSecure,
    /// The stream is open.
    Finished,
    /// Opening the stream failed.
    Fail(StreamFailure),
}

/// The STARTTLS request element: `starttls` in the TLS namespace, empty.
pub open spec fn starttls_view() -> crate::dom::DomView {
    bare_view("starttls"@, tls_ns())
}

/// The features are known and offer STARTTLS: a `starttls` child in the
/// TLS namespace.
pub open spec fn tls_offered(features: Option<Element>) -> bool {
    features matches Some(f) && has_child_view(dom_view(f), "starttls"@, tls_ns())
}

/// `r` is the verdict on the server's answer to STARTTLS: the domain to
/// switch to TLS for where minidom reads a `proceed` element, `NoProceed`
/// where it reads another element, `UnreadableConfirmation` where it cannot
/// read the text.
pub open spec fn confirmation_is(r: Result<String, StreamFailure>, text: Seq<char>, domain: Seq<char>) -> bool {
    match dom_parsed(text) {
        None => r == Err::<String, StreamFailure>(StreamFailure::UnreadableConfirmation),
        Some(v) => if v.name == "proceed"@ {
            r matches Ok(d) && d@ == domain
        } else {
            r == Err::<String, StreamFailure>(StreamFailure::NoProceed)
        },
    }
}

/// What checking a received header decides.
pub enum HeaderVerdict {
    /// A header was accepted before: anything passes, and nothing changes.
    Keep,
    /// A header from the user's domain: its attributes are kept.
    Adopt(Seq<AttrView>),
    /// The header has no `from` attribute.
    MissingFrom,
    /// Not a header, or one from another domain.
    Invalid,
    /// The text could not be read as a packet.
    Unreadable(PacketError),
}

/// The verdict on a received text, given the header attributes kept so far
/// and the user's domain.
pub open spec fn header_verdict(kept: Seq<AttrView>, outcome: ImportOutcome, domain: Seq<char>) -> HeaderVerdict {
    match outcome {
        ImportOutcome::Malformed => HeaderVerdict::Unreadable(PacketError::MalformedXml),
        ImportOutcome::Unsupported => HeaderVerdict::Unreadable(PacketError::UnsupportedStanza),
        ImportOutcome::Start(a) => if kept.len() > 0 {
            HeaderVerdict::Keep
        } else {
            match lookup(a, "from"@) {
                None => HeaderVerdict::MissingFrom,
                Some(f) => if f == domain { HeaderVerdict::Adopt(a) } else { HeaderVerdict::Invalid },
            }
        },
        ImportOutcome::Stanza(_) => if kept.len() > 0 { HeaderVerdict::Keep } else { HeaderVerdict::Invalid },
    }
}

/// The client's state of an XMPP stream: where it connects, as whom, how far
/// the opening has come, and what the server has told it.
pub struct XMPPStream {
    pub connection: String,
    pub user: User,
    pub started: bool,
    pub header_attrs: Attributes,
    pub stream_features: Option<Element>,
    pub phase: StreamPhase,
}

impl XMPPStream {
    /// Well-formed: the kept header attributes have no name twice.
    pub open spec fn wf(&self) -> bool {
        self.header_attrs.wf()
    }

    /// The same stream, possibly in another phase, with other header
    /// attributes, features and start flag: `connection` and `user` are those
    /// of `self`.
    pub open spec fn same_setup(&self, other: &XMPPStream) -> bool {
        &&& other.connection@ == self.connection@
        &&& other.user.username@ == self.user.username@
        &&& other.user.password@ == self.user.password@
    }

    /// A stream to `connection` for `user`, not yet opened.
    pub fn new(connection: String, user: User) -> (r: XMPPStream)
        ensures
            r.wf(),
            r.connection@ == connection@,
            r.user == user,
            !r.started,
            r.header_attrs@.len() == 0,
            r.stream_features is None,
            r.phase == StreamPhase::Idle,
    {
        XMPPStream {
            connection,
            user,
            started: false,
            header_attrs: Attributes::new(),
            stream_features: None,
            phase: StreamPhase::Idle,
        }
    }

    /// The header that opens the client's stream (see `start_attrs`).
    pub fn stream_start_packet(&self) -> (r: Packet)
        ensures
            r matches Packet::Start(a) && a.wf() && a@ == start_attrs(self.user),
    {
        proof {
            reveal_strlit("from");
            reveal_strlit("to");
            reveal_strlit("version");
            reveal_strlit("xmlns");
            reveal_strlit("xmlns:stream");
        }
        let mut attrs = Attributes::new();
        let ghost s0 = attrs@;
        attrs.insert("from".to_owned(), self.user.username.to_string());
        proof { lemma_store_new(s0, "from"@, jid_text(self.user.username@)); }
        let ghost s1 = attrs@;
        attrs.insert("to".to_owned(), self.user.username.domain());
        proof {
            assert(s1.len() == 1 && s1[0].0 == "from"@);
            assert("from"@.len() != "to"@.len());
            lemma_store_new(s1, "to"@, self.user.username@.domain);
        }
        let ghost s2 = attrs@;
        attrs.insert("version".to_owned(), "1.0".to_owned());
        proof {
            assert(s2.len() == 2 && s2[0].0 == "from"@ && s2[1].0 == "to"@);
            assert("from"@.len() != "version"@.len());
            assert("to"@.len() != "version"@.len());
            lemma_store_new(s2, "version"@, "1.0"@);
        }
        let ghost s3 = attrs@;
        attrs.insert("xmlns".to_owned(), "jabber:client".to_owned());
        proof {
            assert(s3.len() == 3 && s3[0].0 == "from"@ && s3[1].0 == "to"@ && s3[2].0 == "version"@);
            assert("xmlns"@.len() == 5 && "from"@.len() == 4 && "to"@.len() == 2 && "version"@.len() == 7);
            lemma_store_new(s3, "xmlns"@, "jabber:client"@);
        }
        let ghost s4 = attrs@;
        attrs.insert("xmlns:stream".to_owned(), "http://etherx.jabber.org/streams".to_owned());
        proof {
            assert(s4.len() == 4 && s4[0].0 == "from"@ && s4[1].0 == "to"@ && s4[2].0 == "version"@ && s4[3].0 == "xmlns"@);
            assert("xmlns"@.len() == 5 && "from"@.len() == 4 && "to"@.len() == 2 && "version"@.len() == 7);
            assert("xmlns:stream"@.len() == 12);
            lemma_store_new(s4, "xmlns:stream"@, "http://etherx.jabber.org/streams"@);
            assert(attrs@ =~= start_attrs(self.user));
        }
        Packet::Start(attrs)
    }

    /// Checks a received stream header. Once a header has been accepted,
    /// anything passes. Otherwise a header passes where its `from` is the
    /// user's domain, and its attributes are then kept; anything else fails.
    /// The header must have a `from` attribute where it is checked.
    pub fn is_valid_header(&mut self, header: Packet) -> (r: bool)
        requires
            old(self).wf(),
            header matches Packet::Start(a) ==> a.wf(),
            old(self).header_attrs@.len() == 0 && header is Start ==> lookup(header->Start_0@, "from"@) is Some,
        ensures
            final(self).wf(),
            final(self).connection == old(self).connection,
            final(self).user == old(self).user,
            final(self).started == old(self).started,
            final(self).stream_features == old(self).stream_features,
            final(self).phase == old(self).phase,
            old(self).header_attrs@.len() > 0 ==> r && final(self).header_attrs@ == old(self).header_attrs@,
            old(self).header_attrs@.len() == 0 ==> match header {
                Packet::Start(a) => {
                    &&& r == (lookup(a@, "from"@) == Some(old(self).user.username@.domain))
                    &&& final(self).header_attrs@ == if r { a@ } else { old(self).header_attrs@ }
                },
                _ => !r && final(self).header_attrs@ == old(self).header_attrs@,
            },
    {
        if !self.header_attrs.is_empty() {
            return true;
        }
        match header {
            Packet::Start(attrs) => {
                let from = attrs.get(&"from".to_owned()).unwrap();
                if *from != self.user.username.domain() {
                    return false;
                }
                self.header_attrs = attrs;
                true
            },
            _ => false,
        }
    }

    /// Checks a received text as the server's stream header (see
    /// `header_verdict`); `Ok` where it passes.
    fn check_header(&mut self, received: String) -> (r: Result<(), StreamFailure>)
        requires
            old(self).wf(),
        ensures
            final(self).wf(),
            final(self).connection == old(self).connection,
            final(self).user == old(self).user,
            final(self).started == old(self).started,
            final(self).stream_features == old(self).stream_features,
            final(self).phase == old(self).phase,
            match header_verdict(old(self).header_attrs@, import_outcome(received@), old(self).user.username@.domain) {
                HeaderVerdict::Keep => r is Ok && final(self).header_attrs@ == old(self).header_attrs@,
                HeaderVerdict::Adopt(a) => r is Ok && final(self).header_attrs@ == a,
                HeaderVerdict::MissingFrom => r == Err::<(), StreamFailure>(StreamFailure::MissingFrom) && final(self).header_attrs@ == old(self).header_attrs@,
                HeaderVerdict::Invalid => r == Err::<(), StreamFailure>(StreamFailure::InvalidHeader) && final(self).header_attrs@ == old(self).header_attrs@,
                HeaderVerdict::Unreadable(e) => r == Err::<(), StreamFailure>(StreamFailure::UnreadablePacket(e)) && final(self).header_attrs@ == old(self).header_attrs@,
            },
    {
        match PacketImporter::try_import(received) {
            Err(e) => Err(StreamFailure::UnreadablePacket(e)),
            Ok(header) => {
                if self.header_attrs.is_empty() {
                    if let Packet::Start(a) = &header {
                        if a.get(&"from".to_owned()).is_none() {
                            return Err(StreamFailure::MissingFrom);
                        }
                    }
                }
                if self.is_valid_header(header) {
                    Ok(())
                } else {
                    Err(StreamFailure::InvalidHeader)
                }
            },
        }
    }

    /// The STARTTLS request: a bare `starttls` element in the TLS namespace.
    /// The server's features must offer STARTTLS (see `tls_offered`).
    pub fn start_tls(&self) -> (r: Packet)
        requires
            tls_offered(self.stream_features),
        ensures
            r matches Packet::Stanza(e) && dom_view(e) == starttls_view() && dom_writable(dom_view(e)),
    {
        let request = XmlElement::bare("starttls", "urn:ietf:params:xml:ns:xmpp-tls");
        let e = request.to_dom();
        proof {
            reveal_strlit("starttls");
            assert(dom_view(e).children =~= Seq::empty());
            assert(dom_view(e) =~= starttls_view());
        }
        Packet::Stanza(e)
    }

    /// Reads the server's answer to STARTTLS (see `confirmation_is`): a
    /// `proceed` element lets the connection switch to TLS for the user's
    /// domain; any other element refuses, and text that minidom cannot read
    /// is unreadable.
    pub fn tls_confirmation(&self, received: String) -> (r: Result<String, StreamFailure>)
        ensures
            confirmation_is(r, received@, self.user.username@.domain),
    {
        match dom_parse(received.as_str()) {
            Ok(confirmation) => {
                if dom_name(&confirmation) == "proceed".to_owned() {
                    Ok(self.user.username.domain())
                } else {
                    Err(StreamFailure::NoProceed)
                }
            },
            Err(_) => Err(StreamFailure::UnreadableConfirmation),
        }
    }

    /// One step of opening the stream (see `start_stream_spec`): takes what
    /// the caller reports and says what it is to do next. A text received
    /// from the server must be one that the opening goes on with (see
    /// `step_accepts`); the step then fails only on an event that does not
    /// fit the phase.
    pub fn start_stream(&mut self, event: StreamEvent) -> (action: StreamAction)
        requires
            old(self).wf(),
            step_accepts(*old(self), event),
        ensures
            final(self).wf(),
            old(self).same_setup(&*final(self)),
            start_stream_spec(*old(self), *final(self), event, action),
            action matches StreamAction::Fail(f) ==> f == StreamFailure::UnexpectedEvent,
    {
        self.step(event)
    }

    /// Like `start_stream`, for any event: where the server's text is not
    /// one that the opening goes on with, the step fails and says why (see
    /// `start_stream_spec`).
    pub fn try_start_stream(&mut self, event: StreamEvent) -> (action: StreamAction)
        requires
            old(self).wf(),
        ensures
            final(self).wf(),
            old(self).same_setup(&*final(self)),
            start_stream_spec(*old(self), *final(self), event, action),
    {
        if self.accepts(&event) {
            self.start_stream(event)
        } else {
            self.step(event)
        }
    }

    /// Whether the opening of the stream goes on with this event (see
    /// `step_accepts`).
    pub fn accepts(&self, event: &StreamEvent) -> (r: bool)
        requires
            self.wf(),
        ensures
            r == step_accepts(*self, *event),
    {
        match event {
            StreamEvent::Received(text) => match self.phase {
                StreamPhase::AwaitingHeader | StreamPhase::AwaitingSecureHeader => {
                    match PacketImporter::try_import(text.clone()) {
                        Ok(Packet::Start(a)) => {
                            if !self.header_attrs.is_empty() {
                                true
                            } else {
                                match a.get(&"from".to_owned()) {
                                    Some(f) => *f == self.user.username.domain(),
                                    None => false,
                                }
                            }
                        },
                        Ok(_) => !self.header_attrs.is_empty(),
                        Err(_) => false,
                    }
                },
                StreamPhase::AwaitingFeatures => match PacketImporter::try_import(text.clone()) {
                    Ok(Packet::Stanza(features)) => dom_has_child(
                        &features,
                        "starttls",
                        "urn:ietf:params:xml:ns:xmpp-tls",
                    ),
                    _ => false,
                },
                StreamPhase::AwaitingProceed => match dom_parse(text.as_str()) {
                    Ok(confirmation) => dom_name(&confirmation) == "proceed".to_owned(),
                    Err(_) => false,
                },
                _ => true,
            },
            _ => true,
        }
    }

    /// What a step does with any event (see `start_stream_spec`).
    fn step(&mut self, event: StreamEvent) -> (action: StreamAction)
        requires
            old(self).wf(),
        ensures
            final(self).wf(),
            old(self).same_setup(&*final(self)),
            start_stream_spec(*old(self), *final(self), event, action),
    {
        match event {
            StreamEvent::Begin => {
                self.phase = StreamPhase::Connected;
                StreamAction::ConnectPlain(self.connection.clone())
            },
            StreamEvent::Done => {
                match self.phase {
                    StreamPhase::Connected => {
                        self.phase = StreamPhase::HeaderSent;
                        StreamAction::SendPlain(self.stream_start_packet())
                    },
                    StreamPhase::HeaderSent => {
                        self.phase = StreamPhase::AwaitingHeader;
                        StreamAction::ReadPlain
                    },
                    StreamPhase::StartTlsSent => {
                        self.phase = StreamPhase::AwaitingProceed;
                        StreamAction::ReadPlain
                    },
                    StreamPhase::Upgrading => {
                        self.header_attrs = Attributes::new();
                        self.stream_features = None;
                        self.phase = StreamPhase::SecureHeaderSent;
                        StreamAction::SendSecure(self.stream_start_packet())
                    },
                    StreamPhase::SecureHeaderSent => {
                        self.phase = StreamPhase::AwaitingSecureHeader;
                        StreamAction::ReadSecure
                    },
                    _ => StreamAction::Fail(StreamFailure::UnexpectedEvent),
                }
            },
            StreamEvent::Received(text) => {
                match self.phase {
                    StreamPhase::AwaitingHeader => {
                        match self.check_header(text) {
                            Ok(()) => {
                                self.phase = StreamPhase::AwaitingFeatures;
                                StreamAction::ReadPlain
                            },
                            Err(f) => StreamAction::Fail(f),
                        }
                    },
                    StreamPhase::AwaitingFeatures => {
                        match PacketImporter::try_import(text) {
                            Ok(Packet::Stanza(features)) => {
                                let offered = dom_has_child(&features, "starttls", "urn:ietf:params:xml:ns:xmpp-tls");
                                self.stream_features = Some(features);
                                if offered {
                                    let request = self.start_tls();
                                    self.phase = StreamPhase::StartTlsSent;
                                    StreamAction::SendPlain(request)
                                } else {
                                    StreamAction::Fail(StreamFailure::NoStartTls)
                                }
                            },
                            Ok(_) => StreamAction::Fail(StreamFailure::FeaturesNotStanza),
                            Err(e) => StreamAction::Fail(StreamFailure::UnreadablePacket(e)),
                        }
                    },
                    StreamPhase::AwaitingProceed => {
                        match self.tls_confirmation(text) {
                            Ok(domain) => {
                                self.phase = StreamPhase::Upgrading;
                                StreamAction::UpgradeTls(domain)
                            },
                            Err(f) => StreamAction::Fail(f),
                        }
                    },
                    StreamPhase::AwaitingSecureHeader => {
                        match self.check_header(text) {
                            Ok(()) => {
                                self.started = true;
                                self.phase = StreamPhase::Started;
                                StreamAction::Finished
                            },
                            Err(StreamFailure::InvalidHeader) => StreamAction::Fail(StreamFailure::InvalidSecureHeader),
                            Err(f) => StreamAction::Fail(f),
                        }
                    },
                    _ => StreamAction::Fail(StreamFailure::UnexpectedEvent),
                }
            },
        }
    }
}

/// The action and new state after a checked header: on a pass, `on_pass`
/// with the new phase; on a failure, that failure (an invalid header reported
/// as `invalid`) with the state unchanged.
pub open spec fn header_step(
    old: XMPPStream,
    new: XMPPStream,
    text: Seq<char>,
    action: StreamAction,
    pass_action: StreamAction,
    pass_phase: StreamPhase,
    pass_started: bool,
    invalid: StreamFailure,
) -> bool {
    let unchanged = new.header_attrs@ == old.header_attrs@ && new.phase == old.phase && new.started == old.started
        && new.stream_features == old.stream_features;
    let passed = new.phase == pass_phase && new.started == pass_started && new.stream_features == old.stream_features
        && action == pass_action;
    match header_verdict(old.header_attrs@, import_outcome(text), old.user.username@.domain) {
        HeaderVerdict::Keep => passed && new.header_attrs@ == old.header_attrs@,
        HeaderVerdict::Adopt(a) => passed && new.header_attrs@ == a,
        HeaderVerdict::MissingFrom => unchanged && action == StreamAction::Fail(StreamFailure::MissingFrom),
        HeaderVerdict::Invalid => unchanged && action == StreamAction::Fail(invalid),
        HeaderVerdict::Unreadable(e) => unchanged && action == StreamAction::Fail(StreamFailure::UnreadablePacket(e)),
    }
}

/// One step of opening the stream. `Begin` (in any phase) connects to the
/// server. Then the header is sent and the server's header read and checked,
/// then its features read: a stanza that offers STARTTLS is answered with the
/// request, whose `proceed` answer switches the connection to TLS for the
/// user's domain. Over TLS the kept header and features are dropped, the
/// header is sent again, and the server's new header read and checked; the
/// stream is then started. An event that does not fit the phase fails and
/// changes nothing.
pub open spec fn start_stream_spec(old: XMPPStream, new: XMPPStream, event: StreamEvent, action: StreamAction) -> bool {
    let unchanged = new.header_attrs@ == old.header_attrs@ && new.phase == old.phase && new.started == old.started
        && new.stream_features == old.stream_features;
    let moved = |p: StreamPhase| new.header_attrs@ == old.header_attrs@ && new.phase == p && new.started == old.started
        && new.stream_features == old.stream_features;
    match event {
        StreamEvent::Begin => moved(StreamPhase::Connected) && action == StreamAction::ConnectPlain(old.connection),
        StreamEvent::Done => match old.phase {
            StreamPhase::Connected => moved(StreamPhase::HeaderSent)
                && (action matches StreamAction::SendPlain(Packet::Start(a)) && a@ == start_attrs(old.user)),
            StreamPhase::HeaderSent => moved(StreamPhase::AwaitingHeader) && action == StreamAction::ReadPlain,
            StreamPhase::StartTlsSent => moved(StreamPhase::AwaitingProceed) && action == StreamAction::ReadPlain,
            StreamPhase::Upgrading => {
                &&& new.header_attrs@.len() == 0
                &&& new.stream_features is None
                &&& new.phase == StreamPhase::SecureHeaderSent
                &&& new.started == old.started
                &&& action matches StreamAction::SendSecure(Packet::Start(a)) && a@ == start_attrs(old.user)
            },
            StreamPhase::SecureHeaderSent => moved(StreamPhase::AwaitingSecureHeader) && action == StreamAction::ReadSecure,
            _ => unchanged && action == StreamAction::Fail(StreamFailure::UnexpectedEvent),
        },
        StreamEvent::Received(text) => match old.phase {
            StreamPhase::AwaitingHeader => header_step(
                old, new, text@, action, StreamAction::ReadPlain, StreamPhase::AwaitingFeatures, old.started,
                StreamFailure::InvalidHeader,
            ),
            StreamPhase::AwaitingFeatures => match import_outcome(text@) {
                ImportOutcome::Stanza(v) => {
                    &&& new.header_attrs@ == old.header_attrs@
                    &&& new.started == old.started
                    &&& (new.stream_features matches Some(f) && dom_view(f) == v)
                    &&& if has_child_view(v, "starttls"@, tls_ns()) {
                        &&& new.phase == StreamPhase::StartTlsSent
                        &&& action matches StreamAction::SendPlain(Packet::Stanza(e)) && dom_view(e) == starttls_view()
                    } else {
                        new.phase == old.phase && action == StreamAction::Fail(StreamFailure::NoStartTls)
                    }
                },
                ImportOutcome::Start(_) => unchanged && action == StreamAction::Fail(StreamFailure::FeaturesNotStanza),
                ImportOutcome::Malformed => unchanged
                    && action == StreamAction::Fail(StreamFailure::UnreadablePacket(PacketError::MalformedXml)),
                ImportOutcome::Unsupported => unchanged
                    && action == StreamAction::Fail(StreamFailure::UnreadablePacket(PacketError::UnsupportedStanza)),
            },
            StreamPhase::AwaitingProceed => match dom_parsed(text@) {
                None => unchanged && action == StreamAction::Fail(StreamFailure::UnreadableConfirmation),
                Some(v) => if v.name == "proceed"@ {
                    moved(StreamPhase::Upgrading)
                        && (action matches StreamAction::UpgradeTls(d) && d@ == old.user.username@.domain)
                } else {
                    unchanged && action == StreamAction::Fail(StreamFailure::NoProceed)
                },
            },
            StreamPhase::AwaitingSecureHeader => header_step(
                old, new, text@, action, StreamAction::Finished, StreamPhase::Started, true,
                StreamFailure::InvalidSecureHeader,
            ),
            _ => unchanged && action == StreamAction::Fail(StreamFailure::UnexpectedEvent),
        },
    }
}

/// The event is one that the opening of the stream goes on with. Where the
/// phase waits for the server, its text must be a header from the user's
/// domain (any packet, once a header is kept), features that offer STARTTLS,
/// or minidom's reading of a `proceed` element. Any other event is taken as
/// it comes.
pub open spec fn step_accepts(s: XMPPStream, event: StreamEvent) -> bool {
    match event {
        StreamEvent::Received(text) => match s.phase {
            StreamPhase::AwaitingHeader | StreamPhase::AwaitingSecureHeader => {
                let v = header_verdict(s.header_attrs@, import_outcome(text@), s.user.username@.domain);
                v is Keep || v is Adopt
            },
            StreamPhase::AwaitingFeatures => import_outcome(text@) matches ImportOutcome::Stanza(v)
                && has_child_view(v, "starttls"@, tls_ns()),
            StreamPhase::AwaitingProceed => dom_parsed(text@) matches Some(v) && v.name == "proceed"@,
            _ => true,
        },
        _ => true,
    }
}

/// The position of a phase in the opening of the stream.
pub open spec fn phase_rank(p: StreamPhase) -> int {
    match p {
        StreamPhase::Idle => 0,
        StreamPhase::Connected => 1,
        StreamPhase::HeaderSent => 2,
        StreamPhase::AwaitingHeader => 3,
        StreamPhase::AwaitingFeatures => 4,
        StreamPhase::StartTlsSent => 5,
        StreamPhase::AwaitingProceed => 6,
        StreamPhase::Upgrading => 7,
        StreamPhase::SecureHeaderSent => 8,
        StreamPhase::AwaitingSecureHeader => 9,
        StreamPhase::Started => 10,
    }
}

/// Every kept header attribute set names the user's domain as `from`.
pub open spec fn kept_header_from_domain(s: XMPPStream) -> bool {
    s.header_attrs@.len() > 0 ==> lookup(s.header_attrs@, "from"@) == Some(s.user.username@.domain)
}

/// The client only ever keeps a server header that comes from the user's
/// domain: each step of opening the stream keeps this true.
pub proof fn law_kept_header_from_domain(old: XMPPStream, new: XMPPStream, event: StreamEvent, action: StreamAction)
    requires
        kept_header_from_domain(old),
        old.same_setup(&new),
        start_stream_spec(old, new, event, action),
    ensures
        kept_header_from_domain(new),
{
}

/// The opening of the stream goes through its phases in order: a step stays
/// in its phase, moves to the next one, or (on `Begin`) starts over.
pub proof fn law_phases_in_order(old: XMPPStream, new: XMPPStream, event: StreamEvent, action: StreamAction)
    requires
        start_stream_spec(old, new, event, action),
    ensures
        new.phase == old.phase
            || phase_rank(new.phase) == phase_rank(old.phase) + 1
            || (event is Begin && new.phase == StreamPhase::Connected),
{
}

/// A stream becomes started only by accepting the server's header over TLS,
/// and the step that does so says the opening is finished.
pub proof fn law_started_after_secure_header(old: XMPPStream, new: XMPPStream, event: StreamEvent, action: StreamAction)
    requires
        start_stream_spec(old, new, event, action),
        !old.started,
        new.started,
    ensures
        old.phase == StreamPhase::AwaitingSecureHeader,
        new.phase == StreamPhase::Started,
        action is Finished,
{
}

/// Once the connection is switched to TLS, everything learned on the plain
/// stream is discarded (RFC 6120, 5.4.3.3): the kept header and features are
/// dropped and the stream header is sent again, over TLS.
pub proof fn law_upgrade_discards_plain_stream(old: XMPPStream, new: XMPPStream, action: StreamAction)
    requires
        old.phase == StreamPhase::Upgrading,
        start_stream_spec(old, new, StreamEvent::Done, action),
    ensures
        new.header_attrs@.len() == 0,
        new.stream_features is None,
        action matches StreamAction::SendSecure(Packet::Start(a)) && a@ == start_attrs(old.user),
{
}

/// STARTTLS is asked for only on features that offer it: a step that sends
/// a stanza over the plain connection read the server's features, which
/// offer STARTTLS and are kept, and the stanza is the bare request.
pub proof fn law_starttls_only_when_offered(old: XMPPStream, new: XMPPStream, event: StreamEvent, action: StreamAction)
    requires
        start_stream_spec(old, new, event, action),
        action matches StreamAction::SendPlain(Packet::Stanza(_)),
    ensures
        old.phase == StreamPhase::AwaitingFeatures,
        event matches StreamEvent::Received(t) && (import_outcome(t@) matches ImportOutcome::Stanza(v)
            && has_child_view(v, "starttls"@, tls_ns())),
        tls_offered(new.stream_features),
        action matches StreamAction::SendPlain(Packet::Stanza(e)) && dom_view(e) == starttls_view(),
{
}

/// The connection switches to TLS only after the server's `proceed`: a step
/// that asks for the upgrade read, while waiting for the answer to STARTTLS,
/// a text that minidom reads as a `proceed` element, and the upgrade is for
/// the user's domain.
pub proof fn law_upgrade_only_after_proceed(old: XMPPStream, new: XMPPStream, event: StreamEvent, action: StreamAction)
    requires
        start_stream_spec(old, new, event, action),
        action is UpgradeTls,
    ensures
        old.phase == StreamPhase::AwaitingProceed,
        event matches StreamEvent::Received(t) && (dom_parsed(t@) matches Some(v) && v.name == "proceed"@),
        action matches StreamAction::UpgradeTls(d) && d@ == old.user.username@.domain,
{
}

/// Features that offer STARTTLS are always answered with the request, what
/// else they offer notwithstanding: while waiting for the features, a text
/// that minidom reads as an element with a `starttls` child in the TLS
/// namespace is accepted, kept as the features, and answered with a bare
/// `starttls` element in the TLS namespace, and the stream moves on to wait
/// for the answer.
pub proof fn law_starttls_sent_whenever_offered(
    old: XMPPStream,
    new: XMPPStream,
    text: String,
    v: DomView,
    action: StreamAction,
)
    requires
        old.phase == StreamPhase::AwaitingFeatures,
        import_outcome(text@) == ImportOutcome::Stanza(v),
        exists|i: int|
            0 <= i < v.children.len() && (#[trigger] v.children[i] matches DomNodeView::Element(c)
                && c.name == "starttls"@ && c.namespace == "urn:ietf:params:xml:ns:xmpp-tls"@),
        start_stream_spec(old, new, StreamEvent::Received(text), action),
    ensures
        step_accepts(old, StreamEvent::Received(text)),
        new.phase == StreamPhase::StartTlsSent,
        new.stream_features matches Some(f) && dom_view(f) == v,
        action matches StreamAction::SendPlain(Packet::Stanza(e)) && dom_view(e) == (DomView {
            name: "starttls"@,
            namespace: "urn:ietf:params:xml:ns:xmpp-tls"@,
            prefixes: Map::empty(),
            attributes: Map::empty(),
            children: Seq::empty(),
        }),
{
}

/// The client's stream header names the user: its `from` is the text of the
/// user's JID, which the jid crate parses back into that JID; its `to` is the
/// user's domain; it asks for version 1.0 in `jabber:client` and declares the
/// stream namespace, and it has no other attribute and no name twice.
pub proof fn law_stream_header_names_the_user(user: User, jid: Seq<char>)
    requires
        jid_parse(jid) == Some(user.username@),
    ensures
        lookup(start_attrs(user), "from"@) matches Some(f) && f == jid_text(user.username@)
            && jid_parse(f) == Some(user.username@),
        lookup(start_attrs(user), "to"@) == Some(user.username@.domain),
        lookup(start_attrs(user), "version"@) == Some("1.0"@),
        lookup(start_attrs(user), "xmlns"@) == Some("jabber:client"@),
        lookup(start_attrs(user), "xmlns:stream"@) == Some("http://etherx.jabber.org/streams"@),
        start_attrs(user).len() == 5,
        keys_unique(start_attrs(user)),
{
    reveal_strlit("from");
    reveal_strlit("to");
    reveal_strlit("version");
    reveal_strlit("xmlns");
    reveal_strlit("xmlns:stream");
    let a = start_attrs(user);
    assert(a[0].0.len() == 4 && a[1].0.len() == 2 && a[2].0.len() == 7 && a[3].0.len() == 5 && a[4].0.len() == 12);
    assert(keys_unique(a)) by {
        assert forall|i: int, j: int| 0 <= i < a.len() && 0 <= j < a.len() && i != j implies #[trigger] a[i].0 != #[trigger] a[j].0 by {
            assert(a[i].0.len() != a[j].0.len());
        }
    }
    lemma_key_index_unique(a, "from"@, 0);
    lemma_key_index_unique(a, "to"@, 1);
    lemma_key_index_unique(a, "version"@, 2);
    lemma_key_index_unique(a, "xmlns"@, 3);
    lemma_key_index_unique(a, "xmlns:stream"@, 4);
    law_jid_parse_text_roundtrip(jid);
}

/// The events of a successful opening: connect, send the header, read the
/// server's header `h1`, its features `f`, send STARTTLS, read its answer
/// `p`, switch to TLS, send the header again and read the new header `h2`.
pub open spec fn opening_events(h1: String, f: String, p: String, h2: String) -> Seq<StreamEvent> {
    seq![
        StreamEvent::Begin,
        StreamEvent::Done,
        StreamEvent::Done,
        StreamEvent::Received(h1),
        StreamEvent::Received(f),
        StreamEvent::Done,
        StreamEvent::Received(p),
        StreamEvent::Done,
        StreamEvent::Done,
        StreamEvent::Received(h2),
    ]
}

/// A server that answers as RFC 6120 expects gets a started stream, from any
/// state: where both of its headers come from the user's domain, its
/// features offer STARTTLS and it answers `proceed`, the ten steps of the
/// opening accept every event and ask, in this order, to connect to the
/// stream's address, send the header, read, read, send the bare STARTTLS
/// request, read, switch to TLS for the user's domain, send the header over
/// TLS, read over TLS, and finish; the stream is then started, keeping the
/// header read over TLS.
pub proof fn law_successful_opening(
    states: Seq<XMPPStream>,
    actions: Seq<StreamAction>,
    h1: String,
    f: String,
    p: String,
    h2: String,
    a1: Seq<AttrView>,
    fv: DomView,
    pv: DomView,
    a2: Seq<AttrView>,
)
    requires
        states.len() == 11,
        actions.len() == 10,
        forall|i: int| 0 <= i < 10 ==> #[trigger] states[i].same_setup(&states[i + 1]),
        forall|i: int|
            0 <= i < 10 ==> start_stream_spec(
                #[trigger] states[i],
                states[i + 1],
                opening_events(h1, f, p, h2)[i],
                actions[i],
            ),
        import_outcome(h1@) == ImportOutcome::Start(a1),
        lookup(a1, "from"@) == Some(states[0].user.username@.domain),
        import_outcome(f@) == ImportOutcome::Stanza(fv),
        exists|i: int|
            0 <= i < fv.children.len() && (#[trigger] fv.children[i] matches DomNodeView::Element(c)
                && c.name == "starttls"@ && c.namespace == "urn:ietf:params:xml:ns:xmpp-tls"@),
        dom_parsed(p@) == Some(pv),
        pv.name == "proceed"@,
        import_outcome(h2@) == ImportOutcome::Start(a2),
        lookup(a2, "from"@) == Some(states[0].user.username@.domain),
    ensures
        forall|i: int| 0 <= i < 10 ==> step_accepts(#[trigger] states[i], opening_events(h1, f, p, h2)[i]),
        actions[0] == StreamAction::ConnectPlain(states[0].connection),
        actions[1] matches StreamAction::SendPlain(Packet::Start(x)) && x@ == start_attrs(states[0].user),
        actions[2] == StreamAction::ReadPlain,
        actions[3] == StreamAction::ReadPlain,
        actions[4] matches StreamAction::SendPlain(Packet::Stanza(e)) && dom_view(e) == (DomView {
            name: "starttls"@,
            namespace: "urn:ietf:params:xml:ns:xmpp-tls"@,
            prefixes: Map::empty(),
            attributes: Map::empty(),
            children: Seq::empty(),
        }),
        actions[5] == StreamAction::ReadPlain,
        actions[6] matches StreamAction::UpgradeTls(d) && d@ == states[0].user.username@.domain,
        actions[7] matches StreamAction::SendSecure(Packet::Start(x)) && x@ == start_attrs(states[0].user),
        actions[8] == StreamAction::ReadSecure,
        actions[9] is Finished,
        states[10].started,
        states[10].phase == StreamPhase::Started,
        states[10].header_attrs@ == a2,
{
    let ev = opening_events(h1, f, p, h2);
    assert(states[0].same_setup(&states[1]));
    assert(states[1].same_setup(&states[2]));
    assert(states[2].same_setup(&states[3]));
    assert(states[3].same_setup(&states[4]));
    assert(states[4].same_setup(&states[5]));
    assert(states[5].same_setup(&states[6]));
    assert(states[6].same_setup(&states[7]));
    assert(states[7].same_setup(&states[8]));
    assert(states[8].same_setup(&states[9]));
    assert(states[9].same_setup(&states[10]));
    assert(start_stream_spec(states[0], states[1], ev[0], actions[0]));
    assert(start_stream_spec(states[1], states[2], ev[1], actions[1]));
    assert(start_stream_spec(states[2], states[3], ev[2], actions[2]));
    assert(start_stream_spec(states[3], states[4], ev[3], actions[3]));
    assert(states[3].user.username@ == states[0].user.username@);
    assert(start_stream_spec(states[4], states[5], ev[4], actions[4]));
    assert(start_stream_spec(states[5], states[6], ev[5], actions[5]));
    assert(start_stream_spec(states[6], states[7], ev[6], actions[6]));
    assert(states[6].user.username@ == states[0].user.username@);
    assert(start_stream_spec(states[7], states[8], ev[7], actions[7]));
    assert(states[7].user.username@ == states[0].user.username@);
    assert(start_stream_spec(states[8], states[9], ev[8], actions[8]));
    assert(start_stream_spec(states[9], states[10], ev[9], actions[9]));
    assert(states[9].user.username@ == states[0].user.username@);
}

} // verus!

//! The client: what it sends to log in (RFC 6120, 6 and 7), how it ends the
//! stream, and what it makes of what it reads afterwards.
use vstd::prelude::*;
use xmpp_parsers::message::Message;
use crate::attrs::lemma_store_new;
use crate::dom::{XmlElement, XmlNode, simple_name};
use crate::packet::{Packet, PacketError, PacketImporter, import_accepts, import_outcome, import_result_is};
use crate::sasl_auth::{ascii_text, base64_standard, plain_auth_text, plain_message};
use crate::xmpp_stream::XMPPStream;
use crate::user::User;

verus! {

/// A message stanza of xmpp-parsers; carried, not inspected.
#[verifier::external_type_specification]
#[verifier::external_body]
pub struct ExMessage(Message);

/// Something that happened on the stream.
#[derive(Debug)]
pub enum XMPPEvent {
    Message(Message),
    Test(Packet),
}

/// One step of logging in, for the caller to carry out in order.
#[derive(Debug)]
pub enum ConnectStep {
    /// Open (or reopen) the stream: see `XMPPStream::start_stream`.
    StartStream,
    /// Read what the server sent.
    Read,
    /// Send this element as a stanza.
    SendStanza(XmlElement),
}

/// The element has this name and namespace.
pub open spec fn named(e: XmlElement, name: Seq<char>, ns: Seq<char>) -> bool {
    e.name@ == name && e.namespace@ == ns
}

/// The element's only child is the text `t`.
pub open spec fn only_text(e: XmlElement, t: Seq<char>) -> bool {
    e.children@.len() == 1 && (e.children@[0] matches XmlNode::Text(s) && s@ == t)
}

/// The SASL `auth` element for the PLAIN mechanism, carrying `payload`.
pub open spec fn is_auth_element(e: XmlElement, payload: Seq<char>) -> bool {
    &&& named(e, "auth"@, "urn:ietf:params:xml:ns:xmpp-sasl"@)
    &&& e.attributes@ == seq![("mechanism"@, "PLAIN"@)]
    &&& only_text(e, payload)
}

/// The resource binding request: `iq` of type `set` with id `123`, holding a
/// `bind` element that asks for the resource `Kug`.
pub open spec fn is_bind_request(e: XmlElement) -> bool {
    &&& named(e, "iq"@, "jabber:client"@)
    &&& e.attributes@ == seq![("type"@, "set"@), ("id"@, "123"@)]
    &&& e.children@.len() == 1
    &&& e.children@[0] matches XmlNode::Element(bind) && {
        &&& named(bind, "bind"@, "urn:ietf:params:xml:ns:xmpp-bind"@)
        &&& bind.attributes@.len() == 0
        &&& bind.children@.len() == 1
        &&& bind.children@[0] matches XmlNode::Element(resource) && {
            &&& named(resource, "resource"@, ""@)
            &&& resource.attributes@.len() == 0
            &&& only_text(resource, "Kug"@)
        }
    }
}

/// The initial presence: `presence` holding an empty `show` element.
pub open spec fn is_initial_presence(e: XmlElement) -> bool {
    &&& named(e, "presence"@, "jabber:client"@)
    &&& e.attributes@.len() == 0
    &&& e.children@.len() == 1
    &&& e.children@[0] matches XmlNode::Element(show) && {
        &&& named(show, "show"@, ""@)
        &&& show.attributes@.len() == 0
        &&& show.children@.len() == 0
    }
}

/// The SASL PLAIN payload for a user: base64 of the PLAIN message made of the
/// node of its JID and its password.
pub open spec fn auth_payload(user: User) -> Seq<char> {
    ascii_text(base64_standard(plain_message(user.username@.node->0, user.password@)))
}

/// The user can log in with PLAIN: its JID has a node, and the message fits
/// the buffers.
pub open spec fn can_log_in(user: User) -> bool {
    &&& user.username@.node is Some
    &&& plain_message(user.username@.node->0, user.password@).len() <= 0x3fff_ffff
}

/// Whether the user can log in with PLAIN (see `can_log_in`).
pub fn can_log_in_with(user: &User) -> (r: bool)
    ensures
        r == can_log_in(*user),
{
    match &user.username.node {
        None => false,
        Some(node) => {
            let a = node.as_str().as_bytes().len();
            let b = user.password.as_str().as_bytes().len();
            proof {
                assert(plain_message(node@, user.password@).len() == 2 + a + b);
            }
            a <= 0x3fff_fffd && b <= 0x3fff_fffd - a
        },
    }
}

/// An XMPP client for one account, and its stream once connected.
pub struct Client {
    pub user: User,
    pub stream: Option<XMPPStream>,
}

impl Client {
    /// A client for this account, not connected.
    pub fn new(user: User) -> (r: Client)
        ensures
            r.user == user,
            r.stream is None,
    {
        Client { user, stream: None }
    }

    /// The address of the server's client service on this host: `host:5222`.
    pub fn server_address(host: &str) -> (r: String)
        ensures
            r@ == host@ + ":5222"@,
    {
        let mut r = host.to_owned();
        r.append(":5222");
        r
    }

    /// The resource binding request (see `is_bind_request`).
    pub fn generate_resource_bind(&self) -> (r: XmlElement)
        ensures
            r.wf(),
            is_bind_request(r),
    {
        let mut resource = XmlElement::bare("resource", "");
        resource.children.push(XmlNode::Text("Kug".to_owned()));
        assert(resource.wf());
        let mut bind = XmlElement::bare("bind", "urn:ietf:params:xml:ns:xmpp-bind");
        bind.children.push(XmlNode::Element(resource));
        assert(bind.wf());
        let mut root = XmlElement::bare("iq", "jabber:client");
        let ghost a0 = root.attributes@;
        root.attributes.insert("type".to_owned(), "set".to_owned());
        proof {
            lemma_store_new(a0, "type"@, "set"@);
            reveal_strlit("type");
            reveal_strlit("id");
        }
        let ghost a1 = root.attributes@;
        root.attributes.insert("id".to_owned(), "123".to_owned());
        proof {
            assert(a1.len() == 1 && a1[0].0 == "type"@);
            assert("type"@.len() != "id"@.len());
            lemma_store_new(a1, "id"@, "123"@);
        }
        root.children.push(XmlNode::Element(bind));
        proof {
            assert(root.attributes@ =~= seq![("type"@, "set"@), ("id"@, "123"@)]);
            assert(root.wf());
        }
        root
    }

    /// The SASL `auth` element that logs the user in with PLAIN.
    pub fn auth_element(&self) -> (r: XmlElement)
        requires
            can_log_in(self.user),
        ensures
            r.wf(),
            is_auth_element(r, auth_payload(self.user)),
    {
        let node = self.user.username.node().unwrap();
        let payload = plain_auth_text(node.as_str(), self.user.password.as_str());
        let mut auth = XmlElement::bare("auth", "urn:ietf:params:xml:ns:xmpp-sasl");
        let ghost a0 = auth.attributes@;
        auth.attributes.insert("mechanism".to_owned(), "PLAIN".to_owned());
        proof {
            lemma_store_new(a0, "mechanism"@, "PLAIN"@);
            reveal_strlit("mechanism");
            assert(simple_name("mechanism"@));
        }
        auth.children.push(XmlNode::Text(payload));
        proof {
            assert(auth.attributes@ =~= seq![("mechanism"@, "PLAIN"@)]);
        }
        auth
    }

    /// The initial presence (see `is_initial_presence`).
    pub fn initial_presence(&self) -> (r: XmlElement)
        ensures
            r.wf(),
            is_initial_presence(r),
    {
        let show = XmlElement::bare("show", "");
        let mut presence = XmlElement::bare("presence", "jabber:client");
        presence.children.push(XmlNode::Element(show));
        presence
    }

    /// The steps of logging in, in order: open the stream and read the
    /// server's features, send the PLAIN `auth` and read the answer, open the
    /// stream again, bind the resource and read the answer, send the initial
    /// presence and read the answer.
    pub fn connect_steps(&self) -> (r: Vec<ConnectStep>)
        requires
            can_log_in(self.user),
        ensures
            r@.len() == 9,
            r@[0] is StartStream,
            r@[1] is Read,
            r@[2] matches ConnectStep::SendStanza(e) && e.wf() && is_auth_element(e, auth_payload(self.user)),
            r@[3] is Read,
            r@[4] is StartStream,
            r@[5] matches ConnectStep::SendStanza(e) && e.wf() && is_bind_request(e),
            r@[6] is Read,
            r@[7] matches ConnectStep::SendStanza(e) && e.wf() && is_initial_presence(e),
            r@[8] is Read,
    {
        let mut steps: Vec<ConnectStep> = Vec::new();
        steps.push(ConnectStep::StartStream);
        steps.push(ConnectStep::Read);
        steps.push(ConnectStep::SendStanza(self.auth_element()));
        steps.push(ConnectStep::Read);
        steps.push(ConnectStep::StartStream);
        steps.push(ConnectStep::SendStanza(self.generate_resource_bind()));
        steps.push(ConnectStep::Read);
        steps.push(ConnectStep::SendStanza(self.initial_presence()));
        steps.push(ConnectStep::Read);
        steps
    }

    /// Keeps the stream that logging in opened.
    pub fn attach(&mut self, stream: XMPPStream)
        ensures
            final(self).user == old(self).user,
            final(self).stream == Some(stream),
    {
        self.stream = Some(stream);
    }

    /// Ends the connection: the stream is dropped and the stream end is the
    /// packet to send. There must be a stream.
    pub fn disconnect(&mut self) -> (r: Packet)
        requires
            old(self).stream is Some,
        ensures
            r is End,
            final(self).user == old(self).user,
            final(self).stream is None,
    {
        self.stream = None;
        Packet::End
    }

    /// The events in a text read from the stream: the packet it holds, as a
    /// test event. There must be a stream, and the text must hold a packet
    /// that the importer reads (see `import_accepts`).
    pub fn events(&self, received: String) -> (r: Option<Vec<XMPPEvent>>)
        requires
            self.stream is Some,
            import_accepts(received@),
        ensures
            r matches Some(events) && events@.len() == 1
                && (events@[0] matches XMPPEvent::Test(p) && import_result_is(Ok(p), import_outcome(received@))),
    {
        let packet = PacketImporter::import(received);
        let mut events: Vec<XMPPEvent> = Vec::new();
        match packet {
            Ok(p) => events.push(XMPPEvent::Test(p)),
            Err(_) => {},
        }
        Some(events)
    }

    /// Like `events`, for any text: where the text holds no packet that the
    /// importer reads, the error says why. There must be a stream.
    pub fn try_events(&self, received: String) -> (r: Result<Vec<XMPPEvent>, PacketError>)
        requires
            self.stream is Some,
        ensures
            match r {
                Ok(events) => events@.len() == 1
                    && (events@[0] matches XMPPEvent::Test(p) && import_result_is(Ok(p), import_outcome(received@))),
                Err(e) => import_result_is(Err(e), import_outcome(received@)),
            },
    {
        match PacketImporter::try_import(received.clone()) {
            Ok(_) => {
                let events = self.events(received);
                Ok(events.unwrap())
            },
            Err(e) => Err(e),
        }
    }
}

/// Logging in with PLAIN sends the JID's node first and the password second:
/// the `auth` element (SASL namespace, mechanism `PLAIN`) holds one text, the
/// base64 of a zero byte, the node in UTF-8, a zero byte and the password in
/// UTF-8, read as ASCII.
pub proof fn law_auth_carries_node_then_password(user: User, e: XmlElement)
    requires
        can_log_in(user),
        is_auth_element(e, auth_payload(user)),
    ensures
        e.name@ == "auth"@,
        e.namespace@ == "urn:ietf:params:xml:ns:xmpp-sasl"@,
        e.attributes@ == seq![("mechanism"@, "PLAIN"@)],
        e.children@.len() == 1,
        e.children@[0] matches XmlNode::Text(t) && t@ == base64_standard(
            seq![0u8] + vstd::utf8::encode_utf8(user.username@.node->0) + seq![0u8]
                + vstd::utf8::encode_utf8(user.password@),
        ).map_values(|b: u8| b as char),
{
}

/// The initial presence announces plain availability: a `presence` element
/// in `jabber:client` with no attributes, whose one child is an empty `show`
/// element without namespace, attributes or children.
pub proof fn law_initial_presence_is_plain(e: XmlElement)
    requires
        is_initial_presence(e),
    ensures
        e.name@ == "presence"@,
        e.namespace@ == "jabber:client"@,
        e.attributes@.len() == 0,
        e.children@.len() == 1,
        e.children@[0] matches XmlNode::Element(show) && show.name@ == "show"@ && show.namespace@ == ""@
            && show.attributes@.len() == 0 && show.children@.len() == 0,
{
}

/// The resource binding request is an `iq` of type `set` with id `123`,
/// whose one child is a `bind` element (binding namespace, no attributes)
/// holding one `resource` element whose one child is the text `Kug`.
pub proof fn law_bind_request_asks_for_resource(e: XmlElement)
    requires
        is_bind_request(e),
    ensures
        e.name@ == "iq"@,
        e.namespace@ == "jabber:client"@,
        e.attributes@ == seq![("type"@, "set"@), ("id"@, "123"@)],
        e.children@.len() == 1,
        e.children@[0] matches XmlNode::Element(bind) && {
            &&& bind.name@ == "bind"@
            &&& bind.namespace@ == "urn:ietf:params:xml:ns:xmpp-bind"@
            &&& bind.attributes@.len() == 0
            &&& bind.children@.len() == 1
            &&& bind.children@[0] matches XmlNode::Element(res) && {
                &&& res.name@ == "resource"@
                &&& res.namespace@ == ""@
                &&& res.attributes@.len() == 0
                &&& res.children@.len() == 1
                &&& res.children@[0] matches XmlNode::Text(t) && t@ == "Kug"@
            }
        },
{
}

/// Logging in asks only for a node: a user whose JID has no node cannot log
/// in, and one whose JID has a node can, as long as the node and the password
/// fit the buffers (their UTF-8 lengths add up to at most 0x3fff_fffd).
pub proof fn law_login_needs_a_node(user: User)
    ensures
        user.username@.node is None ==> !can_log_in(user),
        user.username@.node matches Some(n) && vstd::utf8::encode_utf8(n).len()
            + vstd::utf8::encode_utf8(user.password@).len() <= 0x3fff_fffd ==> can_log_in(user),
{
}

} // verus!

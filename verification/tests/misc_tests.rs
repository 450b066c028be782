use xmpp::bridge::{client_thread_accept, client_thread_request, main_thread_reply, CommunicationPacket};
use xmpp::classes;
use xmpp::jid::Jid;
use xmpp::user::User;

#[test]
fn jid_parse_parts_and_text() {
    let j = Jid::parse("example@127.0.0.1").unwrap();
    assert_eq!(j.node(), Some("example".to_string()));
    assert_eq!(j.domain(), "127.0.0.1");
    assert_eq!(j.resource, None);
    assert_eq!(j.to_string(), "example@127.0.0.1");
    let full = Jid::parse("a@b.org/res").unwrap();
    assert_eq!(full.to_string(), "a@b.org/res");
    let bare_domain = Jid::parse("b.org").unwrap();
    assert_eq!(bare_domain.node(), None);
    assert_eq!(bare_domain.to_string(), "b.org");
}

#[test]
fn jid_parse_refusals() {
    assert!(Jid::parse("").is_none());
    assert!(Jid::parse("@b.org").is_none());
    assert!(Jid::parse("a@b.org/").is_none());
}

#[test]
fn user_new_and_try_new() {
    let u = User::new("example@127.0.0.1", "example");
    assert_eq!(u.username.domain, "127.0.0.1");
    assert_eq!(u.password, "example");
    assert!(User::try_new("@nope", "x").is_none());
    assert_eq!(User::try_new("a@b", "x").unwrap().username.to_string(), "a@b");
}

#[test]
fn front_end_user() {
    let d = classes::User::default();
    assert_eq!(d.username, "???");
    assert_eq!(d.password, "???");
    let u = classes::User::new("me".to_string(), "pw".to_string());
    assert_eq!(u.username, "me");
    assert_eq!(u.password, "pw");
}

#[test]
fn main_thread_answers_user_info_request() {
    let user = classes::User::new("me".to_string(), "pw".to_string());
    match main_thread_reply(&user, &CommunicationPacket::GetUserInfo) {
        Some(CommunicationPacket::SendUserInfo(u)) => {
            assert_eq!(u.username, "me");
            assert_eq!(u.password, "pw");
        }
        other => panic!("{:?}", other),
    }
    assert!(main_thread_reply(&user, &CommunicationPacket::ContactFound).is_none());
}

#[test]
fn client_thread_takes_only_user_info() {
    assert!(matches!(client_thread_request(), CommunicationPacket::GetUserInfo));
    assert!(client_thread_accept(CommunicationPacket::MessageReceived).is_none());
    let u = client_thread_accept(CommunicationPacket::SendUserInfo(classes::User::default())).unwrap();
    assert_eq!(u.username, "???");
}

#[test]
fn client_thread_waits_for_the_first_user_info() {
    let packets = vec![
        CommunicationPacket::MessageReceived,
        CommunicationPacket::ContactFound,
        CommunicationPacket::SendUserInfo(classes::User::new("first".to_string(), "a".to_string())),
        CommunicationPacket::SendUserInfo(classes::User::new("second".to_string(), "b".to_string())),
    ];
    let mut taken = None;
    for p in packets {
        if let Some(u) = client_thread_accept(p) {
            taken = Some(u);
            break;
        }
    }
    let u = taken.unwrap();
    assert_eq!(u.username, "first");
    assert_eq!(u.password, "a");
}

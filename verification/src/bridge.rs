//! The messages between the Godot main thread and the client thread, and
//! what each side does with them.
use vstd::prelude::*;
use crate::classes::User;

verus! {

/// A message between the two threads.
#[derive(Debug)]
pub enum CommunicationPacket {
    /// Main thread to client thread: send a chat message.
    SendMessage,
    /// Main thread to client thread: the account to log in with.
    SendUserInfo(User),
    /// Client thread to main thread: asks for the account.
    GetUserInfo,
    /// Client thread to main thread: a contact was found.
    ContactFound,
    /// Client thread to main thread: a message arrived.
    MessageReceived,
}

/// The main thread's answer to a message from the client thread: the account
/// where it is asked for; nothing to anything else (which the main thread
/// reports as unknown).
pub fn main_thread_reply(user: &User, packet: &CommunicationPacket) -> (r: Option<CommunicationPacket>)
    ensures
        packet is GetUserInfo ==> (r matches Some(CommunicationPacket::SendUserInfo(u))
            && u.username@ == user.username@ && u.password@ == user.password@),
        !(packet is GetUserInfo) ==> r is None,
{
    match packet {
        CommunicationPacket::GetUserInfo => Some(CommunicationPacket::SendUserInfo(user.copy())),
        _ => None,
    }
}

/// The message that the client thread sends first: it asks for the account.
pub fn client_thread_request() -> (r: CommunicationPacket)
    ensures
        r is GetUserInfo,
{
    CommunicationPacket::GetUserInfo
}

/// The account that a message carries, if it carries one.
pub open spec fn accepted(packet: CommunicationPacket) -> Option<User> {
    match packet {
        CommunicationPacket::SendUserInfo(u) => Some(u),
        _ => None,
    }
}

/// The account that the waiting client thread ends up with over a run of
/// messages: the one carried by the first message that carries one.
pub open spec fn awaited_user(packets: Seq<CommunicationPacket>) -> Option<User>
    decreases packets.len(),
{
    if packets.len() == 0 {
        None
    } else {
        match accepted(packets[0]) {
            Some(u) => Some(u),
            None => awaited_user(packets.drop_first()),
        }
    }
}

/// Over a run of messages, the waiting client thread takes exactly the
/// account of the first `SendUserInfo` and passes over every message before
/// it; where no message carries an account, it takes none.
pub proof fn law_first_user_info_taken(packets: Seq<CommunicationPacket>)
    ensures
        awaited_user(packets) is None <==> forall|i: int| 0 <= i < packets.len() ==> !(#[trigger] packets[i] is SendUserInfo),
        awaited_user(packets) matches Some(u) ==> exists|i: int|
            0 <= i < packets.len() && packets[i] == CommunicationPacket::SendUserInfo(u)
                && forall|j: int| 0 <= j < i ==> !(#[trigger] packets[j] is SendUserInfo),
    decreases packets.len(),
{
    if packets.len() > 0 {
        let rest = packets.drop_first();
        law_first_user_info_taken(rest);
        assert forall|i: int| 0 <= i < rest.len() implies #[trigger] rest[i] == packets[i + 1] by {}
        if accepted(packets[0]) is None {
            if awaited_user(rest) is None {
                assert forall|i: int| 0 <= i < packets.len() implies !(#[trigger] packets[i] is SendUserInfo) by {
                    if i > 0 {
                        assert(packets[i] == rest[i - 1]);
                    }
                }
            } else {
                let u = awaited_user(rest)->0;
                let i = choose|i: int|
                    0 <= i < rest.len() && rest[i] == CommunicationPacket::SendUserInfo(u)
                        && forall|j: int| 0 <= j < i ==> !(#[trigger] rest[j] is SendUserInfo);
                assert(packets[i + 1] == CommunicationPacket::SendUserInfo(u));
                assert forall|j: int| 0 <= j < i + 1 implies !(#[trigger] packets[j] is SendUserInfo) by {
                    if j > 0 {
                        assert(packets[j] == rest[j - 1]);
                    }
                }
            }
        } else {
            assert(packets[0] is SendUserInfo);
        }
    }
}

/// What the waiting client thread takes from a message: the account where
/// the message carries one; anything else is passed over.
pub fn client_thread_accept(packet: CommunicationPacket) -> (r: Option<User>)
    ensures
        r == accepted(packet),
{
    match packet {
        CommunicationPacket::SendUserInfo(u) => Some(u),
        _ => None,
    }
}

} // verus!

//! The SASL PLAIN message of a login, encoded in base64 for the `auth` stanza.
use vstd::prelude::*;
use vstd::utf8::{encode_utf8, valid_utf8, decode_utf8};
use base64::{engine::general_purpose, Engine as _};
use sasl::client::mechanisms::Plain;
use sasl::client::Mechanism;
use sasl::common::{ChannelBinding, Credentials};
use crate::text::utf8_to_string;

verus! {

/// The SASL PLAIN message: a zero byte, the user name in UTF-8, a zero byte,
/// the password in UTF-8 (RFC 4616, with no authorization identity).
pub open spec fn plain_message(username: Seq<char>, password: Seq<char>) -> Seq<u8> {
    seq![0u8] + encode_utf8(username) + seq![0u8] + encode_utf8(password)
}

/// `Plain::from_credentials(..).initial()` of the sasl crate, for credentials
/// made of this user name and password (and no channel binding): the PLAIN
/// message, as the crate's source builds it. `from_credentials` cannot fail on
/// such credentials.
#[verifier::external_body]
pub(crate) fn sasl_plain_initial(username: &str, password: &str) -> (r: Vec<u8>)
    ensures
        r@ == plain_message(username@, password@),
{
    let credentials = Credentials::default()
        .with_username(username)
        .with_password(password)
        .with_channel_binding(ChannelBinding::None);
    Plain::from_credentials(credentials).unwrap().initial()
}

/// The base64 text of some bytes: standard alphabet, `=` padding.
pub uninterp spec fn base64_standard(input: Seq<u8>) -> Seq<u8>;

/// The length of padded base64 text for `n` bytes: four for every started
/// group of three.
pub open spec fn base64_len(n: nat) -> nat {
    ((n + 2) / 3 * 4) as nat
}

/// A byte of the standard base64 alphabet or its padding.
pub open spec fn is_base64_byte(b: u8) -> bool {
    ||| 65 <= b <= 90
    ||| 97 <= b <= 122
    ||| 48 <= b <= 57
    ||| b == 43 || b == 47 || b == 61
}

/// `general_purpose::STANDARD.encode_slice(input, output)` of the base64
/// crate. Its source computes the padded length and fails, writing nothing,
/// where `output` is shorter; else it writes the base64 text (named
/// `base64_standard`, made of the standard alphabet and `=`) at the start of
/// `output`, leaves the rest alone and returns its length. It panics where the
/// length overflows, which `requires` rules out.
#[verifier::external_body]
pub(crate) fn base64_encode_slice(input: &[u8], output: &mut [u8]) -> (r: Result<usize, ()>)
    requires
        input@.len() / 3 * 4 + 4 <= usize::MAX,
    ensures
        r is Ok <==> old(output)@.len() >= base64_len(input@.len()),
        final(output)@.len() == old(output)@.len(),
        r is Err ==> final(output)@ == old(output)@,
        r matches Ok(k) ==> {
            &&& k == base64_len(input@.len())
            &&& final(output)@.subrange(0, k as int) == base64_standard(input@)
            &&& final(output)@.subrange(k as int, old(output)@.len() as int) == old(output)@.subrange(k as int, old(output)@.len() as int)
            &&& forall|i: int| 0 <= i < k ==> is_base64_byte(#[trigger] final(output)@[i])
        },
{
    general_purpose::STANDARD.encode_slice(input, output).map_err(|_| ())
}

/// ASCII bytes read as characters.
pub open spec fn ascii_text(bytes: Seq<u8>) -> Seq<char> {
    bytes.map_values(|b: u8| b as char)
}

/// Bytes below 0x80 are valid UTF-8, and decode to themselves.
pub proof fn lemma_ascii_utf8(bytes: Seq<u8>)
    requires
        forall|i: int| 0 <= i < bytes.len() ==> #[trigger] bytes[i] < 0x80,
    ensures
        valid_utf8(bytes),
        decode_utf8(bytes) == ascii_text(bytes),
    decreases bytes.len(),
{
    if bytes.len() > 0 {
        let b = bytes[0];
        assert(b & 0x7F == b) by (bit_vector)
            requires
                b < 0x80,
        ;
        let rest = bytes.subrange(1, bytes.len() as int);
        assert forall|i: int| 0 <= i < rest.len() implies #[trigger] rest[i] < 0x80 by {
            assert(rest[i] == bytes[i + 1]);
        }
        lemma_ascii_utf8(rest);
        assert(vstd::utf8::pop_first_scalar(bytes) == rest);
        assert(decode_utf8(bytes) =~= ascii_text(bytes));
    }
}

/// The base64 text of the SASL PLAIN message for this user name and
/// password, as the `auth` stanza carries it. The message is bounded so that
/// the buffer sizes fit in a `usize`.
pub fn plain_auth_text(username: &str, password: &str) -> (r: String)
    requires
        plain_message(username@, password@).len() <= 0x3fff_ffff,
    ensures
        r@ == ascii_text(base64_standard(plain_message(username@, password@))),
{
    let initial = sasl_plain_initial(username, password);
    let n = initial.len();
    let size = n * 4 / 3 + 4;
    proof {
        let q = n as int / 3;
        assert(n as int * 4 / 3 >= 4 * q) by (nonlinear_arith)
            requires
                q == n as int / 3,
                n >= 0,
        ;
        assert((n as int + 2) / 3 <= q + 1) by (nonlinear_arith)
            requires
                q == n as int / 3,
                n >= 0,
        ;
        assert(size >= base64_len(n as nat));
    }
    let mut user_payload: Vec<u8> = vec![0u8; size];
    let ghost before = user_payload@;
    let written = match base64_encode_slice(initial.as_slice(), user_payload.as_mut_slice()) {
        Ok(w) => w,
        Err(_) => {
            assert(false);
            0
        },
    };
    user_payload.truncate(written);
    let ghost encoded = user_payload@;
    proof {
        assert(encoded =~= base64_standard(initial@));
        assert forall|i: int| 0 <= i < encoded.len() implies #[trigger] encoded[i] < 0x80 by {
            assert(is_base64_byte(encoded[i]));
        }
        lemma_ascii_utf8(encoded);
    }
    let text = utf8_to_string(user_payload);
    text.unwrap()
}

} // verus!

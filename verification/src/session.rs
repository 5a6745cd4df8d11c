//! The settings of the HTTP session that every request goes through.

use vstd::prelude::*;
use vstd::string::*;
use vstd::utf8::{encode_scalar, encode_utf8, has_width_1_encoding};
use crate::error::{Error, ErrorModel};

verus! {

/// The signature that identifies this client to the service.
pub const USER_AGENT: &'static str = "repo_archiver/0.1.0";

/// The time allowed for one request, in seconds.
pub const TIMEOUT_SECONDS: u64 = 30;

/// Whether a byte may occur in the value of an HTTP header: the tab and
/// every byte from the space upwards, except the delete character.
pub open spec fn header_byte_allowed(b: u8) -> bool {
    (b >= 32 && b != 127) || b == 9
}

/// Whether a text, encoded as UTF-8, can be the value of an HTTP header.
pub open spec fn header_text_allowed(text: Seq<char>) -> bool {
    forall|i: int|
        0 <= i < encode_utf8(text).len() ==> header_byte_allowed(#[trigger] encode_utf8(text)[i])
}

/// Whether a character may occur in the value of an HTTP header: the tab and
/// every character from the space upwards, except the delete character.
pub open spec fn header_char_allowed(c: char) -> bool {
    c == '\t' || (c as u32 >= 32 && c as u32 != 127)
}

/// Whether every character of a text may occur in the value of an HTTP header.
pub open spec fn header_chars_allowed(text: Seq<char>) -> bool {
    forall|i: int| 0 <= i < text.len() ==> header_char_allowed(#[trigger] text[i])
}

/// The value of the `Authorization` header for a credential.
pub open spec fn authorization_of(credential: Seq<char>) -> Seq<char> {
    "token "@ + credential
}

/// `reqwest::header::HeaderValue::from_str`, reduced to whether it succeeds.
///
/// Trusted: the constructor accepts a text exactly when each byte of it is a
/// tab or at least 32 and not 127.
#[verifier::external_body]
fn header_value_accepts(value: &str) -> (ok: bool)
    ensures
        ok == header_text_allowed(value@),
{
    match reqwest::header::HeaderValue::from_str(value) {
        Ok(_) => true,
        Err(_) => false,
    }
}

proof fn lemma_one_byte(v: u32)
    by (bit_vector)
    requires
        v <= 0x7F,
    ensures
        (v & 0x7F) as u8 == v,
{
}

proof fn lemma_high_bytes(v: u32)
    by (bit_vector)
    ensures
        0xC0u8 | ((v >> 6) & 0x1F) as u8 >= 0x80u8,
        0xE0u8 | ((v >> 12) & 0x0F) as u8 >= 0x80u8,
        0xF0u8 | ((v >> 18) & 0x7) as u8 >= 0x80u8,
        0x80u8 | (v & 0x3F) as u8 >= 0x80u8,
        0x80u8 | ((v >> 6) & 0x3F) as u8 >= 0x80u8,
        0x80u8 | ((v >> 12) & 0x3F) as u8 >= 0x80u8,
{
}

/// The bytes that encode one character are all allowed in a header value
/// exactly when the character is.
proof fn lemma_header_char(c: char)
    ensures
        header_char_allowed(c) <==> forall|i: int|
            0 <= i < encode_scalar(c as u32).len() ==> header_byte_allowed(
                #[trigger] encode_scalar(c as u32)[i],
            ),
{
    let v = c as u32;
    let bytes = encode_scalar(v);
    lemma_high_bytes(v);
    if has_width_1_encoding(v) {
        lemma_one_byte(v);
        assert(bytes[0] == v);
    } else {
        assert(bytes[0] >= 0x80);
        assert(forall|i: int| 0 <= i < bytes.len() ==> #[trigger] bytes[i] >= 0x80);
    }
}

/// A text can be the value of an HTTP header exactly when each of its
/// characters is a tab or at least a space, and none is the delete character.
pub proof fn lemma_header_text(text: Seq<char>)
    ensures
        header_text_allowed(text) <==> header_chars_allowed(text),
    decreases text.len(),
{
    if text.len() > 0 {
        let head = encode_scalar(text[0] as u32);
        let rest = encode_utf8(text.drop_first());
        lemma_header_char(text[0]);
        lemma_header_text(text.drop_first());
        assert(encode_utf8(text) == head + rest);
        if header_text_allowed(text) {
            assert forall|i: int| 0 <= i < head.len() implies header_byte_allowed(
                #[trigger] head[i],
            ) by {
                assert(encode_utf8(text)[i] == head[i]);
            }
            assert forall|i: int| 0 <= i < rest.len() implies header_byte_allowed(
                #[trigger] rest[i],
            ) by {
                assert(encode_utf8(text)[head.len() + i] == rest[i]);
            }
            assert forall|i: int| 0 <= i < text.len() implies header_char_allowed(
                #[trigger] text[i],
            ) by {
                if i > 0 {
                    assert(text.drop_first()[i - 1] == text[i]);
                }
            }
        }
        if header_chars_allowed(text) {
            assert forall|i: int| 0 <= i < text.drop_first().len() implies header_char_allowed(
                #[trigger] text.drop_first()[i],
            ) by {
                assert(text.drop_first()[i] == text[i + 1]);
            }
            assert forall|i: int| 0 <= i < encode_utf8(text).len() implies header_byte_allowed(
                #[trigger] encode_utf8(text)[i],
            ) by {
                if i < head.len() {
                    assert(encode_utf8(text)[i] == head[i]);
                } else {
                    assert(encode_utf8(text)[i] == rest[i - head.len()]);
                }
            }
        }
    }
}

/// The value of the `Authorization` header can be sent exactly when every
/// character of the credential can.
pub proof fn lemma_authorization_allowed(credential: Seq<char>)
    ensures
        header_text_allowed(authorization_of(credential)) <==> header_chars_allowed(credential),
{
    reveal_strlit("token ");
    let prefix = "token "@;
    let whole = authorization_of(credential);
    lemma_header_text(whole);
    if header_chars_allowed(whole) {
        assert forall|i: int| 0 <= i < credential.len() implies header_char_allowed(
            #[trigger] credential[i],
        ) by {
            assert(whole[prefix.len() + i] == credential[i]);
        }
    }
    if header_chars_allowed(credential) {
        assert forall|i: int| 0 <= i < whole.len() implies header_char_allowed(
            #[trigger] whole[i],
        ) by {
            if i >= prefix.len() {
                assert(whole[i] == credential[i - prefix.len()]);
            }
        }
    }
}

/// The settings of a session: what the transport is configured with before
/// the first request.
pub struct Session {
    authorization: String,
    user_agent: String,
    timeout_seconds: u64,
}

/// The mathematical value of a [`Session`].
pub struct SessionModel {
    pub authorization: Seq<char>,
    pub user_agent: Seq<char>,
    pub timeout_seconds: u64,
}

impl View for Session {
    type V = SessionModel;

    closed spec fn view(&self) -> SessionModel {
        SessionModel {
            authorization: self.authorization@,
            user_agent: self.user_agent@,
            timeout_seconds: self.timeout_seconds,
        }
    }
}

impl Session {
    /// A session never holds an `Authorization` value that a header cannot
    /// carry, and its signature and timeout are the fixed ones.
    #[verifier::type_invariant]
    spec fn valid(self) -> bool {
        &&& header_text_allowed(self.authorization@)
        &&& self.user_agent@ == USER_AGENT@
        &&& self.timeout_seconds == TIMEOUT_SECONDS
    }

    /// Settings for a session that authenticates with `credential`.
    ///
    /// Fails with [`Error::Configuration`] exactly when the credential cannot
    /// be placed in a header.
    pub fn new(credential: &str) -> (made: Result<Session, Error>)
        ensures
            made is Ok <==> header_chars_allowed(credential@),
            match made {
                Ok(session) => {
                    &&& header_text_allowed(authorization_of(credential@))
                    &&& session@ == (SessionModel {
                        authorization: authorization_of(credential@),
                        user_agent: USER_AGENT@,
                        timeout_seconds: TIMEOUT_SECONDS,
                    })
                },
                Err(e) => {
                    &&& !header_text_allowed(authorization_of(credential@))
                    &&& e@ == ErrorModel::Configuration
                },
            },
    {
        let mut authorization = "token ".to_owned();
        authorization.append(credential);
        proof {
            lemma_authorization_allowed(credential@);
        }
        if header_value_accepts(authorization.as_str()) {
            Ok(
                Session {
                    authorization,
                    user_agent: USER_AGENT.to_owned(),
                    timeout_seconds: TIMEOUT_SECONDS,
                },
            )
        } else {
            Err(Error::Configuration)
        }
    }

    /// The value of the `Authorization` header that every request carries.
    pub fn authorization(&self) -> (value: &str)
        ensures
            value@ == self@.authorization,
            header_text_allowed(value@),
    {
        proof {
            use_type_invariant(self);
        }
        self.authorization.as_str()
    }

    /// The value of the `User-Agent` header that every request carries.
    pub fn user_agent(&self) -> (value: &str)
        ensures
            value@ == self@.user_agent,
            value@ == USER_AGENT@,
    {
        proof {
            use_type_invariant(self);
        }
        self.user_agent.as_str()
    }

    /// The time allowed for one request, in seconds.
    pub fn timeout_seconds(&self) -> (seconds: u64)
        ensures
            seconds == self@.timeout_seconds,
            seconds == TIMEOUT_SECONDS,
    {
        proof {
            use_type_invariant(self);
        }
        self.timeout_seconds
    }
}

} // verus!

//! Info needed to connect to a device: the identity of its endpoint and the
//! secret of the session, in a form that a user can copy.
//!
//! A ticket reads `flap/<identity>/<secret>`: the literal `flap`, the
//! thirty-two bytes of the endpoint's public key in URL-safe Base64 without
//! padding, and the thirty-two bytes of the master secret in lower-case
//! hexadecimal, separated by slashes.

use vstd::prelude::*;
use vstd::string::StrSliceExecFns;
use vstd::string::StringExecFns;

use crate::crypto::master_key::MasterKey;
use crate::encoding::{
    array_from_slice, base64url_decode, base64url_decoding, base64url_encode, base64url_encoding,
    is_base64url_char,
};
use crate::error::Error;

verus! {

/// The length of an endpoint identity in bytes.
pub const NODE_ID_LENGTH: usize = 32;

/// The long-term public key by which the transport authenticates and finds
/// an endpoint.
#[derive(Debug, Clone, Copy, PartialEq, Eq)]
pub struct NodeId(pub [u8; 32]);

impl View for NodeId {
    type V = Seq<u8>;

    open spec fn view(&self) -> Seq<u8> {
        self.0@
    }
}

impl NodeId {
    pub fn as_bytes(&self) -> (bytes: &[u8; 32])
        ensures
            bytes@ == self@,
    {
        &self.0
    }
}

#[derive(Clone, Copy)]
pub struct Ticket {
    pub node_id: NodeId,
    master_key: MasterKey,
}

/// What a ticket says: whom to reach and with which secret.
pub struct TicketView {
    pub node_id: Seq<u8>,
    pub master_key: Seq<u8>,
}

impl View for Ticket {
    type V = TicketView;

    closed spec fn view(&self) -> TicketView {
        TicketView { node_id: self.node_id@, master_key: self.master_key@ }
    }
}

/// The characters that every ticket begins with.
pub open spec fn ticket_prefix() -> Seq<char> {
    seq!['f', 'l', 'a', 'p', '/']
}

/// The position of the first slash of `text` at or after `from`, or the
/// length of `text` where there is none.
pub open spec fn slash_index(text: Seq<char>, from: int) -> int
    decreases text.len() - from,
{
    if from >= text.len() {
        text.len() as int
    } else if text[from] == '/' {
        from
    } else {
        slash_index(text, from + 1)
    }
}

/// Whether `text` is made of characters of the URL-safe Base64 alphabet.
pub open spec fn is_base64url_text(text: Seq<char>) -> bool {
    forall|i: int| 0 <= i < text.len() ==> is_base64url_char(#[trigger] text[i])
}

/// The identity that a ticket's middle segment spells: URL-safe Base64
/// without padding, of thirty-two bytes.
pub open spec fn spec_node_id(text: Seq<char>) -> Option<Seq<u8>> {
    if is_base64url_text(text) {
        match base64url_decoding(text) {
            Some(bytes) => if bytes.len() == NODE_ID_LENGTH {
                Some(bytes)
            } else {
                None
            },
            None => None,
        }
    } else {
        None
    }
}

/// The first slash at or after `from` stands where no position before it
/// holds one.
pub proof fn lemma_slash_index(text: Seq<char>, from: int, at: int)
    requires
        0 <= from <= at <= text.len(),
        forall|k: int| from <= k < at ==> text[k] != '/',
        at < text.len() ==> text[at] == '/',
    ensures
        slash_index(text, from) == at,
    decreases at - from,
{
    if from < at {
        lemma_slash_index(text, from + 1, at);
    }
}

/// What `slash_index` returns is a position of a slash, or the end, and no
/// slash stands before it.
pub proof fn lemma_slash_index_first(text: Seq<char>, from: int)
    requires
        0 <= from <= text.len(),
    ensures
        from <= slash_index(text, from) <= text.len(),
        slash_index(text, from) < text.len() ==> text[slash_index(text, from)] == '/',
        forall|k: int| from <= k < slash_index(text, from) ==> text[k] != '/',
    decreases text.len() - from,
{
    if from < text.len() && text[from] != '/' {
        lemma_slash_index_first(text, from + 1);
    }
}

impl Ticket {
    /// The text of a ticket whose identity is written `node_id_text` and
    /// whose secret is `master_key`.
    pub open spec fn spec_text(node_id_text: Seq<char>, master_key: Seq<u8>) -> Seq<char> {
        ticket_prefix() + node_id_text + seq!['/'] + MasterKey::spec_encode(master_key)
    }

    /// The canonical text of a ticket.
    pub open spec fn spec_convert(ticket: TicketView) -> Seq<char> {
        Self::spec_text(base64url_encoding(ticket.node_id), ticket.master_key)
    }

    /// What `text` says as a ticket, if it is one: the prefix `flap/`, a
    /// segment that spells an identity, a slash, and a segment that spells a
    /// secret, with nothing before, between or behind.
    pub open spec fn spec_from_str(text: Seq<char>) -> Option<TicketView> {
        let slash = slash_index(text, 5);
        if text.len() >= 5 && text.subrange(0, 5) == ticket_prefix() && slash < text.len() {
            match (
                spec_node_id(text.subrange(5, slash)),
                MasterKey::spec_parse(text.subrange(slash + 1, text.len() as int)),
            ) {
                (Some(node_id), Some(master_key)) => Some(TicketView { node_id, master_key }),
                _ => None,
            }
        } else {
            None
        }
    }

    /// Text is read as a ticket only if it has the form
    /// `flap/<identity>/<secret>`, where the identity is the URL-safe Base64
    /// of thirty-two bytes and the secret sixty-four lower-case hexadecimal
    /// digits: everything else fails to parse.
    pub proof fn lemma_parsed_form(text: Seq<char>)
        requires
            Self::spec_from_str(text) is Some,
        ensures
            ({
                let slash = slash_index(text, 5);
                let identity = text.subrange(5, slash);
                let secret = text.subrange(slash + 1, text.len() as int);
                let ticket = Self::spec_from_str(text).unwrap();
                &&& text == ticket_prefix() + identity + seq!['/'] + secret
                &&& is_base64url_text(identity)
                &&& base64url_decoding(identity) == Some(ticket.node_id)
                &&& ticket.node_id.len() == NODE_ID_LENGTH
                &&& secret == MasterKey::spec_encode(ticket.master_key)
                &&& ticket.master_key.len() == crate::crypto::master_key::MASTER_KEY_LENGTH
                &&& secret.len() == 64
            }),
    {
        let slash = slash_index(text, 5);
        let identity = text.subrange(5, slash);
        let secret = text.subrange(slash + 1, text.len() as int);
        lemma_slash_index_first(text, 5);
        MasterKey::lemma_encode_parse(secret);
        assert(text =~= ticket_prefix() + identity + seq!['/'] + secret);
    }

    /// Reading the text of a ticket gives the ticket back, whenever the
    /// identity's Base64 text is of the alphabet and decodes to the identity.
    pub proof fn lemma_parse_text(node_id_text: Seq<char>, ticket: TicketView)
        requires
            is_base64url_text(node_id_text),
            base64url_decoding(node_id_text) == Some(ticket.node_id),
            ticket.node_id.len() == NODE_ID_LENGTH,
            ticket.master_key.len() == crate::crypto::master_key::MASTER_KEY_LENGTH,
        ensures
            Self::spec_from_str(Self::spec_text(node_id_text, ticket.master_key)) == Some(ticket),
    {
        let secret = MasterKey::spec_encode(ticket.master_key);
        let text = Self::spec_text(node_id_text, ticket.master_key);
        let at: int = 5 + node_id_text.len() as int;
        assert(text.len() == at + 1 + secret.len());
        assert forall|k: int| 5 <= k < at implies text[k] != '/' by {
            assert(text[k] == node_id_text[k - 5]);
            assert(is_base64url_char(node_id_text[k - 5]));
        }
        assert(text[at] == '/');
        lemma_slash_index(text, 5, at);
        assert(text.subrange(0, 5) =~= ticket_prefix());
        assert(text.subrange(5, at) =~= node_id_text);
        assert(text.subrange(at + 1, text.len() as int) =~= secret);
        MasterKey::lemma_parse_encode(ticket.master_key);
    }

    pub fn master_key(&self) -> (key: &MasterKey)
        ensures
            key@ == self@.master_key,
    {
        &self.master_key
    }

    /// The bytes of the identity that the ticket leads to.
    pub fn node_id_bytes(&self) -> (bytes: &[u8; 32])
        ensures
            bytes@ == self@.node_id,
    {
        &self.node_id.0
    }

    pub fn make(node_id: NodeId, master_key: MasterKey) -> (ticket: Ticket)
        ensures
            ticket@ == (TicketView { node_id: node_id@, master_key: master_key@ }),
    {
        Self { node_id, master_key }
    }

    /// The ticket as text. Reading the text gives the ticket back.
    pub fn convert(&self) -> (text: String)
        ensures
            text@ == Self::spec_convert(self@),
            Self::spec_from_str(text@) == Some(self@),
    {
        let node_id_text = base64url_encode(self.node_id.0.as_slice());
        let master_key_text = self.master_key.encode_to_string();
        let mut text = String::from_str("flap/");
        text.append(node_id_text.as_str());
        text.append("/");
        text.append(master_key_text.as_str());
        proof {
            reveal_strlit("flap/");
            reveal_strlit("/");
            assert("flap/"@ =~= ticket_prefix());
            assert("/"@ =~= seq!['/']);
            self.master_key.lemma_length();
            Self::lemma_parse_text(node_id_text@, self@);
        }
        text
    }

    /// Reads a ticket. Whatever is not of the form `flap/<identity>/<secret>`
    /// is a `TicketParseError`.
    pub fn from_str(s: &str) -> (res: Result<Ticket, Error>)
        ensures
            match res {
                Ok(ticket) => Self::spec_from_str(s@) == Some(ticket@),
                Err(e) => e == Error::TicketParseError && Self::spec_from_str(s@) is None,
            },
    {
        if !s.is_ascii() {
            proof {
                Self::lemma_ascii(s@);
            }
            return Err(Error::TicketParseError);
        }
        let bytes = s.as_bytes();
        proof {
            vstd::string::is_ascii_spec_bytes(s);
        }
        let length = bytes.len();
        assert(length == s@.len());
        if length < 5 || bytes[0] != 102 || bytes[1] != 108 || bytes[2] != 97 || bytes[3] != 112
            || bytes[4] != 47 {
            proof {
                if length >= 5 {
                    let head = s@.subrange(0, 5);
                    assert(head[0] == s@[0] && head[1] == s@[1] && head[2] == s@[2] && head[3]
                        == s@[3] && head[4] == s@[4]);
                }
            }
            return Err(Error::TicketParseError);
        }
        assert(s@.subrange(0, 5) =~= ticket_prefix());
        let mut slash: usize = 5;
        while slash < length && bytes[slash] != 47
            invariant
                5 <= slash <= length,
                length == s@.len(),
                bytes@.len() == length,
                forall|k: int| 0 <= k < length ==> bytes@[k] == s@[k] as u8,
                vstd::utf8::is_ascii_chars(s@),
                forall|k: int| 5 <= k < slash ==> s@[k] != '/',
            decreases length - slash,
        {
            assert('\0' <= s@[slash as int] <= '\u{7f}');
            slash += 1;
        }
        proof {
            if slash < length {
                assert('\0' <= s@[slash as int] <= '\u{7f}');
            }
            lemma_slash_index(s@, 5, slash as int);
        }
        if slash == length {
            return Err(Error::TicketParseError);
        }
        let identity = s.substring_ascii(5, slash);
        let secret = s.substring_ascii(slash + 1, length);
        let mut i: usize = 5;
        while i < slash
            invariant
                5 <= i <= slash < length,
                length == s@.len(),
                bytes@.len() == length,
                forall|k: int| 0 <= k < length ==> bytes@[k] == s@[k] as u8,
                vstd::utf8::is_ascii_chars(s@),
                identity@ == s@.subrange(5, slash as int),
                slash_index(s@, 5) == slash,
                forall|k: int| 0 <= k < i - 5 ==> is_base64url_char(#[trigger] identity@[k]),
            decreases slash - i,
        {
            let b = bytes[i];
            assert('\0' <= s@[i as int] <= '\u{7f}');
            assert(identity@[i - 5] == s@[i as int]);
            let in_alphabet = (65 <= b && b <= 90) || (97 <= b && b <= 122) || (48 <= b && b <= 57)
                || b == 45 || b == 95;
            if !in_alphabet {
                assert(!is_base64url_char(identity@[i - 5]));
                return Err(Error::TicketParseError);
            }
            i += 1;
        }
        assert(is_base64url_text(identity@));
        let node_id = match base64url_decode(identity) {
            Some(decoded) => {
                if decoded.len() != NODE_ID_LENGTH {
                    return Err(Error::TicketParseError);
                }
                NodeId(array_from_slice::<32>(decoded.as_slice()))
            },
            None => {
                return Err(Error::TicketParseError);
            },
        };
        match MasterKey::from_str(secret) {
            Ok(master_key) => Ok(Ticket { node_id, master_key }),
            Err(_) => Err(Error::TicketParseError),
        }
    }

    /// Text with a character outside ASCII is no ticket.
    proof fn lemma_ascii(text: Seq<char>)
        requires
            !vstd::utf8::is_ascii_chars(text),
        ensures
            Self::spec_from_str(text) is None,
    {
        if Self::spec_from_str(text) is Some {
            Self::lemma_parsed_form(text);
            let slash = slash_index(text, 5);
            let identity = text.subrange(5, slash);
            let secret = text.subrange(slash + 1, text.len() as int);
            let bad = choose|i: int| 0 <= i < text.len() && !('\0' <= #[trigger] text[i] <= '\u{7f}');
            lemma_slash_index_first(text, 5);
            if bad < 5 {
                assert(text.subrange(0, 5)[bad] == text[bad]);
            } else if bad < slash {
                assert(identity[bad - 5] == text[bad]);
                assert(is_base64url_char(identity[bad - 5]));
            } else if bad == slash {
            } else {
                assert(secret[bad - slash - 1] == text[bad]);
                assert(crate::encoding::hex_decoding(secret) is Some);
                assert(crate::encoding::hex_value(secret[bad - slash - 1]) is Some);
            }
        }
    }
}

} // verus!

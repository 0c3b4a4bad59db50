//! The header that leads every frame.
//!
//! On the wire a header is the JSON object
//! `{"rpc":<string>,"body_size":<integer>,"is_return":<bool>}`, written
//! without white space and in this order. A reader accepts any JSON object
//! that has these three members.
//!
//! The name of the procedure is written by the JSON writer, the rest by
//! hand. A name made of letters, digits and underscores needs no escape, so
//! a header with such a name holds no closing brace but its last byte, and
//! the scan finds its end. Of a header with another name that cannot be
//! said.

use crate::fields::boolean_member;
use crate::fields::read_boolean_member;
use crate::fields::read_text_member;
use crate::fields::read_unsigned_member;
use crate::fields::text_member;
use crate::fields::unsigned_member;
use crate::json::json_document;
use crate::json::json_string_text;
use crate::json::parse_document;
use crate::json::write_string;
use crate::scanner::header_end;
use crate::scanner::is_header_end;
use crate::scanner::lemma_header_end_is;
use crate::scanner::CLOSE_BRACE;
use crate::scanner::OPEN_BRACE;
use crate::text::ascii_bytes;
use crate::text::decimal_text;
use crate::text::free_of;
use crate::text::is_unescaped_ascii;
use crate::text::is_unescaped_text;
use crate::text::lemma_unescaped_text;
use crate::text::lemma_decimal_digits;
use crate::text::push_ascii;
use crate::text::push_bytes;
use crate::text::push_decimal;
use vstd::prelude::*;
use vstd::utf8::is_ascii_chars_encode_utf8;

verus! {

/// Names the procedure that a frame belongs to, says how many bytes its body
/// takes, and whether the frame carries a result rather than an argument.
#[derive(Clone, Debug, PartialEq, Eq)]
pub struct MessageHeader {
    pub rpc: String,
    pub body_size: usize,
    pub is_return: bool,
}

/// What a header says, as mathematical values.
pub struct HeaderView {
    pub rpc: Seq<char>,
    pub body_size: nat,
    pub is_return: bool,
}

impl View for MessageHeader {
    type V = HeaderView;

    open spec fn view(&self) -> HeaderView {
        HeaderView { rpc: self.rpc@, body_size: self.body_size as nat, is_return: self.is_return }
    }
}

/// A character that a procedure's name may hold: a letter, a digit or an
/// underscore. JSON writes such a character as it is.
pub open spec fn is_name_char(c: char) -> bool {
    ||| 'a' <= c <= 'z'
    ||| 'A' <= c <= 'Z'
    ||| '0' <= c <= '9'
    ||| c == '_'
}

/// A procedure's name is made of name characters only.
pub open spec fn is_plain_name(s: Seq<char>) -> bool {
    forall|i: int| 0 <= i < s.len() ==> is_name_char(#[trigger] s[i])
}

/// Whether `name` is made of letters, digits and underscores only, so that
/// the scan finds the end of a header that carries it.
pub fn is_plain(name: &str) -> (r: bool)
    ensures
        r == is_plain_name(name@),
{
    if !name.is_ascii() {
        proof {
            let i = choose|i: int| 0 <= i < name@.len() && !('\0' <= #[trigger] name@[i] <= '\u{7f}');
            assert(!is_name_char(name@[i]));
        }
        return false;
    }
    let bytes = name.as_bytes();
    proof {
        is_ascii_chars_encode_utf8(name@);
    }
    let mut i: usize = 0;
    while i < bytes.len()
        invariant
            i <= bytes.len(),
            bytes@.len() == name@.len(),
            forall|j: int| 0 <= j < bytes@.len() ==> name@[j] as u8 == #[trigger] bytes@[j],
            forall|j: int| 0 <= j < bytes@.len() ==> '\0' <= #[trigger] name@[j] <= '\u{7f}',
            forall|j: int| 0 <= j < i ==> is_name_char(#[trigger] name@[j]),
        decreases bytes.len() - i,
    {
        let b = bytes[i];
        let plain = (0x61 <= b && b <= 0x7a) || (0x41 <= b && b <= 0x5a) || (0x30 <= b && b <= 0x39)
            || b == 0x5f;
        proof {
            let c = name@[i as int];
            assert(c as u8 == b);
            assert('\0' <= c <= '\u{7f}');
            assert(plain == is_name_char(c));
        }
        if !plain {
            return false;
        }
        i += 1;
    }
    true
}

/// `true` or `false`, as JSON spells them.
pub open spec fn boolean_text(b: bool) -> Seq<u8> {
    if b {
        ascii_bytes("true"@)
    } else {
        ascii_bytes("false"@)
    }
}

/// The bytes of a header on the wire.
pub open spec fn header_text(h: HeaderView) -> Seq<u8> {
    ascii_bytes("{\"rpc\":"@) + json_string_text(h.rpc) + ascii_bytes(",\"body_size\":"@)
        + decimal_text(h.body_size) + ascii_bytes(",\"is_return\":"@) + boolean_text(h.is_return)
        + ascii_bytes("}"@)
}

/// The header that a JSON text holds: an object with a string `rpc`, an
/// unsigned integer `body_size` that fits a `usize`, and a boolean
/// `is_return`. Other members are ignored.
pub open spec fn header_of(text: Seq<u8>) -> Option<HeaderView> {
    match json_document(text) {
        None => None,
        Some(doc) => match (
            text_member(doc, "rpc"@),
            unsigned_member(doc, "body_size"@),
            boolean_member(doc, "is_return"@),
        ) {
            (Some(rpc), Some(body_size), Some(is_return)) => if body_size <= usize::MAX {
                Some(HeaderView { rpc, body_size: body_size as nat, is_return })
            } else {
                None
            },
            _ => None,
        },
    }
}

/// The view of an optional header.
pub open spec fn optional_view(h: Option<MessageHeader>) -> Option<HeaderView> {
    match h {
        Some(h) => Some(h@),
        None => None,
    }
}

/// Joining two texts that lack a byte gives a text that lacks it.
pub proof fn lemma_free_of_concat(a: Seq<u8>, b: Seq<u8>, x: u8)
    requires
        free_of(a, x),
        free_of(b, x),
    ensures
        free_of(a + b, x),
{
}

/// The JSON writer writes a plain name as it is, between quotes.
pub proof fn lemma_plain_name_text(rpc: Seq<char>)
    requires
        is_plain_name(rpc),
    ensures
        json_string_text(rpc) == seq![0x22u8] + ascii_bytes(rpc) + seq![0x22u8],
{
    assert(is_unescaped_text(rpc)) by {
        assert forall|i: int| 0 <= i < rpc.len() implies is_unescaped_ascii(#[trigger] rpc[i]) by {
            assert(is_name_char(rpc[i]));
        }
    }
    lemma_unescaped_text(rpc);
}

/// All of a header but its last byte, which is the closing brace.
pub open spec fn header_stem(h: HeaderView) -> Seq<u8> {
    ascii_bytes("{\"rpc\":"@) + json_string_text(h.rpc) + ascii_bytes(",\"body_size\":"@)
        + decimal_text(h.body_size) + ascii_bytes(",\"is_return\":"@) + boolean_text(h.is_return)
}

/// A header that names a procedure by a plain name opens with a brace and
/// holds one closing brace, its last byte.
pub proof fn lemma_header_text_braces(h: HeaderView)
    requires
        is_plain_name(h.rpc),
    ensures
        header_text(h) == header_stem(h).push(CLOSE_BRACE),
        header_stem(h).len() >= 1,
        header_stem(h)[0] == OPEN_BRACE,
        free_of(header_stem(h), CLOSE_BRACE),
{
    reveal_strlit("{\"rpc\":");
    reveal_strlit(",\"body_size\":");
    reveal_strlit(",\"is_return\":");
    reveal_strlit("true");
    reveal_strlit("false");
    reveal_strlit("}");
    lemma_plain_name_text(h.rpc);
    let lead = ascii_bytes("{\"rpc\":"@);
    let name = json_string_text(h.rpc);
    let size_key = ascii_bytes(",\"body_size\":"@);
    let size = decimal_text(h.body_size);
    let flag_key = ascii_bytes(",\"is_return\":"@);
    let flag = boolean_text(h.is_return);
    assert(free_of(lead, CLOSE_BRACE));
    assert(free_of(name, CLOSE_BRACE)) by {
        assert forall|i: int| 0 <= i < name.len() implies name[i] != CLOSE_BRACE by {
            if 1 <= i <= h.rpc.len() {
                assert(is_name_char(h.rpc[i - 1]));
            }
        }
    }
    assert(free_of(size_key, CLOSE_BRACE));
    assert(free_of(size, CLOSE_BRACE)) by {
        lemma_decimal_digits(h.body_size);
    }
    assert(free_of(flag_key, CLOSE_BRACE));
    assert(free_of(flag, CLOSE_BRACE));
    lemma_free_of_concat(lead, name, CLOSE_BRACE);
    lemma_free_of_concat(lead + name, size_key, CLOSE_BRACE);
    lemma_free_of_concat(lead + name + size_key, size, CLOSE_BRACE);
    lemma_free_of_concat(lead + name + size_key + size, flag_key, CLOSE_BRACE);
    lemma_free_of_concat(lead + name + size_key + size + flag_key, flag, CLOSE_BRACE);
    assert(ascii_bytes("}"@) == seq![CLOSE_BRACE]);
    assert(header_text(h) == header_stem(h).push(CLOSE_BRACE));
    assert(header_stem(h)[0] == lead[0]);
}

/// The scan finds the end of a written header at its last byte, whatever
/// follows the header in the buffer.
pub proof fn lemma_header_text_end(h: HeaderView, tail: Seq<u8>)
    requires
        is_plain_name(h.rpc),
    ensures
        header_end(header_text(h) + tail) == Some(header_text(h).len() as int),
{
    lemma_header_text_braces(h);
    let text = header_text(h);
    let buf = text + tail;
    let end = text.len() as int;
    assert(is_header_end(buf, end)) by {
        assert(buf[0] == header_stem(h)[0]);
        assert(buf[end - 1] == CLOSE_BRACE);
        assert forall|i: int| 1 <= i < end - 1 implies buf[i] != CLOSE_BRACE by {
            assert(buf[i] == header_stem(h)[i]);
        }
    }
    lemma_header_end_is(buf, end);
}

impl MessageHeader {
    /// Appends this header to `buf` as it goes on the wire.
    pub fn write(&self, buf: &mut Vec<u8>)
        ensures
            final(buf)@ == old(buf)@ + header_text(self@),
    {
        proof {
            reveal_strlit("{\"rpc\":");
            reveal_strlit(",\"body_size\":");
            reveal_strlit(",\"is_return\":");
            reveal_strlit("true");
            reveal_strlit("false");
            reveal_strlit("}");
        }
        push_ascii(buf, "{\"rpc\":");
        let name = write_string(self.rpc.as_str()).unwrap();
        push_bytes(buf, name.as_slice());
        push_ascii(buf, ",\"body_size\":");
        push_decimal(buf, self.body_size);
        push_ascii(buf, ",\"is_return\":");
        if self.is_return {
            push_ascii(buf, "true");
        } else {
            push_ascii(buf, "false");
        }
        push_ascii(buf, "}");
    }

    /// Reads a header from the JSON text `text`, which must hold nothing
    /// else. Returns `None` where the text is no JSON or lacks one of the
    /// three members.
    pub fn read(text: &[u8]) -> (r: Option<MessageHeader>)
        ensures
            optional_view(r) == header_of(text@),
    {
        let doc = match parse_document(text) {
            Ok(doc) => doc,
            Err(_) => return None,
        };
        let rpc = match read_text_member(&doc, "rpc") {
            Some(rpc) => rpc,
            None => return None,
        };
        let declared = match read_unsigned_member(&doc, "body_size") {
            Some(n) => n,
            None => return None,
        };
        let is_return = match read_boolean_member(&doc, "is_return") {
            Some(b) => b,
            None => return None,
        };
        if declared > usize::MAX as u64 {
            return None;
        }
        Some(MessageHeader { rpc, body_size: declared as usize, is_return })
    }
}

} // verus!

//! Who a request comes from.

use vstd::prelude::*;
use vstd::slice::slice_to_vec;
use vstd::string::*;
use vstd::utf8::*;
use crate::text::{lossy_text, text_from_bytes};

verus! {

/// The byte `b` as it stands in a user id: a `_` for a `.` or a `:`.
pub open spec fn underscored(b: u8) -> u8 {
    if b == 0x2e || b == 0x3a {
        0x5f
    } else {
        b
    }
}

/// The character `c` as it stands in a user id: a `_` for a `.` or a `:`.
pub open spec fn underscored_char(c: char) -> char {
    if c == '.' || c == ':' {
        '_'
    } else {
        c
    }
}

/// The UTF-8 bytes of the user id that stands for the address `ip`: `user_`,
/// then the address with `_` for every `.` and `:`.
pub open spec fn address_id(ip: Seq<char>) -> Seq<u8> {
    encode_utf8("user_"@) + encode_utf8(ip).map_values(|b: u8| underscored(b))
}

/// The user that a request names, if it names one: an empty name is none.
pub open spec fn named_user(user_id: Option<&str>) -> Option<Seq<char>> {
    match user_id {
        Some(id) => if id@.len() > 0 {
            Some(id@)
        } else {
            None
        },
        None => None,
    }
}

/// The user a request comes from.
///
/// The id that the request names, unless it is empty. Else an id made of the
/// address the request was forwarded for. Else `demo_user`.
pub fn extract_user_id(user_id: Option<&str>, forwarded_for: Option<&str>) -> (r: String)
    ensures
        match named_user(user_id) {
            Some(id) => r@ == id,
            None => match forwarded_for {
                Some(ip) => r@ == lossy_text(address_id(ip@)) && (is_ascii_chars(ip@) ==> r@
                    == "user_"@ + ip@.map_values(|c: char| underscored_char(c))),
                None => r@ == "demo_user"@,
            },
        },
{
    match user_id {
        Some(id) => {
            if !id.is_empty() {
                return String::from_str(id);
            }
        },
        None => {},
    }
    match forwarded_for {
        Some(ip) => {
            let bytes = ip.as_bytes();
            let mut out: Vec<u8> = slice_to_vec("user_".as_bytes());
            let mut i: usize = 0;
            while i < bytes.len()
                invariant
                    i <= bytes@.len(),
                    bytes@ == encode_utf8(ip@),
                    out@ == encode_utf8("user_"@) + bytes@.take(i as int).map_values(
                        |b: u8| underscored(b),
                    ),
                decreases bytes@.len() - i,
            {
                let b = bytes[i];
                let mapped: u8 = if b == 0x2e || b == 0x3a {
                    0x5f
                } else {
                    b
                };
                out.push(mapped);
                assert(out@ =~= encode_utf8("user_"@) + bytes@.take(i + 1).map_values(
                    |b: u8| underscored(b),
                ));
                i += 1;
            }
            assert(bytes@.take(i as int) =~= bytes@);
            proof {
                if is_ascii_chars(ip@) {
                    lemma_ascii_address(ip@);
                }
            }
            text_from_bytes(out.as_slice())
        },
        None => String::from_str("demo_user"),
    }
}

/// For an address of ASCII characters, the bytes of its user id are the
/// encoding of `user_` and the address with its characters replaced.
proof fn lemma_ascii_address(ip: Seq<char>)
    requires
        is_ascii_chars(ip),
    ensures
        valid_utf8(address_id(ip)),
        decode_utf8(address_id(ip)) == "user_"@ + ip.map_values(|c: char| underscored_char(c)),
{
    reveal_strlit("user_");
    let head = "user_"@;
    let tail = ip.map_values(|c: char| underscored_char(c));
    let text = head + tail;
    assert(is_ascii_chars(head));
    assert(is_ascii_chars(tail));
    assert(is_ascii_chars(text));
    is_ascii_chars_encode_utf8(head);
    is_ascii_chars_encode_utf8(ip);
    is_ascii_chars_encode_utf8(text);
    let bytes = address_id(ip);
    assert(encode_utf8(text) =~= bytes) by {
        assert(encode_utf8(text).len() == bytes.len());
        assert forall|i: int| 0 <= i < bytes.len() implies encode_utf8(text)[i] == bytes[i] by {
            assert(encode_utf8(text)[i] == text[i] as u8);
            if i < head.len() {
                assert(text[i] == head[i]);
                assert(bytes[i] == encode_utf8(head)[i]);
            } else {
                let k = i - head.len();
                assert(text[i] == underscored_char(ip[k]));
                assert(bytes[i] == underscored(encode_utf8(ip)[k]));
                assert(encode_utf8(ip)[k] == ip[k] as u8);
            }
        }
    }
    encode_utf8_valid_utf8(text);
    encode_utf8_decode_utf8(text);
}

} // verus!

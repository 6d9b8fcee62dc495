//! Strings restricted to the characters that RFC 3986 calls "unreserved".

use vstd::prelude::*;
use vstd::string::*;
use vstd::utf8::*;

verus! {

/// Whether `byte` is one of `a-z`, `A-Z`, `0-9`, `-`, `.`, `_`, `~`.
pub open spec fn is_unreserved(byte: u8) -> bool {
    ||| 0x61 <= byte <= 0x7a
    ||| 0x41 <= byte <= 0x5a
    ||| 0x30 <= byte <= 0x39
    ||| byte == 0x2d
    ||| byte == 0x2e
    ||| byte == 0x5f
    ||| byte == 0x7e
}

/// Whether every byte of `bytes` is unreserved.
pub open spec fn all_unreserved(bytes: Seq<u8>) -> bool {
    forall|i: int| 0 <= i < bytes.len() ==> is_unreserved(#[trigger] bytes[i])
}

/// The first byte of `bytes` that is not unreserved, if there is one.
pub open spec fn first_reserved(bytes: Seq<u8>) -> Option<u8>
    decreases bytes.len(),
{
    if bytes.len() == 0 {
        None
    } else if !is_unreserved(bytes[0]) {
        Some(bytes[0])
    } else {
        first_reserved(bytes.drop_first())
    }
}

/// The bytes that a string is stored as.
pub open spec fn text_bytes(text: Seq<char>) -> Seq<u8> {
    encode_utf8(text)
}

/// `first_reserved` finds nothing exactly on the sequences made of unreserved
/// bytes only, and what it finds is a byte of the sequence that is not
/// unreserved and that only unreserved bytes precede.
pub proof fn lemma_first_reserved(bytes: Seq<u8>)
    ensures
        first_reserved(bytes) is None <==> all_unreserved(bytes),
        first_reserved(bytes) matches Some(b) ==> exists|i: int|
            0 <= i < bytes.len() && #[trigger] bytes[i] == b && !is_unreserved(b)
                && all_unreserved(bytes.take(i)),
    decreases bytes.len(),
{
    if bytes.len() == 0 {
    } else if !is_unreserved(bytes[0]) {
        assert(bytes.take(0) =~= Seq::<u8>::empty());
        assert(bytes[0] == first_reserved(bytes)->0);
    } else {
        let rest = bytes.drop_first();
        lemma_first_reserved(rest);
        if first_reserved(rest) is None {
            assert forall|i: int| 0 <= i < bytes.len() implies is_unreserved(
                #[trigger] bytes[i],
            ) by {
                if i > 0 {
                    assert(bytes[i] == rest[i - 1]);
                }
            }
        } else {
            let b = first_reserved(rest)->0;
            let j = choose|j: int|
                0 <= j < rest.len() && #[trigger] rest[j] == b && !is_unreserved(b)
                    && all_unreserved(rest.take(j));
            assert(bytes[j + 1] == b);
            assert forall|k: int| 0 <= k < bytes.take(j + 1).len() implies is_unreserved(
                #[trigger] bytes.take(j + 1)[k],
            ) by {
                if k > 0 {
                    assert(bytes.take(j + 1)[k] == rest.take(j)[k - 1]);
                }
            }
            assert(!all_unreserved(bytes)) by {
                assert(!is_unreserved(bytes[j + 1]));
            }
        }
    }
}

/// A text whose bytes are all unreserved is ASCII, so it has as many bytes as
/// characters and each byte is its character's code.
pub proof fn lemma_unreserved_is_ascii(text: Seq<char>)
    requires
        all_unreserved(text_bytes(text)),
    ensures
        is_ascii_chars(text),
        text_bytes(text).len() == text.len(),
        forall|i: int| 0 <= i < text.len() ==> #[trigger] text_bytes(text)[i] == text[i] as u8,
    decreases text.len(),
{
    if text.len() > 0 {
        let c = text[0] as u32;
        let head = encode_scalar(c);
        let rest = text.drop_first();
        char_is_scalar(text[0]);
        assert(text_bytes(text) =~= head + text_bytes(rest));
        assert(text_bytes(text)[0] == head[0]);
        assert(is_unreserved(text_bytes(text)[0]));
        assert(has_width_1_encoding(c)) by {
            if has_width_2_encoding(c) {
                assert(leading_byte_width_2(c) >= 0xc0) by (bit_vector);
            } else if has_width_3_encoding(c) {
                assert(leading_byte_width_3(c) >= 0xe0) by (bit_vector);
            } else if has_width_4_encoding(c) {
                assert(leading_byte_width_4(c) >= 0xf0) by (bit_vector);
            }
        }
        assert(head.len() == 1);
        assert forall|i: int| 0 <= i < text_bytes(rest).len() implies is_unreserved(
            #[trigger] text_bytes(rest)[i],
        ) by {
            assert(text_bytes(rest)[i] == text_bytes(text)[i + 1]);
        }
        lemma_unreserved_is_ascii(rest);
        assert forall|i: int| 0 <= i < text.len() implies '\0' <= #[trigger] text[i]
            <= '\u{7f}' by {
            if i > 0 {
                assert(text[i] == rest[i - 1]);
            } else {
                char_u32_cast(text[0], c);
            }
        }
        is_ascii_chars_encode_utf8(text);
    } else {
        assert(is_ascii_chars(text));
    }
}

/// Whether `c` is one of `a-z`, `A-Z`, `0-9`, `-`, `.`, `_`, `~`.
pub open spec fn is_unreserved_char(c: char) -> bool {
    ||| 'a' <= c <= 'z'
    ||| 'A' <= c <= 'Z'
    ||| '0' <= c <= '9'
    ||| c == '-'
    ||| c == '.'
    ||| c == '_'
    ||| c == '~'
}

/// Whether every character of `text` is unreserved.
pub open spec fn all_unreserved_chars(text: Seq<char>) -> bool {
    forall|i: int| 0 <= i < text.len() ==> is_unreserved_char(#[trigger] text[i])
}

/// The bytes of a text are all unreserved exactly if its characters are,
/// and then there are as many bytes as characters.
pub proof fn lemma_unreserved_chars(text: Seq<char>)
    ensures
        all_unreserved(text_bytes(text)) <==> all_unreserved_chars(text),
        all_unreserved_chars(text) ==> text_bytes(text).len() == text.len(),
{
    if all_unreserved(text_bytes(text)) {
        lemma_unreserved_is_ascii(text);
        assert forall|i: int| 0 <= i < text.len() implies is_unreserved_char(
            #[trigger] text[i],
        ) by {
            assert(is_unreserved(text_bytes(text)[i]));
            assert('\0' <= text[i] <= '\u{7f}');
        }
    }
    if all_unreserved_chars(text) {
        assert forall|i: int| 0 <= i < text.len() implies '\0' <= #[trigger] text[i]
            <= '\u{7f}' by {
            assert(is_unreserved_char(text[i]));
        }
        is_ascii_chars_encode_utf8(text);
        assert forall|i: int| 0 <= i < text_bytes(text).len() implies is_unreserved(
            #[trigger] text_bytes(text)[i],
        ) by {
            assert(is_unreserved_char(text[i]));
            assert(text_bytes(text)[i] == text[i] as u8);
        }
    }
}

/// A string that holds unreserved characters only. Such a string is always
/// safe to place in the path of a URL.
pub struct UnreservedString(String);

impl View for UnreservedString {
    type V = Seq<char>;

    closed spec fn view(&self) -> Seq<char> {
        self.0@
    }
}

impl UnreservedString {
    #[verifier::type_invariant]
    closed spec fn unreserved_only(&self) -> bool {
        all_unreserved(text_bytes(self.0@))
    }

    /// Whether `byte` may occur in an unreserved string.
    pub fn check(byte: u8) -> (ok: bool)
        ensures
            ok == is_unreserved(byte),
    {
        (0x61 <= byte && byte <= 0x7a) || (0x41 <= byte && byte <= 0x5a) || (0x30 <= byte && byte
            <= 0x39) || byte == 0x2d || byte == 0x2e || byte == 0x5f || byte == 0x7e
    }

    /// Accepts `input` if all its bytes are unreserved, and otherwise hands
    /// back the first byte that is not.
    pub fn new(input: &str) -> (r: Result<UnreservedString, u8>)
        ensures
            match first_reserved(text_bytes(input@)) {
                Some(byte) => r == Err::<UnreservedString, u8>(byte),
                None => r is Ok && r->Ok_0@ == input@,
            },
    {
        let bytes = input.as_bytes();
        let mut i: usize = 0;
        proof {
            assert(bytes@.skip(0) =~= bytes@);
        }
        while i < bytes.len()
            invariant
                i <= bytes.len(),
                bytes@ == text_bytes(input@),
                first_reserved(bytes@) == first_reserved(bytes@.skip(i as int)),
            decreases bytes.len() - i,
        {
            let byte = bytes[i];
            if !Self::check(byte) {
                return Err(byte);
            }
            proof {
                assert(bytes@.skip(i as int).drop_first() =~= bytes@.skip(i + 1));
            }
            i += 1;
        }
        proof {
            lemma_first_reserved(bytes@);
        }
        Ok(UnreservedString(input.to_owned()))
    }

    /// The number of bytes, which is also the number of characters.
    pub fn len(&self) -> (n: usize)
        ensures
            n == self@.len(),
            n == text_bytes(self@).len(),
    {
        proof {
            use_type_invariant(self);
            lemma_unreserved_is_ascii(self.0@);
        }
        self.0.as_str().as_bytes().len()
    }

    /// The text itself, which holds unreserved bytes only.
    pub fn as_str(&self) -> (text: &str)
        ensures
            text@ == self@,
            all_unreserved(text_bytes(self@)),
    {
        proof {
            use_type_invariant(self);
        }
        self.0.as_str()
    }

}

} // verus!

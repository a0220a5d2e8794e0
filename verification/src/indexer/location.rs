//! Where the persistent catalog of one scanned path lives.
use vstd::prelude::*;
use vstd::string::StringExecFns;
use vstd::utf8::encode_utf8;

verus! {

/// Bytes that stay as they are in a percent-encoded text: ASCII letters,
/// digits, `-`, `.`, `_` and `~`.
pub open spec fn is_unreserved(byte: u8) -> bool {
    ||| 0x30 <= byte <= 0x39
    ||| 0x41 <= byte <= 0x5A
    ||| 0x61 <= byte <= 0x7A
    ||| byte == 0x2D
    ||| byte == 0x2E
    ||| byte == 0x5F
    ||| byte == 0x7E
}

/// The upper-case hexadecimal digit of a value below sixteen.
pub open spec fn hex_digit(value: u8) -> char {
    if value < 10 {
        (0x30 + value) as u8 as char
    } else {
        (0x37 + value) as u8 as char
    }
}

/// One byte, percent-encoded.
pub open spec fn encoded_byte(byte: u8) -> Seq<char> {
    if is_unreserved(byte) {
        seq![byte as char]
    } else {
        seq!['%', hex_digit(byte / 16), hex_digit(byte % 16)]
    }
}

/// A byte string, percent-encoded byte by byte.
pub open spec fn percent_encoded(bytes: Seq<u8>) -> Seq<char>
    decreases bytes.len(),
{
    if bytes.len() == 0 {
        Seq::empty()
    } else {
        percent_encoded(bytes.drop_last()) + encoded_byte(bytes.last())
    }
}

/// The location of the catalog for `path` under `base`, as text: `base`, a
/// slash, and the UTF-8 bytes of `path` percent-encoded.
pub open spec fn run_location(base: Seq<char>, path: Seq<char>) -> Seq<char> {
    base + seq!['/'] + percent_encoded(encode_utf8(path))
}

/// `urlencoding::encode`: every byte of the text's UTF-8 form is kept if it is
/// an ASCII letter, a digit or one of `-`, `.`, `_`, `~`, and is replaced by
/// `%` and its two upper-case hexadecimal digits otherwise.
#[verifier::external_body]
fn percent_encode(text: &str) -> (encoded: String)
    ensures
        encoded@ == percent_encoded(encode_utf8(text@)),
{
    urlencoding::encode(text).into_owned()
}

/// The directory that holds the persistent catalog of the scanned `path`:
/// one directory per path, under `base`, named by the path percent-encoded so
/// that no two paths share one.
pub fn index_run_location(base: &String, path: &String) -> (location: String)
    ensures
        location@ == run_location(base@, path@),
{
    let encoded = percent_encode(path.as_str());
    proof {
        reveal_strlit("/");
        assert("/"@ =~= seq!['/']);
    }
    base.clone().concat("/").concat(encoded.as_str())
}

/// The value of an upper-case hexadecimal digit.
pub open spec fn hex_value(digit: char) -> int {
    if (digit as u32) < 0x3A {
        digit as u32 - 0x30
    } else {
        digit as u32 - 0x37
    }
}

/// The bytes that a percent-encoded text stands for, read from its end: a
/// `%` two places before the last one opens an escaped byte, any other last
/// character stands for itself.
pub open spec fn percent_decoded(text: Seq<char>) -> Seq<u8>
    decreases text.len(),
{
    if text.len() == 0 {
        Seq::empty()
    } else if text.len() >= 3 && text[text.len() - 3] == '%' {
        percent_decoded(text.subrange(0, text.len() - 3)).push(
            (hex_value(text[text.len() - 2]) * 16 + hex_value(text[text.len() - 1])) as u8,
        )
    } else {
        percent_decoded(text.drop_last()).push(text.last() as u8)
    }
}

proof fn lemma_encoded_byte(byte: u8)
    ensures
        is_unreserved(byte) ==> encoded_byte(byte).len() == 1 && encoded_byte(byte)[0] != '%'
            && encoded_byte(byte)[0] as u8 == byte,
        !is_unreserved(byte) ==> {
            &&& encoded_byte(byte).len() == 3
            &&& encoded_byte(byte)[0] == '%'
            &&& encoded_byte(byte)[1] != '%'
            &&& encoded_byte(byte)[2] != '%'
            &&& hex_value(encoded_byte(byte)[1]) * 16 + hex_value(encoded_byte(byte)[2]) == byte
        },
{
    let high = byte / 16;
    let low = byte % 16;
    assert(high < 16 && low < 16);
    assert(high * 16 + low == byte);
    assert(hex_value(hex_digit(high)) == high);
    assert(hex_value(hex_digit(low)) == low);
    assert(hex_digit(high) != '%');
    assert(hex_digit(low) != '%');
}

proof fn lemma_no_percent_near_the_end(bytes: Seq<u8>)
    ensures
        percent_encoded(bytes).len() >= 1 ==> percent_encoded(bytes).last() != '%',
        percent_encoded(bytes).len() >= 2 ==> percent_encoded(bytes)[percent_encoded(bytes).len()
            - 2] != '%',
        bytes.len() > 0 ==> percent_encoded(bytes).len() > 0,
    decreases bytes.len(),
{
    if bytes.len() > 0 {
        lemma_no_percent_near_the_end(bytes.drop_last());
        lemma_encoded_byte(bytes.last());
    }
}

/// Decoding undoes encoding.
pub proof fn percent_decoding_inverts(bytes: Seq<u8>)
    ensures
        percent_decoded(percent_encoded(bytes)) == bytes,
    decreases bytes.len(),
{
    if bytes.len() > 0 {
        let earlier = percent_encoded(bytes.drop_last());
        let text = percent_encoded(bytes);
        percent_decoding_inverts(bytes.drop_last());
        lemma_no_percent_near_the_end(bytes.drop_last());
        lemma_encoded_byte(bytes.last());
        if is_unreserved(bytes.last()) {
            assert(text.drop_last() =~= earlier);
            assert(text.last() as u8 == bytes.last());
            if text.len() >= 3 {
                assert(text[text.len() - 3] == earlier[earlier.len() - 2]);
            }
        } else {
            assert(text.subrange(0, text.len() - 3) =~= earlier);
            assert(text[text.len() - 3] == '%');
        }
        assert(percent_decoded(text) =~= bytes.drop_last().push(bytes.last()));
        assert(bytes.drop_last().push(bytes.last()) =~= bytes);
    }
}

/// Under one base, two scanned paths share a catalog location only if they
/// are the same path: the encoding of the path is unambiguous.
pub proof fn distinct_paths_have_distinct_locations(
    base: Seq<char>,
    one: Seq<char>,
    other: Seq<char>,
)
    requires
        run_location(base, one) == run_location(base, other),
    ensures
        one == other,
{
    let head = base + seq!['/'];
    let one_name = percent_encoded(encode_utf8(one));
    let other_name = percent_encoded(encode_utf8(other));
    assert(one_name =~= (head + one_name).subrange(head.len() as int, (head + one_name).len() as int));
    assert(other_name =~= (head + other_name).subrange(
        head.len() as int,
        (head + other_name).len() as int,
    ));
    assert(one_name == other_name);
    percent_decoding_inverts(encode_utf8(one));
    percent_decoding_inverts(encode_utf8(other));
    assert(encode_utf8(one) == encode_utf8(other));
    vstd::utf8::encode_utf8_decode_utf8(one);
    vstd::utf8::encode_utf8_decode_utf8(other);
}

} // verus!

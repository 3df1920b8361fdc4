//! Serial bytes as they travel inside a frame: base64 text.
use base64::engine::general_purpose::STANDARD;
use base64::Engine;
use vstd::prelude::*;

verus! {

/// The symbol of a six-bit value: the upper-case letters, the lower-case letters, the digits, `+`
/// and `/`, in this order.
pub open spec fn symbol(value: int) -> char {
    if value < 26 {
        ('A' as int + value) as char
    } else if value < 52 {
        ('a' as int + value - 26) as char
    } else if value < 62 {
        ('0' as int + value - 52) as char
    } else if value == 62 {
        '+'
    } else {
        '/'
    }
}

/// The standard padded base64 text of some bytes: four symbols of six bits each for every three
/// bytes, with `=` in place of a symbol that no byte has a bit in.
pub open spec fn base64_text(bytes: Seq<u8>) -> Seq<char>
    decreases bytes.len(),
{
    let (a, b, c) = (bytes[0] as int, bytes[1] as int, bytes[2] as int);
    if bytes.len() == 0 {
        seq![]
    } else if bytes.len() == 1 {
        seq![symbol(a / 4), symbol(a % 4 * 16), '=', '=']
    } else if bytes.len() == 2 {
        seq![symbol(a / 4), symbol(a % 4 * 16 + b / 16), symbol(b % 16 * 4), '=']
    } else {
        seq![
            symbol(a / 4),
            symbol(a % 4 * 16 + b / 16),
            symbol(b % 16 * 4 + c / 64),
            symbol(c % 64),
        ] + base64_text(bytes.skip(3))
    }
}

/// Whether a text is the base64 text of some bytes.
pub open spec fn is_base64(text: Seq<char>) -> bool {
    exists|bytes: Seq<u8>| #[trigger] base64_text(bytes) == text
}

/// What `base64::Engine::decode` says of a text that it refuses, as a user reads it.
pub uninterp spec fn base64_error(text: Seq<char>) -> Seq<char>;

/// What a text stands for: the bytes whose base64 text it is, or else the decoder's error.
pub open spec fn base64_bytes(text: Seq<char>) -> Result<Seq<u8>, Seq<char>> {
    if is_base64(text) {
        Ok(choose|bytes: Seq<u8>| #[trigger] base64_text(bytes) == text)
    } else {
        Err(base64_error(text))
    }
}

/// Whether the base64 text of so many bytes, four characters for every three bytes begun, is no
/// longer than a text can be.
pub open spec fn encodable(len: nat) -> bool {
    len <= isize::MAX as nat / 4 * 3
}

/// A decoded payload with its bytes and its error text as sequences.
pub open spec fn decoded_view(decoded: Result<Vec<u8>, String>) -> Result<Seq<u8>, Seq<char>> {
    match decoded {
        Ok(bytes) => Ok(bytes@),
        Err(cause) => Err(cause@),
    }
}

/// Calls `base64::Engine::encode` of the standard engine. Claims that the text is the one that the
/// standard alphabet gives, with padding. The call allocates the text at once and panics where no
/// text can be that long, so such bytes are left out.
#[verifier::external_body]
pub(crate) fn base64_encode(bytes: &[u8]) -> (text: String)
    requires
        encodable(bytes@.len()),
    ensures
        text@ == base64_text(bytes@),
{
    STANDARD.encode(bytes)
}

/// Calls `base64::Engine::decode` of the standard engine, and takes an error as the text that its
/// `Display` writes. Claims that a text is decoded exactly if it is the base64 text of some bytes,
/// and to bytes whose text it is: the engine refuses missing padding and stray bits in the last
/// symbol. Claims of an error that its text depends on the refused text alone.
#[verifier::external_body]
fn base64_decode(text: &str) -> (decoded: Result<Vec<u8>, String>)
    ensures
        decoded is Ok <==> is_base64(text@),
        decoded matches Ok(bytes) ==> base64_text(bytes@) == text@,
        decoded matches Err(cause) ==> cause@ == base64_error(text@),
{
    STANDARD.decode(text).map_err(|error| error.to_string())
}

/// The bytes that a base64 text stands for, or the decoder's error.
pub fn decode_payload(text: &str) -> (decoded: Result<Vec<u8>, String>)
    ensures
        decoded_view(decoded) == base64_bytes(text@),
        decoded is Ok <==> is_base64(text@),
        decoded matches Ok(bytes) ==> base64_text(bytes@) == text@,
{
    let decoded = base64_decode(text);
    proof {
        if decoded is Ok {
            encoded_bytes_come_back(decoded->Ok_0@);
        }
    }
    decoded
}

/// Symbols tell their values apart, and none of them is the padding.
proof fn lemma_symbol(left: int, right: int)
    requires
        0 <= left < 64,
        0 <= right < 64,
    ensures
        symbol(left) == symbol(right) ==> left == right,
        symbol(left) != '=',
{
}

/// Bytes with the same base64 text are the same bytes.
pub proof fn base64_text_is_injective(left: Seq<u8>, right: Seq<u8>)
    requires
        base64_text(left) == base64_text(right),
    ensures
        left == right,
    decreases left.len(),
{
    if left.len() == 0 || right.len() == 0 {
        assert(left.len() == right.len());
    } else {
        let (a, b, c) = (left[0] as int, left[1] as int, left[2] as int);
        let (x, y, z) = (right[0] as int, right[1] as int, right[2] as int);
        lemma_group(left);
        lemma_group(right);
        lemma_symbol(a / 4, x / 4);
        if left.len() == 1 || right.len() == 1 {
            lemma_symbol(b % 16 * 4 + c / 64, 0);
            lemma_symbol(b % 16 * 4, 0);
            lemma_symbol(y % 16 * 4 + z / 64, 0);
            lemma_symbol(y % 16 * 4, 0);
            lemma_symbol(a % 4 * 16, x % 4 * 16);
        } else {
            lemma_symbol(a % 4 * 16 + b / 16, x % 4 * 16 + y / 16);
            if left.len() == 2 || right.len() == 2 {
                lemma_symbol(c % 64, 0);
                lemma_symbol(z % 64, 0);
                lemma_symbol(b % 16 * 4, y % 16 * 4);
            } else {
                lemma_symbol(b % 16 * 4 + c / 64, y % 16 * 4 + z / 64);
                lemma_symbol(c % 64, z % 64);
                base64_text_is_injective(left.skip(3), right.skip(3));
                assert(left =~= left.take(3) + left.skip(3));
                assert(right =~= right.take(3) + right.skip(3));
                assert(left.take(3) =~= right.take(3));
            }
        }
    }
    assert(left =~= right);
}

/// The first four characters of a base64 text, and what follows them.
proof fn lemma_group(bytes: Seq<u8>)
    requires
        bytes.len() > 0,
    ensures
        ({
            let text = base64_text(bytes);
            let (a, b, c) = (bytes[0] as int, bytes[1] as int, bytes[2] as int);
            &&& text.len() >= 4
            &&& text[0] == symbol(a / 4)
            &&& bytes.len() == 1 ==> {
                &&& text[1] == symbol(a % 4 * 16)
                &&& text[2] == '='
                &&& text[3] == '='
            }
            &&& bytes.len() >= 2 ==> text[1] == symbol(a % 4 * 16 + b / 16)
            &&& bytes.len() == 2 ==> {
                &&& text[2] == symbol(b % 16 * 4)
                &&& text[3] == '='
            }
            &&& bytes.len() >= 3 ==> {
                &&& text[2] == symbol(b % 16 * 4 + c / 64)
                &&& text[3] == symbol(c % 64)
            }
            &&& text.skip(4) == if bytes.len() >= 3 {
                base64_text(bytes.skip(3))
            } else {
                seq![]
            }
        }),
{
    let text = base64_text(bytes);
    if bytes.len() >= 3 {
        assert(text.skip(4) =~= base64_text(bytes.skip(3)));
    } else {
        assert(text.skip(4) =~= seq![]);
    }
}

/// Decoding gives back the bytes that were encoded.
pub proof fn encoded_bytes_come_back(bytes: Seq<u8>)
    ensures
        base64_bytes(base64_text(bytes)) == Ok::<Seq<u8>, Seq<char>>(bytes),
{
    let text = base64_text(bytes);
    let decoded = choose|decoded: Seq<u8>| #[trigger] base64_text(decoded) == text;
    base64_text_is_injective(decoded, bytes);
}

/// A base64 text has four characters for every three bytes begun, so that no text of another
/// length is decoded.
pub proof fn base64_text_comes_in_fours(bytes: Seq<u8>)
    ensures
        base64_text(bytes).len() == (bytes.len() + 2) / 3 * 4,
    decreases bytes.len(),
{
    if bytes.len() >= 3 {
        base64_text_comes_in_fours(bytes.skip(3));
    }
}

/// What was decoded is seen whole, and so is the error.
pub proof fn a_decoded_payload_is_seen_whole(bytes: Vec<u8>, cause: String)
    ensures
        decoded_view(Ok(bytes)) == Ok::<Seq<u8>, Seq<char>>(bytes@),
        decoded_view(Err(cause)) == Err::<Seq<u8>, Seq<char>>(cause@),
{
}

/// A text is decoded to some bytes exactly if it is their base64 text.
pub proof fn a_text_stands_for_one_payload(text: Seq<char>, bytes: Seq<u8>)
    ensures
        base64_bytes(text) == Ok::<Seq<u8>, Seq<char>>(bytes) <==> base64_text(bytes) == text,
{
    if base64_text(bytes) == text {
        encoded_bytes_come_back(bytes);
    }
}

/// A text that stands for no bytes is refused with the decoder's own words.
pub proof fn a_refused_text_keeps_the_decoders_words(text: Seq<char>)
    requires
        forall|bytes: Seq<u8>| #[trigger] base64_text(bytes) != text,
    ensures
        base64_bytes(text) == Err::<Seq<u8>, Seq<char>>(base64_error(text)),
{
}

} // verus!

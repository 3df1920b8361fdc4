//! Text: comparing, joining, and writing numbers and bytes out.
use vstd::prelude::*;
use vstd::utf8::*;

verus! {

/// The digits that numbers and bytes are written with, by value.
pub open spec fn digits() -> Seq<char> {
    "0123456789ABCDEF"@
}

/// A number in decimal, without leading zeros.
pub open spec fn decimal(n: nat) -> Seq<char>
    decreases n,
{
    if n < 10 {
        seq![digits()[n as int]]
    } else {
        decimal(n / 10).push(digits()[(n % 10) as int])
    }
}

/// A byte as two upper-case hexadecimal digits.
pub open spec fn hex_byte(byte: u8) -> Seq<char> {
    seq![digits()[byte as int / 16], digits()[byte as int % 16]]
}

/// Bytes as hexadecimal pairs, with one space between two of them.
pub open spec fn hex_bytes(bytes: Seq<u8>) -> Seq<char> {
    joined(bytes.map_values(|byte: u8| hex_byte(byte)), " "@)
}

/// The parts one after the other, with the separator between two of them.
pub open spec fn joined(parts: Seq<Seq<char>>, separator: Seq<char>) -> Seq<char>
    decreases parts.len(),
{
    if parts.len() == 0 {
        seq![]
    } else if parts.len() == 1 {
        parts[0]
    } else {
        joined(parts.drop_last(), separator) + separator + parts.last()
    }
}

/// A text, if there is one, as a sequence of characters.
pub open spec fn text_view(text: Option<String>) -> Option<Seq<char>> {
    match text {
        Some(text) => Some(text@),
        None => None,
    }
}

/// The digit of one value.
fn digit_text(value: usize) -> (text: &'static str)
    requires
        value < 16,
    ensures
        text@ == seq![digits()[value as int]],
{
    proof {
        reveal_strlit("0123456789ABCDEF");
    }
    let text = "0123456789ABCDEF".substring_char(value, value + 1);
    assert(text@ =~= seq![digits()[value as int]]);
    text
}

/// A number in decimal.
pub fn decimal_text(n: u64) -> (text: String)
    ensures
        text@ == decimal(n as nat),
    decreases n,
{
    if n < 10 {
        digit_text(n as usize).to_owned()
    } else {
        let mut text = decimal_text(n / 10);
        text.append(digit_text((n % 10) as usize));
        assert(text@ =~= decimal(n as nat));
        text
    }
}

/// A byte as two upper-case hexadecimal digits.
fn hex_byte_text(byte: u8) -> (text: String)
    ensures
        text@ == hex_byte(byte),
{
    let text = concat(digit_text((byte / 16) as usize), digit_text((byte % 16) as usize));
    assert(text@ =~= hex_byte(byte));
    text
}

/// Bytes as hexadecimal pairs, with one space between two of them.
pub fn hex_text(bytes: &[u8]) -> (text: String)
    ensures
        text@ == hex_bytes(bytes@),
{
    let ghost pairs = bytes@.map_values(|byte: u8| hex_byte(byte));
    let mut text = String::new();
    let mut i: usize = 0;
    assert(pairs.take(0) =~= seq![]);
    while i < bytes.len()
        invariant
            i <= bytes.len(),
            pairs == bytes@.map_values(|byte: u8| hex_byte(byte)),
            text@ == joined(pairs.take(i as int), " "@),
        decreases bytes.len() - i,
    {
        let pair = hex_byte_text(bytes[i]);
        proof {
            lemma_joined_push(pairs.take(i as int), pair@, " "@);
            assert(pairs.take(i as int).push(pair@) =~= pairs.take(i + 1));
        }
        if i > 0 {
            text.append(" ");
        }
        text.append(pair.as_str());
        i += 1;
    }
    assert(pairs.take(i as int) =~= pairs);
    text
}

/// Adding a part adds the separator before it, unless it is the first.
pub proof fn lemma_joined_push(parts: Seq<Seq<char>>, part: Seq<char>, separator: Seq<char>)
    ensures
        joined(parts.push(part), separator) == if parts.len() == 0 {
            joined(parts, separator) + part
        } else {
            joined(parts, separator) + separator + part
        },
{
    assert(parts.push(part).drop_last() =~= parts);
    if parts.len() == 0 {
        assert(joined(parts.push(part), separator) =~= joined(parts, separator) + part);
    }
}

/// The conversion of a `&str` with `From` or `Into` keeps the text.
pub assume_specification<'a>[ <String as From<&'a str>>::from ](text: &str) -> (owned: String)
    ensures
        owned@ == text@,
;

/// The conversion of a value to its own type with `From` or `Into` returns it unchanged.
pub assume_specification<T>[ <T as From<T>>::from ](value: T) -> (same: T)
    ensures
        same == value,
;

/// One text after the other.
pub fn concat(first: &str, second: &str) -> (text: String)
    ensures
        text@ == first@ + second@,
{
    let mut text = first.to_owned();
    text.append(second);
    text
}

/// Whether two byte strings are equal.
fn same_bytes(left: &[u8], right: &[u8]) -> (same: bool)
    ensures
        same == (left@ == right@),
{
    if left.len() != right.len() {
        return false;
    }
    let mut i: usize = 0;
    while i < left.len()
        invariant
            i <= left.len(),
            left.len() == right.len(),
            forall|j: int| 0 <= j < i ==> left[j] == right[j],
        decreases left.len() - i,
    {
        if left[i] != right[i] {
            return false;
        }
        i += 1;
    }
    assert(left@ =~= right@);
    true
}

/// Texts with the same UTF-8 bytes are the same text.
pub proof fn lemma_utf8_injective(left: Seq<char>, right: Seq<char>)
    requires
        encode_utf8(left) == encode_utf8(right),
    ensures
        left == right,
{
    encode_utf8_decode_utf8(left);
    encode_utf8_decode_utf8(right);
}

/// Whether two texts are equal.
pub fn same_text(left: &str, right: &str) -> (same: bool)
    ensures
        same == (left@ == right@),
{
    let same = same_bytes(left.as_bytes(), right.as_bytes());
    proof {
        if same {
            lemma_utf8_injective(left@, right@);
        }
    }
    same
}

/// Two digits that look the same have the same value.
proof fn lemma_digits_injective(a: int, b: int)
    requires
        0 <= a < 16,
        0 <= b < 16,
        digits()[a] == digits()[b],
    ensures
        a == b,
{
    reveal_strlit("0123456789ABCDEF");
}

/// The hexadecimal text of some bytes has two digits for each byte and a space between two bytes.
proof fn lemma_hex_step(bytes: Seq<u8>)
    requires
        bytes.len() > 0,
    ensures
        bytes.len() == 1 ==> hex_bytes(bytes) == hex_byte(bytes[0]),
        bytes.len() > 1 ==> hex_bytes(bytes) == hex_bytes(bytes.drop_last()) + " "@ + hex_byte(
            bytes.last(),
        ),
{
    let pairs = bytes.map_values(|byte: u8| hex_byte(byte));
    assert(pairs.drop_last() =~= bytes.drop_last().map_values(|byte: u8| hex_byte(byte)));
}

proof fn lemma_hex_len(bytes: Seq<u8>)
    ensures
        hex_bytes(bytes).len() == if bytes.len() == 0 {
            0
        } else {
            3 * bytes.len() - 1
        },
    decreases bytes.len(),
{
    reveal_strlit(" ");
    if bytes.len() > 0 {
        lemma_hex_step(bytes);
        lemma_hex_len(bytes.drop_last());
    }
}

proof fn lemma_hex_byte_injective(left: u8, right: u8)
    requires
        hex_byte(left) == hex_byte(right),
    ensures
        left == right,
{
    assert(hex_byte(left)[0] == digits()[left as int / 16]);
    assert(hex_byte(left)[1] == digits()[left as int % 16]);
    assert(hex_byte(right)[0] == digits()[right as int / 16]);
    assert(hex_byte(right)[1] == digits()[right as int % 16]);
    lemma_digits_injective(left as int / 16, right as int / 16);
    lemma_digits_injective(left as int % 16, right as int % 16);
}

/// Bytes that are written the same in hexadecimal are the same.
pub proof fn hex_is_injective(left: Seq<u8>, right: Seq<u8>)
    requires
        hex_bytes(left) == hex_bytes(right),
    ensures
        left == right,
    decreases left.len(),
{
    lemma_hex_len(left);
    lemma_hex_len(right);
    if left.len() > 0 {
        let whole = hex_bytes(left);
        reveal_strlit(" ");
        lemma_hex_step(left);
        lemma_hex_step(right);
        if left.len() == 1 {
            lemma_hex_byte_injective(left[0], right[0]);
        } else {
            lemma_hex_len(left.drop_last());
            lemma_hex_len(right.drop_last());
            let front = whole.len() - 3;
            assert(hex_bytes(left.drop_last()) =~= whole.take(front));
            assert(hex_bytes(right.drop_last()) =~= whole.take(front));
            assert(hex_byte(left.last()) =~= whole.skip(front + 1));
            assert(hex_byte(right.last()) =~= whole.skip(front + 1));
            lemma_hex_byte_injective(left.last(), right.last());
            hex_is_injective(left.drop_last(), right.drop_last());
            assert(left =~= left.drop_last().push(left.last()));
            assert(right =~= right.drop_last().push(right.last()));
        }
    } else {
        assert(left =~= right);
    }
}

/// Two numbers that are written the same are the same.
pub proof fn decimal_is_injective(a: nat, b: nat)
    requires
        decimal(a) == decimal(b),
    ensures
        a == b,
    decreases a,
{
    assert(decimal(a).last() == digits()[(a % 10) as int]);
    assert(decimal(b).last() == digits()[(b % 10) as int]);
    lemma_digits_injective((a % 10) as int, (b % 10) as int);
    if a >= 10 && b >= 10 {
        assert(decimal(a).drop_last() =~= decimal(a / 10));
        assert(decimal(b).drop_last() =~= decimal(b / 10));
        decimal_is_injective(a / 10, b / 10);
    } else if a >= 10 {
        assert(decimal(a / 10).len() >= 1);
    } else if b >= 10 {
        assert(decimal(b / 10).len() >= 1);
    }
}

/// A number is written with digits alone, and so without a colon.
pub proof fn lemma_decimal_has_no_colon(n: nat)
    ensures
        decimal(n).len() >= 1,
        !decimal(n).contains(':'),
    decreases n,
{
    reveal_strlit("0123456789ABCDEF");
    if n >= 10 {
        lemma_decimal_has_no_colon(n / 10);
        assert forall|i: int| 0 <= i < decimal(n).len() implies decimal(n)[i] != ':' by {
            if i < decimal(n / 10).len() {
                assert(decimal(n)[i] == decimal(n / 10)[i]);
                assert(decimal(n / 10).contains(decimal(n / 10)[i]));
            }
        }
    }
}

/// The usual value of a decimal or upper-case hexadecimal digit, and less than nothing for any other
/// character.
pub open spec fn digit_value(c: char) -> int {
    if '0' <= c <= '9' {
        c as int - '0' as int
    } else if 'A' <= c <= 'F' {
        c as int - 'A' as int + 10
    } else {
        -1
    }
}

/// The number that a decimal text stands for, by the value of each digit.
pub open spec fn decimal_value(text: Seq<char>) -> int
    decreases text.len(),
{
    if text.len() == 0 {
        0
    } else {
        decimal_value(text.drop_last()) * 10 + digit_value(text.last())
    }
}

/// Each digit is the character that usually has its value: `0` to `9`, and from ten on `A` to `F`.
pub proof fn a_digit_has_its_usual_value(value: int)
    requires
        0 <= value < 16,
    ensures
        digits().len() == 16,
        value < 10 ==> digits()[value] as int == '0' as int + value,
        value >= 10 ==> digits()[value] as int == 'A' as int + value - 10,
        digit_value(digits()[value]) == value,
{
    reveal_strlit("0123456789ABCDEF");
}

/// A number in decimal reads back as the number; it is written in decimal digits alone, and without
/// a leading zero.
pub proof fn a_number_reads_back(n: nat)
    ensures
        decimal_value(decimal(n)) == n,
        decimal(n).len() >= 1,
        forall|i: int| 0 <= i < decimal(n).len() ==> '0' <= #[trigger] decimal(n)[i] <= '9',
        n > 0 ==> decimal(n)[0] != '0',
        n == 0 ==> decimal(n).len() == 1,
    decreases n,
{
    a_digit_has_its_usual_value((n % 10) as int);
    let text = decimal(n);
    assert(text.last() == digits()[(n % 10) as int]);
    if n < 10 {
        assert(text.drop_last() =~= seq![]);
        assert(decimal_value(text.drop_last()) == 0);
    } else {
        a_number_reads_back(n / 10);
        let front = decimal(n / 10);
        assert(text.drop_last() =~= front);
        assert(text[0] == front[0]);
        assert forall|i: int| 0 <= i < text.len() implies '0' <= #[trigger] text[i] <= '9' by {
            if i < front.len() {
                assert(text[i] == front[i]);
            }
        }
    }
}

/// Bytes in hexadecimal read back as the bytes: two digits for each byte, the first worth sixteen
/// times the second, and one space between two bytes.
pub proof fn bytes_read_back(bytes: Seq<u8>, i: int)
    requires
        0 <= i < bytes.len(),
    ensures
        hex_bytes(bytes).len() == 3 * bytes.len() - 1,
        0 <= digit_value(hex_bytes(bytes)[3 * i]) < 16,
        0 <= digit_value(hex_bytes(bytes)[3 * i + 1]) < 16,
        digit_value(hex_bytes(bytes)[3 * i]) * 16 + digit_value(hex_bytes(bytes)[3 * i + 1])
            == bytes[i],
        i + 1 < bytes.len() ==> hex_bytes(bytes)[3 * i + 2] == ' ',
        hex_bytes(seq![]) == Seq::<char>::empty(),
    decreases bytes.len(),
{
    reveal_strlit(" ");
    lemma_hex_len(bytes);
    lemma_hex_len(seq![]);
    lemma_hex_step(bytes);
    let text = hex_bytes(bytes);
    let front = bytes.drop_last();
    let before = hex_bytes(front);
    let last = bytes.len() - 1;
    let pair = hex_byte(bytes[last]);
    lemma_hex_len(front);
    if i == last {
        a_digit_has_its_usual_value(bytes[i] as int / 16);
        a_digit_has_its_usual_value(bytes[i] as int % 16);
        assert(pair[0] == digits()[bytes[i] as int / 16]);
        assert(pair[1] == digits()[bytes[i] as int % 16]);
        assert(text[3 * i] == pair[0]);
        assert(text[3 * i + 1] == pair[1]);
    } else {
        bytes_read_back(front, i);
        assert(front[i] == bytes[i]);
        assert(text =~= before + " "@ + pair);
        assert(text[3 * i] == before[3 * i]);
        assert(text[3 * i + 1] == before[3 * i + 1]);
        if i + 1 < last {
            assert(text[3 * i + 2] == before[3 * i + 2]);
        }
    }
}

/// Nothing, joined, is nothing.
pub proof fn nothing_joins_to_nothing(separator: Seq<char>)
    ensures
        joined(seq![], separator) == Seq::<char>::empty(),
{
}

/// A text that is there is seen as it is, and one that is missing is seen as missing.
pub proof fn a_text_is_seen_whole(text: String)
    ensures
        text_view(Some(text)) == Some(text@),
        text_view(None) == None::<Seq<char>>,
{
}

} // verus!

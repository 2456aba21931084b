//! Operations on text that the rest of the library is built on.

use vstd::prelude::*;
use vstd::string::{StringExecFns, StringSliceAdditionalSpecFns};
use vstd::utf8::{
    decode_utf8, decode_utf8_split, encode_scalar, encode_utf8, encode_utf8_decode_utf8,
    encode_utf8_first_scalar, encode_utf8_valid_utf8, is_char_boundary, pop_first_scalar,
    valid_utf8,
};

verus! {

/// What `str::trim` leaves of a text.
pub uninterp spec fn trimmed(text: Seq<char>) -> Seq<char>;

/// The text that `String::from_utf8_lossy` reads from bytes.
pub uninterp spec fn utf8_lossy(bytes: Seq<u8>) -> Seq<char>;

/// Whether `bytes` begins with `start`.
fn begins_with(bytes: &[u8], start: &[u8]) -> (r: bool)
    ensures
        r == (start@.len() <= bytes@.len() && bytes@.subrange(0, start@.len() as int) == start@),
{
    if start.len() > bytes.len() {
        return false;
    }
    let mut i: usize = 0;
    while i < start.len()
        invariant
            i <= start.len() <= bytes.len(),
            bytes@.subrange(0, i as int) == start@.subrange(0, i as int),
        decreases start.len() - i,
    {
        if bytes[i] != start[i] {
            proof {
                assert(bytes@.subrange(0, start@.len() as int)[i as int] != start@[i as int]);
            }
            return false;
        }
        proof {
            assert(bytes@.subrange(0, i + 1) =~= bytes@.subrange(0, i as int).push(bytes@[i as int]));
            assert(start@.subrange(0, i + 1) =~= start@.subrange(0, i as int).push(start@[i as int]));
        }
        i = i + 1;
    }
    proof {
        assert(start@.subrange(0, i as int) =~= start@);
    }
    true
}

/// Whether two texts hold the same characters.
pub fn str_eq(a: &str, b: &str) -> (r: bool)
    ensures
        r == (a@ == b@),
{
    let left = a.as_bytes();
    let right = b.as_bytes();
    proof {
        encode_utf8_decode_utf8(a@);
        encode_utf8_decode_utf8(b@);
        assert(left@.subrange(0, left@.len() as int) =~= left@);
    }
    left.len() == right.len() && begins_with(left, right)
}

/// Calls `str::trim`, which drops leading and trailing whitespace. The
/// result is known by name only.
#[verifier::external_body]
pub(crate) fn trim(text: &str) -> (r: &str)
    ensures
        r@ == trimmed(text@),
{
    text.trim()
}

/// Calls `String::from_utf8_lossy`, which reads bytes as UTF-8 and puts the
/// replacement character in place of what is no UTF-8. On valid UTF-8 the
/// result is the decoded text; otherwise it is known by name only.
#[verifier::external_body]
pub(crate) fn from_utf8_lossy(bytes: &[u8]) -> (r: String)
    ensures
        r@ == utf8_lossy(bytes@),
        valid_utf8(bytes@) ==> r@ == decode_utf8(bytes@),
{
    String::from_utf8_lossy(bytes).into_owned()
}

/// Whether `text` begins with `prefix`.
pub open spec fn has_prefix(text: Seq<char>, prefix: Seq<char>) -> bool {
    prefix.len() <= text.len() && text.subrange(0, prefix.len() as int) == prefix
}

/// `text` without a leading `prefix`; `text` itself where it does not begin
/// with `prefix`.
pub open spec fn without_prefix(text: Seq<char>, prefix: Seq<char>) -> Seq<char> {
    if has_prefix(text, prefix) {
        text.subrange(prefix.len() as int, text.len() as int)
    } else {
        text
    }
}

/// The bytes of two texts in a row are the bytes of the first and then the
/// bytes of the second.
proof fn lemma_encode_concat(a: Seq<char>, b: Seq<char>)
    ensures
        encode_utf8(a + b) == encode_utf8(a) + encode_utf8(b),
    decreases a.len(),
{
    if a.len() == 0 {
        assert(a + b =~= b);
        assert(encode_utf8(a) + encode_utf8(b) =~= encode_utf8(b));
    } else {
        lemma_encode_concat(a.drop_first(), b);
        assert((a + b).drop_first() =~= a.drop_first() + b);
        assert((a + b)[0] == a[0]);
        assert(encode_utf8(a + b) =~= encode_utf8(a) + encode_utf8(b));
    }
}

/// In the bytes of two texts in a row, a character begins where the first
/// text ends.
proof fn lemma_boundary_between(a: Seq<char>, b: Seq<char>)
    ensures
        is_char_boundary(encode_utf8(a + b), encode_utf8(a).len() as int),
    decreases a.len(),
{
    let bytes = encode_utf8(a + b);
    encode_utf8_valid_utf8(a + b);
    if a.len() > 0 {
        lemma_encode_concat(a, b);
        lemma_encode_concat(a.drop_first(), b);
        lemma_boundary_between(a.drop_first(), b);
        encode_utf8_first_scalar(a + b);
        assert((a + b).drop_first() =~= a.drop_first() + b);
        assert((a + b)[0] == a[0]);
        assert(pop_first_scalar(bytes) =~= encode_utf8(a.drop_first() + b));
        assert(encode_utf8(a).len() == encode_scalar(a[0] as u32).len() + encode_utf8(
            a.drop_first(),
        ).len());
    }
}

/// Removes a leading `prefix` from `text`, and hands `text` back unchanged
/// where it does not begin with `prefix`.
pub fn remove_prefix(text: &str, prefix: &str) -> (r: String)
    ensures
        r@ == without_prefix(text@, prefix@),
{
    let whole = text.as_bytes();
    let start = prefix.as_bytes();
    let cut = start.len();
    proof {
        encode_utf8_valid_utf8(text@);
        encode_utf8_decode_utf8(text@);
        encode_utf8_decode_utf8(prefix@);
        if has_prefix(text@, prefix@) {
            let rest = text@.subrange(prefix@.len() as int, text@.len() as int);
            assert(text@ =~= prefix@ + rest);
            lemma_encode_concat(prefix@, rest);
            lemma_boundary_between(prefix@, rest);
            assert((encode_utf8(prefix@) + encode_utf8(rest)).subrange(0, cut as int)
                =~= encode_utf8(prefix@));
        }
    }
    if begins_with(whole, start) && text.is_char_boundary(cut) {
        let (head, rest) = text.split_at(cut);
        proof {
            encode_utf8_decode_utf8(head@);
            encode_utf8_decode_utf8(rest@);
            decode_utf8_split(whole@, cut as int);
            assert(head@ == prefix@);
            assert(text@ =~= prefix@ + rest@);
            assert(text@.subrange(0, prefix@.len() as int) =~= prefix@);
            assert(text@.subrange(prefix@.len() as int, text@.len() as int) =~= rest@);
        }
        rest.to_owned()
    } else {
        text.to_owned()
    }
}

/// Removing a prefix from a text that does not begin with it changes nothing.
pub proof fn lemma_remove_absent_prefix_is_identity(text: Seq<char>, prefix: Seq<char>)
    requires
        !has_prefix(text, prefix),
    ensures
        without_prefix(text, prefix) == text,
{
}

/// The character of a decimal digit.
pub open spec fn digit_char(d: nat) -> char
    recommends
        d < 10,
{
    ((48 + d) as u8) as char
}

/// The decimal digits of a natural number, without leading zeros.
pub open spec fn decimal_digits(n: nat) -> Seq<char>
    decreases n,
{
    if n < 10 {
        seq![digit_char(n)]
    } else {
        decimal_digits(n / 10).push(digit_char(n % 10))
    }
}

/// The decimal form of an integer, with a minus sign where it is negative.
pub open spec fn decimal(n: int) -> Seq<char> {
    if n < 0 {
        seq!['-'] + decimal_digits((-n) as nat)
    } else {
        decimal_digits(n as nat)
    }
}

/// The text of one decimal digit.
fn digit_str(d: u64) -> (r: &'static str)
    requires
        d < 10,
    ensures
        r@ == seq![digit_char(d as nat)],
{
    proof {
        reveal_strlit("0");
        reveal_strlit("1");
        reveal_strlit("2");
        reveal_strlit("3");
        reveal_strlit("4");
        reveal_strlit("5");
        reveal_strlit("6");
        reveal_strlit("7");
        reveal_strlit("8");
        reveal_strlit("9");
    }
    let text = if d == 0 {
        "0"
    } else if d == 1 {
        "1"
    } else if d == 2 {
        "2"
    } else if d == 3 {
        "3"
    } else if d == 4 {
        "4"
    } else if d == 5 {
        "5"
    } else if d == 6 {
        "6"
    } else if d == 7 {
        "7"
    } else if d == 8 {
        "8"
    } else {
        "9"
    };
    proof {
        assert(text@ =~= seq![digit_char(d as nat)]);
    }
    text
}

/// Writes a natural number in decimal.
fn digits_string(n: u64) -> (r: String)
    ensures
        r@ == decimal_digits(n as nat),
    decreases n,
{
    if n < 10 {
        String::from_str(digit_str(n))
    } else {
        let mut text = digits_string(n / 10);
        text.append(digit_str(n % 10));
        proof {
            assert(text@ =~= decimal_digits((n / 10) as nat).push(digit_char((n % 10) as nat)));
        }
        text
    }
}

/// Writes an integer in decimal.
pub fn decimal_string(n: i64) -> (r: String)
    ensures
        r@ == decimal(n as int),
{
    if n < 0 {
        let magnitude: u64 = if n == i64::MIN {
            9223372036854775808u64
        } else {
            (-n) as u64
        };
        proof {
            reveal_strlit("-");
            assert("-"@ =~= seq!['-']);
        }
        let digits = digits_string(magnitude);
        concat("-", digits.as_str())
    } else {
        digits_string(n as u64)
    }
}

/// Writes a count or a place in decimal.
pub fn index_string(n: usize) -> (r: String)
    ensures
        r@ == decimal(n as int),
{
    digits_string(n as u64)
}

/// Joins two texts.
pub fn concat(a: &str, b: &str) -> (r: String)
    ensures
        r@ == a@ + b@,
{
    let mut text = a.to_owned();
    text.append(b);
    text
}

} // verus!

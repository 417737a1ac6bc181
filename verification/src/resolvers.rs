//! Turning a command argument into the id of the user it names: a plain
//! number, or a mention such as `<@123>` or `<@!123>`.

use vstd::prelude::*;
use vstd::utf8::encode_utf8;
use crate::text::chars_of;

verus! {

/// Whether `c` is an ASCII decimal digit.
pub open spec fn is_digit(c: char) -> bool {
    48 <= (c as u32) <= 57
}

/// The number written by the decimal digits `d` (most significant first).
pub open spec fn digits_value(d: Seq<char>) -> nat
    decreases d.len(),
{
    if d.len() == 0 {
        0
    } else {
        digits_value(d.drop_last()) * 10 + ((d.last() as u32) - 48) as nat
    }
}

/// The digit part of a number text: `s` without a leading `+`.
pub open spec fn unsigned_digits(s: Seq<char>) -> Seq<char> {
    if s.len() > 0 && s[0] == '+' {
        s.drop_first()
    } else {
        s
    }
}

/// Whether every character of `d` is an ASCII digit.
pub open spec fn all_digits(d: Seq<char>) -> bool {
    forall|i: int| 0 <= i < d.len() ==> #[trigger] is_digit(d[i])
}

/// What `str::parse::<u64>` gives for `s`: an optional leading `+`, then one
/// or more ASCII digits whose value fits in `u64`; `None` for anything else.
pub open spec fn parsed_u64(s: Seq<char>) -> Option<u64> {
    let digits = unsigned_digits(s);
    if digits.len() > 0 && all_digits(digits) && digits_value(digits) <= u64::MAX {
        Some(digits_value(digits) as u64)
    } else {
        None
    }
}

/// Whether `s` begins with a user mention's `<@`.
pub open spec fn starts_mention(s: Seq<char>) -> bool {
    s.len() >= 2 && s[0] == '<' && s[1] == '@'
}

/// Whether `s` begins with a nickname mention's `<@!`.
pub open spec fn starts_nick_mention(s: Seq<char>) -> bool {
    s.len() >= 3 && s[0] == '<' && s[1] == '@' && s[2] == '!'
}

/// Whether cutting the closing character off `s` as serenity's
/// `parse_username` does stays on a character boundary: it cuts one byte off
/// every text of at least four bytes that begins with `<@`, so the last
/// character must then be a single byte.
pub open spec fn mention_slice_ok(s: Seq<char>) -> bool {
    encode_utf8(s).len() < 4 || !starts_mention(s) || (s.last() as u32) < 128
}

/// What serenity's `parse_username` gives for `s`: `None` for texts shorter
/// than four bytes; for `<@!…` the number between the prefix and the last
/// character, for `<@…` likewise; `None` for anything else.
pub open spec fn mention_user_id(s: Seq<char>) -> Option<u64> {
    if encode_utf8(s).len() < 4 {
        None
    } else if starts_nick_mention(s) {
        parsed_u64(s.subrange(3, s.len() - 1))
    } else if starts_mention(s) {
        parsed_u64(s.subrange(2, s.len() - 1))
    } else {
        None
    }
}

/// Extending a run of digits never lowers the number it writes.
proof fn lemma_digits_value_grows(d: Seq<char>, i: int, j: int)
    requires
        0 <= i <= j <= d.len(),
        all_digits(d),
    ensures
        digits_value(d.take(i)) <= digits_value(d.take(j)),
    decreases j - i,
{
    if j > i {
        lemma_digits_value_grows(d, i, j - 1);
        assert(d.take(j).drop_last() =~= d.take(j - 1));
        assert(is_digit(d[j - 1]));
    }
}

/// `s` read as `str::parse::<u64>` reads it: an optional `+`, then one or
/// more ASCII digits whose value fits in `u64`; `None` otherwise.
fn parse_u64(s: &str) -> (r: Option<u64>)
    ensures
        r == parsed_u64(s@),
{
    let chars = chars_of(s);
    let n = chars.len();
    let start: usize = if n > 0 && chars[0] == '+' { 1 } else { 0 };
    let ghost d = unsigned_digits(s@);
    assert(d =~= chars@.subrange(start as int, n as int));
    if start == n {
        return None;
    }
    let mut value: u64 = 0;
    let mut i: usize = start;
    assert(d.take(0) =~= Seq::<char>::empty());
    while i < n
        invariant
            start <= i <= n,
            n == chars@.len(),
            d == chars@.subrange(start as int, n as int),
            d == unsigned_digits(s@),
            d.len() > 0,
            forall|k: int| 0 <= k < i - start ==> #[trigger] is_digit(d[k]),
            value == digits_value(d.take(i - start)),
        decreases n - i,
    {
        let code: u32 = chars[i] as u32;
        assert(d[i - start] == chars@[i as int]);
        if code < 48 || code > 57 {
            assert(!is_digit(d[i - start]));
            return None;
        }
        let next: u128 = value as u128 * 10 + (code - 48) as u128;
        assert(d.take(i - start + 1).drop_last() =~= d.take(i - start));
        assert(d.take(i - start + 1).last() == d[i - start]);
        if next > 18_446_744_073_709_551_615u128 {
            proof {
                if all_digits(d) {
                    lemma_digits_value_grows(d, i - start + 1, d.len() as int);
                    assert(d.take(d.len() as int) =~= d);
                }
            }
            return None;
        }
        value = next as u64;
        i = i + 1;
    }
    assert(d.take(d.len() as int) =~= d);
    Some(value)
}

/// serenity's `utils::parse_username`, which reads the id out of a user
/// mention; its source is restated in `mention_user_id`. It slices the text
/// by bytes and panics where `mention_slice_ok` fails, which is excluded here.
#[verifier::external_body]
fn parse_username(mention: &str) -> (r: Option<u64>)
    requires
        mention_slice_ok(mention@),
    ensures
        r == mention_user_id(mention@),
{
    serenity::utils::parse_username(mention)
}

/// Whether reading `arg` as a user would panic: it is not a number and
/// serenity's mention parser would cut it inside a character.
pub open spec fn argument_panics(arg: Seq<char>) -> bool {
    parsed_u64(arg) is None && !mention_slice_ok(arg)
}

/// The id of the user a command argument names: the argument read as a
/// number, else as a mention; `None` without an argument or when it is neither.
pub fn user_id_from_argument(arg: Option<&str>) -> (id: Option<u64>)
    requires
        arg matches Some(a) ==> !argument_panics(a@),
    ensures
        id == match arg {
            None => None,
            Some(a) => match parsed_u64(a@) {
                Some(n) => Some(n),
                None => mention_user_id(a@),
            },
        },
{
    match arg {
        None => None,
        Some(a) => match parse_u64(a) {
            Some(n) => Some(n),
            None => parse_username(a),
        },
    }
}

/// Whether `user_id_from_argument(Some(arg))` would meet an argument on which
/// the mention parser panics.
pub fn argument_would_panic(arg: &str) -> (r: bool)
    ensures
        r == argument_panics(arg@),
{
    if parse_u64(arg).is_some() {
        return false;
    }
    let byte_len = arg.as_bytes().len();
    let chars = chars_of(arg);
    let n = chars.len();
    if byte_len < 4 || n < 2 || chars[0] != '<' || chars[1] != '@' {
        return false;
    }
    (chars[n - 1] as u32) >= 128
}

} // verus!

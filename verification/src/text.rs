//! Character-level text helpers: decimal rendering, zero padding and
//! pattern replacement, each stated over `Seq<char>`.

use vstd::prelude::*;

verus! {

/// The ASCII digit character for `d` (0 ≤ d < 10).
pub open spec fn digit_char(d: nat) -> char {
    ((48 + d) as u8) as char
}

/// Decimal rendering of a natural number, most significant digit first.
pub open spec fn decimal(n: nat) -> Seq<char>
    decreases n,
{
    if n < 10 {
        seq![digit_char(n)]
    } else {
        decimal(n / 10).push(digit_char(n % 10))
    }
}

/// Decimal rendering of an integer as `Display` writes it: a leading `-` for negatives.
pub open spec fn signed_decimal(i: int) -> Seq<char> {
    if i < 0 {
        seq!['-'] + decimal((-i) as nat)
    } else {
        decimal(i as nat)
    }
}

/// `s` right-aligned in a field of `width` characters, filled on the left with `'0'`.
pub open spec fn zero_pad(s: Seq<char>, width: nat) -> Seq<char> {
    if s.len() >= width {
        s
    } else {
        Seq::new((width - s.len()) as nat, |_i: int| '0') + s
    }
}

/// `rep` put before every character of `s` and once more at its end: what
/// replacing the empty pattern does, as it matches at every character boundary.
pub open spec fn interleave(s: Seq<char>, rep: Seq<char>) -> Seq<char>
    decreases s.len(),
{
    if s.len() == 0 {
        rep
    } else {
        rep + seq![s[0]] + interleave(s.subrange(1, s.len() as int), rep)
    }
}

/// `s` with every occurrence of `pat` replaced by `rep`, scanning left to
/// right over non-overlapping matches (the rule of `str::replace`); an empty
/// pattern matches at every character boundary.
pub open spec fn replace_all(s: Seq<char>, pat: Seq<char>, rep: Seq<char>) -> Seq<char>
    decreases s.len(),
{
    if pat.len() == 0 {
        interleave(s, rep)
    } else if s.len() < pat.len() {
        s
    } else if s.subrange(0, pat.len() as int) == pat {
        rep + replace_all(s.subrange(pat.len() as int, s.len() as int), pat, rep)
    } else {
        seq![s[0]] + replace_all(s.subrange(1, s.len() as int), pat, rep)
    }
}

/// Whether `pat` occurs nowhere in `s`.
pub open spec fn lacks(s: Seq<char>, pat: Seq<char>) -> bool {
    forall|i: int| 0 <= i && i + pat.len() <= s.len() ==> #[trigger] s.subrange(i, i + pat.len()) != pat
}

/// Replacing a pattern that does not occur leaves the text as it was.
pub proof fn lemma_replace_without_pattern(s: Seq<char>, pat: Seq<char>, rep: Seq<char>)
    requires
        pat.len() > 0,
        lacks(s, pat),
    ensures
        replace_all(s, pat, rep) == s,
    decreases s.len(),
{
    if s.len() >= pat.len() {
        let z: int = 0;
        assert(s.subrange(z, z + pat.len()) != pat);
        assert(s.subrange(0, pat.len() as int) =~= s.subrange(z, z + pat.len()));
        let rest = s.subrange(1, s.len() as int);
        assert forall|i: int| 0 <= i && i + pat.len() <= rest.len() implies #[trigger] rest.subrange(i, i + pat.len()) != pat by {
            assert(rest.subrange(i, i + pat.len()) =~= s.subrange(i + 1, i + 1 + pat.len()));
        }
        lemma_replace_without_pattern(rest, pat, rep);
        assert(seq![s[0]] + rest =~= s);
    }
}

/// Decimal renderings are never empty and have one character per digit.
pub proof fn lemma_decimal_len(n: nat)
    ensures
        decimal(n).len() >= 1,
        n < 10 ==> decimal(n).len() == 1,
        n < 100 ==> decimal(n).len() <= 2,
        n < 1000 ==> decimal(n).len() <= 3,
        n < 10000 ==> decimal(n).len() <= 4,
    decreases n,
{
    if n >= 10 {
        lemma_decimal_len(n / 10);
    }
}

/// Padding a text no wider than the field yields exactly the field's width.
pub proof fn lemma_zero_pad_len(s: Seq<char>, width: nat)
    ensures
        zero_pad(s, width).len() == if s.len() >= width { s.len() } else { width },
{
}

/// Appends `c` to `s` (`String::push`).
#[verifier::external_body]
pub(crate) fn push_char(s: &mut String, c: char)
    ensures
        final(s)@ == old(s)@.push(c),
{
    s.push(c);
}

/// The characters of `s` in order.
pub(crate) fn chars_of(s: &str) -> (v: Vec<char>)
    ensures
        v@ == s@,
{
    broadcast use vstd::string::group_string_axioms;
    let mut v: Vec<char> = Vec::new();
    for c in it: s.chars()
        invariant
            v.len() == it.index(),
            forall|i: int| 0 <= i < v.len() ==> v@[i] == it.seq()[i],
    {
        v.push(c);
    }
    assert(v@ =~= s@);
    v
}

fn push_digits(out: &mut String, n: u64)
    ensures
        final(out)@ == old(out)@ + decimal(n as nat),
    decreases n,
{
    if n >= 10 {
        push_digits(out, n / 10);
    }
    let d: u8 = (n % 10) as u8;
    push_char(out, (48u8 + d) as char);
    proof {
        assert(decimal(n as nat) == if n < 10 {
            seq![digit_char(n as nat)]
        } else {
            decimal((n / 10) as nat).push(digit_char((n % 10) as nat))
        });
    }
}

/// Appends the decimal rendering of `n` to `out`.
pub fn push_u64(out: &mut String, n: u64)
    ensures
        final(out)@ == old(out)@ + decimal(n as nat),
{
    push_digits(out, n);
}

/// Appends the decimal rendering of `n` (with a `-` when negative) to `out`.
pub fn push_i64(out: &mut String, n: i64)
    ensures
        final(out)@ == old(out)@ + signed_decimal(n as int),
{
    if n < 0 {
        push_char(out, '-');
        let m: u64 = (0i128 - n as i128) as u64;
        push_digits(out, m);
        proof {
            assert(old(out)@.push('-') + decimal(m as nat) == old(out)@ + (seq!['-'] + decimal(m as nat)));
        }
    } else {
        push_digits(out, n as u64);
    }
}

/// Decimal rendering of `n` as a new string.
pub fn u64_to_string(n: u64) -> (s: String)
    ensures
        s@ == decimal(n as nat),
{
    let mut s = String::new();
    push_digits(&mut s, n);
    assert(s@ == Seq::<char>::empty() + decimal(n as nat));
    s
}

/// Appends `s` right-aligned in a field of `width` characters, filled with `'0'`.
pub fn push_zero_padded(out: &mut String, s: &str, width: usize)
    ensures
        final(out)@ == old(out)@ + zero_pad(s@, width as nat),
{
    let len = s.unicode_len();
    let mut k: usize = len;
    let ghost start = out@;
    while k < width
        invariant
            len == s@.len(),
            len <= k <= width || (k == len && len >= width),
            out@ == start + Seq::new((k - len) as nat, |_i: int| '0'),
        decreases width - k,
    {
        push_char(out, '0');
        k = k + 1;
        assert(out@ =~= start + Seq::new((k - len) as nat, |_i: int| '0'));
    }
    out.append(s);
    proof {
        if len >= width {
            assert(Seq::new((k - len) as nat, |_i: int| '0') =~= Seq::<char>::empty());
            assert(out@ =~= old(out)@ + s@);
        } else {
            assert(out@ =~= old(out)@ + (Seq::new((width - len) as nat, |_i: int| '0') + s@));
        }
    }
}

/// Whether `pat` occurs in `s` at position `i`.
fn matches_at(s: &Vec<char>, i: usize, pat: &Vec<char>) -> (b: bool)
    requires
        i + pat@.len() <= s@.len(),
    ensures
        b == (s@.subrange(i as int, i + pat@.len()) == pat@),
{
    let m = pat.len();
    let sl = s.len();
    let mut j: usize = 0;
    while j < m
        invariant
            m == pat@.len(),
            sl == s@.len(),
            i + m <= s@.len(),
            j <= m,
            forall|k: int| 0 <= k < j ==> s@[i + k] == pat@[k],
        decreases m - j,
    {
        if s[i + j] != pat[j] {
            assert(s@.subrange(i as int, i + m)[j as int] != pat@[j as int]);
            return false;
        }
        j = j + 1;
    }
    assert(s@.subrange(i as int, i + m) =~= pat@);
    true
}

/// `rep` before every character of `sv` and once more at the end.
fn interleave_chars(sv: &Vec<char>, rep: &str) -> (r: String)
    ensures
        r@ == interleave(sv@, rep@),
{
    let n = sv.len();
    let mut out = String::new();
    let mut i: usize = 0;
    assert(sv@.subrange(0, n as int) =~= sv@);
    assert(out@ + interleave(sv@, rep@) =~= interleave(sv@, rep@));
    while i < n
        invariant
            n == sv@.len(),
            i <= n,
            interleave(sv@, rep@) == out@ + interleave(sv@.subrange(i as int, n as int), rep@),
        decreases n - i,
    {
        let ghost rest = sv@.subrange(i as int, n as int);
        let c = sv[i];
        assert(rest.subrange(1, rest.len() as int) =~= sv@.subrange(i + 1, n as int));
        let ghost before = out@;
        out.append(rep);
        push_char(&mut out, c);
        i = i + 1;
        assert(before + (rep@ + seq![c] + interleave(sv@.subrange(i as int, n as int), rep@))
            =~= out@ + interleave(sv@.subrange(i as int, n as int), rep@));
    }
    let ghost before = out@;
    out.append(rep);
    assert(sv@.subrange(n as int, n as int) =~= Seq::<char>::empty());
    assert(before + rep@ =~= out@);
    out
}

/// `s` with every occurrence of `pat` replaced by `rep`, as `str::replace`.
pub fn replace(s: &str, pat: &str, rep: &str) -> (r: String)
    ensures
        r@ == replace_all(s@, pat@, rep@),
{
    let sv = chars_of(s);
    let pv = chars_of(pat);
    let n = sv.len();
    let m = pv.len();
    if m == 0 {
        return interleave_chars(&sv, rep);
    }
    let mut out = String::new();
    let mut i: usize = 0;
    assert(sv@.subrange(0, n as int) =~= sv@);
    assert(out@ + sv@ =~= sv@);
    while i < n
        invariant
            n == sv@.len(),
            m == pv@.len(),
            m > 0,
            i <= n,
            replace_all(sv@, pv@, rep@) == out@ + replace_all(sv@.subrange(i as int, n as int), pv@, rep@),
        decreases n - i,
    {
        let ghost rest = sv@.subrange(i as int, n as int);
        if m <= n - i && matches_at(&sv, i, &pv) {
            assert(rest.subrange(0, m as int) =~= sv@.subrange(i as int, i + m));
            assert(rest.subrange(m as int, rest.len() as int) =~= sv@.subrange(i + m, n as int));
            let ghost before = out@;
            out.append(rep);
            i = i + m;
            assert(before + (rep@ + replace_all(sv@.subrange(i as int, n as int), pv@, rep@))
                =~= out@ + replace_all(sv@.subrange(i as int, n as int), pv@, rep@));
        } else {
            let c = sv[i];
            assert(rest.subrange(1, rest.len() as int) =~= sv@.subrange(i + 1, n as int));
            if m <= n - i {
                assert(rest.subrange(0, m as int) =~= sv@.subrange(i as int, i + m));
            } else {
                assert(rest.len() < m);
                assert(sv@.subrange(i + 1, n as int).len() < m);
                assert(rest =~= seq![c] + sv@.subrange(i + 1, n as int));
            }
            let ghost before = out@;
            push_char(&mut out, c);
            i = i + 1;
            assert(before + (seq![c] + replace_all(sv@.subrange(i as int, n as int), pv@, rep@))
                =~= out@ + replace_all(sv@.subrange(i as int, n as int), pv@, rep@));
        }
    }
    assert(sv@.subrange(n as int, n as int) =~= Seq::<char>::empty());
    assert(out@ + Seq::<char>::empty() =~= out@);
    out
}

} // verus!

//! Text helpers: decimal digits of integers, joining lines.
use vstd::prelude::*;

verus! {

/// The character of a decimal digit `0..=9`.
pub open spec fn digit_char(d: nat) -> char {
    if d == 0 { '0' }
    else if d == 1 { '1' }
    else if d == 2 { '2' }
    else if d == 3 { '3' }
    else if d == 4 { '4' }
    else if d == 5 { '5' }
    else if d == 6 { '6' }
    else if d == 7 { '7' }
    else if d == 8 { '8' }
    else { '9' }
}

/// Decimal representation of a natural number, without leading zeros
/// (`"0"` for zero), as `Display` prints unsigned integers.
pub open spec fn decimal_digits(n: nat) -> Seq<char>
    decreases n,
{
    if n < 10 {
        seq![digit_char(n)]
    } else {
        decimal_digits(n / 10).push(digit_char(n % 10))
    }
}

fn digit_to_char(d: u64) -> (c: char)
    requires
        d < 10,
    ensures
        c == digit_char(d as nat),
{
    if d == 0 { '0' }
    else if d == 1 { '1' }
    else if d == 2 { '2' }
    else if d == 3 { '3' }
    else if d == 4 { '4' }
    else if d == 5 { '5' }
    else if d == 6 { '6' }
    else if d == 7 { '7' }
    else if d == 8 { '8' }
    else { '9' }
}

/// Append one character to a string.
pub fn push_char(s: &mut String, c: char)
    ensures
        final(s)@ == old(s)@.push(c),
{
    let piece = char_string(c);
    s.append(piece.as_str());
}

/// A one-character string.
#[verifier::external_body]
fn char_string(c: char) -> (r: String)
    ensures
        r@ == seq![c],
{
    c.to_string()
}

/// The 64-bit hash std's `DefaultHasher` gives a text: a fresh hasher
/// (SipHash with its fixed default keys) fed the `str` and finished.
pub uninterp spec fn text_hash(s: Seq<char>) -> u64;

/// `BuildHasher::hash_one` with a default-built `DefaultHasher`: the same as
/// hashing the text into `DefaultHasher::new()` and calling `finish`.
#[verifier::external_body]
pub(crate) fn hash_text(s: &str) -> (r: u64)
    ensures
        r == text_hash(s@),
{
    std::hash::BuildHasher::hash_one(
        &std::hash::BuildHasherDefault::<std::collections::hash_map::DefaultHasher>::default(),
        s,
    )
}

/// Decimal text of an unsigned integer, as `Display` prints it.
pub fn u64_text(n: u64) -> (r: String)
    ensures
        r@ == decimal_digits(n as nat),
    decreases n,
{
    if n < 10 {
        let mut s = String::new();
        push_char(&mut s, digit_to_char(n));
        assert(s@ == seq![digit_char(n as nat)]);
        s
    } else {
        let mut s = u64_text(n / 10);
        push_char(&mut s, digit_to_char(n % 10));
        s
    }
}

/// Lines joined with `"\n"` between consecutive lines.
pub open spec fn join_lines(lines: Seq<Seq<char>>) -> Seq<char>
    decreases lines.len(),
{
    if lines.len() == 0 {
        Seq::empty()
    } else if lines.len() == 1 {
        lines[0]
    } else {
        join_lines(lines.drop_last()) + seq!['\n'] + lines.last()
    }
}

/// Joining lines puts one newline between neighbours: a single line is
/// itself, and adding a line appends a newline and that line.
pub proof fn law_join_lines(lines: Seq<Seq<char>>, line: Seq<char>)
    ensures
        join_lines(seq![line]) == line,
        lines.len() > 0 ==> join_lines(lines.push(line)) == join_lines(lines) + seq!['\n'] + line,
        join_lines(Seq::<Seq<char>>::empty()).len() == 0,
{
    assert(seq![line][0] == line);
    if lines.len() > 0 {
        assert(lines.push(line).drop_last() =~= lines);
    }
}

/// Join lines with `"\n"`, as `Vec<String>::join("\n")` does.
pub fn join_with_newlines(lines: &Vec<String>) -> (r: String)
    ensures
        r@ == join_lines(lines@.map_values(|l: String| l@)),
{
    let ghost views = lines@.map_values(|l: String| l@);
    let mut out = String::new();
    let n = lines.len();
    for i in 0..n
        invariant
            n == lines@.len(),
            views == lines@.map_values(|l: String| l@),
            out@ == join_lines(views.take(i as int)),
    {
        assert(views.take(i + 1).drop_last() == views.take(i as int));
        if i > 0 {
            out.append("\n");
            proof {
                reveal_strlit("\n");
            }
        }
        out.append(lines[i].as_str());
        proof {
            if i == 0 {
                assert(views.take(1) == seq![views[0]]);
            }
        }
    }
    assert(views.take(n as int) == views);
    out
}


/// Whether `p` is a prefix of `s`.
pub open spec fn has_prefix(s: Seq<char>, p: Seq<char>) -> bool {
    p.len() <= s.len() && s.subrange(0, p.len() as int) == p
}

/// Whether two strings hold the same characters.
pub fn same_text(a: &str, b: &str) -> (r: bool)
    ensures
        r == (a@ == b@),
{
    String::from_str(a) == String::from_str(b)
}

/// The rest of `s` after the prefix `p`, or `None` when `p` is not a prefix.
pub fn strip_prefix_text(s: &str, p: &str) -> (r: Option<String>)
    ensures
        match r {
            Some(t) => has_prefix(s@, p@) && t@ == s@.skip(p@.len() as int),
            None => !has_prefix(s@, p@),
        },
{
    let n = s.unicode_len();
    let k = p.unicode_len();
    if k > n {
        return None;
    }
    let mut i: usize = 0;
    while i < k
        invariant
            k <= n,
            n == s@.len(),
            k == p@.len(),
            i <= k,
            forall|j: int| 0 <= j < i ==> s@[j] == p@[j],
        decreases k - i,
    {
        if s.get_char(i) != p.get_char(i) {
            assert(s@.subrange(0, k as int)[i as int] != p@[i as int]);
            return None;
        }
        i = i + 1;
    }
    assert(s@.subrange(0, k as int) =~= p@);
    let rest = s.substring_char(k, n);
    assert(rest@ =~= s@.skip(k as int));
    Some(String::from_str(rest))
}

/// The characters of a string.
pub fn chars_of(s: &str) -> (r: Vec<char>)
    ensures
        r@ == s@,
{
    let n = s.unicode_len();
    let mut out: Vec<char> = Vec::new();
    let mut i: usize = 0;
    while i < n
        invariant
            n == s@.len(),
            i <= n,
            out@ == s@.take(i as int),
        decreases n - i,
    {
        out.push(s.get_char(i));
        assert(s@.take(i + 1) == s@.take(i as int).push(s@[i as int]));
        i = i + 1;
    }
    assert(s@.take(n as int) == s@);
    out
}

/// `s` with every occurrence of `pat` replaced by `with`, scanning left to
/// right without overlaps (as `str::replace` does for a non-empty pattern).
pub open spec fn replaced(s: Seq<char>, pat: Seq<char>, with: Seq<char>) -> Seq<char>
    decreases s.len(),
{
    if pat.len() == 0 || s.len() < pat.len() {
        s
    } else if s.take(pat.len() as int) == pat {
        with + replaced(s.skip(pat.len() as int), pat, with)
    } else {
        seq![s[0]] + replaced(s.skip(1), pat, with)
    }
}

/// Replace every occurrence of a non-empty pattern.
pub fn replace_all(s: &str, pat: &str, with: &str) -> (r: String)
    requires
        pat@.len() > 0,
    ensures
        r@ == replaced(s@, pat@, with@),
{
    let cs = chars_of(s);
    let ps = chars_of(pat);
    let n = cs.len();
    let k = ps.len();
    let mut out = String::new();
    let mut i: usize = 0;
    assert(s@.skip(0) =~= s@);
    assert(out@ + replaced(s@.skip(0), pat@, with@) =~= replaced(s@, pat@, with@));
    while i < n
        invariant
            cs@ == s@,
            ps@ == pat@,
            n == s@.len(),
            k == pat@.len(),
            k > 0,
            i <= n,
            out@ + replaced(s@.skip(i as int), pat@, with@) == replaced(s@, pat@, with@),
        decreases n - i,
    {
        let ghost rest = s@.skip(i as int);
        let mut matched = k <= n - i;
        if matched {
            let mut j: usize = 0;
            while j < k
                invariant
                    cs@ == s@,
                    ps@ == pat@,
                    n == s@.len(),
                    k == pat@.len(),
                    i + k <= n,
                    j <= k,
                    matched ==> forall|t: int| 0 <= t < j ==> cs@[i + t] == ps@[t],
                    !matched ==> rest.take(k as int) != pat@,
                    rest == s@.skip(i as int),
                decreases k - j,
            {
                if matched && cs[i + j] != ps[j] {
                    assert(rest.take(k as int)[j as int] == cs@[i + j]);
                    matched = false;
                }
                j = j + 1;
            }
            if matched {
                assert(rest.take(k as int) =~= pat@);
            }
        } else {
            assert(rest.len() < pat@.len());
        }
        if matched {
            out.append(with);
            assert(rest.skip(k as int) =~= s@.skip(i + k));
            assert(out@ + replaced(s@.skip(i + k), pat@, with@) =~= replaced(s@, pat@, with@));
            i = i + k;
        } else {
            push_char(&mut out, cs[i]);
            assert(rest.skip(1) =~= s@.skip(i + 1));
            assert(rest[0] == cs@[i as int]);
            assert(out@ + replaced(s@.skip(i + 1), pat@, with@) =~= replaced(s@, pat@, with@));
            i = i + 1;
        }
    }
    assert(s@.skip(n as int) =~= Seq::<char>::empty());
    assert(out@ =~= replaced(s@, pat@, with@));
    out
}

} // verus!

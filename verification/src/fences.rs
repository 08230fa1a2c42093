//! Locating JSON inside model output: stripping markdown code fences and
//! extracting the first fenced block.
use crate::text::chars_of;
use vstd::prelude::*;

verus! {

/// Whether a character has the Unicode `White_Space` property (what
/// `char::is_whitespace`, and so `str::trim`, tests).
pub open spec fn is_ws(c: char) -> bool {
    ('\u{9}' <= c && c <= '\u{d}') || c == ' ' || c == '\u{85}' || c == '\u{a0}' || c == '\u{1680}'
        || ('\u{2000}' <= c && c <= '\u{200a}') || c == '\u{2028}' || c == '\u{2029}' || c
        == '\u{202f}' || c == '\u{205f}' || c == '\u{3000}'
}

/// `c` has the Unicode `White_Space` property.
pub fn is_whitespace(c: char) -> (r: bool)
    ensures
        r == is_ws(c),
{
    ('\u{9}' <= c && c <= '\u{d}') || c == ' ' || c == '\u{85}' || c == '\u{a0}' || c == '\u{1680}'
        || ('\u{2000}' <= c && c <= '\u{200a}') || c == '\u{2028}' || c == '\u{2029}' || c
        == '\u{202f}' || c == '\u{205f}' || c == '\u{3000}'
}

/// Index of the first non-whitespace character at or after `i` (or the length).
pub open spec fn skip_ws_from(s: Seq<char>, i: int) -> int
    decreases s.len() - i,
{
    if i >= s.len() {
        s.len() as int
    } else if is_ws(s[i]) {
        skip_ws_from(s, i + 1)
    } else {
        i
    }
}

/// One past the last non-whitespace character before `j` (at least `lo`).
pub open spec fn back_ws_from(s: Seq<char>, lo: int, j: int) -> int
    decreases j - lo,
{
    if j <= lo {
        lo
    } else if is_ws(s[j - 1]) {
        back_ws_from(s, lo, j - 1)
    } else {
        j
    }
}

/// `s` with leading and trailing whitespace removed (`str::trim`).
pub open spec fn trim(s: Seq<char>) -> Seq<char> {
    let a = skip_ws_from(s, 0);
    let b = back_ws_from(s, a, s.len() as int);
    s.subrange(a, b)
}

/// Whether `pat` occurs in `s` at index `i`.
pub open spec fn occurs_at(s: Seq<char>, pat: Seq<char>, i: int) -> bool {
    0 <= i && i + pat.len() <= s.len() && s.subrange(i, i + pat.len()) == pat
}

/// First index at or after `i` where `pat` occurs in `s`.
pub open spec fn find_from(s: Seq<char>, pat: Seq<char>, i: int) -> Option<int>
    decreases s.len() + 1 - i,
{
    if i < 0 || i + pat.len() > s.len() {
        None
    } else if occurs_at(s, pat, i) {
        Some(i)
    } else {
        find_from(s, pat, i + 1)
    }
}

/// First index where `pat` occurs in `s` (`str::find`).
pub open spec fn find(s: Seq<char>, pat: Seq<char>) -> Option<int> {
    find_from(s, pat, 0)
}

/// Result of stripping fences: the trimmed text; when it opens with
/// "```json" or "```", the rest trimmed, with a closing "```" removed and
/// trimmed again.
pub open spec fn strip_fences_spec(text: Seq<char>) -> Seq<char> {
    let t = trim(text);
    if occurs_at(t, "```json"@, 0) {
        strip_closing(trim(t.skip(7)))
    } else if occurs_at(t, "```"@, 0) {
        strip_closing(trim(t.skip(3)))
    } else {
        t
    }
}

/// A trimmed remainder with a closing fence removed and trimmed again.
pub open spec fn strip_closing(rest: Seq<char>) -> Seq<char> {
    if rest.len() >= 3 && occurs_at(rest, "```"@, rest.len() - 3) {
        trim(rest.take(rest.len() - 3))
    } else {
        rest
    }
}

/// Where the content of the first fenced block starts: after the first
/// "```json\n", else "```json\r\n", else "```\n", else "```\r\n".
pub open spec fn block_start(s: Seq<char>) -> Option<int> {
    if find(s, "```json\n"@) is Some {
        Some(find(s, "```json\n"@).unwrap() + 8)
    } else if find(s, "```json\r\n"@) is Some {
        Some(find(s, "```json\r\n"@).unwrap() + 9)
    } else if find(s, "```\n"@) is Some {
        Some(find(s, "```\n"@).unwrap() + 4)
    } else if find(s, "```\r\n"@) is Some {
        Some(find(s, "```\r\n"@).unwrap() + 5)
    } else {
        None
    }
}

/// The trimmed content of the first fenced code block, if there is a
/// non-empty one.
pub open spec fn json_block_spec(s: Seq<char>) -> Option<Seq<char>> {
    match block_start(s) {
        None => None,
        Some(start) => match find(s.skip(start), "```"@) {
            None => None,
            Some(off) => {
                let content = trim(s.subrange(start, start + off));
                if content.len() == 0 {
                    None
                } else {
                    Some(content)
                }
            },
        },
    }
}


/// Index of the first non-whitespace character at or after `i`.
fn skip_ws(s: &Vec<char>, i: usize) -> (r: usize)
    requires
        i <= s@.len(),
    ensures
        r == skip_ws_from(s@, i as int),
        i <= r <= s@.len(),
    decreases s@.len() - i,
{
    if i >= s.len() {
        s.len()
    } else if is_whitespace(s[i]) {
        skip_ws(s, i + 1)
    } else {
        i
    }
}

/// One past the last non-whitespace character before `j`, not below `lo`.
fn back_ws(s: &Vec<char>, lo: usize, j: usize) -> (r: usize)
    requires
        lo <= j <= s@.len(),
    ensures
        r == back_ws_from(s@, lo as int, j as int),
        lo <= r <= j,
    decreases j - lo,
{
    if j <= lo {
        lo
    } else if is_whitespace(s[j - 1]) {
        back_ws(s, lo, j - 1)
    } else {
        j
    }
}

/// Whether `pat` occurs in `s` at `i`.
fn occurs(s: &Vec<char>, pat: &Vec<char>, i: usize) -> (r: bool)
    ensures
        r == occurs_at(s@, pat@, i as int),
{
    if i > s.len() || pat.len() > s.len() - i {
        return false;
    }
    let mut k: usize = 0;
    while k < pat.len()
        invariant
            i + pat@.len() <= s@.len(),
            k <= pat@.len(),
            pat@.len() == pat.len(),
            s@.len() == s.len(),
            forall|m: int| 0 <= m < k ==> s@[i + m] == pat@[m],
        decreases pat@.len() - k,
    {
        if s[i + k] != pat[k] {
            assert(s@.subrange(i as int, i + pat@.len())[k as int] != pat@[k as int]);
            return false;
        }
        k = k + 1;
    }
    assert(s@.subrange(i as int, i + pat@.len()) =~= pat@);
    true
}

/// First index at or after `i` where `pat` occurs.
fn find_in(s: &Vec<char>, pat: &Vec<char>, i: usize) -> (r: Option<usize>)
    requires
        i <= s@.len(),
    ensures
        r matches Some(k) ==> find_from(s@, pat@, i as int) == Some(k as int),
        r is None ==> find_from(s@, pat@, i as int) is None,
    decreases s@.len() + 1 - i,
{
    if pat.len() > s.len() - i {
        None
    } else if occurs(s, pat, i) {
        Some(i)
    } else if i == s.len() {
        assert(s@.subrange(i as int, i as int) =~= pat@);
        None
    } else {
        find_in(s, pat, i + 1)
    }
}

/// Find relative to a suffix equals find from an offset, shifted.
proof fn lemma_find_skip(s: Seq<char>, pat: Seq<char>, start: int, i: int)
    requires
        0 <= start <= s.len(),
        0 <= i,
    ensures
        find_from(s.skip(start), pat, i) == match find_from(s, pat, start + i) {
            Some(k) => Some(k - start),
            None => None::<int>,
        },
    decreases s.len() + 1 - start - i,
{
    let t = s.skip(start);
    if i + pat.len() > t.len() {
    } else {
        assert(t.subrange(i, i + pat.len()) =~= s.subrange(start + i, start + i + pat.len()));
        if occurs_at(t, pat, i) {
        } else {
            lemma_find_skip(s, pat, start, i + 1);
        }
    }
}

/// A found index is an occurrence.
proof fn lemma_find_occurs(s: Seq<char>, pat: Seq<char>, i: int)
    requires
        find_from(s, pat, i) is Some,
    ensures
        occurs_at(s, pat, find_from(s, pat, i).unwrap()),
        i <= find_from(s, pat, i).unwrap(),
    decreases s.len() + 1 - i,
{
    if i < 0 || i + pat.len() > s.len() {
    } else if occurs_at(s, pat, i) {
    } else {
        lemma_find_occurs(s, pat, i + 1);
    }
}

/// A string literal's characters.
fn lit(s: &str) -> (r: Vec<char>)
    ensures
        r@ == s@,
{
    chars_of(s)
}

/// Strip markdown code fences from a JSON response and trim it: the inner
/// content of "```json ... ```" or "``` ... ```", or the trimmed text when
/// it is not fenced.
pub fn strip_json_fences(text: &str) -> (r: &str)
    ensures
        r@ == strip_fences_spec(text@),
        !occurs_at(trim(text@), "```"@, 0) ==> r@ == trim(text@),
{
    let cs = chars_of(text);
    let a = skip_ws(&cs, 0);
    let b = back_ws(&cs, a, cs.len());
    let t = text.substring_char(a, b);
    let tc = chars_of(t);
    proof {
        reveal_strlit("```json");
        reveal_strlit("```");
    }
    let json_open = lit("```json");
    let open = lit("```");
    proof {
        if occurs_at(tc@, json_open@, 0) {
            assert(tc@.subrange(0, 3) =~= tc@.subrange(0, 7).subrange(0, 3));
            assert(tc@.subrange(0, 3) =~= open@);
        }
    }
    if occurs(&tc, &json_open, 0) {
        strip_closing_exec(t.substring_char(7, tc.len()))
    } else if occurs(&tc, &open, 0) {
        strip_closing_exec(t.substring_char(3, tc.len()))
    } else {
        t
    }
}

/// Trim a remainder, remove a closing fence and trim again.
fn strip_closing_exec(rest_raw: &str) -> (r: &str)
    ensures
        r@ == strip_closing(trim(rest_raw@)),
{
    let cs = chars_of(rest_raw);
    let a = skip_ws(&cs, 0);
    let b = back_ws(&cs, a, cs.len());
    let rest = rest_raw.substring_char(a, b);
    let rc = chars_of(rest);
    proof {
        reveal_strlit("```");
    }
    let close = lit("```");
    if rc.len() >= 3 && occurs(&rc, &close, rc.len() - 3) {
        let inner = rest.substring_char(0, rc.len() - 3);
        let ic = chars_of(inner);
        let a2 = skip_ws(&ic, 0);
        let b2 = back_ws(&ic, a2, ic.len());
        inner.substring_char(a2, b2)
    } else {
        rest
    }
}

/// The trimmed content of the first markdown code block ("```json\n...```" or
/// "```\n...```"), or `None` when there is no block or it is empty.
pub fn extract_json_block(text: &str) -> (r: Option<&str>)
    ensures
        match r {
            Some(c) => json_block_spec(text@) == Some(c@),
            None => json_block_spec(text@) is None,
        },
{
    let s = chars_of(text);
    let slen = s.len();
    assert(s@.len() == slen);
    proof {
        reveal_strlit("```json\n");
        reveal_strlit("```json\r\n");
        reveal_strlit("```\n");
        reveal_strlit("```\r\n");
        reveal_strlit("```");
    }
    let p1 = lit("```json\n");
    let p2 = lit("```json\r\n");
    let p3 = lit("```\n");
    let p4 = lit("```\r\n");
    let start = match find_in(&s, &p1, 0) {
        Some(i) => {
            proof {
                lemma_find_occurs(s@, p1@, 0);
                assert(p1@.len() == 8);
                assert(i + p1@.len() <= s@.len());
            }
            i + 8
        },
        None => match find_in(&s, &p2, 0) {
            Some(i) => {
                proof {
                    lemma_find_occurs(s@, p2@, 0);
                    assert(p2@.len() == 9);
                    assert(i + p2@.len() <= s@.len());
                }
                i + 9
            },
            None => match find_in(&s, &p3, 0) {
                Some(i) => {
                    proof { lemma_find_occurs(s@, p3@, 0); }
                    i + 4
                },
                None => match find_in(&s, &p4, 0) {
                    Some(i) => {
                        proof { lemma_find_occurs(s@, p4@, 0); }
                        i + 5
                    },
                    None => {
                        return None;
                    },
                },
            },
        },
    };
    assert(block_start(s@) == Some(start as int));
    let close = lit("```");
    let end = match find_in(&s, &close, start) {
        Some(k) => {
            proof {
                lemma_find_occurs(s@, close@, start as int);
            }
            k
        },
        None => {
            proof {
                lemma_find_skip(s@, "```"@, start as int, 0);
            }
            return None;
        },
    };
    proof {
        lemma_find_skip(s@, "```"@, start as int, 0);
    }
    let region = text.substring_char(start, end);
    let rc = chars_of(region);
    let a = skip_ws(&rc, 0);
    let b = back_ws(&rc, a, rc.len());
    if a == b {
        None
    } else {
        Some(region.substring_char(a, b))
    }
}

/// Whether a text neither starts nor ends with whitespace.
pub open spec fn is_trimmed(s: Seq<char>) -> bool {
    s.len() == 0 || (!is_ws(s[0]) && !is_ws(s.last()))
}

/// Skipping whitespace forward stops at a non-whitespace character or the end.
proof fn lemma_skip_ws(s: Seq<char>, i: int)
    requires
        0 <= i <= s.len(),
    ensures
        i <= skip_ws_from(s, i) <= s.len(),
        skip_ws_from(s, i) < s.len() ==> !is_ws(s[skip_ws_from(s, i)]),
    decreases s.len() - i,
{
    if i < s.len() && is_ws(s[i]) {
        lemma_skip_ws(s, i + 1);
    }
}

/// Skipping whitespace backward stops after a non-whitespace character or at `lo`.
proof fn lemma_back_ws(s: Seq<char>, lo: int, j: int)
    requires
        0 <= lo <= j <= s.len(),
    ensures
        lo <= back_ws_from(s, lo, j) <= j,
        back_ws_from(s, lo, j) > lo ==> !is_ws(s[back_ws_from(s, lo, j) - 1]),
    decreases j - lo,
{
    if j > lo && is_ws(s[j - 1]) {
        lemma_back_ws(s, lo, j - 1);
    }
}

/// What `trim` gives neither starts nor ends with whitespace.
pub proof fn law_trim_is_trimmed(s: Seq<char>)
    ensures
        is_trimmed(trim(s)),
{
    lemma_skip_ws(s, 0);
    let a = skip_ws_from(s, 0);
    lemma_back_ws(s, a, s.len() as int);
    let b = back_ws_from(s, a, s.len() as int);
    if b > a {
        assert(trim(s)[0] == s[a]);
        assert(trim(s).last() == s[b - 1]);
    }
}

/// Stripping fences gives the inner content trimmed: it never starts or ends
/// with whitespace.
pub proof fn law_strip_fences_trimmed(text: Seq<char>)
    ensures
        is_trimmed(strip_fences_spec(text)),
{
    let t = trim(text);
    law_trim_is_trimmed(text);
    if occurs_at(t, "```json"@, 0) {
        lemma_strip_closing_trimmed(t.skip(7));
    } else if occurs_at(t, "```"@, 0) {
        lemma_strip_closing_trimmed(t.skip(3));
    }
}

/// Removing a closing fence from a trimmed remainder leaves it trimmed.
proof fn lemma_strip_closing_trimmed(s: Seq<char>)
    ensures
        is_trimmed(strip_closing(trim(s))),
{
    let rest = trim(s);
    law_trim_is_trimmed(s);
    if rest.len() >= 3 && occurs_at(rest, "```"@, rest.len() - 3) {
        law_trim_is_trimmed(rest.take(rest.len() - 3));
    }
}

/// Trimming keeps a contiguous piece of the text.
proof fn lemma_trim_piece(s: Seq<char>)
    ensures
        exists|a: int, b: int| 0 <= a <= b <= s.len() && trim(s) == s.subrange(a, b),
        trim(s).len() <= s.len(),
{
    lemma_skip_ws(s, 0);
    let a = skip_ws_from(s, 0);
    lemma_back_ws(s, a, s.len() as int);
    let b = back_ws_from(s, a, s.len() as int);
    assert(trim(s) == s.subrange(a, b));
}

/// Stripping fences only removes: a text whose trimmed form does not open
/// with a fence comes back trimmed; one that does loses at least the opening
/// fence, and what is left is no longer than the trimmed text without it.
pub proof fn law_strip_fences_removes(text: Seq<char>)
    ensures
        !occurs_at(trim(text), "```"@, 0) ==> strip_fences_spec(text) == trim(text),
        occurs_at(trim(text), "```"@, 0) ==> strip_fences_spec(text).len() + 3 <= trim(text).len(),
        occurs_at(trim(text), "```json"@, 0) ==> strip_fences_spec(text).len() + 7 <= trim(text).len(),
{
    reveal_strlit("```");
    reveal_strlit("```json");
    let t = trim(text);
    if occurs_at(t, "```json"@, 0) {
        assert(t.subrange(0, 3) =~= t.subrange(0, 7).subrange(0, 3));
        assert("```json"@.subrange(0, 3) =~= "```"@);
        assert(occurs_at(t, "```"@, 0));
        let rest = trim(t.skip(7));
        lemma_trim_piece(t.skip(7));
        if rest.len() >= 3 && occurs_at(rest, "```"@, rest.len() - 3) {
            lemma_trim_piece(rest.take(rest.len() - 3));
        }
    } else if occurs_at(t, "```"@, 0) {
        let rest = trim(t.skip(3));
        lemma_trim_piece(t.skip(3));
        if rest.len() >= 3 && occurs_at(rest, "```"@, rest.len() - 3) {
            lemma_trim_piece(rest.take(rest.len() - 3));
        }
    }
}

/// An extracted block lies between an opening fence and a closing one: the
/// text holds a fence, and the block is at least seven characters (the
/// shortest opening fence line and the closing fence) shorter than the text.
pub proof fn law_json_block_inside(s: Seq<char>)
    ensures
        json_block_spec(s) is Some ==> exists|i: int| #[trigger] occurs_at(s, "```"@, i),
        json_block_spec(s) matches Some(c) ==> c.len() + 7 <= s.len(),
{
    reveal_strlit("```json\n");
    reveal_strlit("```json\r\n");
    reveal_strlit("```\n");
    reveal_strlit("```\r\n");
    reveal_strlit("```");
    match block_start(s) {
        None => {},
        Some(start) => {
            let pat = if find(s, "```json\n"@) is Some {
                "```json\n"@
            } else if find(s, "```json\r\n"@) is Some {
                "```json\r\n"@
            } else if find(s, "```\n"@) is Some {
                "```\n"@
            } else {
                "```\r\n"@
            };
            lemma_find_occurs(s, pat, 0);
            let k = find(s, pat).unwrap();
            assert(start == k + pat.len());
            assert(start <= s.len());
            match find(s.skip(start), "```"@) {
                None => {},
                Some(off) => {
                    lemma_find_occurs(s.skip(start), "```"@, 0);
                    lemma_trim_piece(s.subrange(start, start + off));
                    assert(s.subrange(start + off, start + off + 3) =~= s.skip(start).subrange(off, off + 3));
                    assert(occurs_at(s, "```"@, start + off));
                },
            }
        },
    }
}

/// An extracted block is never empty and neither starts nor ends with
/// whitespace.
pub proof fn law_json_block_trimmed(s: Seq<char>)
    ensures
        json_block_spec(s) matches Some(c) ==> c.len() > 0 && is_trimmed(c),
{
    match block_start(s) {
        None => {},
        Some(start) => match find(s.skip(start), "```"@) {
            None => {},
            Some(off) => {
                law_trim_is_trimmed(s.subrange(start, start + off));
            },
        },
    }
}

} // verus!

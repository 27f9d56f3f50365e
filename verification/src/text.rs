//! Text predicates shared by the note validation and the configuration code.
use vstd::prelude::*;

verus! {

/// The Unicode `White_Space` property, which is what `char::is_whitespace`
/// (and therefore `str::trim`) tests.
pub open spec fn spec_is_whitespace(c: char) -> bool {
    ||| '\u{9}' <= c <= '\u{d}'
    ||| c == ' '
    ||| c == '\u{85}'
    ||| c == '\u{a0}'
    ||| c == '\u{1680}'
    ||| '\u{2000}' <= c <= '\u{200a}'
    ||| c == '\u{2028}'
    ||| c == '\u{2029}'
    ||| c == '\u{202f}'
    ||| c == '\u{205f}'
    ||| c == '\u{3000}'
}

/// A text is blank when trimming it leaves nothing: every character is white space.
pub open spec fn spec_is_blank(s: Seq<char>) -> bool {
    forall|i: int| 0 <= i < s.len() ==> spec_is_whitespace(#[trigger] s[i])
}

/// White space lies between the tab (U+0009) and the ideographic space
/// (U+3000): no character below or above is white space. In particular no
/// CJK ideograph, kana, hangul syllable or emoji (all above U+3000) is.
pub proof fn lemma_whitespace_range(c: char)
    ensures
        spec_is_whitespace(c) ==> '\u{9}' <= c <= '\u{3000}',
{
}

/// No printable ASCII character (from `!` to `~`: letters, digits,
/// punctuation) is white space, nor any character from U+00A1 to U+167F
/// (Latin-1 letters, Greek, Cyrillic, Hebrew, Arabic, Indic scripts, ...), nor
/// any character from U+3001 on.
pub proof fn lemma_letters_are_not_whitespace(c: char)
    ensures
        '!' <= c <= '~' ==> !spec_is_whitespace(c),
        '\u{a1}' <= c <= '\u{167f}' ==> !spec_is_whitespace(c),
        '\u{3001}' <= c ==> !spec_is_whitespace(c),
{
}

/// The white space of ASCII is exactly tab, line feed, vertical tab, form
/// feed, carriage return and space; the no-break space (U+00A0) and the
/// ideographic space (U+3000) are white space too.
pub proof fn lemma_ascii_whitespace(c: char)
    ensures
        c <= '\u{7f}' ==> (spec_is_whitespace(c) <==> (c == '\t' || c == '\n' || c == '\u{b}' || c
            == '\u{c}' || c == '\r' || c == ' ')),
        spec_is_whitespace('\u{a0}'),
        spec_is_whitespace('\u{3000}'),
{
}

/// There are exactly 25 white-space characters.
pub proof fn lemma_whitespace_count()
    ensures
        Set::new(|c: char| spec_is_whitespace(c)) == set![
            '\u{9}', '\u{a}', '\u{b}', '\u{c}', '\u{d}', ' ', '\u{85}', '\u{a0}', '\u{1680}',
            '\u{2000}', '\u{2001}', '\u{2002}', '\u{2003}', '\u{2004}', '\u{2005}', '\u{2006}',
            '\u{2007}', '\u{2008}', '\u{2009}', '\u{200a}', '\u{2028}', '\u{2029}', '\u{202f}',
            '\u{205f}', '\u{3000}'
        ],
        Set::new(|c: char| spec_is_whitespace(c)).len() == 25,
{
    let ws = Set::new(|c: char| spec_is_whitespace(c));
    let listed = set![
        '\u{9}', '\u{a}', '\u{b}', '\u{c}', '\u{d}', ' ', '\u{85}', '\u{a0}', '\u{1680}',
        '\u{2000}', '\u{2001}', '\u{2002}', '\u{2003}', '\u{2004}', '\u{2005}', '\u{2006}',
        '\u{2007}', '\u{2008}', '\u{2009}', '\u{200a}', '\u{2028}', '\u{2029}', '\u{202f}',
        '\u{205f}', '\u{3000}'
    ];
    assert(ws =~= listed);
}

/// A text with a character that is not white space is not blank.
pub proof fn lemma_not_blank(s: Seq<char>, i: int)
    requires
        0 <= i < s.len(),
        !spec_is_whitespace(s[i]),
    ensures
        !spec_is_blank(s),
{
}

/// Whether `c` is white space in the sense of `char::is_whitespace`.
pub fn is_whitespace(c: char) -> (res: bool)
    ensures
        res == spec_is_whitespace(c),
{
    ('\u{9}' <= c && c <= '\u{d}') || c == ' ' || c == '\u{85}' || c == '\u{a0}' || c == '\u{1680}'
        || ('\u{2000}' <= c && c <= '\u{200a}') || c == '\u{2028}' || c == '\u{2029}' || c
        == '\u{202f}' || c == '\u{205f}' || c == '\u{3000}'
}

/// Whether `s.trim().is_empty()` holds: `s` has no character but white space.
pub fn is_blank(s: &str) -> (res: bool)
    ensures
        res == spec_is_blank(s@),
{
    broadcast use vstd::string::axiom_spec_iter;
    for c in it: s.chars()
        invariant
            it.seq() == s@,
            forall|j: int| 0 <= j < it.index() ==> spec_is_whitespace(#[trigger] s@[j]),
    {
        if !is_whitespace(c) {
            return false;
        }
    }
    true
}

/// Whether `s` begins, at character position `i`, with the characters of `pat`.
pub open spec fn spec_occurs_at(s: Seq<char>, i: int, pat: Seq<char>) -> bool {
    0 <= i && i + pat.len() <= s.len() && s.subrange(i, i + pat.len()) == pat
}

/// What `str::replace(s, pat, "")` gives for a non-empty `pat`: scanning from the
/// left, each occurrence of `pat` that does not overlap an earlier removed one is
/// removed, and every other character is kept in order.
pub open spec fn spec_remove_all(s: Seq<char>, pat: Seq<char>) -> Seq<char>
    recommends
        pat.len() > 0,
    decreases s.len(),
{
    if s.len() == 0 || pat.len() == 0 {
        s
    } else if spec_occurs_at(s, 0, pat) {
        spec_remove_all(s.subrange(pat.len() as int, s.len() as int), pat)
    } else {
        seq![s[0]] + spec_remove_all(s.drop_first(), pat)
    }
}

/// Removing a text that does not occur leaves the text as it is.
pub proof fn lemma_remove_all_absent(s: Seq<char>, pat: Seq<char>)
    requires
        pat.len() > 0,
        forall|i: int| !spec_occurs_at(s, i, pat),
    ensures
        spec_remove_all(s, pat) == s,
    decreases s.len(),
{
    if s.len() > 0 {
        assert(!spec_occurs_at(s, 0, pat));
        let t = s.drop_first();
        assert forall|i: int| !spec_occurs_at(t, i, pat) by {
            if spec_occurs_at(t, i, pat) {
                assert(t.subrange(i, i + pat.len()) =~= s.subrange(i + 1, i + 1 + pat.len()));
                assert(spec_occurs_at(s, i + 1, pat));
            }
        }
        lemma_remove_all_absent(t, pat);
        assert(seq![s[0]] + t =~= s);
    }
}

/// Removing `pat` from `pat` followed by a text in which `pat` does not
/// occur gives that text.
pub proof fn lemma_remove_all_prefix(pat: Seq<char>, rest: Seq<char>)
    requires
        pat.len() > 0,
        forall|i: int| !spec_occurs_at(rest, i, pat),
    ensures
        spec_remove_all(pat + rest, pat) == rest,
{
    let s = pat + rest;
    assert(s.subrange(0, pat.len() as int) =~= pat);
    assert(s.subrange(pat.len() as int, s.len() as int) =~= rest);
    lemma_remove_all_absent(rest, pat);
}

/// Whether the two texts hold the same characters.
pub fn same_text(a: &str, b: &str) -> (res: bool)
    ensures
        res == (a@ == b@),
{
    let n: usize = a.unicode_len();
    let m: usize = b.unicode_len();
    if n != m {
        return false;
    }
    let mut i: usize = 0;
    while i < n
        invariant
            n == a@.len(),
            n == b@.len(),
            i <= n,
            forall|j: int| 0 <= j < i ==> a@[j] == b@[j],
        decreases n - i,
    {
        if a.get_char(i) != b.get_char(i) {
            return false;
        }
        i = i + 1;
    }
    assert(a@ =~= b@);
    true
}

/// Whether `pat` occurs in `s` at character position `i`.
fn occurs_at(s: &str, i: usize, pat: &str) -> (res: bool)
    requires
        i <= s@.len(),
    ensures
        res == spec_occurs_at(s@, i as int, pat@),
{
    let n: usize = s.unicode_len();
    let m: usize = pat.unicode_len();
    if m > n - i {
        return false;
    }
    let mut j: usize = 0;
    while j < m
        invariant
            n == s@.len(),
            m == pat@.len(),
            i + m <= n,
            j <= m,
            forall|k: int| 0 <= k < j ==> s@[i + k] == pat@[k],
        decreases m - j,
    {
        if s.get_char(i + j) != pat.get_char(j) {
            assert(s@.subrange(i as int, i + m)[j as int] != pat@[j as int]);
            return false;
        }
        j = j + 1;
    }
    assert(s@.subrange(i as int, i + m) =~= pat@);
    true
}

/// `s.replace(pat, "")`: the text `s` with the occurrences of `pat` taken out.
pub fn remove_all(s: &str, pat: &str) -> (res: String)
    requires
        pat@.len() > 0,
    ensures
        res@ == spec_remove_all(s@, pat@),
{
    let n: usize = s.unicode_len();
    let m: usize = pat.unicode_len();
    let mut out = String::new();
    let mut i: usize = 0;
    assert(s@.subrange(0, n as int) =~= s@);
    while i < n
        invariant
            n == s@.len(),
            m == pat@.len(),
            m > 0,
            i <= n,
            spec_remove_all(s@, pat@) == out@ + spec_remove_all(s@.subrange(i as int, n as int), pat@),
        decreases n - i,
    {
        let ghost rest = s@.subrange(i as int, n as int);
        if occurs_at(s, i, pat) {
            assert(rest.subrange(0, m as int) =~= s@.subrange(i as int, i + m));
            assert(rest.subrange(m as int, rest.len() as int) =~= s@.subrange(i + m, n as int));
            i = i + m;
        } else {
            assert(!spec_occurs_at(rest, 0, pat@)) by {
                if m <= rest.len() {
                    assert(rest.subrange(0, m as int) =~= s@.subrange(i as int, i + m));
                }
            }
            let piece = s.substring_char(i, i + 1);
            assert(piece@ =~= seq![rest[0]]);
            assert(rest.drop_first() =~= s@.subrange(i + 1, n as int));
            out.append(piece);
            assert(out@ + spec_remove_all(s@.subrange(i + 1, n as int), pat@) =~= (out@.drop_last()
                + seq![rest[0]]) + spec_remove_all(rest.drop_first(), pat@));
            i = i + 1;
        }
    }
    assert(s@.subrange(n as int, n as int) =~= Seq::<char>::empty());
    assert(out@ + Seq::<char>::empty() =~= out@);
    out
}

} // verus!

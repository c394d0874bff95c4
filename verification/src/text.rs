use vstd::prelude::*;
use vstd::utf8::is_ascii_chars;

verus! {

/// The lower-case form of an ASCII capital letter; every other character is unchanged.
pub open spec fn ascii_lower_char(c: char) -> char {
    if 'A' <= c && c <= 'Z' {
        ((c as u32) + 32) as char
    } else {
        c
    }
}

/// Lower-cases the ASCII letters of a character sequence.
pub open spec fn ascii_lower(s: Seq<char>) -> Seq<char> {
    s.map_values(|c: char| ascii_lower_char(c))
}

/// `c` with its ASCII letters lower-cased.
pub fn lower_ascii_char(c: char) -> (r: char)
    ensures
        r == ascii_lower_char(c),
{
    if 'A' <= c && c <= 'Z' {
        let b: u8 = c as u8;
        (b + 32) as char
    } else {
        c
    }
}


/// The characters of `s`, in order.
pub fn chars_of(s: &str) -> (r: Vec<char>)
    ensures
        r@ == s@,
{
    let mut v: Vec<char> = Vec::new();
    for c in it: s.chars()
        invariant
            it.seq() == s@,
            v@ == it.seq().take(it.index() as int),
    {
        v.push(c);
    }
    v
}


/// Unicode `White_Space`, the set of characters that `str::trim` removes.
pub open spec fn is_white_space(c: char) -> bool {
    let u = c as u32;
    ||| 0x9 <= u <= 0xd
    ||| u == 0x20
    ||| u == 0x85
    ||| u == 0xa0
    ||| u == 0x1680
    ||| 0x2000 <= u <= 0x200a
    ||| u == 0x2028
    ||| u == 0x2029
    ||| u == 0x202f
    ||| u == 0x205f
    ||| u == 0x3000
}

/// `s` without its leading white space.
pub open spec fn trim_start(s: Seq<char>) -> Seq<char>
    decreases s.len(),
{
    if s.len() > 0 && is_white_space(s[0]) {
        trim_start(s.drop_first())
    } else {
        s
    }
}

/// `s` without its trailing white space.
pub open spec fn trim_end(s: Seq<char>) -> Seq<char>
    decreases s.len(),
{
    if s.len() > 0 && is_white_space(s.last()) {
        trim_end(s.drop_last())
    } else {
        s
    }
}

/// `s` without leading and trailing white space.
pub open spec fn trimmed(s: Seq<char>) -> Seq<char> {
    trim_end(trim_start(s))
}

/// `str::trim`: claimed to remove exactly the leading and trailing characters
/// of Unicode `White_Space`, as its documentation says.
#[verifier::external_body]
pub(crate) fn trim_str(s: &str) -> (r: &str)
    ensures
        r@ == trimmed(s@),
{
    s.trim()
}

/// What `str::to_lowercase` gives for a string: the full Unicode lower-case
/// mapping, which depends on the characters alone.
pub uninterp spec fn unicode_lowercase(s: Seq<char>) -> Seq<char>;

/// `str::to_lowercase`. Claimed: the result is `unicode_lowercase` of the input, and
/// text made of ASCII characters alone has just its letters A to Z lower-cased. The
/// mapping tables for other characters are not restated here.
#[verifier::external_body]
pub(crate) fn lowercase_str(s: &str) -> (r: String)
    ensures
        r@ == unicode_lowercase(s@),
        is_ascii_chars(s@) ==> r@ == ascii_lower(s@),
{
    s.to_lowercase()
}

/// The lower-case form of a text: ASCII text has its letters lower-cased, other text
/// takes the full Unicode mapping.
pub open spec fn lowercased(s: Seq<char>) -> Seq<char> {
    if is_ascii_chars(s) {
        ascii_lower(s)
    } else {
        unicode_lowercase(s)
    }
}

/// The form under which network and printer names are compared:
/// trimmed, then lower-cased.
pub open spec fn normalized(s: Seq<char>) -> Seq<char> {
    lowercased(trimmed(s))
}

/// Every character of `s` is white space.
pub open spec fn all_white_space(s: Seq<char>) -> bool {
    forall|i: int| 0 <= i < s.len() ==> is_white_space(#[trigger] s[i])
}

/// Leading white space before `t` is dropped with the rest of it.
proof fn lemma_trim_start_skips_padding(p: Seq<char>, t: Seq<char>)
    requires
        all_white_space(p),
    ensures
        trim_start(p + t) == trim_start(t),
    decreases p.len(),
{
    if p.len() > 0 {
        assert((p + t).drop_first() =~= p.drop_first() + t);
        assert(is_white_space(p[0]));
        assert((p + t)[0] == p[0]);
        lemma_trim_start_skips_padding(p.drop_first(), t);
    } else {
        assert(p + t =~= t);
    }
}

/// Trailing white space after `t` is dropped with the rest of it.
proof fn lemma_trim_end_skips_padding(t: Seq<char>, q: Seq<char>)
    requires
        all_white_space(q),
    ensures
        trim_end(t + q) == trim_end(t),
    decreases q.len(),
{
    if q.len() > 0 {
        assert((t + q).drop_last() =~= t + q.drop_last());
        assert(is_white_space(q.last()));
        assert((t + q).last() == q.last());
        lemma_trim_end_skips_padding(t, q.drop_last());
    } else {
        assert(t + q =~= t);
    }
}

/// Trimming the front of `s + q`: what remains of `s`, then `q`; or nothing, where
/// `s` and `q` are white space alone.
proof fn lemma_trim_start_append(s: Seq<char>, q: Seq<char>)
    requires
        all_white_space(q),
    ensures
        trim_start(s).len() > 0 ==> trim_start(s + q) == trim_start(s) + q,
        trim_start(s).len() == 0 ==> trim_start(s + q).len() == 0,
    decreases s.len(),
{
    if s.len() == 0 {
        assert(s + q =~= q);
        lemma_trim_start_skips_padding(q, Seq::<char>::empty());
        assert(q + Seq::<char>::empty() =~= q);
    } else if is_white_space(s[0]) {
        assert((s + q).drop_first() =~= s.drop_first() + q);
        assert((s + q)[0] == s[0]);
        lemma_trim_start_append(s.drop_first(), q);
    } else {
        assert((s + q)[0] == s[0]);
    }
}

/// White space around a name does not change how it compares: for padding `p` and `q`
/// made of white space alone, `p + s + q` normalises as `s` does.
pub proof fn lemma_normalized_ignores_padding(p: Seq<char>, s: Seq<char>, q: Seq<char>)
    requires
        all_white_space(p),
        all_white_space(q),
    ensures
        normalized(p + s + q) == normalized(s),
{
    assert(p + s + q =~= p + (s + q));
    lemma_trim_start_skips_padding(p, s + q);
    lemma_trim_start_append(s, q);
    if trim_start(s).len() > 0 {
        lemma_trim_end_skips_padding(trim_start(s), q);
    } else {
        assert(trim_start(s) =~= Seq::<char>::empty());
        assert(trim_start(s + q) =~= Seq::<char>::empty());
    }
}

/// Names whose trimmed text is ASCII and equal once ASCII letters are lower-cased
/// normalise to the same form.
pub proof fn lemma_normalized_ignores_ascii_case(a: Seq<char>, b: Seq<char>)
    requires
        is_ascii_chars(trimmed(a)),
        is_ascii_chars(trimmed(b)),
        eq_ascii_case_insensitive(trimmed(a), trimmed(b)),
    ensures
        normalized(a) == normalized(b),
{
}

/// Trims `value` and lower-cases it.
pub fn normalize(value: &str) -> (r: String)
    ensures
        r@ == normalized(value@),
{
    let t = trim_str(value);
    lowercase_str(t)
}

/// Whether two character sequences are equal once their ASCII letters are lower-cased.
pub open spec fn eq_ascii_case_insensitive(a: Seq<char>, b: Seq<char>) -> bool {
    ascii_lower(a) == ascii_lower(b)
}

/// `a` and `b` compared with ASCII letters folded to lower case.
pub fn eq_ignore_ascii_case(a: &str, b: &str) -> (r: bool)
    ensures
        r == eq_ascii_case_insensitive(a@, b@),
{
    let x = chars_of(a);
    let y = chars_of(b);
    if x.len() != y.len() {
        assert(ascii_lower(a@).len() != ascii_lower(b@).len());
        return false;
    }
    let mut i: usize = 0;
    while i < x.len()
        invariant
            x@ == a@,
            y@ == b@,
            x.len() == y.len(),
            i <= x.len(),
            forall|j: int| 0 <= j < i ==> ascii_lower_char(x@[j]) == ascii_lower_char(y@[j]),
        decreases x.len() - i,
    {
        if lower_ascii_char(x[i]) != lower_ascii_char(y[i]) {
            assert(ascii_lower(a@)[i as int] != ascii_lower(b@)[i as int]);
            return false;
        }
        i = i + 1;
    }
    assert(ascii_lower(a@) =~= ascii_lower(b@));
    true
}

/// `s` with its ASCII letters lower-cased, as `str::to_ascii_lowercase` gives it.
pub fn to_ascii_lowercase(s: &str) -> (r: Vec<char>)
    ensures
        r@ == ascii_lower(s@),
{
    let x = chars_of(s);
    let mut out: Vec<char> = Vec::new();
    let mut i: usize = 0;
    while i < x.len()
        invariant
            x@ == s@,
            i <= x.len(),
            out@ == ascii_lower(x@.take(i as int)),
        decreases x.len() - i,
    {
        let c = lower_ascii_char(x[i]);
        out.push(c);
        i = i + 1;
        assert(out@ =~= ascii_lower(x@.take(i as int)));
    }
    assert(x@.take(i as int) =~= x@);
    out
}

/// `needle` occurs in `hay` starting at position `i`.
pub open spec fn occurs_at(hay: Seq<char>, needle: Seq<char>, i: int) -> bool {
    0 <= i && i + needle.len() <= hay.len() && hay.subrange(i, i + needle.len()) == needle
}

/// `needle` occurs somewhere in `hay`.
pub open spec fn contains_seq(hay: Seq<char>, needle: Seq<char>) -> bool {
    exists|i: int| occurs_at(hay, needle, i)
}

/// Whether `needle` occurs in `hay` at `i`.
fn matches_at(hay: &Vec<char>, needle: &Vec<char>, i: usize) -> (r: bool)
    requires
        i + needle.len() <= hay.len(),
    ensures
        r == occurs_at(hay@, needle@, i as int),
{
    let mut j: usize = 0;
    while j < needle.len()
        invariant
            i + needle.len() <= hay.len(),
            j <= needle.len(),
            forall|k: int| 0 <= k < j ==> hay@[i + k] == needle@[k],
        decreases needle.len() - j,
    {
        if hay[i + j] != needle[j] {
            assert(hay@.subrange(i as int, i + needle.len())[j as int] != needle@[j as int]);
            return false;
        }
        j = j + 1;
    }
    assert(hay@.subrange(i as int, i + needle.len()) =~= needle@);
    true
}

/// Whether `needle` occurs as a contiguous run in `hay`.
pub fn contains_chars(hay: &Vec<char>, needle: &Vec<char>) -> (r: bool)
    ensures
        r == contains_seq(hay@, needle@),
{
    let mut i: usize = 0;
    while i <= hay.len() && needle.len() <= hay.len() - i
        invariant
            i <= hay.len(),
            forall|k: int| 0 <= k < i ==> !occurs_at(hay@, needle@, k),
        decreases hay.len() - i,
    {
        if matches_at(hay, needle, i) {
            return true;
        }
        assert(needle@.len() > 0) by {
            if needle@.len() == 0 {
                assert(hay@.subrange(i as int, i as int) =~= needle@);
            }
        }
        i = i + 1;
    }
    false
}

} // verus!

use vstd::prelude::*;
use crate::text::chars_of;

verus! {

/// A UTF-16 unit that opens a surrogate pair.
pub open spec fn is_high_surrogate(u: u16) -> bool {
    0xD800 <= u <= 0xDBFF
}

/// A UTF-16 unit that closes a surrogate pair.
pub open spec fn is_low_surrogate(u: u16) -> bool {
    0xDC00 <= u <= 0xDFFF
}

/// The UTF-16 encoding of one character: one unit below U+10000, else a surrogate pair.
pub open spec fn utf16_of_char(c: char) -> Seq<u16> {
    let v = c as int;
    if v < 0x10000 {
        seq![v as u16]
    } else {
        seq![(0xD800 + (v - 0x10000) / 0x400) as u16, (0xDC00 + (v - 0x10000) % 0x400) as u16]
    }
}

/// The UTF-16 encoding of a character sequence.
pub open spec fn utf16_encode(s: Seq<char>) -> Seq<u16>
    decreases s.len(),
{
    if s.len() == 0 {
        Seq::empty()
    } else {
        utf16_of_char(s[0]) + utf16_encode(s.drop_first())
    }
}

/// Decoding UTF-16 with every unpaired surrogate replaced by U+FFFD, as
/// `String::from_utf16_lossy` does.
pub open spec fn utf16_lossy(u: Seq<u16>) -> Seq<char>
    decreases u.len(),
{
    if u.len() == 0 {
        Seq::empty()
    } else if u.len() >= 2 && is_high_surrogate(u[0]) && is_low_surrogate(u[1]) {
        seq![(0x10000 + (u[0] - 0xD800) * 0x400 + (u[1] - 0xDC00)) as char]
            + utf16_lossy(u.skip(2))
    } else if is_high_surrogate(u[0]) || is_low_surrogate(u[0]) {
        seq!['\u{FFFD}'] + utf16_lossy(u.skip(1))
    } else {
        seq![(u[0] as int) as char] + utf16_lossy(u.skip(1))
    }
}

/// `String::from_utf16_lossy`. Claimed, after its documentation: surrogate pairs are
/// combined, other units stand for themselves, and each unpaired surrogate becomes U+FFFD.
#[verifier::external_body]
pub(crate) fn from_utf16_lossy(units: &[u16]) -> (r: String)
    ensures
        r@ == utf16_lossy(units@),
{
    String::from_utf16_lossy(units)
}

/// `value` as NUL-terminated UTF-16, the form Windows API calls take.
pub fn wide(value: &str) -> (r: Vec<u16>)
    ensures
        r@ == utf16_encode(value@).push(0u16),
{
    let chars = chars_of(value);
    let mut out: Vec<u16> = Vec::new();
    let ghost s = value@;
    let mut k: usize = 0;
    while k < chars.len()
        invariant
            chars@ == s,
            k <= chars.len(),
            out@ == utf16_encode(s.take(k as int)),
        decreases chars.len() - k,
    {
        let c = chars[k];
        proof {
            lemma_char_is_scalar(c);
        }
        let v = c as u32;
        if v < 0x10000 {
            out.push(v as u16);
        } else {
            let off = v - 0x10000;
            out.push((0xD800 + off / 0x400) as u16);
            out.push((0xDC00 + off % 0x400) as u16);
        }
        proof {
            lemma_utf16_encode_push(s.take(k as int), c);
            assert(s.take(k + 1) =~= s.take(k as int).push(c));
        }
        k = k + 1;
    }
    assert(s.take(k as int) =~= s);
    out.push(0u16);
    out
}

/// Every character is a Unicode scalar value: at most U+10FFFF and no surrogate.
pub proof fn lemma_char_is_scalar(c: char)
    ensures
        0 <= c as int <= 0x10FFFF,
        !(0xD800 <= c as int <= 0xDFFF),
{
}

/// Encoding one more character appends its units.
pub proof fn lemma_utf16_encode_push(s: Seq<char>, c: char)
    ensures
        utf16_encode(s.push(c)) == utf16_encode(s) + utf16_of_char(c),
    decreases s.len(),
{
    if s.len() == 0 {
        assert(s.push(c).drop_first() =~= Seq::<char>::empty());
        assert(utf16_encode(Seq::<char>::empty()) =~= Seq::<u16>::empty());
        assert(s.push(c)[0] == c);
        assert(utf16_encode(s.push(c)) =~= utf16_of_char(c) + Seq::<u16>::empty());
    } else {
        lemma_utf16_encode_push(s.drop_first(), c);
        assert(s.push(c).drop_first() =~= s.drop_first().push(c));
        assert(utf16_encode(s.push(c)) =~= utf16_encode(s) + utf16_of_char(c));
    }
}

/// Text encoded for Windows reads back unchanged: decoding the UTF-16 encoding of any
/// string gives that string.
pub proof fn lemma_utf16_round_trip(s: Seq<char>)
    ensures
        utf16_lossy(utf16_encode(s)) == s,
    decreases s.len(),
{
    if s.len() == 0 {
        assert(utf16_lossy(utf16_encode(s)) =~= s);
    } else {
        let c = s[0];
        let rest = utf16_encode(s.drop_first());
        let u = utf16_of_char(c) + rest;
        lemma_utf16_round_trip(s.drop_first());
        lemma_char_is_scalar(c);
        let v = c as int;
        if v < 0x10000 {
            assert(utf16_of_char(c) == seq![v as u16]);
            assert(u[0] == v as u16);
            assert(0 <= v);
            assert(!(0xD800 <= v <= 0xDFFF));
            assert((v as u16) as int == v);
            assert(u.skip(1) =~= rest);
            assert(!is_high_surrogate(u[0]) && !is_low_surrogate(u[0]));
            assert(((u[0] as int) as char) == c);
        } else {
            assert(u[0] == utf16_of_char(c)[0]);
            assert(u[1] == utf16_of_char(c)[1]);
            assert(u.skip(2) =~= rest);
            assert(is_high_surrogate(u[0]));
            assert(is_low_surrogate(u[1]));
            assert(0x10000 + (u[0] - 0xD800) * 0x400 + (u[1] - 0xDC00) == v);
            assert(((0x10000 + (u[0] - 0xD800) * 0x400 + (u[1] - 0xDC00)) as char) == c);
        }
        assert(utf16_lossy(u) =~= s);
    }
}

/// How many units of a NUL-terminated `source` of `len` units fit before the terminator
/// in a buffer of `n` units: everything but the source's own last unit, cut to `n - 1`.
pub open spec fn copied_units(len: nat, n: nat) -> nat {
    let want: nat = if len >= 1 { (len - 1) as nat } else { 0 };
    let room: nat = (n - 1) as nat;
    if want <= room { want } else { room }
}

/// Copies NUL-terminated UTF-16 text into a fixed buffer, truncating it so that the
/// buffer always ends the text with a NUL; units after that are left as they were.
pub fn copy_wide<const N: usize>(target: &mut [u16; N], source: &[u16])
    requires
        N > 0,
    ensures
        ({
            let count = copied_units(source@.len(), N as nat) as int;
            &&& final(target)@.len() == N
            &&& forall|i: int| 0 <= i < count ==> #[trigger] final(target)@[i] == source@[i]
            &&& final(target)@[count] == 0
            &&& forall|i: int| count < i < N ==> #[trigger] final(target)@[i] == old(target)@[i]
        }),
{
    let want = source.len().saturating_sub(1);
    let room = N - 1;
    let count = if want <= room { want } else { room };
    let mut i: usize = 0;
    while i < count
        invariant
            count <= room,
            room == N - 1,
            count <= source@.len(),
            i <= count,
            target@.len() == N,
            forall|j: int| 0 <= j < i ==> #[trigger] target@[j] == source@[j],
            forall|j: int| i <= j < N ==> #[trigger] target@[j] == old(target)@[j],
        decreases count - i,
    {
        target[i] = source[i];
        i = i + 1;
    }
    target[count] = 0;
}

} // verus!

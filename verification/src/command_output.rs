use vstd::prelude::*;
use vstd::string::*;
use vstd::utf8::{
    decode_utf8, encode_utf8, encode_utf8_decode_utf8, encode_utf8_first_scalar,
    encode_utf8_valid_utf8, valid_utf8,
};
use crate::text::{
    ascii_lower, chars_of, contains_chars, contains_seq, to_ascii_lowercase,
    trim_str, trimmed,
};
use crate::wide::{from_utf16_lossy, lemma_utf16_round_trip, utf16_encode, utf16_lossy};

verus! {

/// The little-endian 16-bit units of `b`, a trailing odd byte dropped.
pub open spec fn le_units(b: Seq<u8>) -> Seq<u16> {
    Seq::new(b.len() / 2, |i: int| (b[2 * i] as int + 256 * b[2 * i + 1] as int) as u16)
}

/// The big-endian 16-bit units of `b`, a trailing odd byte dropped.
pub open spec fn be_units(b: Seq<u8>) -> Seq<u16> {
    Seq::new(b.len() / 2, |i: int| (256 * b[2 * i] as int + b[2 * i + 1] as int) as u16)
}

/// What `String::from_utf8_lossy` gives for a byte sequence: its UTF-8 decoding with each
/// maximal invalid part replaced by U+FFFD.
pub uninterp spec fn utf8_lossy(bytes: Seq<u8>) -> Seq<char>;

/// `String::from_utf8_lossy`, made owned. Claimed: the result is `utf8_lossy` of the bytes,
/// and valid UTF-8 decodes without replacement. The replacement rule for invalid input is
/// not restated.
#[verifier::external_body]
pub(crate) fn from_utf8_lossy(bytes: &[u8]) -> (r: String)
    ensures
        r@ == utf8_lossy(bytes@),
        valid_utf8(bytes@) ==> r@ == decode_utf8(bytes@),
{
    String::from_utf8_lossy(bytes).into_owned()
}

/// Bytes read as UTF-8: the decoding of valid UTF-8, and otherwise the decoding with each
/// undecodable part replaced by U+FFFD.
pub open spec fn utf8_text(b: Seq<u8>) -> Seq<char> {
    if valid_utf8(b) {
        decode_utf8(b)
    } else {
        utf8_lossy(b)
    }
}

/// The output starts with a UTF-16 little-endian byte-order mark (FF FE).
pub open spec fn has_le_mark(b: Seq<u8>) -> bool {
    b.len() >= 2 && b[0] == 0xffu8 && b[1] == 0xfeu8
}

/// The output starts with a UTF-16 big-endian byte-order mark (FE FF).
pub open spec fn has_be_mark(b: Seq<u8>) -> bool {
    b.len() >= 2 && b[0] == 0xfeu8 && b[1] == 0xffu8
}

/// The text of a command's output: UTF-16 after a byte-order mark (FF FE little-endian,
/// FE FF big-endian), UTF-8 otherwise, undecodable parts replaced.
pub open spec fn output_text(b: Seq<u8>) -> Seq<char> {
    if has_le_mark(b) {
        utf16_lossy(le_units(b.skip(2)))
    } else if has_be_mark(b) {
        utf16_lossy(be_units(b.skip(2)))
    } else {
        utf8_text(b)
    }
}

/// Each 16-bit unit as two bytes, low byte first.
pub open spec fn le_bytes(u: Seq<u16>) -> Seq<u8> {
    Seq::new(2 * u.len(), |i: int| if i % 2 == 0 { (u[i / 2] % 256) as u8 } else { (u[i / 2] / 256) as u8 })
}

/// Each 16-bit unit as two bytes, high byte first.
pub open spec fn be_bytes(u: Seq<u16>) -> Seq<u8> {
    Seq::new(2 * u.len(), |i: int| if i % 2 == 0 { (u[i / 2] / 256) as u8 } else { (u[i / 2] % 256) as u8 })
}

/// Reading units back from their little- or big-endian bytes gives the units.
pub proof fn lemma_units_of_bytes(u: Seq<u16>)
    ensures
        le_units(le_bytes(u)) == u,
        be_units(be_bytes(u)) == u,
{
    let l = le_bytes(u);
    let b = be_bytes(u);
    assert forall|i: int| 0 <= i < u.len() implies #[trigger] le_units(l)[i] == u[i] && be_units(b)[i]
        == u[i] by {
        assert((2 * i) / 2 == i && (2 * i) % 2 == 0) by (nonlinear_arith);
        assert((2 * i + 1) / 2 == i && (2 * i + 1) % 2 == 1) by (nonlinear_arith);
        let v = u[i] as int;
        assert(v % 256 + 256 * (v / 256) == v && 0 <= v / 256 < 256) by (nonlinear_arith)
            requires 0 <= v < 65536;
    }
    assert(le_units(l) =~= u);
    assert(be_units(b) =~= u);
}

/// A command's output reads back as the text it encodes: UTF-8 without a byte-order mark,
/// and UTF-16 little- or big-endian after the matching mark.
pub proof fn lemma_output_text_round_trip(s: Seq<char>)
    ensures
        output_text(encode_utf8(s)) == s,
        output_text(seq![0xffu8, 0xfeu8] + le_bytes(utf16_encode(s))) == s,
        output_text(seq![0xfeu8, 0xffu8] + be_bytes(utf16_encode(s))) == s,
{
    let b = encode_utf8(s);
    encode_utf8_valid_utf8(s);
    encode_utf8_decode_utf8(s);
    if s.len() > 0 {
        encode_utf8_first_scalar(s);
        assert(b[0] <= 0xf7u8);
    }
    assert(!has_le_mark(b) && !has_be_mark(b));
    let u = utf16_encode(s);
    lemma_units_of_bytes(u);
    lemma_utf16_round_trip(s);
    let le = seq![0xffu8, 0xfeu8] + le_bytes(u);
    let be = seq![0xfeu8, 0xffu8] + be_bytes(u);
    assert(le.skip(2) =~= le_bytes(u));
    assert(be.skip(2) =~= be_bytes(u));
    assert(has_le_mark(le));
    assert(!has_le_mark(be) && has_be_mark(be));
}

/// The 16-bit units after a two-byte mark, little- or big-endian.
fn units_after_mark(bytes: &[u8], little_endian: bool) -> (r: Vec<u16>)
    requires
        bytes@.len() >= 2,
    ensures
        little_endian ==> r@ == le_units(bytes@.skip(2)),
        !little_endian ==> r@ == be_units(bytes@.skip(2)),
{
    let len = bytes.len();
    let n = (len - 2) / 2;
    let mut out: Vec<u16> = Vec::new();
    let mut i: usize = 0;
    while i < n
        invariant
            len == bytes@.len(),
            len >= 2,
            n == (len - 2) / 2,
            i <= n,
            out.len() == i,
            forall|j: int| 0 <= j < i ==> #[trigger] out@[j] == (if little_endian {
                le_units(bytes@.skip(2))[j]
            } else {
                be_units(bytes@.skip(2))[j]
            }),
        decreases n - i,
    {
        assert(3 + 2 * i < bytes@.len());
        let a = bytes[2 + 2 * i] as u16;
        let b = bytes[3 + 2 * i] as u16;
        let unit: u16 = if little_endian { a + 256 * b } else { 256 * a + b };
        out.push(unit);
        i = i + 1;
    }
    if little_endian {
        assert(out@ =~= le_units(bytes@.skip(2)));
    } else {
        assert(out@ =~= be_units(bytes@.skip(2)));
    }
    out
}

/// Decodes a command's output as [`output_text`] describes.
pub fn command_output_text(bytes: &[u8]) -> (r: String)
    ensures
        r@ == output_text(bytes@),
        valid_utf8(bytes@) && !has_le_mark(bytes@) && !has_be_mark(bytes@) ==> r@ == decode_utf8(
            bytes@,
        ),
{
    if bytes.len() >= 2 && bytes[0] == 0xff && bytes[1] == 0xfe {
        let units = units_after_mark(bytes, true);
        from_utf16_lossy(units.as_slice())
    } else if bytes.len() >= 2 && bytes[0] == 0xfe && bytes[1] == 0xff {
        let units = units_after_mark(bytes, false);
        from_utf16_lossy(units.as_slice())
    } else {
        from_utf8_lossy(bytes)
    }
}

/// Task Scheduler's message says that the task is not there.
pub open spec fn reports_missing_task(details: Seq<char>) -> bool {
    let d = ascii_lower(details);
    contains_seq(d, "cannot find"@) || contains_seq(d, "does not exist"@) || contains_seq(d, "not found"@)
}

/// Whether a Task Scheduler message, ASCII case aside, says that the task does not exist.
pub fn is_missing_task_error(details: &str) -> (r: bool)
    ensures
        r == reports_missing_task(details@),
{
    let d = to_ascii_lowercase(details);
    contains_chars(&d, &chars_of("cannot find")) || contains_chars(&d, &chars_of("does not exist"))
        || contains_chars(&d, &chars_of("not found"))
}

/// `s` with every '/' turned into '\'.
pub open spec fn backslashed(s: Seq<char>) -> Seq<char> {
    s.map_values(|c: char| if c == '/' { '\\' } else { c })
}

/// The scheduled task's definition `xml` starts `executable` with the network-check argument:
/// both the executable path (with '\' separators) and the argument element occur in it,
/// ASCII case aside.
pub open spec fn task_definition_matches(xml: Seq<char>, executable: Seq<char>) -> bool {
    &&& contains_seq(ascii_lower(xml), ascii_lower(backslashed(executable)))
    &&& contains_seq(ascii_lower(xml), "<arguments>--check-network</arguments>"@)
}

/// `s` with '/' replaced by '\' and ASCII letters lower-cased.
fn backslashed_lower(s: &str) -> (r: Vec<char>)
    ensures
        r@ == ascii_lower(backslashed(s@)),
{
    let x = chars_of(s);
    let mut out: Vec<char> = Vec::new();
    let mut i: usize = 0;
    while i < x.len()
        invariant
            x@ == s@,
            i <= x.len(),
            out.len() == i,
            forall|j: int| 0 <= j < i ==> #[trigger] out@[j] == ascii_lower(backslashed(s@))[j],
        decreases x.len() - i,
    {
        let c = if x[i] == '/' { '\\' } else { x[i] };
        out.push(crate::text::lower_ascii_char(c));
        i = i + 1;
    }
    assert(out@ =~= ascii_lower(backslashed(s@)));
    out
}

/// Whether the definition that Task Scheduler printed for the task (`query_output`, raw)
/// runs `executable` with the network-check argument, as [`task_definition_matches`] says.
pub fn task_query_matches(query_output: &[u8], executable: &str) -> (r: bool)
    ensures
        r == task_definition_matches(output_text(query_output@), executable@),
{
    let text = command_output_text(query_output);
    let xml = to_ascii_lowercase(text.as_str());
    let expected = backslashed_lower(executable);
    contains_chars(&xml, &expected) && contains_chars(
        &xml,
        &chars_of("<arguments>--check-network</arguments>"),
    )
}

/// The details a failed command gives: its trimmed error output, or its trimmed standard
/// output when the error output is blank.
pub open spec fn output_details(stderr: Seq<u8>, stdout: Seq<u8>) -> Seq<char> {
    let e = trimmed(utf8_text(stderr));
    if e.len() == 0 {
        trimmed(utf8_text(stdout))
    } else {
        e
    }
}

/// The details of a failed command, as [`output_details`] says.
pub fn command_details(stderr: &[u8], stdout: &[u8]) -> (r: String)
    ensures
        r@ == output_details(stderr@, stdout@),
{
    let e = from_utf8_lossy(stderr);
    let t = trim_str(e.as_str());
    if t.is_empty() {
        let o = from_utf8_lossy(stdout);
        trim_str(o.as_str()).to_owned()
    } else {
        t.to_owned()
    }
}

/// `prefix` followed by ": " and the details, or `prefix` alone when there are none.
pub open spec fn with_details(prefix: Seq<char>, details: Seq<char>) -> Seq<char> {
    if details.len() == 0 {
        prefix
    } else {
        prefix + ": "@ + details
    }
}

/// The message for a command that ended with `status` (as the exit status prints):
/// "<operation> failed with status <status>", then the details when there are any.
pub fn command_output_error(operation: &str, status: &str, stderr: &[u8], stdout: &[u8]) -> (r: String)
    ensures
        r@ == with_details(
            operation@ + " failed with status "@ + status@,
            output_details(stderr@, stdout@),
        ),
{
    let details = command_details(stderr, stdout);
    let mut message = operation.to_owned();
    message.append(" failed with status ");
    message.append(status);
    if details.as_str().is_empty() {
        message
    } else {
        message.append(": ");
        message.append(details.as_str());
        message
    }
}

/// The outcome of `schtasks /Delete` from its success flag, printed status and output:
/// success, or a message saying that the task is missing, both count as removed; otherwise
/// "Task Scheduler returned status <status>" with the details when there are any.
pub fn task_removal_result(success: bool, status: &str, stderr: &[u8], stdout: &[u8]) -> (r: Result<(), String>)
    ensures
        success ==> r is Ok,
        !success ==> (r is Ok <==> reports_missing_task(output_details(stderr@, stdout@))),
        r matches Err(m) ==> m@ == with_details(
            "Task Scheduler returned status "@ + status@,
            output_details(stderr@, stdout@),
        ),
{
    if success {
        return Ok(());
    }
    let details = command_details(stderr, stdout);
    if is_missing_task_error(details.as_str()) {
        return Ok(());
    }
    let mut message = "Task Scheduler returned status ".to_owned();
    message.append(status);
    if details.as_str().is_empty() {
        Err(message)
    } else {
        message.append(": ");
        message.append(details.as_str());
        Err(message)
    }
}

} // verus!

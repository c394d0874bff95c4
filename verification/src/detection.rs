use vstd::prelude::*;
use vstd::string::*;
use serde_json::Value;
use crate::command_output::{command_output_error, output_details, with_details};
use crate::json::{
    into_items, json_bool_members, json_items, json_kind, json_parse, json_text_members, kind_of,
    member_bool, member_text, parse_json, JsonKind,
};
use crate::model::{Network, NetworkView, Printer, PrinterView};
use crate::monitor::printers_view;
use crate::text::{trim_str, trimmed};

verus! {

/// A byte that `u8::is_ascii_whitespace` accepts: space, tab, line feed, form feed, carriage return.
pub open spec fn is_ascii_whitespace_byte(b: u8) -> bool {
    b == 0x20u8 || b == 0x09u8 || b == 0x0au8 || b == 0x0cu8 || b == 0x0du8
}

/// Output made of ASCII white space only (or nothing).
pub open spec fn blank_output(b: Seq<u8>) -> bool {
    forall|i: int| 0 <= i < b.len() ==> is_ascii_whitespace_byte(#[trigger] b[i])
}

/// Whether `bytes` holds nothing but ASCII white space.
pub fn is_blank_output(bytes: &[u8]) -> (r: bool)
    ensures
        r == blank_output(bytes@),
{
    let mut i: usize = 0;
    while i < bytes.len()
        invariant
            i <= bytes@.len(),
            forall|j: int| 0 <= j < i ==> is_ascii_whitespace_byte(#[trigger] bytes@[j]),
        decreases bytes@.len() - i,
    {
        let b = bytes[i];
        if !(b == 0x20 || b == 0x09 || b == 0x0a || b == 0x0c || b == 0x0d) {
            return false;
        }
        i = i + 1;
    }
    true
}

/// The string member `key` of `v`, trimmed, when it is there and not blank.
pub open spec fn required_text(v: Value, key: Seq<char>) -> Option<Seq<char>> {
    if json_text_members(v).contains_key(key) && trimmed(json_text_members(v)[key]).len() > 0 {
        Some(trimmed(json_text_members(v)[key]))
    } else {
        None
    }
}

/// The string member `key` of `v`, trimmed, when it is there and not blank.
fn required_member(v: &Value, key: &str) -> (r: Option<String>)
    ensures
        match r {
            Some(s) => required_text(*v, key@) == Some(s@),
            None => required_text(*v, key@) is None,
        },
{
    match member_text(v, key) {
        Some(s) => {
            let t = trim_str(s.as_str());
            if t.is_empty() {
                None
            } else {
                Some(t.to_owned())
            }
        },
        None => None,
    }
}

/// What the network probe's output stands for. A failed run gives its error message. Blank
/// output means no connected network. Otherwise the output is JSON with a non-blank "Name"
/// and "NetworkType", taken trimmed; anything else is an error saying what is missing.
pub open spec fn network_detection(
    success: bool,
    status: Seq<char>,
    stdout: Seq<u8>,
    stderr: Seq<u8>,
) -> Result<Option<NetworkView>, Seq<char>> {
    if !success {
        Err(with_details("network detection"@ + " failed with status "@ + status, output_details(stderr, stdout)))
    } else if blank_output(stdout) {
        Ok(None)
    } else {
        match json_parse(stdout) {
            Err(e) => Err("network detection returned invalid JSON: "@ + e),
            Ok(v) => match required_text(v, "Name"@) {
                None => Err("network detection returned no network name"@),
                Some(name) => match required_text(v, "NetworkType"@) {
                    None => Err("network detection returned no network type"@),
                    Some(t) => Ok(Some(NetworkView { name, network_type: t })),
                },
            },
        }
    }
}

/// The view of a network probe's outcome.
pub open spec fn network_outcome_view(r: Result<Option<Network>, String>) -> Result<Option<NetworkView>, Seq<char>> {
    match r {
        Ok(Some(n)) => Ok(Some(n@)),
        Ok(None) => Ok(None),
        Err(e) => Err(e@),
    }
}

/// Reads the network probe's outcome: its success flag, its exit status as printed, and its
/// output, as [`network_detection`] describes.
pub fn parse_network_detection(success: bool, status: &str, stdout: &[u8], stderr: &[u8]) -> (r: Result<Option<Network>, String>)
    ensures
        network_outcome_view(r) == network_detection(success, status@, stdout@, stderr@),
{
    if !success {
        return Err(command_output_error("network detection", status, stderr, stdout));
    }
    if is_blank_output(stdout) {
        return Ok(None);
    }
    let value = match parse_json(stdout) {
        Ok(v) => v,
        Err(e) => {
            let mut message = "network detection returned invalid JSON: ".to_owned();
            message.append(e.as_str());
            return Err(message);
        },
    };
    let name = match required_member(&value, "Name") {
        Some(n) => n,
        None => {
            return Err("network detection returned no network name".to_owned());
        },
    };
    let network_type = match required_member(&value, "NetworkType") {
        Some(t) => t,
        None => {
            return Err("network detection returned no network type".to_owned());
        },
    };
    Ok(Some(Network { name, network_type }))
}

/// A printer listed in the enumeration: an element with a string "Name"; it is the default
/// when its "Default" member is `true`.
pub open spec fn printer_record(item: Value) -> Option<PrinterView> {
    if json_text_members(item).contains_key("Name"@) {
        Some(PrinterView {
            name: json_text_members(item)["Name"@],
            is_default: json_bool_members(item).contains_key("Default"@)
                && json_bool_members(item)["Default"@],
        })
    } else {
        None
    }
}

/// The printers of a list of elements, skipping those without a name, in order.
pub open spec fn printer_records(items: Seq<Value>) -> Seq<PrinterView>
    decreases items.len(),
{
    if items.len() == 0 {
        Seq::empty()
    } else {
        let rest = printer_records(items.drop_last());
        match printer_record(items.last()) {
            Some(p) => rest.push(p),
            None => rest,
        }
    }
}

/// `printer_records` matches the named elements, filtered out by `named`, one for one.
proof fn lemma_records_follow_named_items(items: Seq<Value>, named: spec_fn(Value) -> bool)
    requires
        forall|v: Value| #[trigger] named(v) == json_text_members(v).contains_key("Name"@),
    ensures
        printer_records(items).len() == items.filter(named).len(),
        forall|j: int| 0 <= j < printer_records(items).len() ==> {
            let item = items.filter(named)[j];
            &&& (#[trigger] printer_records(items)[j]).name == json_text_members(item)["Name"@]
            &&& printer_records(items)[j].is_default == (json_bool_members(item).contains_key("Default"@)
                && json_bool_members(item)["Default"@])
        },
    decreases items.len(),
{
    reveal(Seq::filter);
    if items.len() > 0 {
        lemma_records_follow_named_items(items.drop_last(), named);
    }
}

/// Every element of the enumeration that has a string "Name" is listed as exactly one
/// printer of that name, in order, whatever its "Default" member says: as many printers as
/// named elements, the `j`-th printer from the `j`-th named element, and it is the default
/// exactly when that element's "Default" is `true`.
pub proof fn lemma_every_named_printer_is_listed(items: Seq<Value>)
    ensures
        printer_records(items).len() == items.filter(
            |v: Value| json_text_members(v).contains_key("Name"@),
        ).len(),
        forall|j: int| 0 <= j < printer_records(items).len() ==> {
            let item = items.filter(|v: Value| json_text_members(v).contains_key("Name"@))[j];
            &&& (#[trigger] printer_records(items)[j]).name == json_text_members(item)["Name"@]
            &&& printer_records(items)[j].is_default == (json_bool_members(item).contains_key("Default"@)
                && json_bool_members(item)["Default"@])
        },
{
    lemma_records_follow_named_items(items, |v: Value| json_text_members(v).contains_key("Name"@));
}

/// What the printer enumeration's output stands for. A failed run gives its error message.
/// Blank output means no printers. Otherwise the output is a JSON array of printers or a
/// single printer object; any other JSON is an error.
pub open spec fn printer_enumeration(
    success: bool,
    status: Seq<char>,
    stdout: Seq<u8>,
    stderr: Seq<u8>,
) -> Result<Seq<PrinterView>, Seq<char>> {
    if !success {
        Err(with_details("printer enumeration"@ + " failed with status "@ + status, output_details(stderr, stdout)))
    } else if blank_output(stdout) {
        Ok(Seq::empty())
    } else {
        match json_parse(stdout) {
            Err(e) => Err("printer enumeration returned invalid JSON: "@ + e),
            Ok(v) => match json_kind(v) {
                JsonKind::Array => Ok(printer_records(json_items(v))),
                JsonKind::Object => Ok(printer_records(seq![v])),
                JsonKind::Other => Err("printer enumeration returned unexpected JSON"@),
            },
        }
    }
}

/// The view of a printer enumeration's outcome.
pub open spec fn printers_outcome_view(r: Result<Vec<Printer>, String>) -> Result<Seq<PrinterView>, Seq<char>> {
    match r {
        Ok(v) => Ok(printers_view(v@)),
        Err(e) => Err(e@),
    }
}

/// The printers described by a list of JSON elements.
fn printers_from_items(items: &Vec<Value>) -> (r: Vec<Printer>)
    ensures
        printers_view(r@) == printer_records(items@),
{
    let mut out: Vec<Printer> = Vec::new();
    let mut i: usize = 0;
    while i < items.len()
        invariant
            i <= items.len(),
            printers_view(out@) == printer_records(items@.take(i as int)),
        decreases items.len() - i,
    {
        let ghost before = items@.take(i as int);
        assert(items@.take(i + 1).drop_last() =~= before);
        assert(items@.take(i + 1).last() == items@[i as int]);
        let item = &items[i];
        match member_text(item, "Name") {
            Some(name) => {
                let is_default = match member_bool(item, "Default") {
                    Some(b) => b,
                    None => false,
                };
                out.push(Printer { name, is_default });
                assert(printers_view(out@) =~= printer_records(before).push(printer_record(*item)->0));
            },
            None => {},
        }
        i = i + 1;
    }
    assert(items@.take(i as int) =~= items@);
    out
}

/// Reads the printer enumeration's outcome: its success flag, its exit status as printed,
/// and its output, as [`printer_enumeration`] describes.
pub fn parse_printer_enumeration(success: bool, status: &str, stdout: &[u8], stderr: &[u8]) -> (r: Result<Vec<Printer>, String>)
    ensures
        printers_outcome_view(r) == printer_enumeration(success, status@, stdout@, stderr@),
{
    if !success {
        return Err(command_output_error("printer enumeration", status, stderr, stdout));
    }
    if is_blank_output(stdout) {
        let none: Vec<Printer> = Vec::new();
        assert(printers_view(none@) =~= Seq::empty());
        return Ok(none);
    }
    let value = match parse_json(stdout) {
        Ok(v) => v,
        Err(e) => {
            let mut message = "printer enumeration returned invalid JSON: ".to_owned();
            message.append(e.as_str());
            return Err(message);
        },
    };
    match kind_of(&value) {
        JsonKind::Array => {
            let items = into_items(value);
            Ok(printers_from_items(&items))
        },
        JsonKind::Object => {
            let ghost v = value;
            let mut items: Vec<Value> = Vec::new();
            items.push(value);
            assert(items@ =~= seq![v]);
            Ok(printers_from_items(&items))
        },
        JsonKind::Other => Err("printer enumeration returned unexpected JSON".to_owned()),
    }
}

} // verus!

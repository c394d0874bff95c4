use vstd::prelude::*;
use vstd::string::*;
use crate::model::{Association, AssociationView, Network, NetworkView, Printer, PrinterView};
use crate::associations::opt_network_view;

verus! {

/// How the tray window lists a printer: its name, marked " (default)" when it is the default.
pub open spec fn printer_entry_text(p: PrinterView) -> Seq<char> {
    if p.is_default {
        p.name + " (default)"@
    } else {
        p.name
    }
}

/// The tray window's entry for `printer`, as [`printer_entry_text`] says.
pub fn printer_entry(printer: &Printer) -> (r: String)
    ensures
        r@ == printer_entry_text(printer@),
{
    let mut text = printer.name.clone();
    if printer.is_default {
        text.append(" (default)");
    }
    text
}

/// How the management window offers a printer: its name, marked " (current default)"
/// when it is the default.
pub open spec fn printer_choice_text(p: PrinterView) -> Seq<char> {
    if p.is_default {
        p.name + " (current default)"@
    } else {
        p.name
    }
}

/// The management window's choice for `printer`, as [`printer_choice_text`] says.
pub fn printer_choice(printer: &Printer) -> (r: String)
    ensures
        r@ == printer_choice_text(printer@),
{
    let mut text = printer.name.clone();
    if printer.is_default {
        text.append(" (current default)");
    }
    text
}

/// The tray window's line for an association: "network [kind]  =>  printer".
pub open spec fn association_line_text(a: AssociationView) -> Seq<char> {
    a.network + " ["@ + a.network_type + "]  =>  "@ + a.printer
}

/// The line for `association`, as [`association_line_text`] says.
pub fn association_line(association: &Association) -> (r: String)
    ensures
        r@ == association_line_text(association@),
{
    let mut text = association.network.clone();
    text.append(" [");
    text.append(association.network_type.as_str());
    text.append("]  =>  ");
    text.append(association.printer.as_str());
    text
}

/// The management window's second line for an association: "kind · printer".
pub open spec fn association_detail_text(a: AssociationView) -> Seq<char> {
    a.network_type + " · "@ + a.printer
}

/// The second line for `association`, as [`association_detail_text`] says.
pub fn association_detail(association: &Association) -> (r: String)
    ensures
        r@ == association_detail_text(association@),
{
    let mut text = association.network_type.clone();
    text.append(" · ");
    text.append(association.printer.as_str());
    text
}

/// The tray window's network label: "name (kind)", or "No active network".
pub open spec fn network_label_text(n: Option<NetworkView>) -> Seq<char> {
    match n {
        Some(n) => n.name + " ("@ + n.network_type + ")"@,
        None => "No active network"@,
    }
}

/// The label for the current network, as [`network_label_text`] says.
pub fn network_label(network: &Option<Network>) -> (r: String)
    ensures
        r@ == network_label_text(opt_network_view(*network)),
{
    match network {
        Some(n) => {
            let mut text = n.name.clone();
            text.append(" (");
            text.append(n.network_type.as_str());
            text.append(")");
            text
        },
        None => "No active network".to_owned(),
    }
}

/// The management window's network summary for the name in the edit box: "No active
/// network detected" when it is empty, else "name · kind", the kind being that of the
/// current network or "Not detected".
pub open spec fn network_summary_text(name: Seq<char>, current: Option<NetworkView>) -> Seq<char> {
    if name.len() == 0 {
        "No active network detected"@
    } else {
        name + " · "@ + match current {
            Some(n) => n.network_type,
            None => "Not detected"@,
        }
    }
}

/// The network summary, as [`network_summary_text`] says.
pub fn network_summary(name: &str, current: &Option<Network>) -> (r: String)
    ensures
        r@ == network_summary_text(name@, opt_network_view(*current)),
{
    if name.is_empty() {
        return "No active network detected".to_owned();
    }
    let mut text = name.to_owned();
    text.append(" · ");
    match current {
        Some(n) => text.append(n.network_type.as_str()),
        None => text.append("Not detected"),
    }
    text
}

} // verus!

use vstd::prelude::*;
use vstd::string::*;
use crate::text::{eq_ascii_case_insensitive, eq_ignore_ascii_case, normalize, normalized};

verus! {

/// A saved rule: on the network `network` of kind `network_type`, suggest `printer`.
/// A `network_type` of "Network" (in any ASCII case) fits networks of every kind.
#[derive(Debug)]
pub struct Association {
    pub network: String,
    pub network_type: String,
    pub printer: String,
}

/// The mathematical value of an [`Association`].
pub struct AssociationView {
    pub network: Seq<char>,
    pub network_type: Seq<char>,
    pub printer: Seq<char>,
}

impl View for Association {
    type V = AssociationView;

    open spec fn view(&self) -> AssociationView {
        AssociationView {
            network: self.network@,
            network_type: self.network_type@,
            printer: self.printer@,
        }
    }
}

impl Clone for Association {
    fn clone(&self) -> (r: Self)
        ensures
            r@ == self@,
    {
        Association {
            network: self.network.clone(),
            network_type: self.network_type.clone(),
            printer: self.printer.clone(),
        }
    }
}

/// How often a known network may raise a prompt.
#[derive(Debug, Clone, Copy, PartialEq, Eq, Structural)]
pub enum PromptMode {
    OncePerConnection,
    EveryConnection,
}

impl Default for PromptMode {
    fn default() -> (r: Self)
        ensures
            r == PromptMode::OncePerConnection,
    {
        PromptMode::OncePerConnection
    }
}

/// What closing the management window does.
#[derive(Debug, Clone, Copy, PartialEq, Eq, Structural)]
pub enum CloseBehavior {
    AskOncePerStartup,
    AlwaysMinimize,
    AlwaysQuit,
}

impl Default for CloseBehavior {
    fn default() -> (r: Self)
        ensures
            r == CloseBehavior::AskOncePerStartup,
    {
        CloseBehavior::AskOncePerStartup
    }
}

/// The stored settings: associations in the order they were saved, and the two behaviour choices.
#[derive(Debug)]
pub struct Config {
    pub associations: Vec<Association>,
    pub prompt_mode: PromptMode,
    pub close_behavior: CloseBehavior,
}

/// The mathematical value of a [`Config`].
pub struct ConfigView {
    pub associations: Seq<AssociationView>,
    pub prompt_mode: PromptMode,
    pub close_behavior: CloseBehavior,
}

/// The views of a list of associations.
pub open spec fn associations_view(v: Seq<Association>) -> Seq<AssociationView> {
    v.map_values(|a: Association| a@)
}

impl View for Config {
    type V = ConfigView;

    open spec fn view(&self) -> ConfigView {
        ConfigView {
            associations: associations_view(self.associations@),
            prompt_mode: self.prompt_mode,
            close_behavior: self.close_behavior,
        }
    }
}

/// A copy of a list of associations.
pub fn clone_associations(v: &Vec<Association>) -> (r: Vec<Association>)
    ensures
        associations_view(r@) == associations_view(v@),
{
    let mut out: Vec<Association> = Vec::new();
    let mut i: usize = 0;
    while i < v.len()
        invariant
            i <= v.len(),
            out.len() == i,
            forall|j: int| 0 <= j < i ==> #[trigger] out@[j]@ == v@[j]@,
        decreases v.len() - i,
    {
        out.push(v[i].clone());
        i = i + 1;
    }
    assert(associations_view(out@) =~= associations_view(v@));
    out
}

impl Clone for Config {
    fn clone(&self) -> (r: Self)
        ensures
            r@ == self@,
    {
        Config {
            associations: clone_associations(&self.associations),
            prompt_mode: self.prompt_mode,
            close_behavior: self.close_behavior,
        }
    }
}

impl Default for Config {
    fn default() -> (r: Self)
        ensures
            r@.associations.len() == 0,
            r@.prompt_mode == PromptMode::OncePerConnection,
            r@.close_behavior == CloseBehavior::AskOncePerStartup,
    {
        Config {
            associations: Vec::new(),
            prompt_mode: PromptMode::OncePerConnection,
            close_behavior: CloseBehavior::AskOncePerStartup,
        }
    }
}

/// A network that Windows reports as connected: its profile name and its kind
/// ("Wi-Fi", "Ethernet", "Cellular", "Bluetooth").
#[derive(Debug)]
pub struct Network {
    pub name: String,
    pub network_type: String,
}

/// The mathematical value of a [`Network`].
pub struct NetworkView {
    pub name: Seq<char>,
    pub network_type: Seq<char>,
}

impl View for Network {
    type V = NetworkView;

    open spec fn view(&self) -> NetworkView {
        NetworkView { name: self.name@, network_type: self.network_type@ }
    }
}

impl Clone for Network {
    fn clone(&self) -> (r: Self)
        ensures
            r@ == self@,
    {
        Network { name: self.name.clone(), network_type: self.network_type.clone() }
    }
}

/// The identity under which a network is remembered: its kind, "::", and its normalised name.
pub open spec fn network_key(n: NetworkView) -> Seq<char> {
    n.network_type + "::"@ + normalized(n.name)
}

impl Network {
    /// The key of this network, as [`network_key`] defines it.
    pub fn key(&self) -> (r: String)
        ensures
            r@ == network_key(self@),
    {
        let mut k = self.network_type.clone();
        k.append("::");
        let name = normalize(&self.name);
        k.append(name.as_str());
        k
    }
}

/// An installed printer and whether it is the Windows default.
#[derive(Debug)]
pub struct Printer {
    pub name: String,
    pub is_default: bool,
}

/// The mathematical value of a [`Printer`].
pub struct PrinterView {
    pub name: Seq<char>,
    pub is_default: bool,
}

impl View for Printer {
    type V = PrinterView;

    open spec fn view(&self) -> PrinterView {
        PrinterView { name: self.name@, is_default: self.is_default }
    }
}

impl Clone for Printer {
    fn clone(&self) -> (r: Self)
        ensures
            r@ == self@,
    {
        Printer { name: self.name.clone(), is_default: self.is_default }
    }
}

/// The network kind that stands for every kind.
pub open spec fn any_network_type() -> Seq<char> {
    "Network"@
}

/// `a` applies to network `n`: the names agree once normalised, and the association's
/// kind is the generic one or names the network's kind, ASCII case aside.
pub open spec fn association_applies(a: AssociationView, n: NetworkView) -> bool {
    &&& normalized(a.network) == normalized(n.name)
    &&& (eq_ascii_case_insensitive(a.network_type, any_network_type())
        || eq_ascii_case_insensitive(a.network_type, n.network_type))
}

/// Whether `association` applies to `network`.
pub fn association_matches(association: &Association, network: &Network) -> (r: bool)
    ensures
        r == association_applies(association@, network@),
{
    let a = normalize(&association.network);
    let b = normalize(&network.name);
    if a != b {
        return false;
    }
    eq_ignore_ascii_case(&association.network_type, "Network")
        || eq_ignore_ascii_case(&association.network_type, &network.network_type)
}

} // verus!

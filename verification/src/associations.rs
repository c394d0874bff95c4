use vstd::prelude::*;
use crate::model::{
    any_network_type, association_applies, associations_view, Association, AssociationView, Config,
    Network, NetworkView, Printer,
};
use crate::monitor::applicable;
use crate::text::{
    eq_ascii_case_insensitive, eq_ignore_ascii_case, normalize, normalized,
    trim_str, trimmed,
};

verus! {

/// A saved association `e` is replaced by a new one `a`: same network once normalised,
/// and the same kind, ASCII case aside, or either of them of the generic kind.
pub open spec fn conflicts(e: AssociationView, a: AssociationView) -> bool {
    &&& normalized(e.network) == normalized(a.network)
    &&& (eq_ascii_case_insensitive(e.network_type, a.network_type)
        || eq_ascii_case_insensitive(e.network_type, any_network_type())
        || eq_ascii_case_insensitive(a.network_type, any_network_type()))
}

/// The associations of `s` that `a` does not replace, in their order.
pub open spec fn without_conflicts(s: Seq<AssociationView>, a: AssociationView) -> Seq<AssociationView>
    decreases s.len(),
{
    if s.len() == 0 {
        Seq::empty()
    } else {
        let rest = without_conflicts(s.drop_last(), a);
        if conflicts(s.last(), a) {
            rest
        } else {
            rest.push(s.last())
        }
    }
}

/// The list after saving `a`: the associations it replaces are dropped and it goes last.
pub open spec fn saved_associations(s: Seq<AssociationView>, a: AssociationView) -> Seq<AssociationView> {
    without_conflicts(s, a).push(a)
}

/// Whether `a` replaces `existing`; `key` is the normalised network of `a`.
fn replaces(existing: &Association, a: &Association, key: &String) -> (r: bool)
    requires
        key@ == normalized(a@.network),
    ensures
        r == conflicts(existing@, a@),
{
    let k = normalize(existing.network.as_str());
    if k != *key {
        return false;
    }
    eq_ignore_ascii_case(&existing.network_type, &a.network_type)
        || eq_ignore_ascii_case(&existing.network_type, "Network")
        || eq_ignore_ascii_case(&a.network_type, "Network")
}

impl Config {
    /// Saves `association`: the associations it replaces (see [`conflicts`]) are removed,
    /// the others keep their order, and the new one is appended.
    pub fn save_association(&mut self, association: Association)
        ensures
            final(self)@.associations == saved_associations(old(self)@.associations, association@),
            final(self)@.prompt_mode == old(self)@.prompt_mode,
            final(self)@.close_behavior == old(self)@.close_behavior,
    {
        let key = normalize(association.network.as_str());
        let mut kept: Vec<Association> = Vec::new();
        let mut i: usize = 0;
        while i < self.associations.len()
            invariant
                i <= self.associations.len(),
                self.associations == old(self).associations,
                key@ == normalized(association@.network),
                associations_view(kept@) == without_conflicts(
                    associations_view(self.associations@).take(i as int),
                    association@,
                ),
            decreases self.associations.len() - i,
        {
            let ghost before = associations_view(self.associations@).take(i as int);
            let ghost after = associations_view(self.associations@).take(i + 1);
            assert(after.drop_last() =~= before);
            assert(after.last() == self.associations@[i as int]@);
            if !replaces(&self.associations[i], &association, &key) {
                kept.push(self.associations[i].clone());
                assert(associations_view(kept@) =~= without_conflicts(before, association@).push(
                    self.associations@[i as int]@,
                ));
            }
            i = i + 1;
        }
        assert(associations_view(self.associations@).take(i as int) =~= associations_view(
            self.associations@,
        ));
        let ghost a = association@;
        kept.push(association);
        assert(associations_view(kept@) =~= saved_associations(associations_view(old(self).associations@), a));
        self.associations = kept;
    }

    /// The positions, in increasing order, of the saved associations that saving
    /// `association` would replace (see [`conflicts`]), so that a caller can ask first.
    pub fn replaced_associations(&self, association: &Association) -> (r: Vec<usize>)
        ensures
            forall|k: int| 0 <= k < r@.len() ==> {
                &&& #[trigger] r@[k] < self@.associations.len()
                &&& conflicts(self@.associations[r@[k] as int], association@)
            },
            forall|k: int, l: int| 0 <= k < l < r@.len() ==> #[trigger] r@[k] < #[trigger] r@[l],
            forall|i: int| 0 <= i < self@.associations.len() && conflicts(
                #[trigger] self@.associations[i],
                association@,
            ) ==> r@.contains(i as usize),
    {
        let key = normalize(association.network.as_str());
        let mut out: Vec<usize> = Vec::new();
        let mut i: usize = 0;
        while i < self.associations.len()
            invariant
                i <= self.associations.len(),
                key@ == normalized(association@.network),
                forall|k: int| 0 <= k < out@.len() ==> {
                    &&& #[trigger] out@[k] < i
                    &&& conflicts(self@.associations[out@[k] as int], association@)
                },
                forall|k: int, l: int| 0 <= k < l < out@.len() ==> #[trigger] out@[k] < #[trigger] out@[l],
                forall|j: int| 0 <= j < i && conflicts(#[trigger] self@.associations[j], association@)
                    ==> out@.contains(j as usize),
            decreases self.associations.len() - i,
        {
            if replaces(&self.associations[i], association, &key) {
                let ghost before = out@;
                out.push(i);
                assert(out@[before.len() as int] == i);
                assert forall|j: int| 0 <= j < i + 1 && conflicts(#[trigger] self@.associations[j], association@)
                    implies out@.contains(j as usize) by {
                    if j < i {
                        let k = choose|k: int| 0 <= k < before.len() && before[k] == j as usize;
                        assert(out@[k] == j as usize);
                    } else {
                        assert(out@[before.len() as int] == j as usize);
                    }
                }
            }
            i = i + 1;
        }
        out
    }

    /// Removes the association at `index`; `false`, with nothing changed, when there is none.
    pub fn remove_association(&mut self, index: usize) -> (removed: bool)
        ensures
            removed == (index < old(self)@.associations.len()),
            removed ==> final(self)@.associations == old(self)@.associations.remove(index as int),
            !removed ==> final(self)@.associations == old(self)@.associations,
            final(self)@.prompt_mode == old(self)@.prompt_mode,
            final(self)@.close_behavior == old(self)@.close_behavior,
    {
        if index >= self.associations.len() {
            return false;
        }
        self.associations.remove(index);
        assert(associations_view(self.associations@) =~= associations_view(old(self).associations@).remove(
            index as int,
        ));
        true
    }
}

/// Saving an association for a network leaves it as the only association that applies
/// there, so a save never leaves duplicates behind for that network.
pub proof fn lemma_saved_association_is_the_only_match(
    s: Seq<AssociationView>,
    a: AssociationView,
    n: NetworkView,
)
    requires
        association_applies(a, n),
    ensures
        applicable(saved_associations(s, a), n) == seq![a],
{
    lemma_kept_associations_do_not_apply(s, a, n);
    let w = without_conflicts(s, a);
    assert(w.push(a).drop_last() =~= w);
    assert(applicable(w.push(a), n) =~= seq![a]);
}

/// None of the associations that survive saving `a` applies where `a` does.
proof fn lemma_kept_associations_do_not_apply(s: Seq<AssociationView>, a: AssociationView, n: NetworkView)
    requires
        association_applies(a, n),
    ensures
        applicable(without_conflicts(s, a), n).len() == 0,
    decreases s.len(),
{
    if s.len() > 0 {
        lemma_kept_associations_do_not_apply(s.drop_last(), a, n);
        let rest = without_conflicts(s.drop_last(), a);
        if !conflicts(s.last(), a) {
            assert(rest.push(s.last()).drop_last() =~= rest);
            assert(!association_applies(s.last(), n));
        }
    }
}

/// An association list in which nothing conflicts with `a` is kept whole.
proof fn lemma_without_conflicts_keeps_compatible(s: Seq<AssociationView>, a: AssociationView)
    requires
        forall|i: int| 0 <= i < s.len() ==> !conflicts(#[trigger] s[i], a),
    ensures
        without_conflicts(s, a) == s,
    decreases s.len(),
{
    if s.len() > 0 {
        lemma_without_conflicts_keeps_compatible(s.drop_last(), a);
        assert(!conflicts(s[s.len() - 1], a));
        assert(s.drop_last().push(s.last()) =~= s);
    }
}

/// Every association kept when saving `a` does not conflict with it.
proof fn lemma_kept_are_compatible(s: Seq<AssociationView>, a: AssociationView)
    ensures
        forall|i: int| 0 <= i < without_conflicts(s, a).len() ==> !conflicts(
            #[trigger] without_conflicts(s, a)[i],
            a,
        ),
    decreases s.len(),
{
    if s.len() > 0 {
        lemma_kept_are_compatible(s.drop_last(), a);
        let rest = without_conflicts(s.drop_last(), a);
        if !conflicts(s.last(), a) {
            assert forall|i: int| 0 <= i < rest.push(s.last()).len() implies !conflicts(
                #[trigger] rest.push(s.last())[i],
                a,
            ) by {
                if i < rest.len() {
                    assert(rest.push(s.last())[i] == rest[i]);
                }
            }
        }
    }
}

/// What saving `a` keeps, filtered by `keep` (a test that no conflicting association
/// passes), is all of `s` so filtered; and everything it keeps comes from `s`.
proof fn lemma_kept_filtered(
    s: Seq<AssociationView>,
    a: AssociationView,
    keep: spec_fn(AssociationView) -> bool,
)
    requires
        forall|e: AssociationView| #[trigger] keep(e) ==> !conflicts(e, a),
    ensures
        without_conflicts(s, a).filter(keep) == s.filter(keep),
        forall|j: int| 0 <= j < without_conflicts(s, a).len() ==> s.contains(
            #[trigger] without_conflicts(s, a)[j],
        ),
    decreases s.len(),
{
    reveal(Seq::filter);
    if s.len() > 0 {
        let rest = without_conflicts(s.drop_last(), a);
        lemma_kept_filtered(s.drop_last(), a, keep);
        if conflicts(s.last(), a) {
            assert(!keep(s.last()));
            assert(s.filter(keep) == s.drop_last().filter(keep));
        } else {
            let w = rest.push(s.last());
            assert(w.drop_last() =~= rest);
            assert(w.last() == s.last());
            if keep(s.last()) {
                assert(w.filter(keep) == rest.filter(keep).push(s.last()));
                assert(s.filter(keep) == s.drop_last().filter(keep).push(s.last()));
            } else {
                assert(w.filter(keep) == rest.filter(keep));
                assert(s.filter(keep) == s.drop_last().filter(keep));
            }
        }
        assert forall|j: int| 0 <= j < without_conflicts(s, a).len() implies s.contains(
            #[trigger] without_conflicts(s, a)[j],
        ) by {
            if j < rest.len() {
                assert(without_conflicts(s, a)[j] == rest[j]);
                let k = choose|k: int| 0 <= k < s.drop_last().len() && s.drop_last()[k] == rest[j];
                assert(s[k] == rest[j]);
            } else {
                assert(without_conflicts(s, a)[j] == s[s.len() - 1]);
            }
        }
    }
}

/// Saving `a` touches only associations of its own network: the saved list ends with `a`;
/// before it stand only associations that were saved already; the associations of every
/// other network (compared normalised) all stay, in their order; and an association of the
/// same network stays exactly when its kind differs from that of `a`, ASCII case aside, and
/// neither kind is the generic "Network" (those that stay keep their order).
pub proof fn lemma_saving_replaces_only_its_network(s: Seq<AssociationView>, a: AssociationView)
    ensures
        saved_associations(s, a).len() >= 1,
        saved_associations(s, a).last() == a,
        saved_associations(s, a).drop_last().filter(
            |e: AssociationView| normalized(e.network) != normalized(a.network),
        ) == s.filter(|e: AssociationView| normalized(e.network) != normalized(a.network)),
        saved_associations(s, a).drop_last().filter(
            |e: AssociationView| {
                &&& normalized(e.network) == normalized(a.network)
                &&& !eq_ascii_case_insensitive(e.network_type, a.network_type)
                &&& !eq_ascii_case_insensitive(e.network_type, "Network"@)
                &&& !eq_ascii_case_insensitive(a.network_type, "Network"@)
            },
        ) == s.filter(
            |e: AssociationView| {
                &&& normalized(e.network) == normalized(a.network)
                &&& !eq_ascii_case_insensitive(e.network_type, a.network_type)
                &&& !eq_ascii_case_insensitive(e.network_type, "Network"@)
                &&& !eq_ascii_case_insensitive(a.network_type, "Network"@)
            },
        ),
        forall|j: int| 0 <= j < saved_associations(s, a).len() - 1 ==> s.contains(
            #[trigger] saved_associations(s, a)[j],
        ),
        forall|j: int| 0 <= j < saved_associations(s, a).len() - 1 && normalized(
            #[trigger] saved_associations(s, a)[j].network,
        ) == normalized(a.network) ==> {
            &&& !eq_ascii_case_insensitive(saved_associations(s, a)[j].network_type, a.network_type)
            &&& !eq_ascii_case_insensitive(saved_associations(s, a)[j].network_type, "Network"@)
            &&& !eq_ascii_case_insensitive(a.network_type, "Network"@)
        },
{
    let w = without_conflicts(s, a);
    assert(saved_associations(s, a).drop_last() =~= w);
    lemma_kept_filtered(s, a, |e: AssociationView| normalized(e.network) != normalized(a.network));
    lemma_kept_filtered(
        s,
        a,
        |e: AssociationView| {
            &&& normalized(e.network) == normalized(a.network)
            &&& !eq_ascii_case_insensitive(e.network_type, a.network_type)
            &&& !eq_ascii_case_insensitive(e.network_type, "Network"@)
            &&& !eq_ascii_case_insensitive(a.network_type, "Network"@)
        },
    );
    lemma_kept_are_compatible(s, a);
    assert forall|j: int| 0 <= j < saved_associations(s, a).len() - 1 implies saved_associations(s, a)[j]
        == #[trigger] w[j] by {}
}

/// Saving the same association twice leaves the list as saving it once.
pub proof fn lemma_saving_twice_is_saving_once(s: Seq<AssociationView>, a: AssociationView)
    ensures
        saved_associations(saved_associations(s, a), a) == saved_associations(s, a),
{
    let w = without_conflicts(s, a);
    assert(w.push(a).drop_last() =~= w);
    assert(conflicts(a, a));
    lemma_kept_are_compatible(s, a);
    lemma_without_conflicts_keeps_compatible(w, a);
}

/// The associations of a concatenation that apply to `n` are those of each part.
proof fn lemma_applicable_concat(x: Seq<AssociationView>, y: Seq<AssociationView>, n: NetworkView)
    ensures
        applicable(x + y, n) == applicable(x, n) + applicable(y, n),
    decreases y.len(),
{
    if y.len() == 0 {
        assert(x + y =~= x);
        assert(applicable(x, n) + applicable(y, n) =~= applicable(x, n));
    } else {
        lemma_applicable_concat(x, y.drop_last(), n);
        assert((x + y).drop_last() =~= x + y.drop_last());
        assert((x + y).last() == y.last());
        if association_applies(y.last(), n) {
            assert(applicable(x, n) + applicable(y.drop_last(), n).push(y.last()) =~= (applicable(
                x,
                n,
            ) + applicable(y.drop_last(), n)).push(y.last()));
        }
    }
}

/// Removing the one association that applies to a network leaves none for it, so that
/// network raises no prompt any more.
pub proof fn lemma_removing_the_match_silences_network(s: Seq<AssociationView>, i: int, n: NetworkView)
    requires
        0 <= i < s.len(),
        association_applies(s[i], n),
        applicable(s, n).len() == 1,
    ensures
        applicable(s.remove(i), n).len() == 0,
{
    let x = s.take(i);
    let y = s.skip(i + 1);
    assert(s =~= x + seq![s[i]] + y);
    assert(s.remove(i) =~= x + y);
    lemma_applicable_concat(x + seq![s[i]], y, n);
    lemma_applicable_concat(x, seq![s[i]], n);
    lemma_applicable_concat(x, y, n);
    assert(seq![s[i]].drop_last() =~= Seq::<AssociationView>::empty());
    assert(applicable(seq![s[i]], n).len() == 1);
}

/// Why an association could not be composed from what the user entered.
#[derive(Debug, Clone, Copy, PartialEq, Eq, Structural)]
pub enum AssociationInputError {
    /// The network name is empty or white space.
    MissingNetwork,
    /// No printer is selected.
    MissingPrinter,
    /// The selected printer is no longer in the list.
    PrinterUnavailable,
}

/// The kind given to an association for the typed network name `input`: the kind of the
/// current network when its name is the same once normalised, else the generic kind.
pub open spec fn kind_by_normalized_name(current: Option<NetworkView>, input: Seq<char>) -> Seq<char> {
    match current {
        Some(n) => if normalized(n.name) == normalized(input) { n.network_type } else { any_network_type() },
        None => any_network_type(),
    }
}

/// The kind given to an association for the trimmed network name `name`: the kind of the
/// current network when its name matches `name` ASCII case aside, else the generic kind.
pub open spec fn kind_by_ascii_name(current: Option<NetworkView>, name: Seq<char>) -> Seq<char> {
    match current {
        Some(n) => if eq_ascii_case_insensitive(n.name, name) { n.network_type } else { any_network_type() },
        None => any_network_type(),
    }
}

/// The view of an optional network.
pub open spec fn opt_network_view(o: Option<Network>) -> Option<NetworkView> {
    match o {
        Some(n) => Some(n@),
        None => None,
    }
}

/// The generic network kind as a string.
fn any_network_type_string() -> (r: String)
    ensures
        r@ == any_network_type(),
{
    proof {
        reveal_strlit("Network");
    }
    "Network".to_owned()
}

/// `s` as an owned string.
fn owned(s: &str) -> (r: String)
    ensures
        r@ == s@,
{
    s.to_owned()
}

/// The association the tray window saves for the typed `network_input` and the printer at
/// `selected`: `None` when the name is blank or `selected` is past the list. The network is
/// the trimmed input, the kind as [`kind_by_normalized_name`] says, the printer by name.
pub fn prepare_association(
    network_input: &str,
    selected: usize,
    printers: &Vec<Printer>,
    current: &Option<Network>,
) -> (r: Option<Association>)
    ensures
        r is Some <==> (trimmed(network_input@).len() > 0 && selected < printers@.len()),
        r matches Some(a) ==> a@ == (AssociationView {
            network: trimmed(network_input@),
            network_type: kind_by_normalized_name(opt_network_view(*current), network_input@),
            printer: printers@[selected as int]@.name,
        }),
{
    let name = trim_str(network_input);
    if name.is_empty() || selected >= printers.len() {
        return None;
    }
    let network_type = match current {
        Some(n) => {
            let a = normalize(n.name.as_str());
            let b = normalize(network_input);
            if a == b {
                n.network_type.clone()
            } else {
                any_network_type_string()
            }
        },
        None => any_network_type_string(),
    };
    Some(Association { network: owned(name), network_type, printer: printers[selected].name.clone() })
}

/// The association the management window saves for the typed `network_input` and the
/// printer at `selected`. Errors, checked in this order: blank name, no selection, selection
/// past the list. The network is the trimmed input, the kind as [`kind_by_ascii_name`]
/// says, the printer by name.
pub fn prepare_selected_association(
    network_input: &str,
    selected: Option<usize>,
    printers: &Vec<Printer>,
    current: &Option<Network>,
) -> (r: Result<Association, AssociationInputError>)
    ensures
        trimmed(network_input@).len() == 0 ==> r == Err::<Association, _>(AssociationInputError::MissingNetwork),
        trimmed(network_input@).len() > 0 && selected is None ==> r == Err::<Association, _>(
            AssociationInputError::MissingPrinter,
        ),
        selected matches Some(i) ==> (trimmed(network_input@).len() > 0 && i >= printers@.len()
            ==> r == Err::<Association, _>(AssociationInputError::PrinterUnavailable)),
        selected matches Some(i) ==> (trimmed(network_input@).len() > 0 && i < printers@.len()
            ==> (r matches Ok(a) && a@ == (AssociationView {
            network: trimmed(network_input@),
            network_type: kind_by_ascii_name(opt_network_view(*current), trimmed(network_input@)),
            printer: printers@[i as int]@.name,
        }))),
{
    let name = trim_str(network_input);
    if name.is_empty() {
        return Err(AssociationInputError::MissingNetwork);
    }
    let index = match selected {
        Some(i) => i,
        None => {
            return Err(AssociationInputError::MissingPrinter);
        },
    };
    if index >= printers.len() {
        return Err(AssociationInputError::PrinterUnavailable);
    }
    let network_type = match current {
        Some(n) => {
            if eq_ignore_ascii_case(n.name.as_str(), name) {
                n.network_type.clone()
            } else {
                any_network_type_string()
            }
        },
        None => any_network_type_string(),
    };
    Ok(Association { network: owned(name), network_type, printer: printers[index].name.clone() })
}

} // verus!

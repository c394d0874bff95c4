use vstd::prelude::*;
use vstd::string::*;
use crate::model::{
    Association, AssociationView, CloseBehavior, Config, ConfigView, Network, Printer, PrinterView,
    PromptMode,
};
use crate::monitor::printers_view;
use crate::associations::{
    kind_by_ascii_name, opt_network_view, saved_associations, AssociationInputError,
};
use crate::text::{chars_of, contains_chars, contains_seq, normalize, normalized, trimmed};

verus! {

/// The first default printer at or after position `i`.
pub open spec fn first_default_from(ps: Seq<PrinterView>, i: int) -> Option<usize>
    decreases ps.len() - i,
{
    if i < 0 || i >= ps.len() {
        None
    } else if ps[i].is_default {
        Some(i as usize)
    } else {
        first_default_from(ps, i + 1)
    }
}

/// The printer preselected in a list: the first default printer, else the first printer,
/// else none.
pub open spec fn preselected_printer(ps: Seq<PrinterView>) -> Option<usize> {
    match first_default_from(ps, 0) {
        Some(i) => Some(i),
        None => if ps.len() > 0 { Some(0usize) } else { None },
    }
}

/// Skipping printers that are not the default does not change the first default found.
proof fn lemma_first_default_skip(ps: Seq<PrinterView>, i: int)
    requires
        0 <= i <= ps.len(),
        forall|j: int| 0 <= j < i ==> !(#[trigger] ps[j]).is_default,
    ensures
        first_default_from(ps, 0) == first_default_from(ps, i),
    decreases i,
{
    if i > 0 {
        lemma_first_default_skip(ps, i - 1);
    }
}

/// The index of the printer to preselect, as [`preselected_printer`] says.
pub fn default_printer_index(printers: &Vec<Printer>) -> (r: Option<usize>)
    ensures
        r == preselected_printer(printers_view(printers@)),
{
    let ghost ps = printers_view(printers@);
    let mut i: usize = 0;
    while i < printers.len()
        invariant
            i <= printers.len(),
            ps == printers_view(printers@),
            forall|j: int| 0 <= j < i ==> !(#[trigger] ps[j]).is_default,
        decreases printers.len() - i,
    {
        if printers[i].is_default {
            proof {
                lemma_first_default_skip(ps, i as int);
            }
            return Some(i);
        }
        i = i + 1;
    }
    proof {
        lemma_first_default_skip(ps, i as int);
    }
    if printers.len() > 0 {
        Some(0)
    } else {
        None
    }
}

/// Messages joined with single spaces.
pub open spec fn joined(messages: Seq<Seq<char>>) -> Seq<char>
    decreases messages.len(),
{
    if messages.len() == 0 {
        Seq::empty()
    } else if messages.len() == 1 {
        messages[0]
    } else {
        joined(messages.drop_last()) + " "@ + messages.last()
    }
}

/// The status line after a refresh: `success` when nothing failed, else
/// "Could not refresh status: " and the failures' messages.
pub open spec fn refresh_status_text(errors: Seq<Seq<char>>, success: Seq<char>) -> Seq<char> {
    if errors.len() == 0 {
        success
    } else {
        "Could not refresh status: "@ + joined(errors)
    }
}

/// Builds the status line after a refresh, as [`refresh_status_text`] says.
pub fn refresh_status(errors: &Vec<String>, success: &str) -> (r: String)
    ensures
        r@ == refresh_status_text(errors@.map_values(|e: String| e@), success@),
{
    let ghost es = errors@.map_values(|e: String| e@);
    if errors.len() == 0 {
        return success.to_owned();
    }
    let mut joined_text = errors[0].clone();
    let mut i: usize = 1;
    assert(es.take(1).drop_last() =~= Seq::<Seq<char>>::empty());
    while i < errors.len()
        invariant
            1 <= i <= errors.len(),
            es == errors@.map_values(|e: String| e@),
            joined_text@ == joined(es.take(i as int)),
        decreases errors.len() - i,
    {
        joined_text.append(" ");
        joined_text.append(errors[i].as_str());
        assert(es.take(i + 1).drop_last() =~= es.take(i as int));
        i = i + 1;
    }
    assert(es.take(i as int) =~= es);
    let mut message = "Could not refresh status: ".to_owned();
    message.append(joined_text.as_str());
    message
}

/// A status line reads as a failure: it starts with "Could not" or mentions "failed",
/// "invalid" or "unavailable".
pub open spec fn status_reads_as_error(s: Seq<char>) -> bool {
    ||| (s.len() >= 9 && s.take(9) == "Could not"@)
    ||| contains_seq(s, "failed"@)
    ||| contains_seq(s, "invalid"@)
    ||| contains_seq(s, "unavailable"@)
}

/// Whether the status line is to be shown as a failure, as [`status_reads_as_error`] says.
pub fn status_is_error(status: &str) -> (r: bool)
    ensures
        r == status_reads_as_error(status@),
{
    let s = chars_of(status);
    let prefix = chars_of("Could not");
    proof {
        reveal_strlit("Could not");
    }
    let mut starts = s.len() >= prefix.len();
    let mut i: usize = 0;
    while starts && i < prefix.len()
        invariant
            prefix@ == "Could not"@,
            prefix@.len() == 9,
            i <= prefix.len(),
            starts ==> s@.len() >= 9,
            starts ==> forall|j: int| 0 <= j < i ==> s@[j] == prefix@[j],
            !starts ==> !(s@.len() >= 9 && s@.take(9) == "Could not"@),
        decreases prefix.len() - i + (if starts { 1int } else { 0int }),
    {
        if s[i] != prefix[i] {
            assert(s@.take(9)[i as int] != prefix@[i as int]);
            starts = false;
        } else {
            i = i + 1;
        }
    }
    if starts {
        assert(s@.take(9) =~= prefix@);
    }
    starts || contains_chars(&s, &chars_of("failed")) || contains_chars(&s, &chars_of("invalid"))
        || contains_chars(&s, &chars_of("unavailable"))
}

/// The identity of a saved association's row: its normalised network, kind and printer.
pub open spec fn row_base(a: AssociationView) -> Seq<char> {
    normalized(a.network) + "::"@ + normalized(a.network_type) + "::"@ + normalized(a.printer)
}

/// How many entries of `s` equal `k`.
pub open spec fn count_equal(s: Seq<Seq<char>>, k: Seq<char>) -> nat
    decreases s.len(),
{
    if s.len() == 0 {
        0
    } else {
        count_equal(s.drop_last(), k) + if s.last() == k { 1nat } else { 0nat }
    }
}

/// The rank of entry `i` among the entries of `s` equal to it, counting from 1.
pub open spec fn occurrence(s: Seq<Seq<char>>, i: int) -> nat {
    count_equal(s.take(i + 1), s[i])
}

/// The row identities of a list of associations.
pub open spec fn row_bases(assocs: Seq<AssociationView>) -> Seq<Seq<char>> {
    assocs.map_values(|a: AssociationView| row_base(a))
}

/// The row identity of an association.
fn association_row_base(a: &Association) -> (r: String)
    ensures
        r@ == row_base(a@),
{
    let mut k = normalize(a.network.as_str());
    k.append("::");
    k.append(normalize(a.network_type.as_str()).as_str());
    k.append("::");
    k.append(normalize(a.printer.as_str()).as_str());
    k
}

/// Keys for the rows that list saved associations: each row's identity and its rank among
/// rows with the same identity, so that identical associations still get distinct keys.
pub fn association_row_keys(assocs: &Vec<Association>) -> (r: Vec<(String, usize)>)
    ensures
        r@.len() == assocs@.len(),
        forall|i: int| 0 <= i < r@.len() ==> (#[trigger] r@[i]).0@ == row_bases(crate::model::associations_view(assocs@))[i]
            && r@[i].1 == occurrence(row_bases(crate::model::associations_view(assocs@)), i),
{
    let ghost bases = row_bases(crate::model::associations_view(assocs@));
    let mut keys: Vec<String> = Vec::new();
    let mut i: usize = 0;
    while i < assocs.len()
        invariant
            i <= assocs.len(),
            bases == row_bases(crate::model::associations_view(assocs@)),
            keys.len() == i,
            forall|j: int| 0 <= j < i ==> #[trigger] keys@[j]@ == bases[j],
        decreases assocs.len() - i,
    {
        keys.push(association_row_base(&assocs[i]));
        i = i + 1;
    }
    let mut out: Vec<(String, usize)> = Vec::new();
    let mut i: usize = 0;
    while i < keys.len()
        invariant
            i <= keys.len(),
            keys.len() == assocs.len(),
            bases.len() == assocs.len(),
            forall|j: int| 0 <= j < keys.len() ==> #[trigger] keys@[j]@ == bases[j],
            out.len() == i,
            forall|j: int| 0 <= j < i ==> (#[trigger] out@[j]).0@ == bases[j] && out@[j].1 == occurrence(bases, j),
        decreases keys.len() - i,
    {
        let mut count: usize = 0;
        let mut j: usize = 0;
        while j <= i
            invariant
                i < keys.len(),
                j <= i + 1,
                keys.len() == bases.len(),
                forall|m: int| 0 <= m < keys.len() ==> #[trigger] keys@[m]@ == bases[m],
                count == count_equal(bases.take(j as int), bases[i as int]),
                count <= j,
            decreases i + 1 - j,
        {
            assert(bases.take(j + 1).drop_last() =~= bases.take(j as int));
            if keys[j] == keys[i] {
                count = count + 1;
            }
            j = j + 1;
        }
        out.push((keys[i].clone(), count));
        i = i + 1;
    }
    out
}

/// Counting matches over a longer prefix never gives fewer.
proof fn lemma_count_equal_prefix_monotone(s: Seq<Seq<char>>, k: Seq<char>, m: int, n: int)
    requires
        0 <= m <= n <= s.len(),
    ensures
        count_equal(s.take(m), k) <= count_equal(s.take(n), k),
    decreases n - m,
{
    if m < n {
        lemma_count_equal_prefix_monotone(s, k, m, n - 1);
        assert(s.take(n).drop_last() =~= s.take(n - 1));
    }
}

/// No two rows of the saved-association list get the same key.
pub proof fn lemma_row_keys_distinct(bases: Seq<Seq<char>>, i: int, j: int)
    requires
        0 <= i < j < bases.len(),
    ensures
        (bases[i], occurrence(bases, i)) != (bases[j], occurrence(bases, j)),
{
    if bases[i] == bases[j] {
        lemma_count_equal_prefix_monotone(bases, bases[i], i + 1, j);
        assert(bases.take(j + 1).drop_last() =~= bases.take(j));
    }
}

/// What the management window shows and edits.
#[derive(Debug)]
pub struct ManagementState {
    pub config: Config,
    pub printers: Vec<Printer>,
    pub current_network: Option<Network>,
    /// The network name in the edit box.
    pub network_name: String,
    pub selected_printer: Option<usize>,
    pub prompt_mode: PromptMode,
    /// The status line.
    pub status: String,
    /// A load of printers and network status is under way.
    pub data_loading: bool,
}

/// The view of an outcome that carries only a message on failure.
pub open spec fn failure_message<T>(r: Result<T, String>) -> Seq<Seq<char>> {
    match r {
        Ok(_) => Seq::empty(),
        Err(e) => seq![e@],
    }
}

impl ManagementState {
    /// The window's state before the first load: the configuration that could be read (the
    /// defaults otherwise), its prompt mode, and a status line with the read error or
    /// "Loading printers and network status…"; a load is under way.
    pub fn new(loaded: Result<Config, String>) -> (r: Self)
        ensures
            r.data_loading,
            r.printers@.len() == 0,
            r.current_network is None,
            r.network_name@.len() == 0,
            r.selected_printer is None,
            r.prompt_mode == r.config.prompt_mode,
            loaded matches Ok(c) ==> r.config@ == c@,
            loaded is Ok ==> r.status@ == "Loading printers and network status…"@,
            loaded matches Err(e) ==> r.status@ == e@ && r.config@.associations.len() == 0
                && r.config@.prompt_mode == PromptMode::OncePerConnection
                && r.config@.close_behavior == crate::model::CloseBehavior::AskOncePerStartup,
    {
        let (config, status) = match loaded {
            Ok(c) => (c, "Loading printers and network status…".to_owned()),
            Err(e) => (Config::default(), e),
        };
        let prompt_mode = config.prompt_mode;
        ManagementState {
            config,
            printers: Vec::new(),
            current_network: None,
            network_name: String::new(),
            selected_printer: None,
            prompt_mode,
            status,
            data_loading: true,
        }
    }

    /// Takes in what a load produced. A configuration that was read replaces the shown one
    /// with its prompt mode; a printer list replaces the shown one and preselects as
    /// [`preselected_printer`] says; a network outcome sets the current network and the
    /// network name (empty without a network). What failed is left as it was and named in
    /// the status line, which otherwise reads `success_status`.
    pub fn apply_data(
        &mut self,
        config: Result<Config, String>,
        printers: Result<Vec<Printer>, String>,
        network: Result<Option<Network>, String>,
        success_status: &str,
    )
        ensures
            config matches Ok(c) ==> final(self).config@ == c@ && final(self).prompt_mode == c.prompt_mode,
            config is Err ==> final(self).config@ == old(self).config@ && final(self).prompt_mode
                == old(self).prompt_mode,
            printers matches Ok(ps) ==> printers_view(final(self).printers@) == printers_view(ps@)
                && final(self).selected_printer == preselected_printer(printers_view(ps@)),
            printers is Err ==> final(self).printers@ == old(self).printers@
                && final(self).selected_printer == old(self).selected_printer,
            network matches Ok(n) ==> opt_network_view(final(self).current_network) == opt_network_view(n)
                && final(self).network_name@ == match n {
                Some(x) => x.name@,
                None => Seq::<char>::empty(),
            },
            network is Err ==> final(self).current_network == old(self).current_network
                && final(self).network_name == old(self).network_name,
            final(self).status@ == refresh_status_text(
                failure_message(config) + failure_message(printers) + failure_message(network),
                success_status@,
            ),
            final(self).data_loading == old(self).data_loading,
    {
        let mut errors: Vec<String> = Vec::new();
        match config {
            Ok(c) => {
                self.prompt_mode = c.prompt_mode;
                self.config = c;
            },
            Err(e) => errors.push(e),
        }
        match printers {
            Ok(ps) => {
                self.selected_printer = default_printer_index(&ps);
                self.printers = ps;
            },
            Err(e) => errors.push(e),
        }
        match network {
            Ok(n) => {
                self.network_name = match &n {
                    Some(x) => x.name.clone(),
                    None => String::new(),
                };
                self.current_network = n;
            },
            Err(e) => errors.push(e),
        }
        assert(errors@.map_values(|e: String| e@) =~= failure_message(config) + failure_message(printers)
            + failure_message(network));
        self.status = refresh_status(&errors, success_status);
    }

    /// Starts a reload unless one is under way; `true` when the caller is to load.
    pub fn begin_refresh(&mut self) -> (start: bool)
        ensures
            start == !old(self).data_loading,
            final(self).data_loading,
            start ==> final(self).status@ == "Refreshing printers and network status…"@,
            !start ==> *final(self) == *old(self),
            final(self).config == old(self).config,
            final(self).printers == old(self).printers,
            final(self).selected_printer == old(self).selected_printer,
            final(self).current_network == old(self).current_network,
            final(self).network_name == old(self).network_name,
            final(self).prompt_mode == old(self).prompt_mode,
    {
        if self.data_loading {
            return false;
        }
        self.data_loading = true;
        self.status = "Refreshing printers and network status…".to_owned();
        true
    }
}

/// A change to the stored settings made from the management window.
pub enum ConfigEdit {
    SetPromptMode(PromptMode),
    SetCloseBehavior(CloseBehavior),
    /// Remove the association at this position.
    RemoveAssociation(usize),
    SaveAssociation(Association),
}

/// The configuration `c` after `edit`, or `None` when the position to remove is not there.
pub open spec fn edited_config(c: ConfigView, edit: ConfigEdit) -> Option<ConfigView> {
    match edit {
        ConfigEdit::SetPromptMode(m) => Some(
            ConfigView { associations: c.associations, prompt_mode: m, close_behavior: c.close_behavior },
        ),
        ConfigEdit::SetCloseBehavior(b) => Some(
            ConfigView { associations: c.associations, prompt_mode: c.prompt_mode, close_behavior: b },
        ),
        ConfigEdit::RemoveAssociation(i) => if i < c.associations.len() {
            Some(
                ConfigView {
                    associations: c.associations.remove(i as int),
                    prompt_mode: c.prompt_mode,
                    close_behavior: c.close_behavior,
                },
            )
        } else {
            None
        },
        ConfigEdit::SaveAssociation(a) => Some(
            ConfigView {
                associations: saved_associations(c.associations, a@),
                prompt_mode: c.prompt_mode,
                close_behavior: c.close_behavior,
            },
        ),
    }
}

/// The status line after `edit` was written.
pub open spec fn edit_saved_status(edit: ConfigEdit) -> Seq<char> {
    match edit {
        ConfigEdit::SetPromptMode(_) => "Prompt preference saved."@,
        ConfigEdit::SetCloseBehavior(_) => "Close behavior saved."@,
        ConfigEdit::RemoveAssociation(_) => "Association removed."@,
        ConfigEdit::SaveAssociation(_) => "Association saved."@,
    }
}

/// What the status line says before the error when writing `edit` failed.
pub open spec fn edit_failure_prefix(edit: ConfigEdit) -> Seq<char> {
    match edit {
        ConfigEdit::SetPromptMode(_) => "Could not save prompt preference: "@,
        ConfigEdit::SetCloseBehavior(_) => "Could not save close behavior: "@,
        ConfigEdit::RemoveAssociation(_) => "Could not save changes: "@,
        ConfigEdit::SaveAssociation(_) => "Could not save association: "@,
    }
}

/// The status line for an association that could not be composed.
pub open spec fn input_error_status(e: AssociationInputError) -> Seq<char> {
    match e {
        AssociationInputError::MissingNetwork => "Enter a network name first."@,
        AssociationInputError::MissingPrinter => "Select a printer first."@,
        AssociationInputError::PrinterUnavailable => "The selected printer is no longer available."@,
    }
}

/// `b` is `a` with, at most, another status line.
pub open spec fn same_but_status(a: ManagementState, b: ManagementState) -> bool {
    &&& b.config == a.config
    &&& b.printers == a.printers
    &&& b.current_network == a.current_network
    &&& b.network_name == a.network_name
    &&& b.selected_printer == a.selected_printer
    &&& b.prompt_mode == a.prompt_mode
    &&& b.data_loading == a.data_loading
}

impl ManagementState {
    /// Starts a settings change from the configuration read back from disk: the
    /// configuration to write, as [`edited_config`] says. When the read failed, or the
    /// position to remove is gone, nothing is to be written and the status line says why.
    pub fn prepare_edit(&mut self, read: Result<Config, String>, edit: &ConfigEdit) -> (r: Option<Config>)
        ensures
            same_but_status(*old(self), *final(self)),
            read is Err ==> r is None && final(self).status@
                == "Could not read configuration before saving."@,
            read matches Ok(c) ==> match edited_config(c@, *edit) {
                Some(v) => r matches Some(n) && n@ == v && final(self).status == old(self).status,
                None => r is None && final(self).status@
                    == "Association list changed; refresh and try again."@,
            },
    {
        let mut config = match read {
            Ok(c) => c,
            Err(_) => {
                self.status = "Could not read configuration before saving.".to_owned();
                return None;
            },
        };
        match edit {
            ConfigEdit::SetPromptMode(m) => {
                config.prompt_mode = *m;
            },
            ConfigEdit::SetCloseBehavior(b) => {
                config.close_behavior = *b;
            },
            ConfigEdit::RemoveAssociation(i) => {
                if !config.remove_association(*i) {
                    self.status = "Association list changed; refresh and try again.".to_owned();
                    return None;
                }
            },
            ConfigEdit::SaveAssociation(a) => {
                config.save_association(a.clone());
            },
        }
        Some(config)
    }

    /// Ends a settings change once `written` was handed to storage with outcome `saved`.
    /// On success the window shows `written`, takes its prompt mode when that was the
    /// change, and says what was saved; on failure only the status line changes, to the
    /// failure text of the change followed by the error.
    pub fn finish_edit(&mut self, edit: &ConfigEdit, written: Config, saved: Result<(), String>)
        ensures
            final(self).printers == old(self).printers,
            final(self).current_network == old(self).current_network,
            final(self).network_name == old(self).network_name,
            final(self).selected_printer == old(self).selected_printer,
            final(self).data_loading == old(self).data_loading,
            saved is Ok ==> final(self).config == written && final(self).status@ == edit_saved_status(*edit)
                && final(self).prompt_mode == match *edit {
                ConfigEdit::SetPromptMode(m) => m,
                _ => old(self).prompt_mode,
            },
            saved matches Err(e) ==> same_but_status(*old(self), *final(self)) && final(self).status@
                == edit_failure_prefix(*edit) + e@,
    {
        match saved {
            Ok(()) => {
                self.config = written;
                match edit {
                    ConfigEdit::SetPromptMode(m) => {
                        self.prompt_mode = *m;
                        self.status = "Prompt preference saved.".to_owned();
                    },
                    ConfigEdit::SetCloseBehavior(_) => {
                        self.status = "Close behavior saved.".to_owned();
                    },
                    ConfigEdit::RemoveAssociation(_) => {
                        self.status = "Association removed.".to_owned();
                    },
                    ConfigEdit::SaveAssociation(_) => {
                        self.status = "Association saved.".to_owned();
                    },
                }
            },
            Err(e) => {
                let mut message = match edit {
                    ConfigEdit::SetPromptMode(_) => "Could not save prompt preference: ".to_owned(),
                    ConfigEdit::SetCloseBehavior(_) => "Could not save close behavior: ".to_owned(),
                    ConfigEdit::RemoveAssociation(_) => "Could not save changes: ".to_owned(),
                    ConfigEdit::SaveAssociation(_) => "Could not save association: ".to_owned(),
                };
                message.append(e.as_str());
                self.status = message;
            },
        }
    }

    /// The association to save from the typed network name and the selected printer, as
    /// [`prepare_selected_association`](crate::associations::prepare_selected_association)
    /// composes it; when it cannot be composed, `None`, and the status line says why.
    pub fn association_to_save(&mut self) -> (r: Option<Association>)
        ensures
            same_but_status(*old(self), *final(self)),
            r is Some ==> final(self).status == old(self).status,
            trimmed(old(self).network_name@).len() == 0 ==> r is None && final(self).status@
                == input_error_status(AssociationInputError::MissingNetwork),
            trimmed(old(self).network_name@).len() > 0 && old(self).selected_printer is None ==> r is None
                && final(self).status@ == input_error_status(AssociationInputError::MissingPrinter),
            old(self).selected_printer matches Some(i) ==> (trimmed(old(self).network_name@).len() > 0
                && i >= old(self).printers@.len() ==> r is None && final(self).status@
                == input_error_status(AssociationInputError::PrinterUnavailable)),
            old(self).selected_printer matches Some(i) ==> (trimmed(old(self).network_name@).len() > 0
                && i < old(self).printers@.len() ==> (r matches Some(a) && a@ == (AssociationView {
                network: trimmed(old(self).network_name@),
                network_type: kind_by_ascii_name(
                    opt_network_view(old(self).current_network),
                    trimmed(old(self).network_name@),
                ),
                printer: old(self).printers@[i as int]@.name,
            }))),
    {
        match crate::associations::prepare_selected_association(
            self.network_name.as_str(),
            self.selected_printer,
            &self.printers,
            &self.current_network,
        ) {
            Ok(a) => Some(a),
            Err(e) => {
                self.status = match e {
                    AssociationInputError::MissingNetwork => "Enter a network name first.".to_owned(),
                    AssociationInputError::MissingPrinter => "Select a printer first.".to_owned(),
                    AssociationInputError::PrinterUnavailable =>
                        "The selected printer is no longer available.".to_owned(),
                };
                None
            },
        }
    }
}

/// Removing the association at position `i` of the stored list drops exactly that one:
/// the associations before it stay where they were, those after it move up by one, and
/// the two behaviour settings are kept. A position past the list removes nothing.
pub proof fn lemma_removal_drops_exactly_the_chosen_association(c: ConfigView, i: usize)
    ensures
        i >= c.associations.len() ==> edited_config(c, ConfigEdit::RemoveAssociation(i)) is None,
        i < c.associations.len() ==> (edited_config(c, ConfigEdit::RemoveAssociation(i)) matches Some(v) && {
            &&& v.associations.len() == c.associations.len() - 1
            &&& forall|j: int| 0 <= j < i ==> #[trigger] v.associations[j] == c.associations[j]
            &&& forall|j: int| i <= j < v.associations.len() ==> #[trigger] v.associations[j]
                == c.associations[j + 1]
            &&& v.prompt_mode == c.prompt_mode
            &&& v.close_behavior == c.close_behavior
        }),
{
}

/// Choosing a prompt mode or a close behaviour stores that choice and nothing else:
/// the associations and the other setting stay as they were.
pub proof fn lemma_setting_edits_store_the_choice(c: ConfigView, m: PromptMode, b: CloseBehavior)
    ensures
        edited_config(c, ConfigEdit::SetPromptMode(m)) matches Some(v) && v.prompt_mode == m
            && v.associations == c.associations && v.close_behavior == c.close_behavior,
        edited_config(c, ConfigEdit::SetCloseBehavior(b)) matches Some(v) && v.close_behavior == b
            && v.associations == c.associations && v.prompt_mode == c.prompt_mode,
{
}

/// Saving an association through the window always yields a configuration to write: its
/// list is the stored one after [`Config::save_association`] (the replaced associations
/// gone, the new one last), with both behaviour settings kept.
pub proof fn lemma_saving_edit_appends_the_association(c: ConfigView, a: Association)
    ensures
        edited_config(c, ConfigEdit::SaveAssociation(a)) matches Some(v) && v.associations.len() >= 1
            && v.associations.last() == a@ && v.associations == saved_associations(c.associations, a@)
            && v.prompt_mode == c.prompt_mode && v.close_behavior == c.close_behavior,
{
}

} // verus!

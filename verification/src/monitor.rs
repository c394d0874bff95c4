use vstd::prelude::*;
use crate::model::{association_matches, associations_view, Association, association_applies, network_key, AssociationView, Config, ConfigView, Network, NetworkView, Printer, PrinterView, PromptMode};
use crate::text::{normalize, normalized};

verus! {

/// Connection events for the same network closer together than this many
/// milliseconds count as one.
pub const DUPLICATE_EVENT_WINDOW_MS: u64 = 5000;

/// What the user is to be asked after a network has been evaluated.
#[derive(Debug)]
pub enum CheckPrompt {
    /// Several associations apply to `network`; `printers` are their printers in saved order.
    Duplicate { network: Network, printers: Vec<String> },
    /// `printer` is associated with `network`, installed, and not yet the default.
    Switch { network: Network, printer: String },
}

/// The mathematical value of a [`CheckPrompt`].
pub enum PromptView {
    Duplicate { network: NetworkView, printers: Seq<Seq<char>> },
    Switch { network: NetworkView, printer: Seq<char> },
}

/// The views of a list of strings.
pub open spec fn strings_view(v: Seq<String>) -> Seq<Seq<char>> {
    v.map_values(|s: String| s@)
}

impl View for CheckPrompt {
    type V = PromptView;

    open spec fn view(&self) -> PromptView {
        match self {
            CheckPrompt::Duplicate { network, printers } => PromptView::Duplicate {
                network: network@,
                printers: strings_view(printers@),
            },
            CheckPrompt::Switch { network, printer } => PromptView::Switch {
                network: network@,
                printer: printer@,
            },
        }
    }
}

/// The outcome of evaluating a connected network.
#[derive(Debug)]
pub struct Evaluation {
    /// The network differs from the last one seen, or a connection event brought it:
    /// the displayed network is to be updated.
    pub show_network: bool,
    /// The question to put to the user, if any.
    pub prompt: Option<CheckPrompt>,
}

/// The mathematical value of an [`Evaluation`].
pub struct EvaluationView {
    pub show_network: bool,
    pub prompt: Option<PromptView>,
}

impl View for Evaluation {
    type V = EvaluationView;

    open spec fn view(&self) -> EvaluationView {
        EvaluationView {
            show_network: self.show_network,
            prompt: match self.prompt {
                Some(p) => Some(p@),
                None => None,
            },
        }
    }
}

/// What the monitor remembers between network checks.
#[derive(Debug)]
pub struct MonitorState {
    /// The configuration read most recently.
    pub config: Config,
    /// The installed printers read most recently.
    pub printers: Vec<Printer>,
    /// Whether `printers` reflects a successful enumeration.
    pub printers_loaded: bool,
    /// The network evaluated last, while connected.
    pub current_network: Option<Network>,
    /// The key of the network evaluated last.
    pub last_network_key: Option<String>,
    /// The key of the network for which the user was last prompted (or found already served).
    pub last_prompted_network_key: Option<String>,
    /// How many associations applied at that prompt.
    pub last_prompted_association_count: Option<usize>,
    /// The key and time (in milliseconds) of the last connection event that counted.
    pub last_connection_event: Option<(String, u64)>,
}

/// The mathematical value of a [`MonitorState`].
pub struct MonitorView {
    pub config: ConfigView,
    pub printers: Seq<PrinterView>,
    pub printers_loaded: bool,
    pub current_network: Option<NetworkView>,
    pub last_network_key: Option<Seq<char>>,
    pub last_prompted_network_key: Option<Seq<char>>,
    pub last_prompted_association_count: Option<usize>,
    pub last_connection_event: Option<(Seq<char>, u64)>,
}

/// The views of a list of printers.
pub open spec fn printers_view(v: Seq<Printer>) -> Seq<PrinterView> {
    v.map_values(|p: Printer| p@)
}

/// The view of an optional string.
pub open spec fn opt_string_view(o: Option<String>) -> Option<Seq<char>> {
    match o {
        Some(s) => Some(s@),
        None => None,
    }
}

impl View for MonitorState {
    type V = MonitorView;

    open spec fn view(&self) -> MonitorView {
        MonitorView {
            config: self.config@,
            printers: printers_view(self.printers@),
            printers_loaded: self.printers_loaded,
            current_network: match self.current_network {
                Some(n) => Some(n@),
                None => None,
            },
            last_network_key: opt_string_view(self.last_network_key),
            last_prompted_network_key: opt_string_view(self.last_prompted_network_key),
            last_prompted_association_count: self.last_prompted_association_count,
            last_connection_event: match self.last_connection_event {
                Some((k, at)) => Some((k@, at)),
                None => None,
            },
        }
    }
}

/// The associations of `assocs` that apply to `n`, in their saved order.
pub open spec fn applicable(assocs: Seq<AssociationView>, n: NetworkView) -> Seq<AssociationView>
    decreases assocs.len(),
{
    if assocs.len() == 0 {
        Seq::empty()
    } else {
        let rest = applicable(assocs.drop_last(), n);
        if association_applies(assocs.last(), n) {
            rest.push(assocs.last())
        } else {
            rest
        }
    }
}

/// Milliseconds from `at` to `now`, zero when `now` is not later.
pub open spec fn elapsed_ms(at: u64, now: u64) -> int {
    if now >= at { now - at } else { 0 }
}

/// A connection event for the network with `key` at `now` repeats the one recorded in `m`.
pub open spec fn repeats_recorded_event(m: MonitorView, key: Seq<char>, now: u64) -> bool {
    match m.last_connection_event {
        Some((k, at)) => k == key && elapsed_ms(at, now) < DUPLICATE_EVENT_WINDOW_MS,
        None => false,
    }
}

/// A printer of `ps` carries the name `p`, compared normalised.
pub open spec fn printer_installed(ps: Seq<PrinterView>, p: Seq<char>) -> bool {
    exists|j: int| 0 <= j < ps.len() && normalized(#[trigger] ps[j].name) == normalized(p)
}

/// The default printer of `ps` carries the name `p`, compared normalised.
pub open spec fn printer_is_default(ps: Seq<PrinterView>, p: Seq<char>) -> bool {
    exists|j: int| 0 <= j < ps.len() && #[trigger] ps[j].is_default && normalized(ps[j].name) == normalized(p)
}

/// Whether an evaluation looks at the associations at all. Once per connection: when the
/// network changed, or the last prompt concerned another network or another number of
/// associations. Every connection: on each connection event that is not a repeat.
pub open spec fn should_evaluate(
    m: MonitorView,
    mode: PromptMode,
    key: Seq<char>,
    changed: bool,
    count: nat,
    fresh_event: bool,
) -> bool {
    match mode {
        PromptMode::OncePerConnection => changed || m.last_prompted_network_key != Some(key)
            || m.last_prompted_association_count != Some(count as usize),
        PromptMode::EveryConnection => fresh_event,
    }
}

/// The state after a prompt (or an already-served default) has been recorded for `key`.
pub open spec fn mark_prompted(m: MonitorView, key: Seq<char>, count: usize) -> MonitorView {
    MonitorView {
        last_prompted_network_key: Some(key),
        last_prompted_association_count: Some(count),
        ..m
    }
}

/// Evaluating network `n` with configuration `c`, as a connection event (`event`) or not,
/// at time `now`. Without a successful printer enumeration nothing changes and there is no
/// outcome. Otherwise the configuration and network are taken in, a fresh connection event is
/// recorded, and — when [`should_evaluate`] says so — several applicable associations give a
/// duplicate warning; a single one gives nothing when its printer is already the default (the
/// network counts as served), a switch prompt when it is installed, and nothing when it is not.
pub open spec fn evaluate_spec(
    m: MonitorView,
    c: ConfigView,
    event: bool,
    n: NetworkView,
    now: u64,
) -> (MonitorView, Option<EvaluationView>) {
    if !m.printers_loaded {
        (m, None)
    } else {
        let key = network_key(n);
        let changed = m.last_network_key != Some(key);
        let duplicate = event && repeats_recorded_event(m, key, now);
        let fresh = event && !duplicate;
        let m1 = MonitorView {
            config: c,
            current_network: Some(n),
            last_network_key: Some(key),
            last_connection_event: if fresh { Some((key, now)) } else { m.last_connection_event },
            ..m
        };
        let assoc = applicable(c.associations, n);
        let show = changed || event;
        if !should_evaluate(m1, c.prompt_mode, key, changed, assoc.len(), fresh) {
            (m1, Some(EvaluationView { show_network: show, prompt: None }))
        } else if assoc.len() > 1 {
            (
                mark_prompted(m1, key, assoc.len() as usize),
                Some(EvaluationView {
                    show_network: show,
                    prompt: Some(PromptView::Duplicate {
                        network: n,
                        printers: assoc.map_values(|a: AssociationView| a.printer),
                    }),
                }),
            )
        } else if assoc.len() == 1 {
            let p = assoc[0].printer;
            if printer_is_default(m.printers, p) {
                (mark_prompted(m1, key, 1), Some(EvaluationView { show_network: show, prompt: None }))
            } else if printer_installed(m.printers, p) {
                let m2 = if c.prompt_mode == PromptMode::OncePerConnection {
                    mark_prompted(m1, key, 1)
                } else {
                    m1
                };
                (m2, Some(EvaluationView {
                    show_network: show,
                    prompt: Some(PromptView::Switch { network: n, printer: p }),
                }))
            } else {
                (m1, Some(EvaluationView { show_network: show, prompt: None }))
            }
        } else {
            (m1, Some(EvaluationView { show_network: show, prompt: None }))
        }
    }
}

/// The view of an optional evaluation.
pub open spec fn opt_evaluation_view(o: Option<Evaluation>) -> Option<EvaluationView> {
    match o {
        Some(e) => Some(e@),
        None => None,
    }
}

/// The associations of `config` that apply to `network`, in saved order.
pub fn applicable_associations(config: &Config, network: &Network) -> (r: Vec<Association>)
    ensures
        associations_view(r@) == applicable(config@.associations, network@),
{
    let v = &config.associations;
    let mut out: Vec<Association> = Vec::new();
    let mut i: usize = 0;
    while i < v.len()
        invariant
            i <= v.len(),
            v == config.associations,
            associations_view(out@) == applicable(associations_view(v@).take(i as int), network@),
        decreases v.len() - i,
    {
        let ghost before = associations_view(v@).take(i as int);
        let ghost after = associations_view(v@).take(i + 1);
        assert(after.drop_last() =~= before);
        assert(after.last() == v@[i as int]@);
        if association_matches(&v[i], network) {
            out.push(v[i].clone());
            assert(associations_view(out@) =~= applicable(before, network@).push(v@[i as int]@));
        }
        i = i + 1;
    }
    assert(associations_view(v@).take(i as int) =~= associations_view(v@));
    out
}

/// Whether a printer named `name` (compared normalised) is installed, and whether it is the default.
pub fn printer_status(printers: &Vec<Printer>, name: &String) -> (r: (bool, bool))
    ensures
        r.0 == printer_installed(printers_view(printers@), name@),
        r.1 == printer_is_default(printers_view(printers@), name@),
{
    let target = normalize(name.as_str());
    let mut installed = false;
    let mut is_default = false;
    let mut i: usize = 0;
    while i < printers.len()
        invariant
            i <= printers.len(),
            target@ == normalized(name@),
            installed == exists|j: int| 0 <= j < i && normalized(#[trigger] printers@[j]@.name) == normalized(name@),
            is_default == exists|j: int| 0 <= j < i && #[trigger] printers@[j]@.is_default
                && normalized(printers@[j]@.name) == normalized(name@),
        decreases printers.len() - i,
    {
        let candidate = normalize(printers[i].name.as_str());
        let ghost p = printers@[i as int]@;
        if candidate == target {
            assert(normalized(p.name) == normalized(name@));
            installed = true;
            if printers[i].is_default {
                is_default = true;
            }
        }
        assert(candidate@ == normalized(p.name));
        i = i + 1;
        assert(installed == exists|j: int| 0 <= j < i && normalized(#[trigger] printers@[j]@.name) == normalized(name@)) by {
            if installed && !(candidate@ == target@) {
                let j = choose|j: int| 0 <= j < i - 1 && normalized(#[trigger] printers@[j]@.name) == normalized(name@);
            }
        }
        assert(is_default == exists|j: int| 0 <= j < i && #[trigger] printers@[j]@.is_default
                && normalized(printers@[j]@.name) == normalized(name@)) by {
            if p.is_default && candidate@ == target@ {
                assert(printers@[i - 1]@.is_default);
            }
            if is_default && !(p.is_default && candidate@ == target@) {
                let j = choose|j: int| 0 <= j < i - 1 && #[trigger] printers@[j]@.is_default
                    && normalized(printers@[j]@.name) == normalized(name@);
            }
        }
    }
    let ghost ps = printers_view(printers@);
    assert(installed == printer_installed(ps, name@)) by {
        if installed {
            let j = choose|j: int| 0 <= j < i && normalized(#[trigger] printers@[j]@.name) == normalized(name@);
            assert(ps[j] == printers@[j]@);
        }
        if printer_installed(ps, name@) {
            let j = choose|j: int| 0 <= j < ps.len() && normalized(#[trigger] ps[j].name) == normalized(name@);
            assert(ps[j] == printers@[j]@);
        }
    }
    assert(is_default == printer_is_default(ps, name@)) by {
        if is_default {
            let j = choose|j: int| 0 <= j < i && #[trigger] printers@[j]@.is_default
                && normalized(printers@[j]@.name) == normalized(name@);
            assert(ps[j] == printers@[j]@);
        }
        if printer_is_default(ps, name@) {
            let j = choose|j: int| 0 <= j < ps.len() && #[trigger] ps[j].is_default
                && normalized(ps[j].name) == normalized(name@);
            assert(ps[j] == printers@[j]@);
        }
    }
    (installed, is_default)
}

/// Whether `o` holds a string equal to `key`.
fn holds_key(o: &Option<String>, key: &String) -> (r: bool)
    ensures
        r == (opt_string_view(*o) == Some(key@)),
{
    match o {
        Some(k) => *k == *key,
        None => false,
    }
}

/// The printers of a list of associations, in order.
fn printers_of(assoc: &Vec<Association>) -> (r: Vec<String>)
    ensures
        strings_view(r@) == associations_view(assoc@).map_values(|a: AssociationView| a.printer),
{
    let mut out: Vec<String> = Vec::new();
    let mut i: usize = 0;
    while i < assoc.len()
        invariant
            i <= assoc.len(),
            out.len() == i,
            forall|j: int| 0 <= j < i ==> #[trigger] out@[j]@ == assoc@[j]@.printer,
        decreases assoc.len() - i,
    {
        out.push(assoc[i].printer.clone());
        i = i + 1;
    }
    assert(strings_view(out@) =~= associations_view(assoc@).map_values(|a: AssociationView| a.printer));
    out
}

impl MonitorState {
    /// A state with `config`, no printers read yet and no network seen.
    pub fn new(config: Config) -> (r: Self)
        ensures
            r@.config == config@,
            r@.printers.len() == 0,
            !r@.printers_loaded,
            r@.current_network is None,
            r@.last_network_key is None,
            r@.last_prompted_network_key is None,
            r@.last_prompted_association_count is None,
            r@.last_connection_event is None,
    {
        let r = MonitorState {
            config,
            printers: Vec::new(),
            printers_loaded: false,
            current_network: None,
            last_network_key: None,
            last_prompted_network_key: None,
            last_prompted_association_count: None,
            last_connection_event: None,
        };
        assert(printers_view(r.printers@) =~= Seq::empty());
        r
    }

    /// Evaluates the connected `network` against `config` at time `now_ms`, as
    /// [`evaluate_spec`] describes; `None` when no printer list has been read yet.
    pub fn evaluate_network(
        &mut self,
        config: Config,
        connection_event: bool,
        network: Network,
        now_ms: u64,
    ) -> (r: Option<Evaluation>)
        ensures
            (final(self)@, opt_evaluation_view(r)) == evaluate_spec(
                old(self)@,
                config@,
                connection_event,
                network@,
                now_ms,
            ),
    {
        if !self.printers_loaded {
            return None;
        }
        let key = network.key();
        let changed = !holds_key(&self.last_network_key, &key);
        let duplicate = connection_event && match &self.last_connection_event {
            Some((k, at)) => {
                let elapsed: u64 = if now_ms >= *at { now_ms - *at } else { 0 };
                *k == key && elapsed < DUPLICATE_EVENT_WINDOW_MS
            },
            None => false,
        };
        let fresh = connection_event && !duplicate;
        let assoc = applicable_associations(&config, &network);
        let mode = config.prompt_mode;
        self.config = config;
        self.current_network = Some(network.clone());
        self.last_network_key = Some(key.clone());
        if fresh {
            self.last_connection_event = Some((key.clone(), now_ms));
        }
        let show_network = changed || connection_event;
        let evaluate = match mode {
            PromptMode::OncePerConnection => {
                changed || !holds_key(&self.last_prompted_network_key, &key)
                    || match self.last_prompted_association_count {
                    Some(count) => count != assoc.len(),
                    None => true,
                }
            },
            PromptMode::EveryConnection => fresh,
        };
        if !evaluate {
            return Some(Evaluation { show_network, prompt: None });
        }
        if assoc.len() > 1 {
            self.last_prompted_network_key = Some(key);
            self.last_prompted_association_count = Some(assoc.len());
            let printers = printers_of(&assoc);
            return Some(Evaluation {
                show_network,
                prompt: Some(CheckPrompt::Duplicate { network, printers }),
            });
        }
        if assoc.len() == 0 {
            return Some(Evaluation { show_network, prompt: None });
        }
        let printer = assoc[0].printer.clone();
        let (installed, already_default) = printer_status(&self.printers, &printer);
        if already_default {
            self.last_prompted_network_key = Some(key);
            self.last_prompted_association_count = Some(1);
            Some(Evaluation { show_network, prompt: None })
        } else if installed {
            if mode == PromptMode::OncePerConnection {
                self.last_prompted_network_key = Some(key);
                self.last_prompted_association_count = Some(1);
            }
            Some(Evaluation { show_network, prompt: Some(CheckPrompt::Switch { network, printer }) })
        } else {
            Some(Evaluation { show_network, prompt: None })
        }
    }

    /// No network is connected: everything remembered about networks and prompts is dropped.
    pub fn clear_network(&mut self)
        ensures
            final(self)@ == (MonitorView {
                current_network: None,
                last_network_key: None,
                last_prompted_network_key: None,
                last_prompted_association_count: None,
                last_connection_event: None,
                ..old(self)@
            }),
    {
        self.current_network = None;
        self.last_network_key = None;
        self.last_prompted_network_key = None;
        self.last_prompted_association_count = None;
        self.last_connection_event = None;
    }

    /// A printer enumeration succeeded with `printers`.
    pub fn printers_refreshed(&mut self, printers: Vec<Printer>)
        ensures
            final(self)@ == (MonitorView {
                printers: printers_view(printers@),
                printers_loaded: true,
                ..old(self)@
            }),
    {
        self.printers = printers;
        self.printers_loaded = true;
    }

    /// A printer enumeration failed; evaluations wait for the next successful one.
    pub fn printers_unavailable(&mut self)
        ensures
            final(self)@ == (MonitorView { printers_loaded: false, ..old(self)@ }),
    {
        self.printers_loaded = false;
    }

    /// Switching the default printer failed: the network may be offered again.
    pub fn switch_failed(&mut self)
        ensures
            final(self)@ == (MonitorView {
                last_prompted_network_key: None,
                last_prompted_association_count: None,
                ..old(self)@
            }),
    {
        self.last_prompted_network_key = None;
        self.last_prompted_association_count = None;
    }
}

/// Nothing is evaluated, and nothing remembered, before a printer list has been read.
pub proof fn lemma_no_evaluation_without_printers(
    m: MonitorView,
    c: ConfigView,
    event: bool,
    n: NetworkView,
    now: u64,
)
    requires
        !m.printers_loaded,
    ensures
        evaluate_spec(m, c, event, n, now) == (m, None::<EvaluationView>),
{
}

/// A network that no association applies to never raises a prompt.
pub proof fn lemma_unknown_network_never_prompts(
    m: MonitorView,
    c: ConfigView,
    event: bool,
    n: NetworkView,
    now: u64,
)
    requires
        applicable(c.associations, n).len() == 0,
    ensures
        evaluate_spec(m, c, event, n, now).1 matches Some(e) ==> e.prompt is None,
{
}

/// Several associations for one network block switching: the only prompt they can raise
/// is the duplicate warning, listing their printers.
pub proof fn lemma_duplicates_block_switching(
    m: MonitorView,
    c: ConfigView,
    event: bool,
    n: NetworkView,
    now: u64,
)
    requires
        applicable(c.associations, n).len() > 1,
    ensures
        evaluate_spec(m, c, event, n, now).1 matches Some(e) ==> match e.prompt {
            Some(PromptView::Duplicate { network, printers }) => network == n && printers
                == applicable(c.associations, n).map_values(|a: AssociationView| a.printer),
            Some(PromptView::Switch { .. }) => false,
            None => true,
        },
{
}

/// A switch is offered only for the single association of the network, only when its
/// printer is installed, and never when that printer is already the default.
pub proof fn lemma_switch_offered_only_when_useful(
    m: MonitorView,
    c: ConfigView,
    event: bool,
    n: NetworkView,
    now: u64,
)
    ensures
        evaluate_spec(m, c, event, n, now).1 matches Some(e) ==> (e.prompt matches Some(
            PromptView::Switch { network, printer },
        ) ==> {
            &&& network == n
            &&& applicable(c.associations, n).len() == 1
            &&& printer == applicable(c.associations, n)[0].printer
            &&& printer_installed(m.printers, printer)
            &&& !printer_is_default(m.printers, printer)
        }),
{
}

/// In "every connection" mode a second connection event for the same network less than
/// five seconds after a counted one raises no prompt.
pub proof fn lemma_repeated_event_is_debounced(
    m: MonitorView,
    c1: ConfigView,
    c2: ConfigView,
    n: NetworkView,
    t1: u64,
    t2: u64,
)
    requires
        m.printers_loaded,
        !repeats_recorded_event(m, network_key(n), t1),
        c2.prompt_mode == PromptMode::EveryConnection,
        t1 <= t2 < t1 + DUPLICATE_EVENT_WINDOW_MS,
    ensures
        evaluate_spec(evaluate_spec(m, c1, true, n, t1).0, c2, true, n, t2).1 matches Some(e)
            && e.prompt is None,
{
}

/// In "once per connection" mode a network that raised a prompt raises none when it is
/// evaluated again under the same configuration, whatever events arrive.
pub proof fn lemma_prompted_once_per_connection(
    m: MonitorView,
    c: ConfigView,
    n: NetworkView,
    event1: bool,
    t1: u64,
    event2: bool,
    t2: u64,
)
    requires
        c.prompt_mode == PromptMode::OncePerConnection,
        evaluate_spec(m, c, event1, n, t1).1 matches Some(e) && e.prompt is Some,
    ensures
        evaluate_spec(evaluate_spec(m, c, event1, n, t1).0, c, event2, n, t2).1 matches Some(e)
            && e.prompt is None,
{
}

/// After a failed switch the same network is offered again on its next evaluation.
pub proof fn lemma_failed_switch_is_offered_again(
    m: MonitorView,
    c: ConfigView,
    n: NetworkView,
    t1: u64,
    t2: u64,
)
    requires
        c.prompt_mode == PromptMode::OncePerConnection,
        evaluate_spec(m, c, true, n, t1).1 matches Some(e) && e.prompt matches Some(
            PromptView::Switch { .. },
        ),
    ensures
        ({
            let m1 = evaluate_spec(m, c, true, n, t1).0;
            let m2 = MonitorView {
                last_prompted_network_key: None,
                last_prompted_association_count: None,
                ..m1
            };
            &&& evaluate_spec(m2, c, false, n, t2).1 is Some
            &&& evaluate_spec(m2, c, false, n, t2).1.unwrap().prompt
                == evaluate_spec(m, c, true, n, t1).1.unwrap().prompt
        }),
{
}

/// In "once per connection" mode, coming back to a network after another one was seen
/// offers its printer again (when exactly one association applies, and its printer is
/// installed and not the default).
pub proof fn lemma_returning_network_is_offered_again(
    m: MonitorView,
    c: ConfigView,
    n1: NetworkView,
    n2: NetworkView,
    event2: bool,
    t2: u64,
    event1: bool,
    t1: u64,
)
    requires
        m.printers_loaded,
        c.prompt_mode == PromptMode::OncePerConnection,
        network_key(n1) != network_key(n2),
        applicable(c.associations, n1).len() == 1,
        printer_installed(m.printers, applicable(c.associations, n1)[0].printer),
        !printer_is_default(m.printers, applicable(c.associations, n1)[0].printer),
    ensures
        evaluate_spec(evaluate_spec(m, c, event2, n2, t2).0, c, event1, n1, t1).1 matches Some(e)
            && e.show_network
            && e.prompt == Some(PromptView::Switch {
                network: n1,
                printer: applicable(c.associations, n1)[0].printer,
            }),
{
}

/// In "once per connection" mode, a network for which the last prompt was not raised is
/// offered the printer of its single association whenever that printer is installed and not
/// the default, whether or not the network itself changed (so a check right after saving
/// an association offers it).
pub proof fn lemma_unprompted_network_is_offered(
    m: MonitorView,
    c: ConfigView,
    event: bool,
    n: NetworkView,
    now: u64,
)
    requires
        m.printers_loaded,
        c.prompt_mode == PromptMode::OncePerConnection,
        m.last_prompted_network_key != Some(network_key(n)),
        applicable(c.associations, n).len() == 1,
        printer_installed(m.printers, applicable(c.associations, n)[0].printer),
        !printer_is_default(m.printers, applicable(c.associations, n)[0].printer),
    ensures
        evaluate_spec(m, c, event, n, now).1 matches Some(e) && e.prompt == Some(
            PromptView::Switch { network: n, printer: applicable(c.associations, n)[0].printer },
        ),
        evaluate_spec(m, c, event, n, now).0.last_prompted_network_key == Some(network_key(n)),
{
}

/// Whenever an evaluation is due (once per connection: the last prompt concerned another
/// network or another number of associations; every connection: a connection event that
/// does not repeat the recorded one), several associations give the duplicate warning
/// listing their printers, and a single one whose printer is installed and not the default
/// gives the switch to it.
pub proof fn lemma_due_evaluation_prompts(
    m: MonitorView,
    c: ConfigView,
    event: bool,
    n: NetworkView,
    now: u64,
)
    requires
        m.printers_loaded,
        c.prompt_mode == PromptMode::OncePerConnection ==> (m.last_prompted_network_key != Some(
            network_key(n),
        ) || m.last_prompted_association_count != Some(applicable(c.associations, n).len() as usize)),
        c.prompt_mode == PromptMode::EveryConnection ==> event && !repeats_recorded_event(
            m,
            network_key(n),
            now,
        ),
    ensures
        applicable(c.associations, n).len() > 1 ==> (evaluate_spec(m, c, event, n, now).1 matches Some(e)
            && e.prompt == Some(
            PromptView::Duplicate {
                network: n,
                printers: applicable(c.associations, n).map_values(|a: AssociationView| a.printer),
            },
        )),
        applicable(c.associations, n).len() == 1 && printer_installed(
            m.printers,
            applicable(c.associations, n)[0].printer,
        ) && !printer_is_default(m.printers, applicable(c.associations, n)[0].printer) ==> (evaluate_spec(
            m,
            c,
            event,
            n,
            now,
        ).1 matches Some(e) && e.prompt == Some(
            PromptView::Switch { network: n, printer: applicable(c.associations, n)[0].printer },
        )),
{
}

} // verus!

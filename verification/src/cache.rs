use vstd::prelude::*;
use crate::model::{Printer, PrinterView};
use crate::monitor::{elapsed_ms, printers_view};

verus! {

/// How long, in milliseconds, an enumerated printer list is reused.
pub const PRINTER_CACHE_MS: u64 = 2000;

/// The printer list read last and when (in milliseconds), kept briefly so that checks
/// arriving together enumerate printers once.
#[derive(Debug)]
pub struct PrinterCache {
    pub entry: Option<(u64, Vec<Printer>)>,
}

/// The printers a cache holds, with their time.
pub open spec fn cache_view(c: PrinterCache) -> Option<(u64, Seq<PrinterView>)> {
    match c.entry {
        Some((at, ps)) => Some((at, printers_view(ps@))),
        None => None,
    }
}

/// The printers a cache offers at `now`: its list while it is younger than the limit.
pub open spec fn cached_at(c: Option<(u64, Seq<PrinterView>)>, now: u64) -> Option<Seq<PrinterView>> {
    match c {
        Some((at, ps)) => if elapsed_ms(at, now) < PRINTER_CACHE_MS { Some(ps) } else { None },
        None => None,
    }
}

/// A copy of a printer list.
pub fn clone_printers(v: &Vec<Printer>) -> (r: Vec<Printer>)
    ensures
        printers_view(r@) == printers_view(v@),
{
    let mut out: Vec<Printer> = Vec::new();
    let mut i: usize = 0;
    while i < v.len()
        invariant
            i <= v.len(),
            out.len() == i,
            forall|j: int| 0 <= j < i ==> #[trigger] out@[j]@ == v@[j]@,
        decreases v.len() - i,
    {
        out.push(v[i].clone());
        i = i + 1;
    }
    assert(printers_view(out@) =~= printers_view(v@));
    out
}

impl PrinterCache {
    /// An empty cache.
    pub fn new() -> (r: Self)
        ensures
            cache_view(r) is None,
    {
        PrinterCache { entry: None }
    }

    /// The cached printers when they are fresh at `now_ms`.
    pub fn fresh(&self, now_ms: u64) -> (r: Option<Vec<Printer>>)
        ensures
            match r {
                Some(ps) => cached_at(cache_view(*self), now_ms) == Some(printers_view(ps@)),
                None => cached_at(cache_view(*self), now_ms) is None,
            },
    {
        match &self.entry {
            Some((at, printers)) => {
                let elapsed: u64 = if now_ms >= *at { now_ms - *at } else { 0 };
                if elapsed < PRINTER_CACHE_MS {
                    Some(clone_printers(printers))
                } else {
                    None
                }
            },
            None => None,
        }
    }

    /// Keeps `printers`, read at `now_ms`.
    pub fn store(&mut self, now_ms: u64, printers: &Vec<Printer>)
        ensures
            cache_view(*final(self)) == Some((now_ms, printers_view(printers@))),
    {
        self.entry = Some((now_ms, clone_printers(printers)));
    }
}

/// Forgets the cached printers, so that the next enumeration reads them again.
pub fn invalidate_printer_cache(cache: &mut PrinterCache)
    ensures
        cache_view(*final(cache)) is None,
{
    cache.entry = None;
}

/// A stored list is offered unchanged for two seconds and not after; a forgotten one is
/// never offered.
pub proof fn lemma_cache_lifetime(ps: Seq<PrinterView>, at: u64, now: u64)
    ensures
        at <= now < at + PRINTER_CACHE_MS ==> cached_at(Some((at, ps)), now) == Some(ps),
        now >= at + PRINTER_CACHE_MS ==> cached_at(Some((at, ps)), now) is None,
        cached_at(None, now) is None,
{
}

} // verus!

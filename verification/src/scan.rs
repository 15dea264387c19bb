//! One pagination run as a state machine: the run hands out the next page
//! request, and each page (or failure) handed back advances the state. The
//! layer that performs the HTTP fetch and decodes the page drives the loop.

use vstd::prelude::*;
use vstd::string::StringExecFns;
use crate::filter::CriteriaV;
use crate::filter::FilterCriteria;
use crate::filter::keep;
use crate::filter::keep_spec;
use crate::record::RawRecord;
use crate::record::RawRecordV;
use crate::record::RecordV;
use crate::record::ServerRecord;
use crate::record::normalize;
use crate::record::normalized_of;
use crate::record::opt_chars;
use crate::record::required_present;

verus! {

/// One decoded listing page: its records and its continuation link, if any.
pub struct RawPage {
    pub records: Vec<RawRecord>,
    pub next: Option<String>,
}

/// Mathematical model of a decoded page.
#[verifier::ext_equal]
pub struct PageV {
    pub records: Seq<RawRecordV>,
    pub next: Option<Seq<char>>,
}

impl View for RawPage {
    type V = PageV;

    open spec fn view(&self) -> PageV {
        PageV { records: self.records.deep_view(), next: opt_chars(self.next) }
    }
}

/// The continuation link a page carries; an absent or empty link means the
/// listing has no further page.
pub open spec fn next_of(p: PageV) -> Seq<char> {
    match p.next {
        Some(u) => u,
        None => Seq::empty(),
    }
}

/// The records of one page that survive normalization and the filter, in
/// page order; records failing normalization are skipped.
pub open spec fn process_one(c: CriteriaV, raw: RawRecordV) -> Seq<RecordV> {
    if required_present(raw) {
        if keep_spec(c, normalized_of(raw)) {
            seq![normalized_of(raw)]
        } else {
            Seq::empty()
        }
    } else {
        Seq::empty()
    }
}

/// See [`process_one`]; a whole page, in page order.
pub open spec fn process_records(c: CriteriaV, raws: Seq<RawRecordV>) -> Seq<RecordV>
    decreases raws.len(),
{
    if raws.len() == 0 {
        Seq::empty()
    } else {
        process_records(c, raws.drop_last()) + process_one(c, raws.last())
    }
}

/// Mathematical model of a pagination run.
#[verifier::ext_equal]
pub struct RunV {
    pub criteria: CriteriaV,
    pub servers: Seq<RecordV>,
    pub next_link: Seq<char>,
    pub current_url: Seq<char>,
    pub pages_fetched: u32,
    pub pages_limit: u32,
    pub apply_bounds: bool,
    pub halted: bool,
}

/// The fixed listing endpoint a fresh scan starts from.
pub open spec fn base_url() -> Seq<char> {
    "https://api.battlemetrics.com/servers?filter[game]=squad&filter[status]=online&page[size]=100&sort=-players"@
}

/// The state a run starts in. A fresh scan (empty continuation) starts at
/// the fixed endpoint, applies the player-count bounds as query parameters,
/// and may fetch up to three pages; a continuation scan fetches exactly one
/// page from the continuation link verbatim, with no bounds reapplied.
pub open spec fn init_run(c: CriteriaV, continuation: Seq<char>) -> RunV {
    if continuation.len() == 0 {
        RunV {
            criteria: c,
            servers: Seq::empty(),
            next_link: Seq::empty(),
            current_url: base_url(),
            pages_fetched: 0,
            pages_limit: 3,
            apply_bounds: true,
            halted: false,
        }
    } else {
        RunV {
            criteria: c,
            servers: Seq::empty(),
            next_link: Seq::empty(),
            current_url: continuation,
            pages_fetched: 0,
            pages_limit: 1,
            apply_bounds: false,
            halted: false,
        }
    }
}

/// The run still owes a page fetch: it has not halted and its page budget
/// is not spent.
pub open spec fn has_pending(r: RunV) -> bool {
    !r.halted && r.pages_fetched < r.pages_limit
}

/// How one fetched page advances a run: the page's surviving records are
/// appended in order, the continuation link is stored, and a page without
/// a continuation link halts the run.
pub open spec fn step_page(r: RunV, p: PageV) -> RunV {
    RunV {
        servers: r.servers + process_records(r.criteria, p.records),
        next_link: next_of(p),
        current_url: if next_of(p).len() > 0 {
            next_of(p)
        } else {
            r.current_url
        },
        pages_fetched: (r.pages_fetched + 1) as u32,
        halted: next_of(p).len() == 0,
        ..r
    }
}

/// How a page failure advances a run: nothing gathered so far is lost, the
/// continuation link is cleared, and the run halts.
pub open spec fn step_failure(r: RunV) -> RunV {
    RunV { next_link: Seq::empty(), halted: true, ..r }
}

/// A page-level failure. Either kind degrades the run to a partial success;
/// neither is surfaced as an error.
#[derive(Clone, Copy, Debug, PartialEq, Eq, Structural)]
pub enum FetchFailure {
    /// The transport failed: a connection error or a non-success status.
    Transport,
    /// The response body did not decode as a listing page.
    Parse,
}

/// The next page fetch a run asks for.
pub struct PageRequest {
    pub url: String,
    /// Whether the player-count bounds are applied as query parameters;
    /// a continuation link already encodes them.
    pub apply_bounds: bool,
    pub min_players: u32,
    pub max_players: u32,
}

/// The output of one run: the surviving records in arrival order and the
/// continuation token for the next page, empty when the listing is done.
pub struct ScanBatch {
    pub servers: Vec<ServerRecord>,
    pub next_url: String,
}

/// Mathematical model of a batch.
#[verifier::ext_equal]
pub struct BatchV {
    pub servers: Seq<RecordV>,
    pub next_url: Seq<char>,
}

impl View for ScanBatch {
    type V = BatchV;

    open spec fn view(&self) -> BatchV {
        BatchV { servers: self.servers.deep_view(), next_url: self.next_url@ }
    }
}

/// One pagination run in progress.
pub struct ScanRun {
    criteria: FilterCriteria,
    servers: Vec<ServerRecord>,
    next_link: String,
    current_url: String,
    pages_fetched: u32,
    pages_limit: u32,
    apply_bounds: bool,
    halted: bool,
}

impl View for ScanRun {
    type V = RunV;

    closed spec fn view(&self) -> RunV {
        RunV {
            criteria: self.criteria@,
            servers: self.servers.deep_view(),
            next_link: self.next_link@,
            current_url: self.current_url@,
            pages_fetched: self.pages_fetched,
            pages_limit: self.pages_limit,
            apply_bounds: self.apply_bounds,
            halted: self.halted,
        }
    }
}

impl ScanRun {
    /// Start a run from a criteria snapshot and an optional continuation
    /// token (empty token = fresh scan).
    pub fn new(criteria: FilterCriteria, continuation: String) -> (r: Self)
        ensures
            r@ == init_run(criteria@, continuation@),
    {
        let ghost cv = criteria@;
        let ghost tv = continuation@;
        if continuation.as_str().is_empty() {
            let r = ScanRun {
                criteria,
                servers: Vec::new(),
                next_link: String::new(),
                current_url: String::from_str(
                    "https://api.battlemetrics.com/servers?filter[game]=squad&filter[status]=online&page[size]=100&sort=-players",
                ),
                pages_fetched: 0,
                pages_limit: 3,
                apply_bounds: true,
                halted: false,
            };
            proof {
                assert(r@ =~= init_run(cv, tv));
            }
            r
        } else {
            let r = ScanRun {
                criteria,
                servers: Vec::new(),
                next_link: String::new(),
                current_url: continuation,
                pages_fetched: 0,
                pages_limit: 1,
                apply_bounds: false,
                halted: false,
            };
            proof {
                assert(r@ =~= init_run(cv, tv));
            }
            r
        }
    }

    /// The page fetch the run still owes, if any.
    pub fn pending_request(&self) -> (r: Option<PageRequest>)
        ensures
            r is Some <==> has_pending(self@),
            r matches Some(req) ==> {
                &&& req.url@ == self@.current_url
                &&& req.apply_bounds == self@.apply_bounds
                &&& req.min_players == self@.criteria.min_players
                &&& req.max_players == self@.criteria.max_players
            },
    {
        if !self.halted && self.pages_fetched < self.pages_limit {
            Some(
                PageRequest {
                    url: self.current_url.clone(),
                    apply_bounds: self.apply_bounds,
                    min_players: self.criteria.min_players,
                    max_players: self.criteria.max_players,
                },
            )
        } else {
            None
        }
    }

    /// Advance the run by one fetched page.
    pub fn apply_page(&mut self, page: &RawPage)
        requires
            has_pending(old(self)@),
        ensures
            final(self)@ == step_page(old(self)@, page@),
    {
        let ghost orig = *self;
        proof {
            assert(page.records.deep_view().take(0) =~= Seq::<RawRecordV>::empty());
            assert(self.servers.deep_view() =~= orig.servers.deep_view() + process_records(
                orig.criteria@,
                Seq::empty(),
            ));
        }
        let mut i: usize = 0;
        while i < page.records.len()
            invariant
                i <= page.records.len(),
                self.criteria == orig.criteria,
                self.next_link == orig.next_link,
                self.current_url == orig.current_url,
                self.pages_fetched == orig.pages_fetched,
                self.pages_limit == orig.pages_limit,
                self.apply_bounds == orig.apply_bounds,
                self.halted == orig.halted,
                self.servers.deep_view() == orig.servers.deep_view() + process_records(
                    orig.criteria@,
                    page.records.deep_view().take(i as int),
                ),
            decreases page.records.len() - i,
        {
            let ghost sv = self.servers.deep_view();
            let ghost prefix = page.records.deep_view().take(i as int);
            let ghost raw_i = page.records.deep_view()[i as int];
            match normalize(&page.records[i]) {
                Ok(rec) => {
                    if keep(&rec, &self.criteria) {
                        self.servers.push(rec);
                        proof {
                            assert(self.servers.deep_view() =~= sv + seq![rec@]);
                        }
                    }
                },
                Err(_) => {},
            }
            proof {
                assert(raw_i == page.records@[i as int].deep_view());
                assert(page.records.deep_view().take(i + 1) =~= prefix.push(raw_i));
                assert(prefix.push(raw_i).drop_last() =~= prefix);
                assert(prefix.push(raw_i).last() == raw_i);
                assert(self.servers.deep_view() =~= orig.servers.deep_view() + process_records(
                    orig.criteria@,
                    page.records.deep_view().take(i + 1),
                ));
            }
            i += 1;
        }
        proof {
            assert(page.records.deep_view().take(page.records.len() as int) =~= page.records.deep_view());
        }
        let mut has_next = false;
        match &page.next {
            Some(nxt) => {
                if !nxt.as_str().is_empty() {
                    self.next_link = nxt.clone();
                    self.current_url = nxt.clone();
                    has_next = true;
                }
            },
            None => {},
        }
        if !has_next {
            self.next_link = String::new();
            self.halted = true;
        }
        self.pages_fetched = self.pages_fetched + 1;
        proof {
            assert(self@ =~= step_page(orig@, page@));
        }
    }

    /// Record a page-level failure: the run keeps what it has gathered and
    /// halts with no further page.
    pub fn apply_failure(&mut self, _kind: FetchFailure)
        ensures
            final(self)@ == step_failure(old(self)@),
    {
        self.next_link = String::new();
        self.halted = true;
        proof {
            assert(self@ =~= step_failure(old(self)@));
        }
    }

    /// Finish the run: everything gathered, with the continuation token for
    /// the next page (empty = no more pages).
    pub fn into_batch(self) -> (b: ScanBatch)
        ensures
            b@.servers == self@.servers,
            b@.next_url == self@.next_link,
    {
        ScanBatch { servers: self.servers, next_url: self.next_link }
    }
}

/// The state a run reaches after the given pages, applied in order.
pub open spec fn run_after(r: RunV, pages: Seq<PageV>) -> RunV
    decreases pages.len(),
{
    if pages.len() == 0 {
        r
    } else {
        step_page(run_after(r, pages.drop_last()), pages.last())
    }
}

/// Every page of the sequence was fetched while the run still owed one.
pub open spec fn all_steps_enabled(r: RunV, pages: Seq<PageV>) -> bool {
    forall|i: int| 0 <= i < pages.len() ==> has_pending(run_after(r, #[trigger] pages.take(i)))
}

proof fn lemma_run_after_pages(r: RunV, pages: Seq<PageV>)
    requires
        r.pages_fetched + pages.len() <= u32::MAX,
    ensures
        run_after(r, pages).pages_fetched == r.pages_fetched + pages.len(),
        run_after(r, pages).pages_limit == r.pages_limit,
    decreases pages.len(),
{
    if pages.len() > 0 {
        lemma_run_after_pages(r, pages.drop_last());
    }
}

/// Page budget of a run: however the listing answers, a fresh run fetches
/// at most three pages, and a continuation run fetches at most one page,
/// whatever that page's own continuation link says. A run that has just
/// started always owes its first page.
pub proof fn lemma_page_budget(c: CriteriaV, continuation: Seq<char>, pages: Seq<PageV>)
    requires
        all_steps_enabled(init_run(c, continuation), pages),
    ensures
        has_pending(init_run(c, continuation)),
        continuation.len() == 0 ==> pages.len() <= 3,
        continuation.len() > 0 ==> pages.len() <= 1,
{
    let r0 = init_run(c, continuation);
    if pages.len() > r0.pages_limit {
        let l = r0.pages_limit as int;
        lemma_run_after_pages(r0, pages.take(l));
        assert(has_pending(run_after(r0, pages.take(l))));
        assert(false);
    }
}

/// A run stops at the first page without a continuation link: no page is
/// fetched after one whose link is absent or empty.
pub proof fn lemma_stops_at_empty_continuation(r: RunV, pages: Seq<PageV>, i: int)
    requires
        all_steps_enabled(r, pages),
        0 <= i < pages.len(),
        next_of(pages[i]).len() == 0,
    ensures
        pages.len() == i + 1,
{
    if pages.len() > i + 1 {
        assert(has_pending(run_after(r, pages.take(i + 1))));
        assert(pages.take(i + 1).drop_last() =~= pages.take(i));
        assert(pages.take(i + 1).last() == pages[i]);
        assert(run_after(r, pages.take(i + 1)) == step_page(run_after(r, pages.take(i)), pages[i]));
        assert(false);
    }
}

} // verus!

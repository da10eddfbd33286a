//! The shared state of a crawl: the frontier, the dedup cache, the table of
//! workers and the global flag, with the workers' lifecycle.
//!
//! Every function here is one atomic access to the state. A caller that
//! shares the state among threads holds its lock for one call at a time.

use crate::cache::distinct_keys;
use crate::cache::has_key;
use crate::cache::stored;
use crate::cache::touched;
use crate::cache::DedupCache;
use crate::text::texts;
use std::collections::VecDeque;
use vstd::prelude::*;

verus! {

/// The settings of a crawl.
#[derive(Debug, Clone)]
pub struct Cfg {
    /// Where the documents are stored.
    pub db_url: String,
    /// What the crawler calls itself in its requests.
    pub user_agent: String,
    /// The number of entries that the dedup cache holds at most.
    pub lru_cache_capacity: usize,
    /// The seconds that a worker rests between two visits.
    pub http_reqs_timeout_for_thread: u16,
}

/// One worker's record.
#[derive(Debug, Clone, Copy, PartialEq, Eq, Structural)]
pub struct WorkerStatus {
    /// The worker's identity: its place in the table.
    pub id: usize,
    /// Whether the worker is in the middle of a visit.
    pub busy: bool,
}

/// The state of a crawl in contracts.
pub struct CrawlerView {
    /// The global flag: workers go on while it is set.
    pub running: bool,
    /// Whether workers stop by themselves once no work is left.
    pub drains: bool,
    /// The frontier, the next URL to visit first.
    pub frontier: Seq<Seq<char>>,
    /// The dedup cache, the least recently used entry first.
    pub cached: Seq<(Seq<char>, bool)>,
    /// The number of entries that the dedup cache holds at most.
    pub capacity: nat,
    /// The table of workers.
    pub workers: Seq<WorkerStatus>,
    /// What the crawler calls itself.
    pub user_agent: Seq<char>,
    /// Where the documents are stored.
    pub db_url: Seq<char>,
    /// The seconds that a worker rests between two visits.
    pub delay: u16,
}

impl CrawlerView {
    /// The cache is within its capacity and holds no key twice, and each
    /// worker's identity is its place in the table.
    pub open spec fn wf(self) -> bool {
        &&& self.cached.len() <= self.capacity
        &&& distinct_keys(self.cached)
        &&& forall|i: int| 0 <= i < self.workers.len() ==> (#[trigger] self.workers[i]).id == i
    }

    /// The state with `key` recorded in the dedup cache.
    pub open spec fn record(self, key: Seq<char>, outcome: bool) -> CrawlerView {
        CrawlerView { cached: stored(self.cached, self.capacity, key, outcome), ..self }
    }
}

/// What a worker is told to do next.
#[derive(Debug, Clone)]
pub enum Turn {
    /// End: the crawl was stopped, or no work is left and none is under
    /// way.
    Stop,
    /// Run the pipeline of this URL, call `finish_site`, rest, and ask
    /// again.
    Visit(String),
    /// Nothing to visit: rest, and ask again.
    Pause,
    /// Nothing to visit while another worker's visit may still bring work:
    /// ask again at once.
    Recheck,
}

/// A turn in contracts.
pub enum TurnView {
    Stop,
    Visit(Seq<char>),
    Pause,
    Recheck,
}

impl View for Turn {
    type V = TurnView;

    open spec fn view(&self) -> TurnView {
        match self {
            Turn::Stop => TurnView::Stop,
            Turn::Visit(site) => TurnView::Visit(site@),
            Turn::Pause => TurnView::Pause,
            Turn::Recheck => TurnView::Recheck,
        }
    }
}

/// A table of `count` workers, none of them busy.
pub open spec fn idle_workers(count: nat) -> Seq<WorkerStatus> {
    Seq::new(count, |i: int| WorkerStatus { id: i as usize, busy: false })
}

/// Whether some worker is in the middle of a visit.
pub open spec fn any_busy(workers: Seq<WorkerStatus>) -> bool {
    exists|i: int| 0 <= i < workers.len() && (#[trigger] workers[i]).busy
}

/// Where a crawl stands as a whole.
#[derive(Debug, Clone, Copy, PartialEq, Eq, Structural)]
pub enum Phase {
    /// The flag is down and there are no workers: the crawl has not begun.
    NotStarted,
    /// Workers take URLs from the frontier.
    Running,
    /// No URL will be taken as things stand, while visits are still under
    /// way: the crawl was told to stop, or it drains and its frontier is
    /// empty.
    Draining,
    /// No URL will be taken and no visit is under way.
    Stopped,
}

/// The phase of a crawl in the state `state`.
pub open spec fn phase_of(state: CrawlerView) -> Phase {
    if state.running {
        if state.drains && state.frontier.len() == 0 {
            if any_busy(state.workers) {
                Phase::Draining
            } else {
                Phase::Stopped
            }
        } else {
            Phase::Running
        }
    } else if any_busy(state.workers) {
        Phase::Draining
    } else if state.workers.len() == 0 {
        Phase::NotStarted
    } else {
        Phase::Stopped
    }
}

/// The table with the worker `worker` marked, where the table holds it.
pub open spec fn marked(workers: Seq<WorkerStatus>, worker: usize, busy: bool) -> Seq<
    WorkerStatus,
> {
    if worker < workers.len() {
        workers.update(worker as int, WorkerStatus { id: worker, busy })
    } else {
        workers
    }
}

/// The state after `start_threads`: the seeds wait on the frontier behind
/// what waited there, the flag is set, and `count` workers are idle.
pub open spec fn started(state: CrawlerView, sites: Seq<Seq<char>>, count: u16) -> CrawlerView {
    CrawlerView {
        running: true,
        frontier: state.frontier + sites,
        workers: idle_workers(count as nat),
        ..state
    }
}

/// What `start_single` tells the worker `worker`, and the state after it.
/// A worker ends when the flag is down. Else it takes the next URL and is
/// marked busy. With nothing to take it rests; in a crawl that drains, it
/// ends once no worker is busy, and asks again at once while one is: that
/// visit may still bring work.
pub open spec fn turn_of(state: CrawlerView, worker: usize) -> (CrawlerView, TurnView) {
    if !state.running || worker >= state.workers.len() {
        (state, TurnView::Stop)
    } else if state.frontier.len() > 0 {
        (
            CrawlerView {
                frontier: state.frontier.drop_first(),
                workers: marked(state.workers, worker, true),
                ..state
            },
            TurnView::Visit(state.frontier[0]),
        )
    } else if !state.drains {
        (state, TurnView::Pause)
    } else if any_busy(state.workers) {
        (state, TurnView::Recheck)
    } else {
        (state, TurnView::Stop)
    }
}

/// The shared state of a crawl: the frontier, the dedup cache, the table of
/// workers and the global flag.
pub struct Crawler {
    work: bool,
    drain: bool,
    sites_queue: VecDeque<String>,
    cache: DedupCache,
    statuses: Vec<WorkerStatus>,
    cfg: Cfg,
}

impl View for Crawler {
    type V = CrawlerView;

    closed spec fn view(&self) -> CrawlerView {
        CrawlerView {
            running: self.work,
            drains: self.drain,
            frontier: texts(self.sites_queue@),
            cached: self.cache.entries(),
            capacity: self.cache.capacity(),
            workers: self.statuses@,
            user_agent: self.cfg.user_agent@,
            db_url: self.cfg.db_url@,
            delay: self.cfg.http_reqs_timeout_for_thread,
        }
    }
}

impl Crawler {
    /// A crawl that has not started: nothing to visit, nothing visited, no
    /// workers. Its workers will go on until they are told to stop.
    pub fn new(cfg: Cfg) -> (crawler: Self)
        ensures
            crawler@ == (CrawlerView {
                running: false,
                drains: false,
                frontier: Seq::empty(),
                cached: Seq::empty(),
                capacity: cfg.lru_cache_capacity as nat,
                workers: Seq::empty(),
                user_agent: cfg.user_agent@,
                db_url: cfg.db_url@,
                delay: cfg.http_reqs_timeout_for_thread,
            }),
            crawler@.wf(),
    {
        let crawler = Crawler {
            work: false,
            drain: false,
            sites_queue: VecDeque::new(),
            cache: DedupCache::new(cfg.lru_cache_capacity),
            statuses: Vec::new(),
            cfg,
        };
        assert(crawler@.frontier =~= Seq::empty());
        crawler
    }

    /// Takes the next URL from the frontier, where there is one.
    pub fn pop_sites(&mut self) -> (site: Option<String>)
        ensures
            match site {
                Some(text) => old(self)@.frontier.len() > 0 && text@ == old(self)@.frontier[0]
                    && final(self)@ == (CrawlerView {
                    frontier: old(self)@.frontier.drop_first(),
                    ..old(self)@
                }),
                None => old(self)@.frontier.len() == 0 && final(self)@ == old(self)@,
            },
    {
        let site = self.sites_queue.pop_front();
        proof {
            if site.is_some() {
                assert(final(self)@.frontier =~= old(self)@.frontier.drop_first());
            }
        }
        site
    }

    /// Puts a URL at the end of the frontier. The frontier is not searched
    /// for it first: a URL may wait there more than once.
    pub fn push_sites(&mut self, value: String)
        ensures
            final(self)@ == (CrawlerView {
                frontier: old(self)@.frontier.push(value@),
                ..old(self)@
            }),
    {
        self.sites_queue.push_back(value);
        assert(self@.frontier =~= old(self)@.frontier.push(value@));
    }

    /// Whether the dedup cache holds `key`, with either outcome. Finding it
    /// counts as a use of the entry.
    pub fn is_cache_contains(&mut self, key: &str) -> (found: bool)
        ensures
            found == has_key(old(self)@.cached, key@),
            final(self)@ == (CrawlerView {
                cached: touched(old(self)@.cached, key@),
                ..old(self)@
            }),
            old(self)@.wf() ==> final(self)@.wf(),
    {
        self.cache.contains(key)
    }

    /// Records `value` for `key` in the dedup cache.
    pub fn put_cache(&mut self, key: String, value: bool)
        ensures
            final(self)@ == old(self)@.record(key@, value),
            old(self)@.wf() ==> final(self)@.wf(),
    {
        self.cache.put(key, value);
        assert(self@.workers == old(self)@.workers);
    }

    /// Starts the crawl: puts the seeds on the frontier in their order,
    /// sets the global flag, and lays out the table for `threads_count`
    /// workers, all idle. The caller then runs that many workers, each
    /// asking `start_single` for its turns, and waits for all of them.
    pub fn start_threads(&mut self, sites: Vec<String>, threads_count: u16)
        ensures
            final(self)@ == started(old(self)@, texts(sites@), threads_count),
            old(self)@.wf() ==> final(self)@.wf(),
    {
        let ghost start = self@;
        self.work = true;
        let mut i: usize = 0;
        while i < sites.len()
            invariant
                i <= sites.len(),
                self@ == (CrawlerView {
                    running: true,
                    frontier: start.frontier + texts(sites@).subrange(0, i as int),
                    ..start
                }),
            decreases sites.len() - i,
        {
            let site = sites[i].clone();
            self.push_sites(site);
            assert(self@.frontier =~= start.frontier + texts(sites@).subrange(0, i + 1));
            i += 1;
        }
        assert(texts(sites@).subrange(0, i as int) == texts(sites@));
        let mut table: Vec<WorkerStatus> = Vec::new();
        let mut id: usize = 0;
        while id < threads_count as usize
            invariant
                id <= threads_count,
                table@ == idle_workers(id as nat),
            decreases threads_count - id,
        {
            table.push(WorkerStatus { id, busy: false });
            id += 1;
        }
        self.statuses = table;
    }

    /// Whether some worker is in the middle of a visit.
    pub fn is_any_busy(&self) -> (busy: bool)
        ensures
            busy == any_busy(self@.workers),
    {
        let mut i: usize = 0;
        while i < self.statuses.len()
            invariant
                i <= self.statuses.len(),
                forall|k: int| 0 <= k < i ==> !(#[trigger] self.statuses@[k]).busy,
            decreases self.statuses.len() - i,
        {
            if self.statuses[i].busy {
                return true;
            }
            i += 1;
        }
        false
    }

    /// One turn of the worker `worker`: what it is to do next. A worker
    /// that the table does not hold is told to end.
    pub fn start_single(&mut self, worker: usize) -> (turn: Turn)
        ensures
            (final(self)@, turn@) == turn_of(old(self)@, worker),
            old(self)@.wf() ==> final(self)@.wf(),
    {
        if !self.work || worker >= self.statuses.len() {
            return Turn::Stop;
        }
        match self.pop_sites() {
            Some(site) => {
                self.statuses.set(worker, WorkerStatus { id: worker, busy: true });
                Turn::Visit(site)
            },
            None => {
                if !self.drain {
                    Turn::Pause
                } else if self.is_any_busy() {
                    Turn::Recheck
                } else {
                    Turn::Stop
                }
            },
        }
    }

    /// Marks the worker `worker` idle again, after its visit.
    pub fn finish_site(&mut self, worker: usize)
        ensures
            final(self)@ == (CrawlerView {
                workers: marked(old(self)@.workers, worker, false),
                ..old(self)@
            }),
            old(self)@.wf() ==> final(self)@.wf(),
    {
        if worker < self.statuses.len() {
            self.statuses.set(worker, WorkerStatus { id: worker, busy: false });
        }
    }

    /// Takes the global flag down: each worker ends at its next turn.
    pub fn stop(&mut self)
        ensures
            final(self)@ == (CrawlerView { running: false, ..old(self)@ }),
    {
        self.work = false;
    }

    /// Chooses how the crawl ends: with `drains`, the workers end by
    /// themselves once the frontier is empty and no visit is under way;
    /// without it, they go on until `stop`.
    pub fn stop_when_drained(&mut self, drains: bool)
        ensures
            final(self)@ == (CrawlerView { drains, ..old(self)@ }),
    {
        self.drain = drains;
    }

    /// Where the crawl stands as a whole.
    pub fn phase(&self) -> (phase: Phase)
        ensures
            phase == phase_of(self@),
    {
        let busy = self.is_any_busy();
        if self.work {
            if self.drain && self.sites_queue.len() == 0 {
                if busy {
                    Phase::Draining
                } else {
                    Phase::Stopped
                }
            } else {
                Phase::Running
            }
        } else if busy {
            Phase::Draining
        } else if self.statuses.len() == 0 {
            Phase::NotStarted
        } else {
            Phase::Stopped
        }
    }

    /// Whether the global flag is set.
    pub fn is_running(&self) -> (running: bool)
        ensures
            running == self@.running,
    {
        self.work
    }

    /// What the crawler calls itself in its requests.
    pub fn user_agent(&self) -> (agent: &str)
        ensures
            agent@ == self@.user_agent,
    {
        self.cfg.user_agent.as_str()
    }

    /// Where the documents are stored.
    pub fn db_url(&self) -> (address: &str)
        ensures
            address@ == self@.db_url,
    {
        self.cfg.db_url.as_str()
    }

    /// The seconds that a worker rests between two visits.
    pub fn delay_secs(&self) -> (seconds: u16)
        ensures
            seconds == self@.delay,
    {
        self.cfg.http_reqs_timeout_for_thread
    }

    /// The number of entries in the dedup cache.
    pub fn cached_count(&self) -> (count: usize)
        ensures
            count == self@.cached.len(),
    {
        self.cache.len()
    }

    /// The number of URLs that wait on the frontier.
    pub fn pending(&self) -> (count: usize)
        ensures
            count == self@.frontier.len(),
    {
        self.sites_queue.len()
    }
}

/// While the flag is set, a worker of the table is told to end only at
/// quiescence: in a crawl that drains, with the frontier empty and no
/// worker busy. The state is then left as it was.
pub proof fn lemma_stop_at_quiescence(state: CrawlerView, worker: usize)
    requires
        state.running,
        worker < state.workers.len(),
        turn_of(state, worker).1 == TurnView::Stop,
    ensures
        state.drains,
        state.frontier.len() == 0,
        !any_busy(state.workers),
        turn_of(state, worker).0 == state,
{
}

/// A worker of the table is told to end exactly when the flag is down or
/// the crawl has stopped.
pub proof fn lemma_stop_by_phase(state: CrawlerView, worker: usize)
    requires
        worker < state.workers.len(),
    ensures
        turn_of(state, worker).1 == TurnView::Stop <==> !state.running || phase_of(state)
            == Phase::Stopped,
{
}

/// While a visit is under way, no worker of a running crawl is told to
/// end: that visit may still bring work.
pub proof fn lemma_no_stop_during_visit(state: CrawlerView, worker: usize)
    requires
        state.running,
        worker < state.workers.len(),
        any_busy(state.workers),
    ensures
        turn_of(state, worker).1 != TurnView::Stop,
{
}

} // verus!

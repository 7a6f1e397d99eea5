//! The registry of the live isolates, and the supervisor's look at it.

use vstd::prelude::*;
use crate::manager::{fresh_identifier, IDENTIFIER_LENGTH};
use crate::runtime::{near_heap_limit, heap_limit_after_pressure, ExecutionResourceTable};
use crate::string_map::{has_key, lemma_place_of_entry, place_of, Entry, StringMap};
use crate::time::Instant;

verus! {

/// How often the supervisor looks at the live isolates, in milliseconds.
pub const SUPERVISOR_PERIOD_MS: u64 = 1;

/// The heap that an isolate may use before the engine asks for more.
pub const DEFAULT_SOFT_HEAP_LIMIT: usize = 8_388_608;

/// What all threads of the service share: the record of every live
/// isolate under its identifier, and the size of the worker pool.
pub struct GlobalState {
    runtimes: StringMap<ExecutionResourceTable>,
    max_thread_count: usize,
}

impl GlobalState {
    /// Whether the registry is well formed. Every registry that this
    /// module hands out is, and its methods keep it so.
    pub closed spec fn wf(&self) -> bool {
        self.runtimes.wf()
    }

    /// The record of each live isolate.
    pub closed spec fn runtimes(&self) -> Map<Seq<char>, ExecutionResourceTable> {
        self.runtimes@
    }

    /// The identifiers of the live isolates.
    pub open spec fn live(&self) -> Set<Seq<char>> {
        self.runtimes().dom()
    }

    /// How many entries the registry holds.
    pub closed spec fn size(&self) -> nat {
        self.runtimes.count()
    }

    /// How many worker threads the pool has.
    pub closed spec fn max_threads(&self) -> usize {
        self.max_thread_count
    }

    /// The registry holds one entry for each live isolate, no more and no
    /// fewer.
    pub proof fn lemma_size_is_live_count(&self)
        requires
            self.wf(),
        ensures
            self.live().finite(),
            self.size() == self.live().len(),
    {
        self.runtimes.lemma_count_is_len();
    }

    /// A registry without isolates.
    pub fn new(max_thread_count: usize) -> (state: Self)
        ensures
            state.wf(),
            state.runtimes() == Map::<Seq<char>, ExecutionResourceTable>::empty(),
            state.size() == 0,
            state.max_threads() == max_thread_count,
    {
        GlobalState { runtimes: StringMap::new(), max_thread_count }
    }

    /// How many worker threads the pool has.
    pub fn max_thread_count(&self) -> (n: usize)
        ensures
            n == self.max_threads(),
    {
        self.max_thread_count
    }

    /// How many entries the registry holds.
    pub fn len(&self) -> (n: usize)
        ensures
            n == self.size(),
    {
        self.runtimes.len()
    }

    /// Enters an isolate under `id`. An entry that stood under the same
    /// identifier is replaced.
    pub fn register(&mut self, id: String, table: ExecutionResourceTable)
        requires
            old(self).wf(),
        ensures
            final(self).wf(),
            final(self).runtimes() == old(self).runtimes().insert(id@, table),
            final(self).max_threads() == old(self).max_threads(),
            !old(self).live().contains(id@) ==> final(self).size() == old(self).size() + 1,
            old(self).live().contains(id@) ==> final(self).size() == old(self).size(),
    {
        self.runtimes.insert(id, table);
    }

    /// Takes the isolate under `id` out of the registry and hands its
    /// record back. An identifier that is not registered changes nothing.
    pub fn unregister(&mut self, id: &String) -> (table: Option<ExecutionResourceTable>)
        requires
            old(self).wf(),
        ensures
            final(self).wf(),
            final(self).runtimes() == old(self).runtimes().remove(id@),
            final(self).max_threads() == old(self).max_threads(),
            match table {
                Some(t) => old(self).live().contains(id@) && old(self).runtimes()[id@] == t
                    && final(self).size() + 1 == old(self).size(),
                None => !old(self).live().contains(id@) && final(self).size() == old(self).size(),
            },
    {
        self.runtimes.remove(id)
    }

    /// The record of the isolate under `id`.
    pub fn resource_table(&self, id: &String) -> (table: Option<ExecutionResourceTable>)
        requires
            self.wf(),
        ensures
            match table {
                Some(t) => self.live().contains(id@) && self.runtimes()[id@] == t,
                None => !self.live().contains(id@),
            },
    {
        match self.runtimes.get(id) {
            Some(table) => Some(*table),
            None => None,
        }
    }

    /// Writes the record of the isolate under `id` back. For an isolate
    /// that is no longer registered nothing is written.
    pub fn store_resource_table(&mut self, id: &String, table: ExecutionResourceTable) -> (stored:
        bool)
        requires
            old(self).wf(),
        ensures
            final(self).wf(),
            stored == old(self).live().contains(id@),
            final(self).runtimes() == if stored {
                old(self).runtimes().insert(id@, table)
            } else {
                old(self).runtimes()
            },
            final(self).live() == old(self).live(),
            final(self).size() == old(self).size(),
            final(self).max_threads() == old(self).max_threads(),
    {
        if self.runtimes.contains(id) {
            self.runtimes.insert(id.clone(), table);
            assert(final(self).live() =~= old(self).live());
            true
        } else {
            false
        }
    }

    /// The isolates whose engine has to be terminated at `now`: those that
    /// are inside a wakeup and over their CPU budget.
    pub open spec fn over_budget(&self, now: Instant) -> Set<Seq<char>> {
        Set::new(
            |id: Seq<char>| self.live().contains(id) && self.runtimes()[id].over_cpu_budget(now),
        )
    }
}

/// The supervisor's look at the registry at `now`: the identifiers of
/// the isolates whose engine has to be terminated.
pub fn cpu_time_manager(state: &GlobalState, now: Instant) -> (over: Vec<String>)
    requires
        state.wf(),
    ensures
        texts_of(over@) == state.over_budget(now),
        over@.len() <= state.size(),
{
    let mut over: Vec<String> = Vec::new();
    let mut i: usize = 0;
    let ghost entries = state.runtimes.entries();
    assert(texts_of(over@) =~= over_among(entries, 0, now));
    while i < state.runtimes.len()
        invariant
            state.wf(),
            entries == state.runtimes.entries(),
            i <= entries.len(),
            over@.len() <= i,
            texts_of(over@) == over_among(entries, i as int, now),
        decreases entries.len() - i,
    {
        let entry = state.runtimes.entry_at(i);
        let ghost before = over@;
        let ghost here: int = i as int;
        let ghost next: int = i as int + 1;
        if entry.value.cpu_budget_exceeded(now) {
            let id = entry.key.clone();
            over.push(id);
            proof {
                assert forall|id: Seq<char>|
                    texts_of(over@).contains(id) implies over_among(
                    entries,
                    next,
                    now,
                ).contains(id) by {
                    let k = choose|k: int| 0 <= k < over@.len() && #[trigger] over@[k]@ == id;
                    if k < before.len() {
                        assert(before[k]@ == id);
                        assert(texts_of(before).contains(id));
                        let j = choose|j: int| is_over_at(entries, j, here, id, now);
                        assert(is_over_at(entries, j, next, id, now));
                    } else {
                        assert(is_over_at(entries, here, next, id, now));
                    }
                }
                assert forall|id: Seq<char>|
                    over_among(entries, next, now).contains(id) implies texts_of(
                    over@,
                ).contains(id) by {
                    let j = choose|j: int| is_over_at(entries, j, next, id, now);
                    if j < i {
                        assert(is_over_at(entries, j, here, id, now));
                        assert(texts_of(before).contains(id));
                        let k = choose|k: int|
                            0 <= k < before.len() && #[trigger] before[k]@ == id;
                        assert(over@[k]@ == id);
                    } else {
                        assert(over@[before.len() as int]@ == id);
                    }
                }
                assert(texts_of(over@) =~= over_among(entries, next, now));
            }
        } else {
            proof {
                assert forall|id: Seq<char>|
                    over_among(entries, next, now).contains(id) implies over_among(
                    entries,
                    here,
                    now,
                ).contains(id) by {
                    let j = choose|j: int| is_over_at(entries, j, next, id, now);
                    assert(is_over_at(entries, j, here, id, now));
                }
                assert forall|id: Seq<char>|
                    over_among(entries, here, now).contains(id) implies over_among(
                    entries,
                    next,
                    now,
                ).contains(id) by {
                    let j = choose|j: int| is_over_at(entries, j, here, id, now);
                    assert(is_over_at(entries, j, next, id, now));
                }
                assert(texts_of(over@) =~= over_among(entries, next, now));
            }
        }
        i += 1;
    }
    let ghost all: int = entries.len() as int;
    proof {
        assert forall|id: Seq<char>|
            over_among(entries, all, now).contains(id)
            implies state.over_budget(now).contains(id) by {
            let j = choose|j: int| is_over_at(entries, j, all, id, now);
            lemma_place_of_entry(entries, j);
        }
        assert forall|id: Seq<char>|
            state.over_budget(now).contains(id) implies over_among(
            entries,
            all,
            now,
        ).contains(id) by {
            let j = place_of(entries, id);
            assert(has_key(entries, id));
            assert(is_over_at(entries, j, all, id, now));
        }
        assert(texts_of(over@) =~= state.over_budget(now));
    }
    over
}

/// The texts that occur among `ids`.
pub open spec fn texts_of(ids: Seq<String>) -> Set<Seq<char>> {
    Set::new(|id: Seq<char>| exists|k: int| 0 <= k < ids.len() && #[trigger] ids[k]@ == id)
}

/// Whether the entry at place `j`, before place `upto`, stands under `id`
/// and is over its CPU budget at `now`.
pub open spec fn is_over_at(
    entries: Seq<Entry<ExecutionResourceTable>>,
    j: int,
    upto: int,
    id: Seq<char>,
    now: Instant,
) -> bool {
    0 <= j < upto && j < entries.len() && entries[j].key@ == id
        && entries[j].value.over_cpu_budget(now)
}

/// The identifiers among the first `upto` entries that are over their CPU
/// budget at `now`.
pub open spec fn over_among(
    entries: Seq<Entry<ExecutionResourceTable>>,
    upto: int,
    now: Instant,
) -> Set<Seq<char>> {
    Set::new(|id: Seq<char>| exists|j: int| is_over_at(entries, j, upto, id, now))
}

/// The part of an engine wrapper that needs no engine: the identifier
/// under which the isolate is registered, and its heap limits.
#[derive(Debug)]
pub struct WrappedRuntime {
    pub id: String,
    pub soft_heap_limit: usize,
    pub hard_heap_limit: Option<usize>,
}

impl WrappedRuntime {
    /// Makes the wrapper of a new isolate and registers it under a newly
    /// minted identifier, with a fresh record, the default soft heap limit
    /// and no hard limit.
    pub fn new(global_state: &mut GlobalState) -> (runtime: Self)
        requires
            old(global_state).wf(),
        ensures
            final(global_state).wf(),
            runtime.id@.len() == IDENTIFIER_LENGTH,
            runtime.soft_heap_limit == DEFAULT_SOFT_HEAP_LIMIT,
            runtime.hard_heap_limit is None,
            final(global_state).runtimes() == old(global_state).runtimes().insert(
                runtime.id@,
                ExecutionResourceTable::empty(),
            ),
            final(global_state).max_threads() == old(global_state).max_threads(),
            !old(global_state).live().contains(runtime.id@)
                ==> final(global_state).size() == old(global_state).size() + 1,
    {
        let id = fresh_identifier();
        global_state.register(id.clone(), ExecutionResourceTable::new());
        WrappedRuntime { id, soft_heap_limit: DEFAULT_SOFT_HEAP_LIMIT, hard_heap_limit: None }
    }

    /// The record of this isolate, as long as it is registered.
    pub fn resource_table(&self, global_state: &GlobalState) -> (table: Option<
        ExecutionResourceTable,
    >)
        requires
            global_state.wf(),
        ensures
            match table {
                Some(t) => global_state.live().contains(self.id@) && global_state.runtimes()[self.id@]
                    == t,
                None => !global_state.live().contains(self.id@),
            },
    {
        global_state.resource_table(&self.id)
    }

    /// Answers the engine's near-heap-limit callback for this isolate; see
    /// [`near_heap_limit`].
    pub fn near_heap_limit(&self, current: usize, initial: usize) -> (new_limit: usize)
        requires
            heap_limit_after_pressure(current, initial, self.hard_heap_limit) <= usize::MAX,
        ensures
            new_limit == heap_limit_after_pressure(current, initial, self.hard_heap_limit),
    {
        near_heap_limit(current, initial, self.hard_heap_limit)
    }

    /// Takes the isolate out of the registry. This is the last thing that
    /// happens to a wrapper, however its session ended.
    pub fn unregister_globally(&self, global_state: &mut GlobalState)
        requires
            old(global_state).wf(),
        ensures
            final(global_state).wf(),
            final(global_state).runtimes() == old(global_state).runtimes().remove(self.id@),
            final(global_state).max_threads() == old(global_state).max_threads(),
            old(global_state).live().contains(self.id@)
                ==> final(global_state).size() + 1 == old(global_state).size(),
    {
        let _ = global_state.unregister(&self.id);
    }
}

} // verus!

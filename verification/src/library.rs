//! The library aggregate: an ordered list of candidate library names, a
//! one-shot memoized slot, and the symbol-resolution entry point that lazy
//! cells use.
//!
//! Construction is pure.  Forcing is driven from outside as a state machine:
//! [`Library::pending_open`] names the next candidate to hand to the platform
//! loader, and [`Library::open_succeeded`] / [`Library::open_failed`] feed the
//! loader's answer back in.  The machine memoizes the first candidate that
//! opens, classifies exhaustion as `LibraryNotFound` (one candidate) or
//! `ListNotFound` (several), and is terminal once decided.

use vstd::prelude::*;

use crate::error::DylinkError;
use crate::error::ErrorValue;
use crate::first_nonzero;
use crate::lemma_first_nonzero_at;
use crate::lemma_first_nonzero_none;
use crate::FnAddr;

verus! {

/// The one-shot slot of an aggregate: untouched, opened, or failed for good.
pub enum LibraryState {
    /// No candidate has opened yet; forcing is still in progress or unstarted.
    Unloaded,
    /// A candidate opened; carries the platform handle and the candidate's
    /// position in the list.
    Loaded { handle: usize, candidate: usize },
    /// Every candidate failed to open.
    Failed { error: DylinkError },
}

/// The mathematical value of a [`LibraryState`].
pub ghost enum StateModel {
    Unloaded,
    Loaded { handle: usize, candidate: int },
    Failed { error: ErrorValue },
}

impl View for LibraryState {
    type V = StateModel;

    open spec fn view(&self) -> StateModel {
        match self {
            LibraryState::Unloaded => StateModel::Unloaded,
            LibraryState::Loaded { handle, candidate } => StateModel::Loaded {
                handle: *handle,
                candidate: *candidate as int,
            },
            LibraryState::Failed { error } => StateModel::Failed { error: error@ },
        }
    }
}

/// The mathematical value of a [`Library`]: the candidate list, the slot, and
/// how many candidates have been tried in the current forcing cycle.
pub ghost struct LibraryModel {
    pub names: Seq<String>,
    pub state: StateModel,
    pub tried: int,
}

/// The error an aggregate memoizes when every candidate failed to open:
/// the single candidate's name, or the whole list.
pub open spec fn exhausted_error(names: Seq<String>) -> ErrorValue {
    if names.len() == 1 {
        ErrorValue::LibraryNotFound { name: names[0] }
    } else {
        ErrorValue::ListNotFound { names }
    }
}

impl LibraryModel {
    /// Well-formedness: at least one candidate; the tried count points into
    /// the list while undecided; a memoized handle is non-null; a memoized
    /// failure is exactly the exhaustion error of the list.
    pub open spec fn wf(self) -> bool {
        &&& self.names.len() >= 1
        &&& match self.state {
            StateModel::Unloaded => 0 <= self.tried < self.names.len(),
            StateModel::Loaded { handle, candidate } => handle != 0 && 0 <= candidate
                < self.names.len(),
            StateModel::Failed { error } => error == exhausted_error(self.names) && self.tried
                == self.names.len(),
        }
    }

    /// The aggregate after an explicit close: the slot is uninitialized again
    /// and the next forcing cycle starts from the first candidate.
    pub open spec fn close_step(self) -> LibraryModel {
        LibraryModel { names: self.names, state: StateModel::Unloaded, tried: 0 }
    }

    /// The aggregate after the platform loader opened the pending candidate.
    pub open spec fn load_step(self, handle: usize) -> LibraryModel {
        LibraryModel {
            state: StateModel::Loaded { handle, candidate: self.tried },
            ..self
        }
    }

    /// The aggregate after the platform loader failed to open the pending
    /// candidate: advance to the next one, or memoize exhaustion.
    pub open spec fn fail_step(self) -> LibraryModel {
        if self.tried + 1 < self.names.len() {
            LibraryModel { tried: self.tried + 1, ..self }
        } else {
            LibraryModel {
                state: StateModel::Failed { error: exhausted_error(self.names) },
                tried: self.names.len() as int,
                ..self
            }
        }
    }
}

/// The aggregate after a whole forcing run: `outcomes[k]` is the handle the
/// platform loader would return for the `k`-th candidate it is asked to open
/// (`0` for a failed open).  The run stops at the first success, at
/// exhaustion, or when the slot was already decided.
pub open spec fn run_force(m: LibraryModel, outcomes: Seq<usize>) -> LibraryModel
    decreases outcomes.len(),
{
    if !(m.state is Unloaded) || outcomes.len() == 0 {
        m
    } else if outcomes[0] != 0 {
        m.load_step(outcomes[0])
    } else {
        run_force(m.fail_step(), outcomes.drop_first())
    }
}

/// The candidate positions that a forcing run hands to the platform loader,
/// in order.
pub open spec fn force_requests(m: LibraryModel, outcomes: Seq<usize>) -> Seq<int>
    decreases outcomes.len(),
{
    if !(m.state is Unloaded) || outcomes.len() == 0 {
        Seq::empty()
    } else if outcomes[0] != 0 {
        seq![m.tried]
    } else {
        seq![m.tried] + force_requests(m.fail_step(), outcomes.drop_first())
    }
}

/// An ordered list of candidate library names with a one-shot memoized slot.
pub struct Library {
    /// The candidate names, tried strictly in order; never empty.
    pub names: Vec<String>,
    /// The one-shot slot.
    pub slot: LibraryState,
    /// Candidates tried so far in the current forcing cycle.
    pub tried: usize,
}

impl View for Library {
    type V = LibraryModel;

    open spec fn view(&self) -> LibraryModel {
        LibraryModel { names: self.names@, state: self.slot@, tried: self.tried as int }
    }
}

impl Library {
    /// Constructs the aggregate from its ordered candidate list.  Pure: no
    /// open is attempted and no platform call is made.
    pub fn new(names: Vec<String>) -> (r: Library)
        requires
            names@.len() >= 1,
        ensures
            r@ == (LibraryModel { names: names@, state: StateModel::Unloaded, tried: 0 }),
            r@.wf(),
    {
        Library { names, slot: LibraryState::Unloaded, tried: 0 }
    }

    /// The position of the candidate the platform loader should open next,
    /// or `None` once the slot is decided: a decided aggregate never asks
    /// for another open.
    pub fn pending_open(&self) -> (r: Option<usize>)
        ensures
            match self@.state {
                StateModel::Unloaded => r matches Some(i) && i as int == self@.tried,
                _ => r is None,
            },
    {
        match self.slot {
            LibraryState::Unloaded => Some(self.tried),
            _ => None,
        }
    }

    /// The candidate name at a position.
    pub fn candidate_name(&self, i: usize) -> (r: &String)
        requires
            i < self@.names.len(),
        ensures
            *r == self@.names[i as int],
    {
        &self.names[i]
    }

    /// Records that the platform loader opened the pending candidate with a
    /// (non-null) handle; the slot memoizes it and no later candidate is
    /// ever tried.
    pub fn open_succeeded(&mut self, handle: usize)
        requires
            old(self)@.wf(),
            old(self)@.state is Unloaded,
            handle != 0,
        ensures
            final(self)@ == old(self)@.load_step(handle),
            final(self)@.wf(),
    {
        self.slot = LibraryState::Loaded { handle, candidate: self.tried };
    }

    /// Records that the platform loader failed to open the pending candidate:
    /// the next candidate becomes pending, or — when the list is exhausted —
    /// the slot memoizes `LibraryNotFound` (one candidate) or `ListNotFound`
    /// (several).
    pub fn open_failed(&mut self)
        requires
            old(self)@.wf(),
            old(self)@.state is Unloaded,
        ensures
            final(self)@ == old(self)@.fail_step(),
            final(self)@.wf(),
    {
        let n = self.names.len();
        if self.tried < n - 1 {
            self.tried = self.tried + 1;
        } else {
            let error = if self.names.len() == 1 {
                DylinkError::LibraryNotFound { name: self.names[0].clone() }
            } else {
                DylinkError::ListNotFound { names: crate::error::clone_names(&self.names) }
            };
            self.slot = LibraryState::Failed { error };
            self.tried = self.names.len();
        }
    }

    /// The memoized handle, if the aggregate has opened.
    pub fn handle(&self) -> (r: Option<usize>)
        ensures
            match self@.state {
                StateModel::Loaded { handle, .. } => r == Some(handle),
                _ => r is None,
            },
    {
        match self.slot {
            LibraryState::Loaded { handle, .. } => Some(handle),
            _ => None,
        }
    }

    /// The memoized failure, if the aggregate has failed, by value.
    pub fn failure(&self) -> (r: Option<DylinkError>)
        ensures
            match self@.state {
                StateModel::Failed { error } => r matches Some(e) && e@ == error,
                _ => r is None,
            },
    {
        match &self.slot {
            LibraryState::Failed { error } => Some(error.dup()),
            _ => None,
        }
    }

    /// Classifies the platform loader's answer for a symbol lookup in the
    /// opened library: a non-null address resolves; a null address is
    /// `SymbolNotFound` for that symbol — never a library-open failure, and
    /// no further candidate is tried.
    pub fn symbol_outcome(&self, symbol: &String, addr: usize) -> (r: Result<
        usize,
        DylinkError,
    >)
        requires
            self@.wf(),
            self@.state is Loaded,
        ensures
            addr != 0 ==> r == Ok::<usize, DylinkError>(addr),
            addr == 0 ==> (r matches Err(e) && e@ == (ErrorValue::SymbolNotFound {
                symbol: *symbol,
            })),
    {
        if addr != 0 {
            Ok(addr)
        } else {
            Err(DylinkError::SymbolNotFound { symbol: symbol.clone() })
        }
    }
}

/// One whole resolution through an aggregate, given the platform's answers:
/// forces the candidate list in order — the first candidate that opens is
/// memoized, exhaustion is classified by the list's length — and then
/// classifies the one symbol lookup in the opened library.  `open_answers[k]`
/// is the handle the platform loader returns for candidate `k` (`0` for a
/// failed open); `symbol_answer` is the address the lookup returns in the
/// opened library (`0` for a missing symbol).
pub fn force_and_resolve(
    names: Vec<String>,
    open_answers: &Vec<FnAddr>,
    symbol: &String,
    symbol_answer: FnAddr,
) -> (r: Result<FnAddr, DylinkError>)
    requires
        names@.len() >= 1,
        open_answers@.len() == names@.len(),
    ensures
        match first_nonzero(open_answers@) {
            Some(_) => {
                &&& symbol_answer != 0 ==> r == Ok::<usize, DylinkError>(symbol_answer)
                &&& symbol_answer == 0 ==> (r matches Err(e) && e@ == (ErrorValue::SymbolNotFound {
                    symbol: *symbol,
                }))
            },
            None => r matches Err(e) && e@ == exhausted_error(names@),
        },
{
    let ghost names_view = names@;
    let mut lib = Library::new(names);
    let n = open_answers.len();
    let mut i: usize = 0;
    while i < n
        invariant
            i <= n,
            n == open_answers@.len(),
            n == names_view.len(),
            lib@.wf(),
            lib@.names == names_view,
            match lib@.state {
                StateModel::Unloaded => lib@.tried == i && forall|k: int|
                    0 <= k < i ==> open_answers@[k] == 0,
                StateModel::Loaded { handle, candidate } => handle == open_answers@[candidate]
                    && (forall|k: int| 0 <= k < candidate ==> open_answers@[k] == 0),
                StateModel::Failed { .. } => i == n && forall|k: int|
                    0 <= k < n ==> open_answers@[k] == 0,
            },
        decreases n - i,
    {
        match lib.pending_open() {
            Some(_) => {
                let answer = open_answers[i];
                if answer != 0 {
                    lib.open_succeeded(answer);
                } else {
                    lib.open_failed();
                }
            },
            None => {},
        }
        i = i + 1;
    }
    match lib.handle() {
        Some(_) => {
            proof {
                match lib@.state {
                    StateModel::Loaded { handle, candidate } => {
                        lemma_first_nonzero_at(open_answers@, candidate);
                    },
                    _ => {},
                }
            }
            lib.symbol_outcome(symbol, symbol_answer)
        },
        None => {
            proof {
                lemma_first_nonzero_none(open_answers@);
            }
            Err(lib.failure().unwrap())
        },
    }
}

/// A forcing step preserves well-formedness and never touches the candidate
/// list.
pub proof fn lemma_force_preserves(m: LibraryModel, outcomes: Seq<usize>)
    requires
        m.wf(),
    ensures
        run_force(m, outcomes).wf(),
        run_force(m, outcomes).names == m.names,
    decreases outcomes.len(),
{
    if m.state is Unloaded && outcomes.len() > 0 && outcomes[0] == 0 {
        lemma_force_preserves(m.fail_step(), outcomes.drop_first());
    }
}

/// `open` is invoked on each candidate at most once between construction and
/// a close: the candidate positions a forcing run asks for are strictly
/// increasing, so no position repeats, and each lies inside the list.
pub proof fn lemma_open_each_candidate_once(m: LibraryModel, outcomes: Seq<usize>)
    requires
        m.wf(),
    ensures
        forall|i: int, j: int|
            0 <= i < j < force_requests(m, outcomes).len() ==> force_requests(m, outcomes)[i]
                < force_requests(m, outcomes)[j],
        forall|i: int|
            0 <= i < force_requests(m, outcomes).len() ==> m.tried <= #[trigger] force_requests(
                m,
                outcomes,
            )[i] < m.names.len(),
    decreases outcomes.len(),
{
    if m.state is Unloaded && outcomes.len() > 0 && outcomes[0] == 0 {
        let rest = force_requests(m.fail_step(), outcomes.drop_first());
        lemma_open_each_candidate_once(m.fail_step(), outcomes.drop_first());
        assert(force_requests(m, outcomes) == seq![m.tried] + rest);
        assert forall|i: int, j: int|
            0 <= i < j < force_requests(m, outcomes).len() implies force_requests(m, outcomes)[i]
            < force_requests(m, outcomes)[j] by {
            if i == 0 {
                assert(force_requests(m, outcomes)[j] == rest[j - 1]);
            } else {
                assert(force_requests(m, outcomes)[i] == rest[i - 1]);
                assert(force_requests(m, outcomes)[j] == rest[j - 1]);
            }
        }
    }
}

/// A decided aggregate is stable: forcing it again changes nothing and asks
/// the platform loader for nothing.
pub proof fn lemma_force_terminal_stable(m: LibraryModel, outcomes: Seq<usize>)
    requires
        !(m.state is Unloaded),
    ensures
        run_force(m, outcomes) == m,
        force_requests(m, outcomes) == Seq::<int>::empty(),
{
}

/// Given an answer for every remaining candidate, a forcing run decides the
/// slot.
pub proof fn lemma_force_completes(m: LibraryModel, outcomes: Seq<usize>)
    requires
        m.wf(),
        outcomes.len() >= m.names.len() - m.tried,
    ensures
        !(run_force(m, outcomes).state is Unloaded),
    decreases outcomes.len(),
{
    if m.state is Unloaded && outcomes.len() > 0 && outcomes[0] == 0 {
        lemma_force_completes(m.fail_step(), outcomes.drop_first());
    }
}

/// Forcing twice is observationally identical to forcing once: after a full
/// first run, a second run — with whatever outcomes — changes nothing.
pub proof fn lemma_force_idempotent(m: LibraryModel, first: Seq<usize>, second: Seq<usize>)
    requires
        m.wf(),
        m.state is Unloaded ==> first.len() >= m.names.len() - m.tried,
    ensures
        run_force(run_force(m, first), second) == run_force(m, first),
{
    if m.state is Unloaded {
        lemma_force_completes(m, first);
    }
    lemma_force_terminal_stable(run_force(m, first), second);
}

/// A closeable library aggregate: the same machine as [`Library`], with an
/// explicit close that hands the memoized handle back for the platform's
/// close call and returns the slot to uninitialized, so that the next forcing
/// cycle re-opens from the first candidate.
///
/// Closing is the caller's responsibility in one respect the machine cannot
/// see: addresses resolved from the handle before the close are not
/// guaranteed valid afterwards.
pub struct CloseableLibrary {
    /// The underlying aggregate.
    pub inner: Library,
}

impl View for CloseableLibrary {
    type V = LibraryModel;

    open spec fn view(&self) -> LibraryModel {
        self.inner@
    }
}

impl CloseableLibrary {
    /// Constructs the aggregate from its ordered candidate list; pure.
    pub fn new(names: Vec<String>) -> (r: CloseableLibrary)
        requires
            names@.len() >= 1,
        ensures
            r@ == (LibraryModel { names: names@, state: StateModel::Unloaded, tried: 0 }),
            r@.wf(),
    {
        CloseableLibrary { inner: Library::new(names) }
    }

    /// The position of the candidate to open next; see [`Library::pending_open`].
    pub fn pending_open(&self) -> (r: Option<usize>)
        ensures
            match self@.state {
                StateModel::Unloaded => r matches Some(i) && i as int == self@.tried,
                _ => r is None,
            },
    {
        self.inner.pending_open()
    }

    /// The candidate name at a position.
    pub fn candidate_name(&self, i: usize) -> (r: &String)
        requires
            i < self@.names.len(),
        ensures
            *r == self@.names[i as int],
    {
        self.inner.candidate_name(i)
    }

    /// Records a successful open; see [`Library::open_succeeded`].
    pub fn open_succeeded(&mut self, handle: usize)
        requires
            old(self)@.wf(),
            old(self)@.state is Unloaded,
            handle != 0,
        ensures
            final(self)@ == old(self)@.load_step(handle),
            final(self)@.wf(),
    {
        self.inner.open_succeeded(handle);
    }

    /// Records a failed open; see [`Library::open_failed`].
    pub fn open_failed(&mut self)
        requires
            old(self)@.wf(),
            old(self)@.state is Unloaded,
        ensures
            final(self)@ == old(self)@.fail_step(),
            final(self)@.wf(),
    {
        self.inner.open_failed();
    }

    /// The memoized handle, if the aggregate has opened.
    pub fn handle(&self) -> (r: Option<usize>)
        ensures
            match self@.state {
                StateModel::Loaded { handle, .. } => r == Some(handle),
                _ => r is None,
            },
    {
        self.inner.handle()
    }

    /// The memoized failure, if the aggregate has failed, by value.
    pub fn failure(&self) -> (r: Option<DylinkError>)
        ensures
            match self@.state {
                StateModel::Failed { error } => r matches Some(e) && e@ == error,
                _ => r is None,
            },
    {
        self.inner.failure()
    }

    /// Classifies a symbol lookup's answer; see [`Library::symbol_outcome`].
    pub fn symbol_outcome(&self, symbol: &String, addr: usize) -> (r: Result<
        usize,
        DylinkError,
    >)
        requires
            self@.wf(),
            self@.state is Loaded,
        ensures
            addr != 0 ==> r == Ok::<usize, DylinkError>(addr),
            addr == 0 ==> (r matches Err(e) && e@ == (ErrorValue::SymbolNotFound {
                symbol: *symbol,
            })),
    {
        self.inner.symbol_outcome(symbol, addr)
    }

    /// Closes the opened aggregate: hands the memoized handle back for the
    /// platform's close call and returns the slot to uninitialized, so the
    /// next forcing cycle starts again from the first candidate.
    pub fn close(&mut self) -> (h: usize)
        requires
            old(self)@.wf(),
            old(self)@.state is Loaded,
        ensures
            final(self)@ == old(self)@.close_step(),
            final(self)@.wf(),
            match old(self)@.state {
                StateModel::Loaded { handle, .. } => h == handle,
                _ => false,
            },
    {
        let h = match self.inner.handle() {
            Some(h) => h,
            None => 0,
        };
        self.inner.slot = LibraryState::Unloaded;
        self.inner.tried = 0;
        h
    }
}

/// A closed aggregate re-opens: after a close, forcing asks the platform
/// loader for the first candidate again.
pub proof fn lemma_close_then_force_reopens(m: LibraryModel, outcomes: Seq<usize>)
    requires
        m.wf(),
        m.state is Loaded,
        outcomes.len() >= 1,
    ensures
        m.close_step().wf(),
        m.close_step().state is Unloaded,
        force_requests(m.close_step(), outcomes).len() >= 1,
        force_requests(m.close_step(), outcomes)[0] == 0,
{
}

/// A single-candidate aggregate whose candidate fails to open memoizes
/// `LibraryNotFound` with that candidate's name — not `ListNotFound`.
pub proof fn lemma_single_candidate_failure(m: LibraryModel, outcomes: Seq<usize>)
    requires
        m.wf(),
        m.state is Unloaded,
        m.names.len() == 1,
        outcomes.len() >= 1,
        outcomes[0] == 0,
    ensures
        run_force(m, outcomes).state == (StateModel::Failed {
            error: ErrorValue::LibraryNotFound { name: m.names[0] },
        }),
{
    lemma_force_terminal_stable(m.fail_step(), outcomes.drop_first());
}

} // verus!

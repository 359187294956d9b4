//! The lazy function cell: a one-shot-initialized indirection from a symbol
//! name to a function address.
//!
//! A cell is constructed pure, with a placeholder address, the symbol name
//! and a link policy.  The first `load` commits the outcome of the single
//! resolution — the address, or the error — and fires the latch; every later
//! `load` or `try_link` observes the cached result and ignores whatever it
//! was handed.  In the running program the latch is a one-shot
//! synchronization primitive; here it is the `linked` flag, and the guarantee
//! that only the first outcome matters is proved of the machine.

use vstd::prelude::*;

use crate::error::DylinkError;
use crate::error::ErrorValue;
use crate::error::result_view;
use crate::FnAddr;

verus! {

/// The link policy of a cell: how its one resolution is performed.
pub enum LinkType {
    /// Resolution consults the Vulkan registry (see [`crate::vulkan`]).
    Vulkan,
    /// Resolution consults a library aggregate over these candidate names.
    Normal(Vec<String>),
}

/// The mathematical value of a [`LinkType`].
pub ghost enum LinkModel {
    Vulkan,
    Normal(Seq<String>),
}

impl View for LinkType {
    type V = LinkModel;

    open spec fn view(&self) -> LinkModel {
        match self {
            LinkType::Vulkan => LinkModel::Vulkan,
            LinkType::Normal(names) => LinkModel::Normal(names@),
        }
    }
}

/// The mathematical value of a [`LazyFn`].
pub ghost struct LazyFnModel {
    pub name: String,
    pub addr: FnAddr,
    pub link: LinkModel,
    pub linked: bool,
    pub status: Option<ErrorValue>,
}

impl LazyFnModel {
    /// Well-formedness: before the latch fires no error is stored, and a
    /// latch that fired without an error holds a resolved, non-null address.
    pub open spec fn wf(self) -> bool {
        &&& !self.linked ==> self.status is None
        &&& (self.linked && self.status is None) ==> self.addr != 0
    }

    /// The result every caller observes once the latch has fired.
    pub open spec fn cached(self) -> Result<usize, ErrorValue> {
        match self.status {
            None => Ok(self.addr),
            Some(e) => Err(e),
        }
    }

    /// The cell after one call that hands in a resolution outcome: the first
    /// call commits it and fires the latch; a fired latch ignores it.
    pub open spec fn load_step(self, outcome: Result<usize, ErrorValue>) -> LazyFnModel {
        if self.linked {
            self
        } else {
            match outcome {
                Ok(a) => LazyFnModel { addr: a, linked: true, ..self },
                Err(e) => LazyFnModel { status: Some(e), linked: true, ..self },
            }
        }
    }
}

/// The cell after a sequence of calls, each handing in the outcome its
/// caller computed.
pub open spec fn run_link(m: LazyFnModel, outcomes: Seq<Result<usize, ErrorValue>>) -> LazyFnModel
    decreases outcomes.len(),
{
    if outcomes.len() == 0 {
        m
    } else {
        run_link(m.load_step(outcomes[0]), outcomes.drop_first())
    }
}

/// A lazy function cell: symbol name, address slot (initially a placeholder),
/// link policy, one-shot latch, and error slot.
pub struct LazyFn {
    /// The symbol to resolve.
    pub name: String,
    /// The address slot: the placeholder until a resolution succeeded, the
    /// resolved address afterwards.
    pub addr: FnAddr,
    /// The link policy.
    pub link_ty: LinkType,
    /// The one-shot latch: fired after the first `load`.
    pub linked: bool,
    /// The error slot: the failure of the one resolution, if it failed.
    pub status: Option<DylinkError>,
}

impl View for LazyFn {
    type V = LazyFnModel;

    open spec fn view(&self) -> LazyFnModel {
        LazyFnModel {
            name: self.name,
            addr: self.addr,
            link: self.link_ty@,
            linked: self.linked,
            status: match &self.status {
                None => None,
                Some(e) => Some(e@),
            },
        }
    }
}

impl LazyFn {
    /// Constructs a cell with a placeholder address, its symbol name and its
    /// link policy.  Pure: usable in static storage, and no resolution is
    /// performed.
    pub fn new(thunk: FnAddr, fn_name: String, link_ty: LinkType) -> (r: LazyFn)
        ensures
            r@ == (LazyFnModel {
                name: fn_name,
                addr: thunk,
                link: link_ty@,
                linked: false,
                status: None,
            }),
            r@.wf(),
    {
        LazyFn { name: fn_name, addr: thunk, link_ty, linked: false, status: None }
    }

    /// One caller's passage through the latch.  `outcome` is the resolution
    /// result that caller computed for this cell's policy; the first call
    /// commits it, fires the latch, and returns it, while every later call
    /// ignores its argument and returns the cached result.
    pub fn load(&mut self, outcome: Result<FnAddr, DylinkError>) -> (r: Result<FnAddr, DylinkError>)
        requires
            old(self)@.wf(),
            outcome matches Ok(a) ==> a != 0,
        ensures
            final(self)@ == old(self)@.load_step(result_view(outcome)),
            final(self)@.wf(),
            final(self)@.linked,
            result_view(r) == final(self)@.cached(),
    {
        if self.linked {
            match &self.status {
                None => Ok(self.addr),
                Some(e) => Err(e.dup()),
            }
        } else {
            self.linked = true;
            match outcome {
                Ok(a) => {
                    self.addr = a;
                    Ok(a)
                },
                Err(e) => {
                    let r = e.dup();
                    self.status = Some(e);
                    Err(r)
                },
            }
        }
    }

    /// The current content of the address slot: the placeholder before a
    /// successful resolution, the resolved address afterwards.  This is what
    /// a generated call site invokes through once `load` has succeeded.
    pub fn address(&self) -> (r: FnAddr)
        ensures
            r == self@.addr,
    {
        self.addr
    }

    /// The cached result without entering the latch: `None` while the latch
    /// has not fired, the committed result afterwards.
    pub fn try_link(&self) -> (r: Option<Result<FnAddr, DylinkError>>)
        ensures
            self@.linked ==> (r matches Some(v) && result_view(v) == self@.cached()),
            !self@.linked ==> r is None,
    {
        if self.linked {
            match &self.status {
                None => Some(Ok(self.addr)),
                Some(e) => Some(Err(e.dup())),
            }
        } else {
            None
        }
    }
}

/// A fired latch is stable: however many further calls arrive, and whatever
/// outcomes they hand in, the cell does not change.
pub proof fn lemma_latched_cell_stable(m: LazyFnModel, outcomes: Seq<Result<usize, ErrorValue>>)
    requires
        m.linked,
    ensures
        run_link(m, outcomes) == m,
    decreases outcomes.len(),
{
    if outcomes.len() > 0 {
        lemma_latched_cell_stable(m.load_step(outcomes[0]), outcomes.drop_first());
    }
}

/// Resolution runs at most once: on a fresh cell, any non-empty sequence of
/// calls leaves exactly the state the first outcome committed — every later
/// outcome is ignored.
pub proof fn lemma_resolution_at_most_once(
    m: LazyFnModel,
    outcomes: Seq<Result<usize, ErrorValue>>,
)
    requires
        !m.linked,
        outcomes.len() >= 1,
    ensures
        run_link(m, outcomes) == m.load_step(outcomes[0]),
{
    lemma_latched_cell_stable(m.load_step(outcomes[0]), outcomes.drop_first());
}

/// After a successful link, every later call observes the same address.
pub proof fn lemma_same_address_after_success(
    m: LazyFnModel,
    outcomes: Seq<Result<usize, ErrorValue>>,
)
    requires
        m.linked,
        m.status is None,
    ensures
        run_link(m, outcomes).cached() == Ok::<usize, ErrorValue>(m.addr),
{
    lemma_latched_cell_stable(m, outcomes);
}

} // verus!

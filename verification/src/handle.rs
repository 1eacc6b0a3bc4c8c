use vstd::prelude::*;
use crate::chain::TranslationChain;
use crate::errors::TranslationError;

verus! {

/// Lifecycle of the shared chain: not built yet, being built by the
/// first caller, serving, or failed for the rest of the process life.
#[derive(Clone, Copy, Debug, PartialEq, Eq, Structural)]
pub enum ChainPhase {
    Uninitialized,
    Initializing,
    Ready,
    Failed,
}

/// What the handle tells a requesting caller.
pub enum Directive {
    /// The caller is the first to arrive: it must construct the chain
    /// and report the result through `finish_initialization`.
    Construct,
    /// Another caller holds the chain, is ahead in the queue, or is
    /// still constructing it: wait to be granted in arrival order.
    Wait,
    /// Exclusive access is granted: the caller may use the chain and
    /// must `release` it afterwards.
    Proceed,
    /// Construction failed earlier; the original error is replayed.
    Fail(TranslationError),
}

/// The abstract state of the handle: the lifecycle phase, the cached
/// construction failure, the holder of the exclusive access, the queue
/// of waiting callers in arrival order, and how many accesses were ever
/// granted and released.
pub struct HandleView {
    pub phase: ChainPhase,
    pub fault: Option<Seq<char>>,
    pub holder: Option<u64>,
    pub waiters: Seq<u64>,
    pub granted: int,
    pub released: int,
}

/// One operation on the handle, for stating laws about whole histories.
pub enum HandleOp {
    Request(u64),
    FinishOk,
    FinishErr(Seq<char>),
    Grant,
    Release,
}

/// Well-formedness of an abstract handle state: a holder exists only
/// while serving, a failure description exists exactly in the failed
/// phase, and the access counters balance against the holder.
pub open spec fn handle_wf(v: HandleView) -> bool {
    &&& (v.holder is Some ==> v.phase is Ready)
    &&& (v.fault is Some <==> v.phase is Failed)
    &&& v.released >= 0
    &&& v.granted == v.released + (if v.holder is Some {
        1int
    } else {
        0int
    })
}

/// One step of the handle machine. An operation whose precondition the
/// state does not meet leaves the state unchanged.
pub open spec fn handle_step(v: HandleView, op: HandleOp) -> HandleView {
    match op {
        HandleOp::Request(c) => match v.phase {
            ChainPhase::Uninitialized => (HandleView { phase: ChainPhase::Initializing, ..v }),
            ChainPhase::Initializing => (HandleView { waiters: v.waiters.push(c), ..v }),
            ChainPhase::Failed => v,
            ChainPhase::Ready => {
                if v.holder is None && v.waiters.len() == 0 {
                    HandleView { holder: Some(c), granted: v.granted + 1, ..v }
                } else {
                    HandleView { waiters: v.waiters.push(c), ..v }
                }
            },
        },
        HandleOp::FinishOk => {
            if v.phase is Initializing {
                HandleView { phase: ChainPhase::Ready, ..v }
            } else {
                v
            }
        },
        HandleOp::FinishErr(d) => {
            if v.phase is Initializing {
                HandleView {
                    phase: ChainPhase::Failed,
                    fault: Some(d),
                    waiters: Seq::empty(),
                    ..v
                }
            } else {
                v
            }
        },
        HandleOp::Grant => {
            if v.phase is Ready && v.holder is None && v.waiters.len() > 0 {
                HandleView {
                    holder: Some(v.waiters[0]),
                    waiters: v.waiters.drop_first(),
                    granted: v.granted + 1,
                    ..v
                }
            } else {
                v
            }
        },
        HandleOp::Release => {
            if v.holder is Some {
                HandleView { holder: None, released: v.released + 1, ..v }
            } else {
                v
            }
        },
    }
}

/// The handle machine folded over a whole history of operations.
pub open spec fn handle_run(v: HandleView, ops: Seq<HandleOp>) -> HandleView
    decreases ops.len(),
{
    if ops.len() == 0 {
        v
    } else {
        handle_run(handle_step(v, ops[0]), ops.drop_first())
    }
}

/// Law: every operation preserves well-formedness, and in every
/// well-formed state at most one granted access is outstanding — no two
/// invocations are ever in flight against the chain at once.
pub proof fn lemma_serialized_access(v: HandleView, op: HandleOp)
    requires
        handle_wf(v),
    ensures
        handle_wf(handle_step(v, op)),
        handle_step(v, op).granted - handle_step(v, op).released <= 1,
{
}

/// Law: a whole history of operations keeps the handle well formed, so
/// at no point between them is more than one granted access
/// outstanding.
pub proof fn lemma_history_stays_serialized(v: HandleView, ops: Seq<HandleOp>)
    requires
        handle_wf(v),
    ensures
        handle_wf(handle_run(v, ops)),
        handle_run(v, ops).granted - handle_run(v, ops).released <= 1,
    decreases ops.len(),
{
    if ops.len() > 0 {
        lemma_serialized_access(v, ops[0]);
        lemma_history_stays_serialized(handle_step(v, ops[0]), ops.drop_first());
    }
}

/// The number of steps of a history that grant an access: a request
/// served at once, or a waiter granted after a release.
pub open spec fn grants_of(v: HandleView, ops: Seq<HandleOp>) -> int
    decreases ops.len(),
{
    if ops.len() == 0 {
        0
    } else {
        (if handle_step(v, ops[0]).granted == v.granted + 1 {
            1int
        } else {
            0int
        }) + grants_of(handle_step(v, ops[0]), ops.drop_first())
    }
}

/// Law: accesses are granted one at a time and never taken back — over
/// any history the granted counter rises by exactly the number of
/// granting steps, so the handle neither drops, duplicates nor retries
/// an access it serves.
pub proof fn lemma_grants_are_counted(v: HandleView, ops: Seq<HandleOp>)
    ensures
        handle_run(v, ops).granted == v.granted + grants_of(v, ops),
    decreases ops.len(),
{
    if ops.len() > 0 {
        let v1 = handle_step(v, ops[0]);
        assert(v1.granted == v.granted || v1.granted == v.granted + 1);
        lemma_grants_are_counted(v1, ops.drop_first());
    }
}

/// Law: initialization runs at most once — once the handle has left
/// `Uninitialized`, no history of operations brings it back, so no
/// second construction is ever triggered.
pub proof fn lemma_init_at_most_once(v: HandleView, ops: Seq<HandleOp>)
    requires
        !(v.phase is Uninitialized),
    ensures
        !(handle_run(v, ops).phase is Uninitialized),
    decreases ops.len(),
{
    if ops.len() > 0 {
        lemma_init_at_most_once(handle_step(v, ops[0]), ops.drop_first());
    }
}

/// Law: a construction failure is terminal and cached — whatever
/// operations follow, the handle is unchanged, so every later request
/// is answered with the original error and the chain is never built.
pub proof fn lemma_failure_frozen(v: HandleView, ops: Seq<HandleOp>)
    requires
        handle_wf(v),
        v.phase is Failed,
    ensures
        handle_run(v, ops) == v,
    decreases ops.len(),
{
    if ops.len() > 0 {
        assert(handle_step(v, ops[0]) == v);
        lemma_failure_frozen(v, ops.drop_first());
    }
}

/// The process-wide singleton: one chain (or its cached construction
/// failure) behind an exclusive-access discipline that serves callers
/// one at a time, in arrival order.
pub struct SharedChainHandle {
    phase: ChainPhase,
    chain: Option<TranslationChain>,
    fault: Option<TranslationError>,
    holder: Option<u64>,
    waiters: Vec<u64>,
    granted: Ghost<int>,
    released: Ghost<int>,
}

impl View for SharedChainHandle {
    type V = HandleView;

    closed spec fn view(&self) -> HandleView {
        HandleView {
            phase: self.phase,
            fault: match self.fault {
                Some(e) => Some(e.detail()),
                None => None,
            },
            holder: self.holder,
            waiters: self.waiters@,
            granted: self.granted@,
            released: self.released@,
        }
    }
}

impl SharedChainHandle {
    /// The stored chain, while serving.
    pub closed spec fn chain_spec(&self) -> Option<TranslationChain> {
        self.chain
    }

    /// The cached construction failure, after a failed initialization.
    pub closed spec fn fault_spec(&self) -> Option<TranslationError> {
        self.fault
    }

    /// Validity: the abstract state is well formed, the chain exists
    /// exactly while serving, and it is itself valid.
    pub open spec fn wf(&self) -> bool {
        &&& handle_wf(self@)
        &&& (self.chain_spec() is Some <==> self@.phase is Ready)
        &&& (self.chain_spec() matches Some(c) ==> c.wf())
        &&& (self.fault_spec() is Some <==> self@.phase is Failed)
        &&& (self.fault_spec() matches Some(e) ==> e is TemplateConstruction)
    }

    /// A handle that no caller has touched yet.
    pub fn new() -> (r: SharedChainHandle)
        ensures
            r.wf(),
            r@.phase is Uninitialized,
            r@.holder is None,
            r@.waiters.len() == 0,
            r@.granted == 0,
            r@.released == 0,
    {
        SharedChainHandle {
            phase: ChainPhase::Uninitialized,
            chain: None,
            fault: None,
            holder: None,
            waiters: Vec::new(),
            granted: Ghost(0),
            released: Ghost(0),
        }
    }

    /// The current lifecycle phase.
    pub fn phase(&self) -> (r: ChainPhase)
        ensures
            r == self@.phase,
    {
        self.phase
    }

    /// One caller asks for the chain. The first arrival is told to
    /// construct; arrivals during construction or while the chain is
    /// held or queued for wait in arrival order; an idle, serving handle
    /// grants at once; a failed handle replays its cached error and
    /// stays exactly as it is.
    pub fn request(&mut self, caller: u64) -> (d: Directive)
        requires
            old(self).wf(),
        ensures
            final(self).wf(),
            final(self)@ == handle_step(old(self)@, HandleOp::Request(caller)),
            final(self).chain_spec() == old(self).chain_spec(),
            final(self).fault_spec() == old(self).fault_spec(),
            match old(self)@.phase {
                ChainPhase::Uninitialized => d is Construct,
                ChainPhase::Initializing => d is Wait,
                ChainPhase::Failed => (d matches Directive::Fail(e) && Some(e)
                    == old(self).fault_spec()),
                ChainPhase::Ready => {
                    if old(self)@.holder is None && old(self)@.waiters.len() == 0 {
                        d is Proceed
                    } else {
                        d is Wait
                    }
                },
            },
    {
        match self.phase {
            ChainPhase::Uninitialized => {
                self.phase = ChainPhase::Initializing;
                Directive::Construct
            },
            ChainPhase::Initializing => {
                self.waiters.push(caller);
                Directive::Wait
            },
            ChainPhase::Failed => {
                match &self.fault {
                    Some(e) => Directive::Fail(e.clone()),
                    None => {
                        proof {
                            assert(false);
                        }
                        Directive::Wait
                    },
                }
            },
            ChainPhase::Ready => {
                if self.holder.is_none() && self.waiters.len() == 0 {
                    self.holder = Some(caller);
                    self.granted = Ghost(self.granted@ + 1);
                    Directive::Proceed
                } else {
                    self.waiters.push(caller);
                    Directive::Wait
                }
            },
        }
    }

    /// The constructing caller reports the outcome. Success starts
    /// service; failure is cached for the process lifetime and the
    /// queue is dropped — every waiter's next request replays the error.
    pub fn finish_initialization(&mut self, outcome: Result<TranslationChain, TranslationError>)
        requires
            old(self).wf(),
            old(self)@.phase is Initializing,
            outcome matches Ok(c) ==> c.wf(),
            outcome matches Err(e) ==> e is TemplateConstruction,
        ensures
            final(self).wf(),
            match outcome {
                Ok(c) => final(self)@ == handle_step(old(self)@, HandleOp::FinishOk)
                    && final(self).chain_spec() == Some(c),
                Err(e) => final(self)@ == handle_step(
                    old(self)@,
                    HandleOp::FinishErr(e.detail()),
                ) && final(self).fault_spec() == Some(e),
            },
    {
        match outcome {
            Ok(c) => {
                self.phase = ChainPhase::Ready;
                self.chain = Some(c);
            },
            Err(e) => {
                self.phase = ChainPhase::Failed;
                self.fault = Some(e);
                self.waiters = Vec::new();
                proof {
                    assert(self@.waiters =~= Seq::<u64>::empty());
                }
            },
        }
    }

    /// After a release, hands the chain to the longest-waiting caller,
    /// if any: callers are served one at a time, in arrival order.
    pub fn grant_next(&mut self) -> (g: Option<u64>)
        requires
            old(self).wf(),
            old(self)@.phase is Ready,
            old(self)@.holder is None,
        ensures
            final(self).wf(),
            final(self)@ == handle_step(old(self)@, HandleOp::Grant),
            final(self).chain_spec() == old(self).chain_spec(),
            old(self)@.waiters.len() == 0 ==> g is None && final(self)@ == old(self)@,
            old(self)@.waiters.len() > 0 ==> g == Some(old(self)@.waiters[0])
                && final(self)@.holder == Some(old(self)@.waiters[0]),
    {
        if self.waiters.len() == 0 {
            None
        } else {
            let next = self.waiters.remove(0);
            self.holder = Some(next);
            self.granted = Ghost(self.granted@ + 1);
            proof {
                assert(self@.waiters =~= old(self)@.waiters.drop_first());
            }
            Some(next)
        }
    }

    /// The holder hands the chain back; the next waiter may be granted.
    pub fn release(&mut self)
        requires
            old(self).wf(),
            old(self)@.holder is Some,
        ensures
            final(self).wf(),
            final(self)@ == handle_step(old(self)@, HandleOp::Release),
            final(self).chain_spec() == old(self).chain_spec(),
            final(self)@.holder is None,
    {
        self.holder = None;
        self.released = Ghost(self.released@ + 1);
    }

    /// Exclusive access to the chain, for the caller that currently
    /// holds it.
    pub fn chain(&self) -> (r: &TranslationChain)
        requires
            self.wf(),
            self@.holder is Some,
        ensures
            Some(*r) == self.chain_spec(),
            r.wf(),
    {
        self.chain.as_ref().unwrap()
    }
}

} // verus!

use vstd::prelude::*;
use crate::dispatch::ControlFlow;
use crate::value::Value;

verus! {

/// The completion of one argument: its position and its outcome.
pub type Completion = (usize, Result<Value, ControlFlow>);

/// The state of a call's argument evaluations: the values in by position,
/// and the first failure, if any.
pub struct JoinView {
    pub slots: Seq<Option<Value>>,
    pub failure: Option<ControlFlow>,
}

pub open spec fn all_in(slots: Seq<Option<Value>>) -> bool {
    forall|i: int| 0 <= i < slots.len() ==> (#[trigger] slots[i]) is Some
}

pub open spec fn unwrapped(slots: Seq<Option<Value>>) -> Seq<Value> {
    slots.map_values(|o: Option<Value>| o->0)
}

/// Whether nothing further can change the outcome.
pub open spec fn decided(s: JoinView) -> bool {
    s.failure is Some || all_in(s.slots)
}

/// The outcome of a decided state: the first failure, or every value in
/// position order.
pub open spec fn outcome(s: JoinView) -> Result<Seq<Value>, ControlFlow> {
    match s.failure {
        Some(f) => Err(f),
        None => Ok(unwrapped(s.slots)),
    }
}

pub open spec fn join_start(n: nat) -> JoinView {
    JoinView { slots: Seq::new(n, |i: int| None), failure: None }
}

/// One completion: a failure decides at once; a value fills its slot.
/// Once decided, the state no longer changes.
pub open spec fn join_step(s: JoinView, c: Completion) -> JoinView {
    if decided(s) {
        s
    } else {
        match c.1 {
            Err(f) => JoinView { slots: s.slots, failure: Some(f) },
            Ok(v) => if c.0 < s.slots.len() {
                JoinView { slots: s.slots.update(c.0 as int, Some(v)), failure: None }
            } else {
                s
            },
        }
    }
}

/// The state after the completions `cs`, in the order they came in.
pub open spec fn join_all(n: nat, cs: Seq<Completion>) -> JoinView
    decreases cs.len(),
{
    if cs.len() == 0 {
        join_start(n)
    } else {
        join_step(join_all(n, cs.drop_last()), cs.last())
    }
}

/// A decided state stays as it is, whatever completes after it.
pub proof fn lemma_decided_is_final(n: nat, cs: Seq<Completion>, later: Seq<Completion>)
    requires
        decided(join_all(n, cs)),
    ensures
        join_all(n, cs + later) == join_all(n, cs),
    decreases later.len(),
{
    if later.len() == 0 {
        assert(cs + later =~= cs);
    } else {
        lemma_decided_is_final(n, cs, later.drop_last());
        assert((cs + later).drop_last() =~= cs + later.drop_last());
    }
}

/// The first failure among a call's arguments is its outcome as soon as it
/// comes in: arguments that never complete are not waited for, and nothing
/// that completes later changes it.
pub proof fn lemma_first_failure_decides(
    n: nat,
    before: Seq<Completion>,
    i: usize,
    f: ControlFlow,
    later: Seq<Completion>,
)
    requires
        !decided(join_all(n, before)),
    ensures
        decided(join_all(n, before.push((i, Err(f))))),
        outcome(join_all(n, before.push((i, Err(f))) + later)) == Err::<Seq<Value>, ControlFlow>(f),
{
    let cs = before.push((i, Err(f)));
    assert(cs.drop_last() =~= before);
    lemma_decided_is_final(n, cs, later);
}

/// The argument evaluations of one call, joined as they complete.
pub struct ArgJoin {
    slots: Vec<Option<Value>>,
    failure: Option<ControlFlow>,
}

impl View for ArgJoin {
    type V = JoinView;

    closed spec fn view(&self) -> JoinView {
        JoinView { slots: self.slots@, failure: self.failure }
    }
}

impl ArgJoin {
    /// A join for `n` arguments, none of them in.
    pub fn new(n: usize) -> (r: ArgJoin)
        ensures
            r@ == join_start(n as nat),
    {
        let mut slots: Vec<Option<Value>> = Vec::new();
        let mut i: usize = 0;
        while i < n
            invariant
                0 <= i <= n,
                slots@ == Seq::new(i as nat, |k: int| None::<Value>),
            decreases n - i,
        {
            slots.push(None);
            i = i + 1;
            assert(slots@ =~= Seq::new(i as nat, |k: int| None::<Value>));
        }
        ArgJoin { slots, failure: None }
    }

    /// Whether the outcome is known.
    pub fn is_decided(&self) -> (r: bool)
        ensures
            r == decided(self@),
    {
        if self.failure.is_some() {
            return true;
        }
        let mut i: usize = 0;
        while i < self.slots.len()
            invariant
                0 <= i <= self.slots@.len(),
                self.failure is None,
                forall|j: int| 0 <= j < i ==> (#[trigger] self.slots@[j]) is Some,
            decreases self.slots@.len() - i,
        {
            if self.slots[i].is_none() {
                assert(!(self.slots@[i as int] is Some));
                return false;
            }
            i = i + 1;
        }
        true
    }

    /// Takes in the completion of the argument at `index`.
    pub fn offer(&mut self, index: usize, result: Result<Value, ControlFlow>)
        ensures
            final(self)@ == join_step(old(self)@, (index, result)),
    {
        if self.is_decided() {
            return;
        }
        match result {
            Err(f) => {
                self.failure = Some(f);
            },
            Ok(v) => {
                if index < self.slots.len() {
                    self.slots.set(index, Some(v));
                }
            },
        }
    }

    /// The outcome of a decided join: the first failure, or the values in
    /// position order.
    pub fn finish(self) -> (r: Result<Vec<Value>, ControlFlow>)
        requires
            decided(self@),
        ensures
            r matches Ok(vs) ==> outcome(self@) == Ok::<Seq<Value>, ControlFlow>(vs@),
            r matches Err(f) ==> outcome(self@) == Err::<Seq<Value>, ControlFlow>(f),
    {
        match self.failure {
            Some(f) => Err(f),
            None => {
                let mut vs: Vec<Value> = Vec::new();
                let mut i: usize = 0;
                while i < self.slots.len()
                    invariant
                        0 <= i <= self.slots@.len(),
                        all_in(self.slots@),
                        vs@ == unwrapped(self.slots@).take(i as int),
                    decreases self.slots@.len() - i,
                {
                    match &self.slots[i] {
                        Some(v) => vs.push(v.copy()),
                        None => {
                            assert(self.slots@[i as int] is Some);
                        },
                    }
                    i = i + 1;
                    assert(vs@ =~= unwrapped(self.slots@).take(i as int));
                }
                assert(unwrapped(self.slots@).take(i as int) =~= unwrapped(self.slots@));
                Ok(vs)
            },
        }
    }
}

} // verus!

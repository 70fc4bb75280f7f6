use vstd::prelude::*;

verus! {

/// What a transform stack holds: the transform in force, the identity it
/// falls back to, and the saved transforms, oldest first.
pub struct StackModel<T> {
    pub current: T,
    pub identity: T,
    pub saved: Seq<T>,
}

/// The two stack operations, for stating what a run of them does.
pub enum StackOp {
    Push,
    Pop,
}

impl<T> StackModel<T> {
    pub open spec fn fresh(identity: T) -> Self {
        StackModel { current: identity, identity, saved: Seq::empty() }
    }

    pub open spec fn push(self) -> Self {
        StackModel { current: self.current, identity: self.identity, saved: self.saved.push(self.current) }
    }

    /// Restores the last saved transform; with nothing saved, the identity.
    pub open spec fn pop(self) -> Self {
        if self.saved.len() > 0 {
            StackModel { current: self.saved.last(), identity: self.identity, saved: self.saved.drop_last() }
        } else {
            StackModel { current: self.identity, identity: self.identity, saved: self.saved }
        }
    }

    pub open spec fn reset(self) -> Self {
        StackModel { current: self.identity, identity: self.identity, saved: self.saved }
    }

    pub open spec fn set(self, t: T) -> Self {
        StackModel { current: t, identity: self.identity, saved: self.saved }
    }

    pub open spec fn step(self, op: StackOp) -> Self {
        match op {
            StackOp::Push => self.push(),
            StackOp::Pop => self.pop(),
        }
    }

    /// The state after applying `ops` in order.
    pub open spec fn run(self, ops: Seq<StackOp>) -> Self
        decreases ops.len(),
    {
        if ops.len() == 0 {
            self
        } else {
            self.run(ops.drop_last()).step(ops.last())
        }
    }
}

pub open spec fn count_pushes(ops: Seq<StackOp>) -> int
    decreases ops.len(),
{
    if ops.len() == 0 {
        0
    } else {
        count_pushes(ops.drop_last()) + if ops.last() is Push { 1int } else { 0int }
    }
}

pub open spec fn count_pops(ops: Seq<StackOp>) -> int
    decreases ops.len(),
{
    if ops.len() == 0 {
        0
    } else {
        count_pops(ops.drop_last()) + if ops.last() is Pop { 1int } else { 0int }
    }
}

/// A run of pushes and pops either never popped an empty stack, and then the
/// depth moved by exactly pushes minus pops, or it did, and from then on the
/// current and every saved transform are the identity.
proof fn lemma_run_depth_or_identity<T>(s: StackModel<T>, ops: Seq<StackOp>)
    ensures
        s.run(ops).identity == s.identity,
        s.run(ops).saved.len() == s.saved.len() + count_pushes(ops) - count_pops(ops) || (
        s.run(ops).current == s.identity && forall|i: int|
            0 <= i < s.run(ops).saved.len() ==> #[trigger] s.run(ops).saved[i] == s.identity),
    decreases ops.len(),
{
    if ops.len() > 0 {
        lemma_run_depth_or_identity(s, ops.drop_last());
    }
}

/// When a run of pushes and pops pops more often than the stack held
/// transforms at its start plus what the run pushed, the transform in force
/// at its end is the identity: an empty stack pops to the identity and never
/// fails.
pub proof fn lemma_excess_pops_give_identity<T>(s: StackModel<T>, ops: Seq<StackOp>)
    requires
        count_pops(ops) > s.saved.len() + count_pushes(ops),
    ensures
        s.run(ops).current == s.identity,
{
    lemma_run_depth_or_identity(s, ops);
}

/// A current transform with a stack of saved ones and a fixed identity.
#[verifier::reject_recursive_types(T)]
pub struct TransformStack<T> {
    current: T,
    identity: T,
    saved: Vec<T>,
}

impl<T> View for TransformStack<T> {
    type V = StackModel<T>;

    closed spec fn view(&self) -> StackModel<T> {
        StackModel { current: self.current, identity: self.identity, saved: self.saved@ }
    }
}

impl<T: Copy> TransformStack<T> {
    /// A stack with nothing saved, whose current transform is `identity`.
    pub fn new(identity: T) -> (r: Self)
        ensures
            r@ == StackModel::fresh(identity),
    {
        TransformStack { current: identity, identity, saved: Vec::new() }
    }

    /// Saves the current transform.
    pub fn push_matrix(&mut self)
        ensures
            final(self)@ == old(self)@.push(),
    {
        let t = self.current;
        self.saved.push(t);
    }

    /// Restores the last saved transform, or the identity when none is saved.
    pub fn pop_matrix(&mut self)
        ensures
            final(self)@ == old(self)@.pop(),
    {
        match self.saved.pop() {
            Some(t) => {
                self.current = t;
            },
            None => {
                self.current = self.identity;
            },
        }
    }

    /// Sets the current transform to the identity; the saved ones stay.
    pub fn reset_transform(&mut self)
        ensures
            final(self)@ == old(self)@.reset(),
    {
        self.current = self.identity;
    }

    /// Replaces the current transform.
    pub fn set_transform(&mut self, t: T)
        ensures
            final(self)@ == old(self)@.set(t),
    {
        self.current = t;
    }

    /// The current transform.
    pub fn transform(&self) -> (r: T)
        ensures
            r == self@.current,
    {
        self.current
    }

    /// The transform that a pop on an empty stack falls back to.
    pub fn identity(&self) -> (r: T)
        ensures
            r == self@.identity,
    {
        self.identity
    }

    /// How many transforms are saved.
    pub fn depth(&self) -> (r: usize)
        ensures
            r == self@.saved.len(),
    {
        self.saved.len()
    }
}

} // verus!

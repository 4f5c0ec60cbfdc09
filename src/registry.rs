//! Counters of the clients served by a tunnel: how many are being relayed now,
//! and how many have been accepted since the tunnel started.
use vstd::prelude::*;
use vstd::string::*;
use crate::text::{decimal, decimal_string};

verus! {

/// One change of the counters: a relay starts, or a relay ends.
#[derive(Clone, Copy, Debug, PartialEq, Eq, Structural)]
pub enum CounterOp {
    Increase,
    Decrease,
}

/// The counters as a pair of mathematical integers `(current, total)`.
pub struct CounterView {
    pub current: int,
    pub total: int,
}

/// The effect of one change on the counters.
pub open spec fn apply_op(v: CounterView, op: CounterOp) -> CounterView {
    match op {
        CounterOp::Increase => CounterView { current: v.current + 1, total: v.total + 1 },
        CounterOp::Decrease => CounterView { current: v.current - 1, total: v.total },
    }
}

/// The effect of a sequence of changes, applied in order.
pub open spec fn apply_ops(v: CounterView, ops: Seq<CounterOp>) -> CounterView
    decreases ops.len(),
{
    if ops.len() == 0 {
        v
    } else {
        apply_op(apply_ops(v, ops.drop_last()), ops.last())
    }
}

/// How many entries of `ops` are `op`.
pub open spec fn count_op(ops: Seq<CounterOp>, op: CounterOp) -> nat
    decreases ops.len(),
{
    if ops.len() == 0 {
        0
    } else {
        count_op(ops.drop_last(), op) + if ops.last() == op { 1nat } else { 0nat }
    }
}

/// The status line shown while a tunnel runs.
pub open spec fn status_line(current: nat, total: nat) -> Seq<char> {
    "total clients: "@ + decimal(total) + ", active clients "@ + decimal(current)
}

/// Current and cumulative numbers of relayed connections.
pub struct ClientCounter {
    current: u32,
    total: u32,
}

impl ClientCounter {
    pub closed spec fn view(&self) -> CounterView {
        CounterView { current: self.current as int, total: self.total as int }
    }

    /// No more connections are active than were ever accepted.
    pub open spec fn wf(&self) -> bool {
        0 <= self.view().current <= self.view().total <= u32::MAX
    }

    /// Counters with no client seen yet.
    pub fn new() -> (r: ClientCounter)
        ensures
            r.wf(),
            r.view() == (CounterView { current: 0, total: 0 }),
    {
        ClientCounter { current: 0, total: 0 }
    }

    /// Connections being relayed now.
    pub fn current(&self) -> (r: u32)
        ensures
            r == self.view().current,
    {
        self.current
    }

    /// Connections accepted since the counters were made.
    pub fn total(&self) -> (r: u32)
        ensures
            r == self.view().total,
    {
        self.total
    }

    /// Both counters, read together.
    pub fn snapshot(&self) -> (r: (u32, u32))
        ensures
            r.0 == self.view().current,
            r.1 == self.view().total,
    {
        (self.current, self.total)
    }

    /// A relay has started: one more active and one more in total.
    pub fn increase(&mut self)
        requires
            old(self).wf(),
            old(self).view().total < u32::MAX,
        ensures
            final(self).wf(),
            final(self).view() == apply_op(old(self).view(), CounterOp::Increase),
    {
        self.current = self.current + 1;
        self.total = self.total + 1;
    }

    /// A relay has ended: one fewer active, the total unchanged.
    pub fn decrease(&mut self)
        requires
            old(self).wf(),
            old(self).view().current > 0,
        ensures
            final(self).wf(),
            final(self).view() == apply_op(old(self).view(), CounterOp::Decrease),
    {
        self.current = self.current - 1;
    }

    /// The human-readable status, e.g. `total clients: 3, active clients 1`.
    pub fn status_text(&self) -> (r: String)
        ensures
            r@ == status_line(self.view().current as nat, self.view().total as nat),
    {
        let mut s = String::from_str("total clients: ");
        s.append(decimal_string(self.total).as_str());
        s.append(", active clients ");
        s.append(decimal_string(self.current).as_str());
        s
    }
}

/// Applying changes one at a time adds up: the total grows by the number of
/// increases, and the active count by increases minus decreases.
pub proof fn lemma_counts(v: CounterView, ops: Seq<CounterOp>)
    ensures
        apply_ops(v, ops).total == v.total + count_op(ops, CounterOp::Increase),
        apply_ops(v, ops).current == v.current + count_op(ops, CounterOp::Increase)
            - count_op(ops, CounterOp::Decrease),
    decreases ops.len(),
{
    if ops.len() > 0 {
        lemma_counts(v, ops.drop_last());
    }
}

/// Once each of N relays has started and ended, in any interleaving, the
/// counters that began at zero read N in total and zero active.
pub proof fn lemma_all_relays_done(ops: Seq<CounterOp>, n: nat)
    requires
        count_op(ops, CounterOp::Increase) == n,
        count_op(ops, CounterOp::Decrease) == n,
    ensures
        apply_ops(CounterView { current: 0, total: 0 }, ops) == (CounterView {
            current: 0,
            total: n as int,
        }),
{
    lemma_counts(CounterView { current: 0, total: 0 }, ops);
}

} // verus!

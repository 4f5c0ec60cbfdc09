//! The decisions of one relayed connection: bytes read on one side are written,
//! unchanged, to the other side; the first end of either direction, clean or
//! failed, ends the whole relay, without waiting for the other direction.
use vstd::prelude::*;

verus! {

/// The way bytes flow through the relay.
#[derive(Clone, Copy, Debug, PartialEq, Eq, Structural)]
pub enum Direction {
    /// From the local client to the remote endpoint.
    Upstream,
    /// From the remote endpoint to the local client.
    Downstream,
}

/// A copy in one direction failed; only this connection ends.
#[derive(Clone, Copy, Debug, PartialEq, Eq, Structural)]
pub struct RelayError {
    pub direction: Direction,
}

/// What the copy loops report to the relay.
pub enum RelayInput {
    /// Bytes read from the source side of a direction.
    Data(Direction, Seq<u8>),
    /// A direction ended: end of stream, or an error when the flag is set.
    End(Direction, bool),
}

/// What the relay asks for in answer to one input.
pub enum RelayOutput {
    /// Write these bytes to the destination side of the direction.
    Forward(Direction, Seq<u8>),
    /// The relay is over, with this result.
    Finish(Result<(), RelayError>),
    /// Nothing to do: the relay had already ended.
    Idle,
}

/// The result that ending a direction gives.
pub open spec fn end_result(d: Direction, failed: bool) -> Result<(), RelayError> {
    if failed {
        Err(RelayError { direction: d })
    } else {
        Ok(())
    }
}

/// One step: the new running flag and the output.
pub open spec fn relay_step(running: bool, input: RelayInput) -> (bool, RelayOutput) {
    if !running {
        (false, RelayOutput::Idle)
    } else {
        match input {
            RelayInput::Data(d, bytes) => (true, RelayOutput::Forward(d, bytes)),
            RelayInput::End(d, failed) => (false, RelayOutput::Finish(end_result(d, failed))),
        }
    }
}

/// A whole run of inputs, in order: the final running flag and every output.
pub open spec fn relay_run(running: bool, inputs: Seq<RelayInput>) -> (bool, Seq<RelayOutput>)
    decreases inputs.len(),
{
    if inputs.len() == 0 {
        (running, Seq::empty())
    } else {
        let prev = relay_run(running, inputs.drop_last());
        let next = relay_step(prev.0, inputs.last());
        (next.0, prev.1.push(next.1))
    }
}

/// The bytes read in direction `d`, concatenated in order.
pub open spec fn sent(inputs: Seq<RelayInput>, d: Direction) -> Seq<u8>
    decreases inputs.len(),
{
    if inputs.len() == 0 {
        Seq::empty()
    } else {
        sent(inputs.drop_last(), d) + match inputs.last() {
            RelayInput::Data(e, bytes) => if e == d { bytes } else { Seq::empty() },
            RelayInput::End(_, _) => Seq::empty(),
        }
    }
}

/// The bytes written in direction `d`, concatenated in order.
pub open spec fn delivered(outputs: Seq<RelayOutput>, d: Direction) -> Seq<u8>
    decreases outputs.len(),
{
    if outputs.len() == 0 {
        Seq::empty()
    } else {
        delivered(outputs.drop_last(), d) + match outputs.last() {
            RelayOutput::Forward(e, bytes) => if e == d { bytes } else { Seq::empty() },
            _ => Seq::empty(),
        }
    }
}

/// The results announced by a run, in order.
pub open spec fn finishes(outputs: Seq<RelayOutput>) -> Seq<Result<(), RelayError>>
    decreases outputs.len(),
{
    if outputs.len() == 0 {
        Seq::empty()
    } else {
        finishes(outputs.drop_last()) + match outputs.last() {
            RelayOutput::Finish(r) => seq![r],
            _ => Seq::empty(),
        }
    }
}

/// Whether a run of inputs holds no end of a direction.
pub open spec fn no_end(inputs: Seq<RelayInput>) -> bool {
    forall|i: int| 0 <= i < inputs.len() ==> inputs[i] is Data
}

/// The state of one relayed connection.
pub struct Relay {
    running: bool,
}

impl Relay {
    /// Whether the relay still forwards bytes.
    pub closed spec fn spec_running(&self) -> bool {
        self.running
    }

    /// A relay whose two directions are both open.
    pub fn new() -> (r: Relay)
        ensures
            r.spec_running(),
    {
        Relay { running: true }
    }

    /// Whether the relay still forwards bytes.
    pub fn is_running(&self) -> (r: bool)
        ensures
            r == self.spec_running(),
    {
        self.running
    }

    /// Bytes were read in direction `from`: they are handed back, unchanged,
    /// to be written on the other side, unless the relay has ended.
    pub fn on_data(&mut self, from: Direction, data: Vec<u8>) -> (r: Option<Vec<u8>>)
        ensures
            final(self).spec_running() == old(self).spec_running(),
            relay_step(old(self).spec_running(), RelayInput::Data(from, data@)) == (
            final(self).spec_running(),
            match r {
                Some(out) => RelayOutput::Forward(from, out@),
                None => RelayOutput::Idle,
            },
            ),
    {
        if self.running {
            Some(data)
        } else {
            None
        }
    }

    /// Direction `from` reached its end (or failed, when `failed` is set):
    /// the first such event ends the relay and gives its result; later ones
    /// give nothing.
    pub fn on_end(&mut self, from: Direction, failed: bool) -> (r: Option<Result<(), RelayError>>)
        ensures
            !final(self).spec_running(),
            relay_step(old(self).spec_running(), RelayInput::End(from, failed)) == (
            final(self).spec_running(),
            match r {
                Some(res) => RelayOutput::Finish(res),
                None => RelayOutput::Idle,
            },
            ),
    {
        if self.running {
            self.running = false;
            if failed {
                Some(Err(RelayError { direction: from }))
            } else {
                Some(Ok(()))
            }
        } else {
            None
        }
    }
}

/// Splitting a run in two: the second part starts from where the first ended.
pub proof fn lemma_run_append(running: bool, a: Seq<RelayInput>, b: Seq<RelayInput>)
    ensures
        relay_run(running, a + b) == (
        relay_run(relay_run(running, a).0, b).0,
        relay_run(running, a).1 + relay_run(relay_run(running, a).0, b).1,
        ),
    decreases b.len(),
{
    if b.len() == 0 {
        assert(a + b =~= a);
        assert(relay_run(running, a).1 + Seq::<RelayOutput>::empty() =~= relay_run(running, a).1);
    } else {
        lemma_run_append(running, a, b.drop_last());
        assert((a + b).drop_last() =~= a + b.drop_last());
        let mid = relay_run(running, a).0;
        assert(relay_run(running, a).1 + relay_run(mid, b.drop_last()).1.push(
            relay_step(relay_run(mid, b.drop_last()).0, b.last()).1,
        ) =~= (relay_run(running, a).1 + relay_run(mid, b.drop_last()).1).push(
            relay_step(relay_run(mid, b.drop_last()).0, b.last()).1,
        ));
    }
}

/// What two runs of outputs deliver, one after the other.
pub proof fn lemma_delivered_append(a: Seq<RelayOutput>, b: Seq<RelayOutput>, d: Direction)
    ensures
        delivered(a + b, d) == delivered(a, d) + delivered(b, d),
        finishes(a + b) == finishes(a) + finishes(b),
    decreases b.len(),
{
    if b.len() == 0 {
        assert(a + b =~= a);
        assert(delivered(a, d) + Seq::<u8>::empty() =~= delivered(a, d));
        assert(finishes(a) + Seq::<Result<(), RelayError>>::empty() =~= finishes(a));
    } else {
        lemma_delivered_append(a, b.drop_last(), d);
        assert((a + b).drop_last() =~= a + b.drop_last());
        assert((a + b).last() == b.last());
        let tail_d = match b.last() {
            RelayOutput::Forward(e, bytes) => if e == d { bytes } else { Seq::empty() },
            _ => Seq::empty(),
        };
        let tail_f = match b.last() {
            RelayOutput::Finish(r) => seq![r],
            _ => Seq::<Result<(), RelayError>>::empty(),
        };
        assert(delivered(a, d) + delivered(b.drop_last(), d) + tail_d =~= delivered(a, d) + (
        delivered(b.drop_last(), d) + tail_d));
        assert(finishes(a) + finishes(b.drop_last()) + tail_f =~= finishes(a) + (finishes(
            b.drop_last(),
        ) + tail_f));
    }
}

/// Byte fidelity: while no direction has ended, every byte read in a
/// direction is delivered in that direction, unchanged and in order, and the
/// relay is still running.
pub proof fn lemma_relay_fidelity(inputs: Seq<RelayInput>, d: Direction)
    requires
        no_end(inputs),
    ensures
        relay_run(true, inputs).0,
        delivered(relay_run(true, inputs).1, d) == sent(inputs, d),
        finishes(relay_run(true, inputs).1) == Seq::<Result<(), RelayError>>::empty(),
    decreases inputs.len(),
{
    if inputs.len() > 0 {
        let pre = inputs.drop_last();
        assert(no_end(pre)) by {
            assert forall|i: int| 0 <= i < pre.len() implies pre[i] is Data by {
                assert(pre[i] == inputs[i]);
            }
        }
        lemma_relay_fidelity(pre, d);
        assert(inputs[inputs.len() - 1] is Data);
        let outs = relay_run(true, inputs).1;
        assert(outs.drop_last() =~= relay_run(true, pre).1);
        assert(finishes(relay_run(true, pre).1) + Seq::<Result<(), RelayError>>::empty()
            =~= Seq::<Result<(), RelayError>>::empty());
    }
}

/// An ended relay is silent: whatever comes after delivers nothing and
/// announces nothing.
pub proof fn lemma_ended_relay_silent(inputs: Seq<RelayInput>, d: Direction)
    ensures
        !relay_run(false, inputs).0,
        delivered(relay_run(false, inputs).1, d) == Seq::<u8>::empty(),
        finishes(relay_run(false, inputs).1) == Seq::<Result<(), RelayError>>::empty(),
    decreases inputs.len(),
{
    if inputs.len() > 0 {
        lemma_ended_relay_silent(inputs.drop_last(), d);
        let outs = relay_run(false, inputs).1;
        assert(outs.drop_last() =~= relay_run(false, inputs.drop_last()).1);
        assert(Seq::<u8>::empty() + Seq::<u8>::empty() =~= Seq::<u8>::empty());
        assert(Seq::<Result<(), RelayError>>::empty() + Seq::<Result<(), RelayError>>::empty()
            =~= Seq::<Result<(), RelayError>>::empty());
    }
}

/// Race on the first end: the first direction to end ends the relay at once
/// with that direction's result; bytes read before it were delivered, and
/// nothing that comes after it is delivered, whatever was still in flight.
pub proof fn lemma_first_end_wins(
    before: Seq<RelayInput>,
    e: Direction,
    failed: bool,
    after: Seq<RelayInput>,
    d: Direction,
)
    requires
        no_end(before),
    ensures
        !relay_run(true, before + seq![RelayInput::End(e, failed)] + after).0,
        delivered(relay_run(true, before + seq![RelayInput::End(e, failed)] + after).1, d)
            == sent(before, d),
        finishes(relay_run(true, before + seq![RelayInput::End(e, failed)] + after).1) == seq![
            end_result(e, failed),
        ],
{
    let end = seq![RelayInput::End(e, failed)];
    lemma_relay_fidelity(before, d);
    lemma_run_append(true, before, end);
    lemma_run_append(true, before + end, after);
    let r1 = relay_run(true, before);
    let r2 = relay_run(r1.0, end);
    assert(end.drop_last() =~= Seq::<RelayInput>::empty());
    assert(end.last() == RelayInput::End(e, failed));
    assert(relay_run(r1.0, end.drop_last()) == (true, Seq::<RelayOutput>::empty()));
    assert(r2.1 =~= seq![RelayOutput::Finish(end_result(e, failed))]);
    assert(!r2.0);
    lemma_ended_relay_silent(after, d);
    lemma_delivered_append(r1.1, r2.1, d);
    lemma_delivered_append(r1.1 + r2.1, relay_run(false, after).1, d);
    assert(r2.1.drop_last() =~= Seq::<RelayOutput>::empty());
    assert(r2.1.last() == RelayOutput::Finish(end_result(e, failed)));
    assert(delivered(r2.1.drop_last(), d) == Seq::<u8>::empty());
    assert(finishes(r2.1.drop_last()) == Seq::<Result<(), RelayError>>::empty());
    assert(delivered(r2.1, d) =~= Seq::<u8>::empty());
    assert(finishes(r2.1) =~= seq![end_result(e, failed)]);
    assert(sent(before, d) + Seq::<u8>::empty() + Seq::<u8>::empty() =~= sent(before, d));
    assert(Seq::<Result<(), RelayError>>::empty() + seq![end_result(e, failed)]
        + Seq::<Result<(), RelayError>>::empty() =~= seq![end_result(e, failed)]);
}

} // verus!

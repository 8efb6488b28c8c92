//! The delay line behind a phase-shifted pair of waves.
//!
//! A leading wave is played on one channel and the same wave, a fixed number
//! of samples later, on the other. The delay line caches the samples of the
//! leading wave that the lagging one has not played yet: it is first filled
//! with the samples that make up the phase shift, and from then on each new
//! leading sample goes in at the back while the lagging sample comes out at
//! the front. Samples are kept by their 32-bit pattern.
use std::collections::VecDeque;
use vstd::prelude::*;

verus! {

/// The cached samples, oldest first, after one step that feeds `leading`.
pub open spec fn shifted(line: Seq<u32>, leading: u32) -> Seq<u32> {
    line.push(leading).drop_first()
}

/// The lagging sample that one step that feeds `leading` gives out.
pub open spec fn lagging(line: Seq<u32>, leading: u32) -> u32 {
    line.push(leading)[0]
}

/// The lagging samples given out while feeding `inputs` one at a time.
pub open spec fn outputs(line: Seq<u32>, inputs: Seq<u32>) -> Seq<u32>
    decreases inputs.len(),
{
    if inputs.len() == 0 {
        Seq::empty()
    } else {
        seq![lagging(line, inputs[0])] + outputs(shifted(line, inputs[0]), inputs.drop_first())
    }
}

/// The cached samples after feeding `inputs` one at a time.
pub open spec fn after(line: Seq<u32>, inputs: Seq<u32>) -> Seq<u32>
    decreases inputs.len(),
{
    if inputs.len() == 0 {
        line
    } else {
        after(shifted(line, inputs[0]), inputs.drop_first())
    }
}

/// A first-in first-out cache of samples.
#[derive(Clone, Debug)]
pub struct DelayLine {
    stack: VecDeque<u32>,
}

impl View for DelayLine {
    type V = Seq<u32>;

    /// The cached samples, oldest first.
    closed spec fn view(&self) -> Seq<u32> {
        self.stack@
    }
}

impl DelayLine {
    /// An empty delay line: what goes in comes straight out.
    pub fn new() -> (line: DelayLine)
        ensures
            line@ == Seq::<u32>::empty(),
    {
        DelayLine { stack: VecDeque::new() }
    }

    /// Caches one more sample of the phase shift at the back.
    pub fn push(&mut self, sample: u32)
        ensures
            final(self)@ == old(self)@.push(sample),
    {
        self.stack.push_back(sample);
    }

    /// The number of cached samples: the lag of the second wave, in samples.
    pub fn len(&self) -> (n: usize)
        ensures
            n == self@.len(),
    {
        self.stack.len()
    }

    /// Feeds one leading sample and gives out the lagging one: the oldest
    /// cached sample, or `leading` itself when nothing is cached.
    pub fn shift(&mut self, leading: u32) -> (out: u32)
        ensures
            out == lagging(old(self)@, leading),
            final(self)@ == shifted(old(self)@, leading),
            final(self)@.len() == old(self)@.len(),
    {
        self.stack.push_back(leading);
        match self.stack.pop_front() {
            Some(sample) => sample,
            None => leading,
        }
    }
}

/// Feeding a delay line that holds `line` with `inputs` gives out the stream
/// `line` followed by `inputs`, cut to as many samples as were fed, and
/// leaves in the line the rest of that stream: the second wave is the first
/// one delayed by exactly `line.len()` samples, and the delay never changes.
pub proof fn lemma_delayed_stream(line: Seq<u32>, inputs: Seq<u32>)
    ensures
        outputs(line, inputs) == (line + inputs).take(inputs.len() as int),
        after(line, inputs) == (line + inputs).skip(inputs.len() as int),
        after(line, inputs).len() == line.len(),
    decreases inputs.len(),
{
    if inputs.len() > 0 {
        let x: u32 = inputs[0];
        let rest = inputs.drop_first();
        let next = shifted(line, x);
        lemma_delayed_stream(next, rest);
        assert(next + rest =~= (line + inputs).drop_first());
        assert((line + inputs)[0] == lagging(line, x));
        assert((line + inputs).take(inputs.len() as int) =~= seq![lagging(line, x)] + (next
            + rest).take(rest.len() as int));
        assert((line + inputs).skip(inputs.len() as int) =~= (next + rest).skip(
            rest.len() as int,
        ));
    } else {
        assert((line + inputs).take(0) =~= Seq::<u32>::empty());
        assert((line + inputs).skip(0) =~= line);
    }
}

} // verus!

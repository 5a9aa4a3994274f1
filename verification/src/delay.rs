//! Threshold-controlled pass-through buffer.
//!
//! A [`Delay`] withholds real data for a fixed number of warm-up ticks: every
//! inbound vector advances a counter, but the held snapshot is only replaced
//! once the counter strictly exceeds the threshold. The emitted value is
//! always the currently held snapshot, which during warm-up is the empty
//! vector the component started with.

use vstd::prelude::*;

verus! {

/// Mathematical model of a [`Delay`] component: the held snapshot, the number of
/// inbound vectors seen so far, and the fixed warm-up threshold.
pub ghost struct DelayModel<T> {
    pub data: Seq<T>,
    pub count: nat,
    pub threshold: nat,
}

/// One inbound vector: the counter always advances; the snapshot is replaced
/// exactly when the advanced counter strictly exceeds the threshold.
pub open spec fn delay_step<T>(m: DelayModel<T>, input: Seq<T>) -> DelayModel<T> {
    DelayModel {
        data: if m.count + 1 > m.threshold {
            input
        } else {
            m.data
        },
        count: m.count + 1,
        threshold: m.threshold,
    }
}

/// The state after feeding `inputs`, oldest first, into a fresh component with the
/// given threshold.
pub open spec fn delay_run<T>(threshold: nat, inputs: Seq<Seq<T>>) -> DelayModel<T>
    decreases inputs.len(),
{
    if inputs.len() == 0 {
        DelayModel { data: Seq::empty(), count: 0, threshold }
    } else {
        delay_step(delay_run(threshold, inputs.drop_last()), inputs.last())
    }
}

/// Law: with threshold `T`, each of the first `T` inbound vectors leaves the
/// empty initial snapshot in place, and from the `T+1`-th vector on the component
/// echoes the latest inbound vector exactly — no extra lag and no dropped
/// values once active.
pub proof fn lemma_delay_threshold<T>(threshold: nat, inputs: Seq<Seq<T>>)
    ensures
        delay_run(threshold, inputs).count == inputs.len(),
        delay_run(threshold, inputs).threshold == threshold,
        inputs.len() <= threshold ==> delay_run(threshold, inputs).data == Seq::<T>::empty(),
        inputs.len() > threshold ==> delay_run(threshold, inputs).data == inputs.last(),
    decreases inputs.len(),
{
    if inputs.len() > 0 {
        lemma_delay_threshold(threshold, inputs.drop_last());
    }
}

/// Threshold-controlled pass-through buffer: emits the empty vector until the
/// inbound counter crosses the threshold, then echoes every inbound vector.
pub struct Delay<T> {
    data: Vec<T>,
    count: usize,
    threshold: usize,
}

impl<T> View for Delay<T> {
    type V = DelayModel<T>;

    closed spec fn view(&self) -> DelayModel<T> {
        DelayModel {
            data: self.data@,
            count: self.count as nat,
            threshold: self.threshold as nat,
        }
    }
}

impl<T> Default for Delay<T> {
    /// A delay with threshold zero: the first inbound vector is already
    /// echoed.
    fn default() -> (r: Self)
        ensures
            r@ == (DelayModel::<T> { data: Seq::empty(), count: 0, threshold: 0 }),
    {
        Delay::new(0)
    }
}

impl<T> Delay<T> {
    /// Creates a new [`Delay`] instance with the specified threshold.
    pub fn new(threshold: usize) -> (r: Self)
        ensures
            r@ == (DelayModel::<T> { data: Seq::empty(), count: 0, threshold: threshold as nat }),
    {
        Delay { data: Vec::new(), count: 0, threshold }
    }

    /// The number of inbound vectors accepted so far.
    pub fn count(&self) -> (r: usize)
        ensures
            r as nat == self@.count,
    {
        self.count
    }

    /// The fixed warm-up threshold.
    pub fn threshold(&self) -> (r: usize)
        ensures
            r as nat == self@.threshold,
    {
        self.threshold
    }

    /// Accepts one inbound vector: counted in every state, held only once the
    /// counter strictly exceeds the threshold.
    pub fn read(&mut self, data: Vec<T>)
        requires
            old(self)@.count < usize::MAX,
        ensures
            final(self)@ == delay_step(old(self)@, data@),
    {
        self.count = self.count + 1;
        if self.count > self.threshold {
            self.data = data;
        }
    }

    /// Emits the currently held snapshot.
    pub fn write(&self) -> (r: &Vec<T>)
        ensures
            r@ == self@.data,
    {
        &self.data
    }
}

} // verus!

//! The callback chain: user callbacks, run one after the other, each of which
//! may replace the logger that the next one sees.
use crate::field::{child, lemma_lookup_child, lookup, Entry};
use vstd::prelude::*;

verus! {

/// The logger after callbacks that returned `outcomes`, in order, starting
/// from `initial`: each replacement takes the place of the current logger,
/// and "no replacement" leaves it as it is.
pub open spec fn fold_outcomes<L>(initial: L, outcomes: Seq<Option<L>>) -> L
    decreases outcomes.len(),
{
    if outcomes.len() == 0 {
        initial
    } else {
        match outcomes.last() {
            Some(l) => l,
            None => fold_outcomes(initial, outcomes.drop_last()),
        }
    }
}

/// The state of one run of a callback chain over one request or response.
pub struct CallbackChain<L> {
    current: L,
    count: usize,
    done: usize,
    initial: Ghost<L>,
    outcomes: Ghost<Seq<Option<L>>>,
}

impl<L> CallbackChain<L> {
    /// The logger the run started from.
    pub closed spec fn initial(&self) -> L {
        self.initial@
    }

    /// What the callbacks that have run returned, in order.
    pub closed spec fn outcomes(&self) -> Seq<Option<L>> {
        self.outcomes@
    }

    /// The number of callbacks of the chain.
    pub closed spec fn count(&self) -> nat {
        self.count as nat
    }

    /// The logger the next callback sees, or that the run ends with.
    pub closed spec fn current_spec(&self) -> L {
        self.current
    }

    pub closed spec fn wf(&self) -> bool {
        &&& self.done as nat == self.outcomes@.len()
        &&& self.done <= self.count
        &&& self.current == fold_outcomes(self.initial@, self.outcomes@)
    }

    /// A run over `count` callbacks, starting from `logger`.
    pub fn start(logger: L, count: usize) -> (r: CallbackChain<L>)
        ensures
            r.wf(),
            r.initial() == logger,
            r.outcomes() == Seq::<Option<L>>::empty(),
            r.count() == count,
            r.current_spec() == logger,
    {
        CallbackChain {
            current: logger,
            count,
            done: 0,
            initial: Ghost(logger),
            outcomes: Ghost(Seq::empty()),
        }
    }

    /// The index of the callback to run next, in registration order; none
    /// once every callback has run.
    pub fn next_callback(&self) -> (r: Option<usize>)
        requires
            self.wf(),
        ensures
            self.outcomes().len() < self.count() ==> r == Some(self.outcomes().len() as usize),
            self.outcomes().len() == self.count() ==> r is None,
    {
        if self.done < self.count {
            Some(self.done)
        } else {
            None
        }
    }

    /// The logger to hand to the next callback.
    pub fn current(&self) -> (r: &L)
        requires
            self.wf(),
        ensures
            *r == self.current_spec(),
            *r == fold_outcomes(self.initial(), self.outcomes()),
    {
        &self.current
    }

    /// Records what the callback that just ran returned: a replacement
    /// becomes the current logger; "no replacement" leaves it unchanged.
    pub fn record(&mut self, outcome: Option<L>)
        requires
            old(self).wf(),
            old(self).outcomes().len() < old(self).count(),
        ensures
            final(self).wf(),
            final(self).initial() == old(self).initial(),
            final(self).count() == old(self).count(),
            final(self).outcomes() == old(self).outcomes().push(outcome),
            final(self).current_spec() == match outcome {
                Some(l) => l,
                None => old(self).current_spec(),
            },
    {
        let ghost outcomes = self.outcomes@.push(outcome);
        assert(outcomes.drop_last() =~= self.outcomes@);
        match outcome {
            Some(l) => {
                self.current = l;
            },
            None => {},
        }
        self.outcomes = Ghost(outcomes);
        self.done = self.done + 1;
    }

    /// The logger that the run ends with.
    pub fn finish(self) -> (r: L)
        requires
            self.wf(),
        ensures
            r == fold_outcomes(self.initial(), self.outcomes()),
    {
        self.current
    }
}

/// A callback that returns no replacement leaves the logger that the next
/// callback sees as it was.
pub proof fn lemma_no_replacement_is_identity<L>(initial: L, outcomes: Seq<Option<L>>)
    ensures
        fold_outcomes(initial, outcomes.push(None)) == fold_outcomes(initial, outcomes),
{
    assert(outcomes.push(None).drop_last() =~= outcomes);
}

/// Where a first callback adds `first` to the logger it sees and a second adds
/// `second` to the one it sees, the second sees the first's fields, the chain
/// ends with both, and on a key that both set the second's value is the one
/// shown.
pub proof fn lemma_callbacks_compose(base: Seq<Entry>, first: Seq<Entry>, second: Seq<Entry>, key: Seq<char>)
    ensures
        fold_outcomes(base, seq![Some(child(base, first))]) == child(base, first),
        fold_outcomes(base, seq![Some(child(base, first)), Some(child(child(base, first), second))])
            == child(child(base, first), second),
        lookup(
            fold_outcomes(base, seq![Some(child(base, first)), Some(child(child(base, first), second))]),
            key,
        ) == match lookup(second, key) {
            Some(v) => Some(v),
            None => match lookup(first, key) {
                Some(v) => Some(v),
                None => lookup(base, key),
            },
        },
{
    let l1 = child(base, first);
    let l2 = child(l1, second);
    assert(seq![Some(l1), Some(l2)].last() == Some(l2));
    assert(seq![Some(l1)].last() == Some(l1));
    lemma_lookup_child(l1, second, key);
    lemma_lookup_child(base, first, key);
}

} // verus!

//! Input aggregation: two edge-triggered inputs folded into a pair of
//! saturating press counters.
use vstd::prelude::*;

verus! {

/// Largest value a press counter can hold; further edges leave it there.
pub const MAX_PRESSES: u8 = 255;

/// One of the two physical inputs.
#[derive(Clone, Copy, Debug, PartialEq, Eq, Structural)]
pub enum Input {
    A,
    B,
}

/// The pair of press counters, one per input.
#[derive(Clone, Copy, Debug, PartialEq, Eq, Structural)]
pub struct PressCounts {
    pub a: u8,
    pub b: u8,
}

/// `n` capped at the counter's largest value.
pub open spec fn saturate(n: nat) -> nat {
    if n <= MAX_PRESSES as nat {
        n
    } else {
        MAX_PRESSES as nat
    }
}

/// Number of edges on `input` in `edges`.
pub open spec fn edges_on(edges: Seq<Input>, input: Input) -> nat
    decreases edges.len(),
{
    if edges.len() == 0 {
        0
    } else {
        edges_on(edges.drop_last(), input) + if edges.last() == input {
            1nat
        } else {
            0nat
        }
    }
}

/// Counters with no presses recorded.
pub open spec fn no_presses() -> PressCounts {
    PressCounts { a: 0, b: 0 }
}

impl PressCounts {
    /// Counter of `input`.
    pub open spec fn count(self, input: Input) -> nat {
        match input {
            Input::A => self.a as nat,
            Input::B => self.b as nat,
        }
    }

    /// Counters after one edge on `input`.
    pub open spec fn after_edge(self, input: Input) -> PressCounts {
        match input {
            Input::A => PressCounts { a: saturate(self.a as nat + 1) as u8, ..self },
            Input::B => PressCounts { b: saturate(self.b as nat + 1) as u8, ..self },
        }
    }

    /// Counters after the edges of `edges`, in order, starting from `self`.
    pub open spec fn after_edges(self, edges: Seq<Input>) -> PressCounts
        decreases edges.len(),
    {
        if edges.len() == 0 {
            self
        } else {
            self.after_edges(edges.drop_last()).after_edge(edges.last())
        }
    }

    /// Each counter is at least the other's counter.
    pub open spec fn le(self, other: PressCounts) -> bool {
        self.a <= other.a && self.b <= other.b
    }

    /// Counters at startup: no presses.
    pub fn new() -> (r: PressCounts)
        ensures
            r == no_presses(),
    {
        PressCounts { a: 0, b: 0 }
    }

    /// Counter of `input`.
    pub fn get(&self, input: Input) -> (r: u8)
        ensures
            r as nat == self.count(input),
    {
        match input {
            Input::A => self.a,
            Input::B => self.b,
        }
    }

    /// Records one falling edge on `input` and returns the snapshot to publish.
    pub fn record_edge(&mut self, input: Input) -> (snapshot: [u8; 2])
        ensures
            *final(self) == old(self).after_edge(input),
            snapshot@ == seq![final(self).a, final(self).b],
            old(self).le(*final(self)),
    {
        match input {
            Input::A => self.a = self.a.saturating_add(1),
            Input::B => self.b = self.b.saturating_add(1),
        }
        [self.a, self.b]
    }

    /// The published form: the counter of input A, then that of input B.
    pub fn snapshot(&self) -> (r: [u8; 2])
        ensures
            r@ == seq![self.a, self.b],
    {
        [self.a, self.b]
    }
}

/// From no presses, after any edge sequence, each counter holds the number of
/// edges delivered on its input, capped at the counter's largest value.
pub proof fn lemma_counts_equal_edges(edges: Seq<Input>, input: Input)
    ensures
        no_presses().after_edges(edges).count(input) == saturate(edges_on(edges, input)),
    decreases edges.len(),
{
    if edges.len() > 0 {
        lemma_counts_equal_edges(edges.drop_last(), input);
    }
}

/// Published snapshots never decrease: the counters after a prefix of an edge
/// sequence are at most those after any longer prefix.
pub proof fn lemma_snapshots_non_decreasing(
    start: PressCounts,
    edges: Seq<Input>,
    i: int,
    j: int,
)
    requires
        0 <= i <= j <= edges.len(),
    ensures
        start.after_edges(edges.take(i)).le(start.after_edges(edges.take(j))),
    decreases j - i,
{
    if i < j {
        lemma_snapshots_non_decreasing(start, edges, i, j - 1);
        assert(edges.take(j).drop_last() == edges.take(j - 1));
    }
}

} // verus!

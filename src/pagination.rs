use vstd::prelude::*;

verus! {

/// What the driver does next while the listing is being paginated.
#[derive(Debug, PartialEq, Eq, Structural, Clone, Copy)]
pub enum PaginationAction {
    /// Wait the content-settle delay, scroll to the bottom of the page, then
    /// probe for the load-more trigger with the short probe timeout.
    ScrollAndProbe,
    /// Click the trigger that the probe found, then scroll and probe again.
    ClickLoadMore,
    /// Pagination is over.
    Finish,
}

/// The infinite-scroll loop: counts the load-more clicks until a probe for
/// the trigger times out.
pub struct PaginationLoader {
    iterations: u64,
    done: bool,
}

pub ghost struct PaginationView {
    pub iterations: nat,
    pub done: bool,
}

impl View for PaginationLoader {
    type V = PaginationView;

    closed spec fn view(&self) -> PaginationView {
        PaginationView { iterations: self.iterations as nat, done: self.done }
    }
}

/// The loader before the first probe.
pub open spec fn start(enabled: bool) -> PaginationView {
    PaginationView { iterations: 0, done: !enabled }
}

/// The loader after a probe that found the trigger or timed out.
pub open spec fn after_probe(v: PaginationView, found: bool) -> PaginationView {
    if v.done {
        v
    } else if found {
        PaginationView { iterations: v.iterations + 1, done: false }
    } else {
        PaginationView { iterations: v.iterations, done: true }
    }
}

/// The loader after a series of probe outcomes.
pub open spec fn after_probes(v: PaginationView, outcomes: Seq<bool>) -> PaginationView
    decreases outcomes.len(),
{
    if outcomes.len() == 0 {
        v
    } else {
        after_probes(after_probe(v, outcomes[0]), outcomes.drop_first())
    }
}

/// The number of probes that found the trigger before the first that did not.
pub open spec fn leading_successes(outcomes: Seq<bool>) -> nat
    decreases outcomes.len(),
{
    if outcomes.len() == 0 || !outcomes[0] {
        0
    } else {
        1 + leading_successes(outcomes.drop_first())
    }
}

pub open spec fn action_of(v: PaginationView) -> PaginationAction {
    if v.done {
        PaginationAction::Finish
    } else {
        PaginationAction::ScrollAndProbe
    }
}

impl PaginationLoader {
    /// A loader for a run where pagination is `enabled`; a disabled one is
    /// finished before it starts.
    pub fn new(enabled: bool) -> (r: PaginationLoader)
        ensures
            r@ == start(enabled),
    {
        PaginationLoader { iterations: 0, done: !enabled }
    }

    /// The number of load-more clicks so far.
    pub fn iterations(&self) -> (r: u64)
        ensures
            r == self@.iterations,
    {
        self.iterations
    }

    pub fn is_done(&self) -> (r: bool)
        ensures
            r == self@.done,
    {
        self.done
    }

    /// What to do while no probe result is pending.
    pub fn next_action(&self) -> (r: PaginationAction)
        ensures
            r == action_of(self@),
    {
        if self.done {
            PaginationAction::Finish
        } else {
            PaginationAction::ScrollAndProbe
        }
    }

    /// Takes the result of a probe for the load-more trigger: a found trigger
    /// is to be clicked and counts as one more iteration; a timed-out probe
    /// ends pagination.
    pub fn on_probe(&mut self, found: bool) -> (r: PaginationAction)
        requires
            old(self)@.iterations < u64::MAX,
        ensures
            final(self)@ == after_probe(old(self)@, found),
            r == if !old(self)@.done && found {
                PaginationAction::ClickLoadMore
            } else {
                PaginationAction::Finish
            },
    {
        if self.done {
            PaginationAction::Finish
        } else if found {
            self.iterations = self.iterations + 1;
            PaginationAction::ClickLoadMore
        } else {
            self.done = true;
            PaginationAction::Finish
        }
    }
}

/// The iteration count is the number of successful load-more probes before
/// the first one that times out; with pagination disabled, or with no trigger
/// on the first probe, it is zero.
pub proof fn lemma_iterations_are_leading_successes(enabled: bool, outcomes: Seq<bool>)
    ensures
        after_probes(start(enabled), outcomes).iterations == if enabled {
            leading_successes(outcomes)
        } else {
            0
        },
        outcomes.len() > 0 && !outcomes[0] ==> after_probes(start(enabled), outcomes).iterations == 0,
{
    lemma_probes_from(start(enabled), outcomes);
}

proof fn lemma_probes_from(v: PaginationView, outcomes: Seq<bool>)
    ensures
        after_probes(v, outcomes).iterations == if v.done {
            v.iterations
        } else {
            v.iterations + leading_successes(outcomes)
        },
    decreases outcomes.len(),
{
    if outcomes.len() > 0 {
        lemma_probes_from(after_probe(v, outcomes[0]), outcomes.drop_first());
    }
}

} // verus!

use vstd::prelude::*;
use vstd::string::StringExecFns;
use crate::registry::{default_dapp, discovered, named, with_field, DappView, FieldValue, Registry};

verus! {

/// How a record's title is matched when it is relocated on the listing.
#[derive(Debug, PartialEq, Eq, Structural, Clone, Copy)]
pub enum MatchMode {
    /// The heading's whole text equals the title.
    Exact,
    /// The heading's text contains the title.
    Contains,
}

/// The detail-view fields, probed in this order.
#[derive(Debug, PartialEq, Eq, Structural, Clone, Copy)]
pub enum Field {
    Logo,
    Social,
    Category,
    Description,
}

/// Where the record under way stands.
#[derive(Debug, PartialEq, Eq, Structural, Clone, Copy)]
pub enum Phase {
    Locating(MatchMode),
    Opening,
    Probing(Field),
    Returning,
    Finished,
}

/// What the driver does next.
#[derive(Debug)]
pub enum EnrichAction {
    /// Resolve `locator` with the long default timeout; before an exact
    /// attempt, wait the navigation-settle delay first.
    Locate { index: usize, locator: String, mode: MatchMode },
    /// Click the located heading, wait the content-settle delay, probe the
    /// same locator once more (its result does not matter), wait again.
    Open,
    /// Resolve the field's locator with the short probe timeout and, if it
    /// resolves, run the field's extractor.
    Probe(Field),
    /// Take a screenshot of record `index` if `capture` (a failed capture is
    /// ignored), then navigate back to the listing.
    Return { index: usize, capture: bool },
    /// Every record has been attempted.
    Finished,
}

/// What the driver observed after an action.
pub enum EnrichEvent {
    Located,
    NotLocated,
    Opened,
    Resolved(FieldValue),
    Missed,
    Returned,
}

pub open spec fn exact_locator_of(name: Seq<char>) -> Seq<char> {
    "//h3[text()='"@ + name + "']"@
}

pub open spec fn contains_locator_of(name: Seq<char>) -> Seq<char> {
    "//h3[contains(text(),'"@ + name + "')]"@
}

pub open spec fn locator_of(mode: MatchMode, name: Seq<char>) -> Seq<char> {
    match mode {
        MatchMode::Exact => exact_locator_of(name),
        MatchMode::Contains => contains_locator_of(name),
    }
}

/// The locator of a heading whose whole text is `name`.
pub fn exact_title_locator(name: &str) -> (r: String)
    ensures
        r@ == exact_locator_of(name@),
{
    String::from_str("//h3[text()='").concat(name).concat("']")
}

/// The locator of a heading whose text contains `name`.
pub fn contains_title_locator(name: &str) -> (r: String)
    ensures
        r@ == contains_locator_of(name@),
{
    String::from_str("//h3[contains(text(),'").concat(name).concat("')]")
}

/// Screenshots are taken in every environment but production.
pub fn diagnostics_enabled(environment: &str) -> (r: bool)
    ensures
        r == (environment@ != "prod"@),
{
    String::from_str(environment) != String::from_str("prod")
}

/// The field probed after `f`, if any.
pub open spec fn field_after(f: Field) -> Option<Field> {
    match f {
        Field::Logo => Some(Field::Social),
        Field::Social => Some(Field::Category),
        Field::Category => Some(Field::Description),
        Field::Description => None,
    }
}

/// Whether `value` is a value of field `f`.
pub open spec fn fits(f: Field, value: FieldValue) -> bool {
    match value {
        FieldValue::Logo(_) => f == Field::Logo,
        FieldValue::Social(_) => f == Field::Social,
        FieldValue::Category(_) => f == Field::Category,
        FieldValue::Description(_) => f == Field::Description,
    }
}

/// The first position from `from` on that holds a record, or the length.
pub open spec fn next_occupied(reg: Seq<Option<DappView>>, from: int) -> int
    decreases reg.len() - from,
{
    if from >= reg.len() {
        reg.len() as int
    } else if reg[from] is Some {
        from
    } else {
        next_occupied(reg, from + 1)
    }
}

pub ghost struct EnricherView {
    pub registry: Seq<Option<DappView>>,
    pub position: int,
    pub phase: Phase,
    pub capture: bool,
}

/// The state at the first record from position `from` on.
pub open spec fn at_record(v: EnricherView, from: int) -> EnricherView {
    let p = next_occupied(v.registry, from);
    EnricherView {
        position: p,
        phase: if p < v.registry.len() {
            Phase::Locating(MatchMode::Exact)
        } else {
            Phase::Finished
        },
        ..v
    }
}

pub open spec fn start(registry: Seq<Option<DappView>>, capture: bool) -> EnricherView {
    at_record(EnricherView { registry, position: 0, phase: Phase::Finished, capture }, 0)
}

/// The state after `event`. An event that does not fit the phase changes
/// nothing.
pub open spec fn step(v: EnricherView, event: EnrichEvent) -> EnricherView {
    match v.phase {
        Phase::Locating(mode) => match event {
            EnrichEvent::Located => EnricherView { phase: Phase::Opening, ..v },
            EnrichEvent::NotLocated => if mode == MatchMode::Exact {
                EnricherView { phase: Phase::Locating(MatchMode::Contains), ..v }
            } else {
                at_record(v, v.position + 1)
            },
            _ => v,
        },
        Phase::Opening => match event {
            EnrichEvent::Opened => EnricherView { phase: Phase::Probing(Field::Logo), ..v },
            _ => v,
        },
        Phase::Probing(f) => match event {
            EnrichEvent::Resolved(value) => if fits(f, value) {
                EnricherView {
                    registry: v.registry.update(
                        v.position,
                        Some(with_field(v.registry[v.position]->Some_0, value)),
                    ),
                    phase: match field_after(f) {
                        Some(g) => Phase::Probing(g),
                        None => Phase::Returning,
                    },
                    ..v
                }
            } else {
                v
            },
            EnrichEvent::Missed => EnricherView { phase: Phase::Returning, ..v },
            _ => v,
        },
        Phase::Returning => match event {
            EnrichEvent::Returned => at_record(v, v.position + 1),
            _ => v,
        },
        Phase::Finished => v,
    }
}

/// The state after a series of events.
pub open spec fn run(v: EnricherView, events: Seq<EnrichEvent>) -> EnricherView
    decreases events.len(),
{
    if events.len() == 0 {
        v
    } else {
        run(step(v, events[0]), events.drop_first())
    }
}

pub open spec fn view_wf(v: EnricherView) -> bool {
    &&& named(v.registry)
    &&& 0 <= v.position <= v.registry.len()
    &&& (v.phase is Finished <==> v.position == v.registry.len())
    &&& (v.position < v.registry.len() ==> v.registry[v.position] is Some)
}

/// Whether `a` is the action that state `v` asks for.
pub open spec fn action_fits(v: EnricherView, a: EnrichAction) -> bool {
    match v.phase {
        Phase::Locating(m) => match a {
            EnrichAction::Locate { index, locator, mode } => index == v.position && mode == m
                && locator@ == locator_of(m, v.registry[v.position]->Some_0.project_name),
            _ => false,
        },
        Phase::Opening => a is Open,
        Phase::Probing(f) => match a {
            EnrichAction::Probe(g) => g == f,
            _ => false,
        },
        Phase::Returning => match a {
            EnrichAction::Return { index, capture } => index == v.position && capture == v.capture,
            _ => false,
        },
        Phase::Finished => a is Finished,
    }
}

/// Visits every record of a registry in position order, relocates it on the
/// listing, opens it and fills its fields from the detail view.
pub struct Enricher {
    registry: Registry,
    position: usize,
    phase: Phase,
    capture: bool,
}

impl View for Enricher {
    type V = EnricherView;

    closed spec fn view(&self) -> EnricherView {
        EnricherView {
            registry: self.registry@,
            position: self.position as int,
            phase: self.phase,
            capture: self.capture,
        }
    }
}

impl Enricher {
    pub open spec fn wf(&self) -> bool {
        view_wf(self@)
    }

    fn next_occupied_from(registry: &Registry, from: usize) -> (r: usize)
        requires
            from <= registry@.len(),
        ensures
            r == next_occupied(registry@, from as int),
    {
        let n = registry.len();
        let mut j = from;
        while j < n
            invariant
                n == registry@.len(),
                from <= j <= n,
                next_occupied(registry@, from as int) == next_occupied(registry@, j as int),
            decreases n - j,
        {
            if registry.get(j).is_some() {
                return j;
            }
            j = j + 1;
        }
        j
    }

    /// Starts on the first record; `capture` asks for a screenshot of each
    /// opened record.
    pub fn new(registry: Registry, capture: bool) -> (r: (Enricher, EnrichAction))
        requires
            registry.wf(),
        ensures
            r.0.wf(),
            r.0@ == start(registry@, capture),
            action_fits(r.0@, r.1),
    {
        let p = Enricher::next_occupied_from(&registry, 0);
        let phase = if p < registry.len() {
            Phase::Locating(MatchMode::Exact)
        } else {
            Phase::Finished
        };
        let e = Enricher { registry, position: p, phase, capture };
        proof {
            lemma_next_occupied(e.registry@, 0);
        }
        let a = e.current_action();
        (e, a)
    }

    /// The action that the current phase asks for.
    pub fn current_action(&self) -> (r: EnrichAction)
        requires
            self.wf(),
        ensures
            action_fits(self@, r),
    {
        match self.phase {
            Phase::Locating(mode) => {
                let name = match self.registry.get(self.position) {
                    Some(d) => d.project_name.as_str(),
                    None => "",
                };
                let locator = match mode {
                    MatchMode::Exact => exact_title_locator(name),
                    MatchMode::Contains => contains_title_locator(name),
                };
                EnrichAction::Locate { index: self.position, locator, mode }
            },
            Phase::Opening => EnrichAction::Open,
            Phase::Probing(f) => EnrichAction::Probe(f),
            Phase::Returning => EnrichAction::Return { index: self.position, capture: self.capture },
            Phase::Finished => EnrichAction::Finished,
        }
    }

    fn move_past_current(&mut self)
        requires
            old(self).wf(),
            old(self).position < old(self).registry@.len(),
        ensures
            final(self)@ == at_record(old(self)@, old(self)@.position + 1),
            final(self).wf(),
    {
        let n = self.registry.len();
        assert(self.position < n);
        let p = Enricher::next_occupied_from(&self.registry, self.position + 1);
        proof {
            lemma_next_occupied(self.registry@, self.position + 1);
        }
        self.position = p;
        if p < self.registry.len() {
            self.phase = Phase::Locating(MatchMode::Exact);
        } else {
            self.phase = Phase::Finished;
        }
    }

    /// Takes what the driver observed and returns the next action.
    pub fn step(&mut self, event: EnrichEvent) -> (r: EnrichAction)
        requires
            old(self).wf(),
        ensures
            final(self).wf(),
            final(self)@ == step(old(self)@, event),
            action_fits(final(self)@, r),
    {
        match self.phase {
            Phase::Locating(mode) => match event {
                EnrichEvent::Located => {
                    self.phase = Phase::Opening;
                },
                EnrichEvent::NotLocated => {
                    if mode == MatchMode::Exact {
                        self.phase = Phase::Locating(MatchMode::Contains);
                    } else {
                        self.move_past_current();
                    }
                },
                _ => {},
            },
            Phase::Opening => match event {
                EnrichEvent::Opened => {
                    self.phase = Phase::Probing(Field::Logo);
                },
                _ => {},
            },
            Phase::Probing(f) => match event {
                EnrichEvent::Resolved(value) => {
                    if field_fits(f, &value) {
                        self.registry.set_field(self.position, value);
                        self.phase = match f {
                            Field::Logo => Phase::Probing(Field::Social),
                            Field::Social => Phase::Probing(Field::Category),
                            Field::Category => Phase::Probing(Field::Description),
                            Field::Description => Phase::Returning,
                        };
                    }
                },
                EnrichEvent::Missed => {
                    self.phase = Phase::Returning;
                },
                _ => {},
            },
            Phase::Returning => match event {
                EnrichEvent::Returned => {
                    self.move_past_current();
                },
                _ => {},
            },
            Phase::Finished => {},
        }
        self.current_action()
    }

    pub fn phase(&self) -> (r: Phase)
        ensures
            r == self@.phase,
    {
        self.phase
    }

    pub fn registry(&self) -> (r: &Registry)
        ensures
            r@ == self@.registry,
    {
        &self.registry
    }

    /// Hands back the registry.
    pub fn into_registry(self) -> (r: Registry)
        requires
            self.wf(),
        ensures
            r@ == self@.registry,
            r.wf(),
    {
        self.registry
    }
}

fn field_fits(f: Field, value: &FieldValue) -> (r: bool)
    ensures
        r == fits(f, *value),
{
    match value {
        FieldValue::Logo(_) => f == Field::Logo,
        FieldValue::Social(_) => f == Field::Social,
        FieldValue::Category(_) => f == Field::Category,
        FieldValue::Description(_) => f == Field::Description,
    }
}

proof fn lemma_next_occupied(reg: Seq<Option<DappView>>, from: int)
    requires
        0 <= from,
    ensures
        from <= next_occupied(reg, from) <= reg.len() || (from > reg.len() && next_occupied(reg, from) == reg.len()),
        next_occupied(reg, from) < reg.len() ==> reg[next_occupied(reg, from)] is Some,
        forall|i: int| from <= i < next_occupied(reg, from) ==> #[trigger] reg[i] is None,
    decreases reg.len() - from,
{
    if from < reg.len() && reg[from] is None {
        lemma_next_occupied(reg, from + 1);
    }
}

/// Every slot that the record under way has not reached, and the record
/// itself while it is not yet opened, holds what `init` holds.
pub open spec fn untouched(init: Seq<Option<DappView>>, v: EnricherView) -> bool {
    &&& v.registry.len() == init.len()
    &&& forall|i: int| v.position < i < init.len() ==> #[trigger] v.registry[i] == init[i]
    &&& (v.phase is Locating || v.phase is Opening) ==> v.registry[v.position] == init[v.position]
}

proof fn lemma_step_wf(v: EnricherView, e: EnrichEvent)
    requires
        view_wf(v),
    ensures
        view_wf(step(v, e)),
        step(v, e).position >= v.position,
        step(v, e).registry.len() == v.registry.len(),
        forall|i: int| 0 <= i < v.registry.len() && i != v.position ==> #[trigger] step(v, e).registry[i] == v.registry[i],
        !(v.phase is Probing) ==> step(v, e).registry == v.registry,
        step(v, e).position > v.position ==> step(v, e).registry == v.registry,
{
    if v.position < v.registry.len() {
        lemma_next_occupied(v.registry, v.position + 1);
    }
    let w = step(v, e);
    if v.phase is Probing {
        assert forall|i: int| 0 <= i < w.registry.len() && (#[trigger] w.registry[i]) is Some implies
            w.registry[i]->Some_0.project_name.len() > 0 by {
            if i != v.position {
                assert(w.registry[i] == v.registry[i]);
            }
        }
    }
}

proof fn lemma_step_untouched(init: Seq<Option<DappView>>, v: EnricherView, e: EnrichEvent)
    requires
        view_wf(v),
        untouched(init, v),
    ensures
        untouched(init, step(v, e)),
{
    lemma_step_wf(v, e);
    if v.position < v.registry.len() {
        lemma_next_occupied(v.registry, v.position + 1);
    }
    let w = step(v, e);
    assert forall|i: int| w.position < i < init.len() implies #[trigger] w.registry[i] == init[i] by {
        assert(w.registry[i] == v.registry[i]);
    }
    if (w.phase is Locating || w.phase is Opening) && w.position > v.position {
        assert(w.registry[w.position] == v.registry[w.position]);
    }
    if (w.phase is Locating || w.phase is Opening) && w.position == v.position && w.position < init.len() {
        assert(!(v.phase is Probing));
        assert(!(v.phase is Returning));
        assert(w.registry == v.registry);
    }
}

proof fn lemma_run_keeps_passed(v: EnricherView, events: Seq<EnrichEvent>, i: int)
    requires
        view_wf(v),
        0 <= i < v.position,
    ensures
        view_wf(run(v, events)),
        run(v, events).registry[i] == v.registry[i],
    decreases events.len(),
{
    if events.len() > 0 {
        lemma_step_wf(v, events[0]);
        lemma_run_keeps_passed(step(v, events[0]), events.drop_first(), i);
    }
}

proof fn lemma_run_untouched(init: Seq<Option<DappView>>, v: EnricherView, events: Seq<EnrichEvent>)
    requires
        view_wf(v),
        untouched(init, v),
    ensures
        view_wf(run(v, events)),
        untouched(init, run(v, events)),
    decreases events.len(),
{
    if events.len() > 0 {
        lemma_step_wf(v, events[0]);
        lemma_step_untouched(init, v, events[0]);
        lemma_run_untouched(init, step(v, events[0]), events.drop_first());
    }
}

/// A record whose title is found neither by the exact nor by the substring
/// locator is skipped: from the registry that discovery built, whatever
/// events come before and after the skip, its entry stays the freshly
/// discovered record, every field but the name empty.
pub proof fn lemma_unlocated_record_keeps_defaults(
    titles: Seq<Seq<char>>,
    capture: bool,
    before: Seq<EnrichEvent>,
    after: Seq<EnrichEvent>,
)
    requires
        run(start(discovered(titles), capture), before).phase == Phase::Locating(MatchMode::Contains),
    ensures
        ({
            let v = run(start(discovered(titles), capture), before);
            &&& 0 <= v.position < titles.len()
            &&& run(step(v, EnrichEvent::NotLocated), after).registry[v.position] == Some(
                default_dapp(titles[v.position]),
            )
        }),
{
    let init = discovered(titles);
    let s = start(init, capture);
    lemma_next_occupied(init, 0);
    assert(view_wf(s));
    lemma_run_untouched(init, s, before);
    let v = run(s, before);
    let w = step(v, EnrichEvent::NotLocated);
    lemma_step_wf(v, EnrichEvent::NotLocated);
    assert(v.registry[v.position] == init[v.position]);
    lemma_next_occupied(v.registry, v.position + 1);
    lemma_run_keeps_passed(w, after, v.position);
}

} // verus!

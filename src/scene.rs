//! The per-tick rules that react to markers, on one process.
//!
//! Each tick runs the structural reaction first (attach one child to each
//! childless marker), then the feedback rule (recolour the label when exactly
//! one marker is new this tick and already has its children). `Scene` models
//! the markers one process sees and the label's colour across ticks.
use vstd::prelude::*;

verus! {

/// What the rules see of one marker entity.
#[derive(Clone, Copy, Debug, PartialEq, Eq, Structural)]
pub struct MarkerView {
    /// The entity's identifier.
    pub entity: u64,
    /// How many children the entity has.
    pub children: usize,
    /// Whether the marker was created or replicated in since the last tick.
    pub fresh: bool,
}

/// What the feedback rule did on a tick.
#[derive(Clone, Copy, Debug, PartialEq, Eq, Structural)]
pub enum Feedback {
    /// No single new marker was seen; nothing changes.
    Unchanged,
    /// A new marker was seen but there is no single label to recolour.
    NoLabel,
    /// The label takes the observed colour.
    Recolor,
}

/// The entities of the childless markers, in order.
pub open spec fn childless(s: Seq<MarkerView>) -> Seq<u64>
    decreases s.len(),
{
    if s.len() == 0 {
        Seq::empty()
    } else if s.last().children == 0 {
        childless(s.drop_last()).push(s.last().entity)
    } else {
        childless(s.drop_last())
    }
}

/// A marker after the structural reaction: a childless one gains one child.
pub open spec fn react_one(m: MarkerView) -> MarkerView {
    if m.children == 0 {
        MarkerView { entity: m.entity, children: 1, fresh: m.fresh }
    } else {
        m
    }
}

pub open spec fn react(s: Seq<MarkerView>) -> Seq<MarkerView> {
    s.map_values(|m: MarkerView| react_one(m))
}

/// The markers at the end of a tick: none is new any more.
pub open spec fn settle(s: Seq<MarkerView>) -> Seq<MarkerView> {
    s.map_values(|m: MarkerView| MarkerView { entity: m.entity, children: m.children, fresh: false })
}

/// Whether the feedback rule's query matches a marker: new, with children.
pub open spec fn is_observed(m: MarkerView) -> bool {
    m.fresh && m.children > 0
}

/// How many markers the feedback rule's query matches.
pub open spec fn observed(s: Seq<MarkerView>) -> nat
    decreases s.len(),
{
    if s.len() == 0 {
        0
    } else {
        observed(s.drop_last()) + if is_observed(s.last()) { 1nat } else { 0nat }
    }
}

/// The feedback rule acts only on a single match and a single label.
pub open spec fn feedback_spec(matches: nat, labels: nat) -> Feedback {
    if matches != 1 {
        Feedback::Unchanged
    } else if labels != 1 {
        Feedback::NoLabel
    } else {
        Feedback::Recolor
    }
}

/// The markers after one tick.
pub open spec fn tick_markers(s: Seq<MarkerView>) -> Seq<MarkerView> {
    settle(react(s))
}

/// What the feedback rule does on the tick that starts with `s`.
pub open spec fn tick_feedback(s: Seq<MarkerView>, labels: nat) -> Feedback {
    feedback_spec(observed(react(s)), labels)
}

/// The markers after `n` ticks with no marker arriving.
pub open spec fn after_ticks(s: Seq<MarkerView>, n: nat) -> Seq<MarkerView>
    decreases n,
{
    if n == 0 {
        s
    } else {
        after_ticks(tick_markers(s), (n - 1) as nat)
    }
}

/// Every child attachment over `n` ticks with no marker arriving, in order.
pub open spec fn attached_over(s: Seq<MarkerView>, n: nat) -> Seq<u64>
    decreases n,
{
    if n == 0 {
        Seq::empty()
    } else {
        childless(s) + attached_over(tick_markers(s), (n - 1) as nat)
    }
}

/// How many of `n` ticks with no marker arriving recolour the label.
pub open spec fn recolors_over(s: Seq<MarkerView>, labels: nat, n: nat) -> nat
    decreases n,
{
    if n == 0 {
        0
    } else {
        (if tick_feedback(s, labels) == Feedback::Recolor { 1nat } else { 0nat })
            + recolors_over(tick_markers(s), labels, (n - 1) as nat)
    }
}

/// Structural reaction: attaches one child to every childless marker and
/// returns those markers' entities. Markers with children are left alone.
pub fn structural_reaction(markers: &mut Vec<MarkerView>) -> (attached: Vec<u64>)
    ensures
        attached@ == childless(old(markers)@),
        final(markers)@ == react(old(markers)@),
{
    let mut attached: Vec<u64> = Vec::new();
    let len = markers.len();
    let mut i: usize = 0;
    while i < len
        invariant
            0 <= i <= len,
            len == old(markers)@.len(),
            markers@.len() == len,
            forall|j: int| 0 <= j < i ==> markers@[j] == react_one(old(markers)@[j]),
            forall|j: int| i <= j < len ==> markers@[j] == old(markers)@[j],
            attached@ == childless(old(markers)@.subrange(0, i as int)),
        decreases len - i,
    {
        let m = markers[i];
        if m.children == 0 {
            attached.push(m.entity);
            markers.set(i, MarkerView { entity: m.entity, children: 1, fresh: m.fresh });
        }
        assert(old(markers)@.subrange(0, i + 1).drop_last() =~= old(markers)@.subrange(0, i as int));
        i += 1;
    }
    assert(markers@ =~= react(old(markers)@));
    assert(old(markers)@.subrange(0, len as int) =~= old(markers)@);
    attached
}

/// How many markers are new this tick and already have children.
pub fn observed_count(markers: &Vec<MarkerView>) -> (r: usize)
    ensures
        r == observed(markers@),
{
    let mut count: usize = 0;
    let mut i: usize = 0;
    while i < markers.len()
        invariant
            0 <= i <= markers@.len(),
            count == observed(markers@.subrange(0, i as int)),
            count <= i,
        decreases markers@.len() - i,
    {
        let m = markers[i];
        assert(markers@.subrange(0, i + 1).drop_last() =~= markers@.subrange(0, i as int));
        if m.fresh && m.children > 0 {
            count += 1;
        }
        i += 1;
    }
    assert(markers@.subrange(0, markers@.len() as int) =~= markers@);
    count
}

/// Feedback rule: given how many markers the query matched and how many
/// labels exist, decides whether the label is recoloured.
pub fn feedback(matches: usize, labels: usize) -> (r: Feedback)
    ensures
        r == feedback_spec(matches as nat, labels as nat),
{
    if matches != 1 {
        Feedback::Unchanged
    } else if labels != 1 {
        Feedback::NoLabel
    } else {
        Feedback::Recolor
    }
}

/// What one tick did.
#[derive(Debug)]
pub struct TickReport {
    /// The markers that gained a child this tick.
    pub attached: Vec<u64>,
    /// What the feedback rule did.
    pub feedback: Feedback,
}

/// The markers one process sees, its labels, and whether the label shows the
/// observed colour.
pub struct Scene {
    pub markers: Vec<MarkerView>,
    pub labels: usize,
    pub label_observed: bool,
}

impl Scene {
    /// A scene with no marker and the label in its default colour.
    pub fn new(labels: usize) -> (r: Scene)
        ensures
            r.markers@.len() == 0,
            r.labels == labels,
            !r.label_observed,
    {
        Scene { markers: Vec::new(), labels, label_observed: false }
    }

    /// A marker appears: created here by the host, or replicated in on a
    /// peer. It is new and has no children.
    pub fn arrive(&mut self, entity: u64)
        ensures
            final(self).markers@ == old(self).markers@.push(
                MarkerView { entity, children: 0, fresh: true },
            ),
            final(self).labels == old(self).labels,
            final(self).label_observed == old(self).label_observed,
    {
        self.markers.push(MarkerView { entity, children: 0, fresh: true });
    }

    /// One tick: the structural reaction, then the feedback rule; afterwards
    /// no marker counts as new. Once observed, the label never reverts.
    pub fn tick(&mut self) -> (r: TickReport)
        ensures
            r.attached@ == childless(old(self).markers@),
            r.feedback == tick_feedback(old(self).markers@, old(self).labels as nat),
            final(self).markers@ == tick_markers(old(self).markers@),
            final(self).labels == old(self).labels,
            final(self).label_observed == (old(self).label_observed || r.feedback == Feedback::Recolor),
    {
        let attached = structural_reaction(&mut self.markers);
        let matches = observed_count(&self.markers);
        let fb = feedback(matches, self.labels);
        if fb == Feedback::Recolor {
            self.label_observed = true;
        }
        let ghost reacted = self.markers@;
        let len = self.markers.len();
        let mut i: usize = 0;
        while i < len
            invariant
                0 <= i <= len,
                len == reacted.len(),
                self.markers@.len() == len,
                self.labels == old(self).labels,
                self.label_observed == (old(self).label_observed || fb == Feedback::Recolor),
                forall|j: int| 0 <= j < i ==> self.markers@[j] == (MarkerView {
                    entity: reacted[j].entity,
                    children: reacted[j].children,
                    fresh: false,
                }),
                forall|j: int| i <= j < len ==> self.markers@[j] == reacted[j],
            decreases len - i,
        {
            let m = self.markers[i];
            self.markers.set(i, MarkerView { entity: m.entity, children: m.children, fresh: false });
            i += 1;
        }
        assert(self.markers@ =~= settle(reacted));
        TickReport { attached, feedback: fb }
    }
}

proof fn lemma_childless_none(s: Seq<MarkerView>)
    requires
        forall|i: int| 0 <= i < s.len() ==> s[i].children > 0,
    ensures
        childless(s) == Seq::<u64>::empty(),
    decreases s.len(),
{
    if s.len() > 0 {
        lemma_childless_none(s.drop_last());
    }
}

proof fn lemma_observed_none(s: Seq<MarkerView>)
    requires
        forall|i: int| 0 <= i < s.len() ==> !s[i].fresh,
    ensures
        observed(s) == 0,
    decreases s.len(),
{
    if s.len() > 0 {
        lemma_observed_none(s.drop_last());
    }
}

/// Once every marker has a child, later ticks attach nothing.
proof fn lemma_no_attach_when_parented(s: Seq<MarkerView>, n: nat)
    requires
        forall|i: int| 0 <= i < s.len() ==> s[i].children > 0,
    ensures
        attached_over(s, n) == Seq::<u64>::empty(),
    decreases n,
{
    if n > 0 {
        lemma_childless_none(s);
        lemma_no_attach_when_parented(tick_markers(s), (n - 1) as nat);
        assert(childless(s) + attached_over(tick_markers(s), (n - 1) as nat) =~= Seq::<u64>::empty());
    }
}

/// Structural idempotence: over any number of ticks, every attachment is made
/// on the first tick, to the markers childless then, one child each; no tick
/// after it attaches anything.
pub proof fn lemma_attach_at_most_once(s: Seq<MarkerView>, n: nat)
    requires
        n > 0,
    ensures
        attached_over(s, n) == childless(s),
        attached_over(tick_markers(s), (n - 1) as nat) == Seq::<u64>::empty(),
{
    lemma_no_attach_when_parented(tick_markers(s), (n - 1) as nat);
    assert(childless(s) + Seq::<u64>::empty() =~= childless(s));
}

/// A tick that starts with no new marker leaves the label alone.
proof fn lemma_no_recolor_when_settled(s: Seq<MarkerView>, labels: nat, n: nat)
    requires
        forall|i: int| 0 <= i < s.len() ==> !s[i].fresh,
    ensures
        recolors_over(s, labels, n) == 0,
    decreases n,
{
    if n > 0 {
        lemma_observed_none(react(s));
        lemma_no_recolor_when_settled(tick_markers(s), labels, (n - 1) as nat);
    }
}

/// Observation triggers exactly once: with a single marker that has just
/// arrived and a single label, the first tick recolours the label (the marker
/// has its child by then) and no later tick does.
pub proof fn lemma_observed_exactly_once(s: Seq<MarkerView>, n: nat)
    requires
        s.len() == 1,
        s[0].fresh,
    ensures
        tick_feedback(s, 1) == Feedback::Recolor,
        recolors_over(s, 1, n) == if n == 0 { 0nat } else { 1nat },
{
    let r = react(s);
    assert(r.drop_last().len() == 0);
    assert(r.last() == react_one(s[0]));
    assert(observed(r.drop_last()) == 0);
    assert(is_observed(r.last()));
    assert(observed(r) == 1);
    if n > 0 {
        lemma_no_recolor_when_settled(tick_markers(s), 1, (n - 1) as nat);
    }
}

/// The per-tick rules create no marker and remove none: a tick keeps the
/// markers, in order, with their entities.
pub proof fn lemma_rules_keep_markers(s: Seq<MarkerView>)
    ensures
        tick_markers(s).len() == s.len(),
        forall|i: int| 0 <= i < s.len() ==> #[trigger] tick_markers(s)[i].entity == s[i].entity,
        forall|i: int| 0 <= i < s.len() ==> #[trigger] tick_markers(s)[i].children >= s[i].children,
{
}

} // verus!

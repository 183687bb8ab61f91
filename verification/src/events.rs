//! Collision events as the engine reports them, and the rule deciding which
//! of them count as a collect.

use vstd::prelude::*;

verus! {

/// Whether two sprites' bounds began or ceased overlapping.
#[derive(PartialEq, Eq, Structural, Clone, Copy, Debug)]
pub enum CollisionState {
    Begin,
    End,
}

/// One collision notification: its phase and the labels of the two sprites
/// involved.
#[derive(PartialEq, Clone, Debug)]
pub struct CollisionEvent {
    pub state: CollisionState,
    pub name_a: String,
    pub name_b: String,
}

/// `p` is a prefix of `s`.
pub open spec fn seq_starts_with(s: Seq<char>, p: Seq<char>) -> bool {
    p.len() <= s.len() && forall|i: int| 0 <= i < p.len() ==> s[i] == p[i]
}

/// The label of the player's sprite.
pub open spec fn player_name() -> Seq<char> {
    "player"@
}

/// A collision counts as a collect when it has just begun and exactly one of
/// the two sprites' labels starts with the player's.
pub open spec fn is_collect(e: CollisionEvent) -> bool {
    e.state == CollisionState::Begin && (seq_starts_with(e.name_a@, player_name())
        != seq_starts_with(e.name_b@, player_name()))
}

/// How many of the events count as a collect.
pub open spec fn collect_count(events: Seq<CollisionEvent>) -> nat
    decreases events.len(),
{
    if events.len() == 0 {
        0
    } else {
        collect_count(events.drop_last()) + if is_collect(events.last()) {
            1nat
        } else {
            0nat
        }
    }
}

/// Extending a prefix by one event adds that event's contribution to the
/// count.
pub proof fn lemma_collect_count_step(events: Seq<CollisionEvent>, i: int)
    requires
        0 <= i < events.len(),
    ensures
        collect_count(events.subrange(0, i + 1)) == collect_count(events.subrange(0, i)) + if is_collect(events[i]) {
            1nat
        } else {
            0nat
        },
{
    assert(events.subrange(0, i + 1).drop_last() =~= events.subrange(0, i));
    assert(events.subrange(0, i + 1).last() == events[i]);
}

/// A prefix never holds more collects than the whole.
pub proof fn lemma_collect_count_prefix_le(events: Seq<CollisionEvent>, i: int)
    requires
        0 <= i <= events.len(),
    ensures
        collect_count(events.subrange(0, i)) <= collect_count(events),
    decreases events.len() - i,
{
    if i == events.len() {
        assert(events.subrange(0, i) =~= events);
    } else {
        lemma_collect_count_step(events, i);
        lemma_collect_count_prefix_le(events, i + 1);
    }
}

/// Decides whether `p` is a prefix of `s`.
pub fn str_starts_with(s: &str, p: &str) -> (r: bool)
    ensures
        r == seq_starts_with(s@, p@),
{
    let sl = s.unicode_len();
    let pl = p.unicode_len();
    if pl > sl {
        return false;
    }
    let mut i: usize = 0;
    while i < pl
        invariant
            i <= pl,
            pl == p@.len(),
            sl == s@.len(),
            pl <= sl,
            forall|j: int| 0 <= j < i ==> s@[j] == p@[j],
        decreases pl - i,
    {
        if s.get_char(i) != p.get_char(i) {
            return false;
        }
        i = i + 1;
    }
    true
}

/// Decides whether two labels are the same.
pub fn str_eq(s: &str, p: &str) -> (r: bool)
    ensures
        r == (s@ == p@),
{
    let sl = s.unicode_len();
    let pl = p.unicode_len();
    if sl != pl {
        return false;
    }
    let r = str_starts_with(s, p);
    proof {
        if seq_starts_with(s@, p@) {
            assert(s@ =~= p@);
        }
    }
    r
}

/// Decides whether an event counts as a collect.
pub fn event_is_collect(e: &CollisionEvent) -> (r: bool)
    ensures
        r == is_collect(*e),
{
    if e.state == CollisionState::End {
        return false;
    }
    let a = str_starts_with(e.name_a.as_str(), "player");
    let b = str_starts_with(e.name_b.as_str(), "player");
    a != b
}

/// Counts the events that count as a collect.
pub fn count_collects(events: &Vec<CollisionEvent>) -> (n: usize)
    ensures
        n == collect_count(events@),
{
    let mut n: usize = 0;
    let mut i: usize = 0;
    while i < events.len()
        invariant
            i <= events@.len(),
            n <= i,
            n == collect_count(events@.subrange(0, i as int)),
        decreases events@.len() - i,
    {
        proof {
            lemma_collect_count_step(events@, i as int);
        }
        if event_is_collect(&events[i]) {
            n = n + 1;
        }
        i = i + 1;
    }
    proof {
        assert(events@.subrange(0, events@.len() as int) =~= events@);
    }
    n
}

} // verus!

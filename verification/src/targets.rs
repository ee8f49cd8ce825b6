//! Follow-target selection.
//!
//! A camera either follows an explicitly requested entity or picks one
//! automatically among the enabled follow candidates: the highest priority
//! wins, and among equal priorities the lower entity index wins.
use vstd::prelude::*;

verus! {

/// What automatic selection reads of one follow candidate.
#[derive(Clone, Copy, Debug, PartialEq, Eq, Structural)]
pub struct TargetCandidate {
    /// Index of the candidate entity (ties go to the lower index).
    pub entity_index: u32,
    /// Selection priority (higher wins).
    pub priority: i32,
    /// Disabled candidates are never selected.
    pub enabled: bool,
}

/// `a` is strictly preferred over `b`: higher priority, or equal priority and
/// a lower entity index.
pub open spec fn outranks(a: TargetCandidate, b: TargetCandidate) -> bool {
    a.priority > b.priority || (a.priority == b.priority && a.entity_index < b.entity_index)
}

/// Some candidate of `s` is enabled.
pub open spec fn has_enabled(s: Seq<TargetCandidate>) -> bool {
    exists|i: int| 0 <= i < s.len() && #[trigger] s[i].enabled
}

/// Position `k` is the candidate that automatic selection settles on when it
/// walks `s` in order: it is enabled, it outranks every enabled candidate
/// before it, and no enabled candidate after it outranks it.
pub open spec fn is_selected(s: Seq<TargetCandidate>, k: int) -> bool {
    &&& 0 <= k < s.len()
    &&& s[k].enabled
    &&& forall|i: int| 0 <= i < k && #[trigger] s[i].enabled ==> outranks(s[k], s[i])
    &&& forall|i: int| k < i < s.len() && #[trigger] s[i].enabled ==> !outranks(s[i], s[k])
}

/// No two candidates of `s` share an entity index.
pub open spec fn distinct_entities(s: Seq<TargetCandidate>) -> bool {
    forall|i: int, j: int|
        0 <= i < s.len() && 0 <= j < s.len() && i != j ==> #[trigger] s[i].entity_index
            != #[trigger] s[j].entity_index
}

/// Picks the automatic follow target among `candidates`, returning its
/// position, or `None` when no candidate is enabled.
pub fn select_auto_target(candidates: &Vec<TargetCandidate>) -> (r: Option<usize>)
    ensures
        r is None <==> !has_enabled(candidates@),
        r matches Some(k) ==> is_selected(candidates@, k as int),
{
    let mut best: Option<usize> = None;
    let n = candidates.len();
    let mut j: usize = 0;
    while j < n
        invariant
            n == candidates@.len(),
            j <= n,
            best is None <==> forall|i: int| 0 <= i < j ==> !(#[trigger] candidates@[i]).enabled,
            best matches Some(b) ==> {
                &&& b < j
                &&& candidates@[b as int].enabled
                &&& forall|i: int|
                    0 <= i < b && #[trigger] candidates@[i].enabled ==> outranks(
                        candidates@[b as int],
                        candidates@[i],
                    )
                &&& forall|i: int|
                    b < i < j && #[trigger] candidates@[i].enabled ==> !outranks(
                        candidates@[i],
                        candidates@[b as int],
                    )
            },
        decreases n - j,
    {
        let c = candidates[j];
        if c.enabled {
            let replace = match best {
                None => true,
                Some(b) => {
                    let cur = candidates[b];
                    c.priority > cur.priority || (c.priority == cur.priority && c.entity_index
                        < cur.entity_index)
                },
            };
            if replace {
                best = Some(j);
            }
        }
        j = j + 1;
    }
    proof {
        if best is None {
            assert(!has_enabled(candidates@));
        }
    }
    best
}

/// How a camera's follow target was resolved on a frame.
#[derive(Clone, Copy, Debug, PartialEq, Eq, Structural)]
pub enum TargetChoice {
    /// The explicitly requested entity is followed.
    Explicit,
    /// The candidate at this position is followed.
    Automatic(usize),
    /// Nothing is followed this frame.
    Unresolved,
}

/// Resolves a camera's follow target.
///
/// `explicit` is `None` when the camera requests no entity, and otherwise
/// says whether the requested entity can be followed (it has a transform).
/// An explicit request always wins over automatic selection, even when the
/// requested entity cannot be followed.
pub fn resolve_target_candidate(explicit: Option<bool>, candidates: &Vec<TargetCandidate>) -> (r:
    TargetChoice)
    ensures
        explicit == Some(true) ==> r == TargetChoice::Explicit,
        explicit == Some(false) ==> r == TargetChoice::Unresolved,
        explicit is None ==> match r {
            TargetChoice::Explicit => false,
            TargetChoice::Automatic(k) => is_selected(candidates@, k as int),
            TargetChoice::Unresolved => !has_enabled(candidates@),
        },
{
    match explicit {
        Some(true) => TargetChoice::Explicit,
        Some(false) => TargetChoice::Unresolved,
        None => match select_auto_target(candidates) {
            Some(k) => TargetChoice::Automatic(k),
            None => TargetChoice::Unresolved,
        },
    }
}

/// Automatic selection finds a target exactly when some candidate is
/// enabled: one enabled candidate is enough, and with none enabled there is
/// nothing to select.
pub proof fn lemma_selection_needs_enabled_candidate(s: Seq<TargetCandidate>, i: int)
    ensures
        0 <= i < s.len() && s[i].enabled ==> has_enabled(s),
        !has_enabled(s) ==> forall|j: int| 0 <= j < s.len() ==> !(#[trigger] s[j]).enabled,
        !has_enabled(s) ==> forall|k: int| !is_selected(s, k),
{
}

/// The selected candidate has the highest priority among the enabled
/// candidates, and the lowest entity index among the enabled candidates of
/// that priority.
pub proof fn lemma_selected_has_highest_priority(s: Seq<TargetCandidate>, k: int)
    requires
        is_selected(s, k),
    ensures
        forall|i: int| 0 <= i < s.len() && #[trigger] s[i].enabled ==> s[i].priority <= s[k].priority,
        forall|i: int|
            0 <= i < s.len() && #[trigger] s[i].enabled && s[i].priority == s[k].priority
                ==> s[k].entity_index <= s[i].entity_index,
{
}

/// When entity indices are distinct, the selected candidate is exactly the
/// enabled candidate that outranks every other enabled candidate: highest
/// priority first, lower entity index on ties, whatever the order of the
/// candidates.
pub proof fn lemma_selected_outranks_all(s: Seq<TargetCandidate>, k: int)
    requires
        distinct_entities(s),
        is_selected(s, k),
    ensures
        forall|i: int| 0 <= i < s.len() && i != k && #[trigger] s[i].enabled ==> outranks(s[k], s[i]),
{
    assert forall|i: int| 0 <= i < s.len() && i != k && #[trigger] s[i].enabled implies outranks(
        s[k],
        s[i],
    ) by {
        if i > k {
            assert(s[i].entity_index != s[k].entity_index);
        }
    }
}

/// Automatic selection does not depend on the order in which candidates are
/// visited: any two orderings of the same candidates select the same
/// candidate.
pub proof fn lemma_selection_ignores_order(s1: Seq<TargetCandidate>, s2: Seq<TargetCandidate>, k1: int, k2: int)
    requires
        s1.to_multiset() =~= s2.to_multiset(),
        is_selected(s1, k1),
        is_selected(s2, k2),
    ensures
        s1[k1] == s2[k2],
{
    broadcast use vstd::seq_lib::to_multiset_contains;

    let a = s1[k1];
    let b = s2[k2];
    assert(s1.contains(a));
    assert(s2.to_multiset().count(a) > 0);
    assert(s2.contains(a));
    assert(s2.contains(b));
    assert(s1.to_multiset().count(b) > 0);
    assert(s1.contains(b));
    let j = choose|j: int| 0 <= j < s2.len() && s2[j] == a;
    let m = choose|m: int| 0 <= m < s1.len() && s1[m] == b;
    assert(s1[m].enabled && s2[j].enabled);
    if !outranks(a, b) && !outranks(b, a) {
        assert(a.priority == b.priority && a.entity_index == b.entity_index);
    }
}

} // verus!

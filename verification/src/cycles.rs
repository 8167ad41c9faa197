use vstd::prelude::*;
use vstd::seq_lib::lemma_seq_union_to_multiset_commutative;

use crate::action::{is_slot, Action};
use crate::entry::{entry_eq, is_empty_entry, CycleEntry};

verus! {

/// What a membership toggle did to a cycle.
#[derive(Clone, Copy, Debug, PartialEq, Eq, Structural, Hash)]
pub enum MenuEventResponse {
    ItemAdded,
    ItemRemoved,
    NoChange,
}

impl MenuEventResponse {
    /// True when the toggle changed the cycle's membership, which is
    /// exactly when the controller owes the persistence layer a write.
    pub fn changed_membership(&self) -> (r: bool)
        ensures
            r == (*self == MenuEventResponse::ItemAdded || *self
                == MenuEventResponse::ItemRemoved),
    {
        matches!(self, MenuEventResponse::ItemAdded | MenuEventResponse::ItemRemoved)
    }
}

/// No two entries of the sequence are the same item under full-value
/// equality. Every slot's rotation keeps this invariant.
pub open spec fn unique_entries(s: Seq<CycleEntry>) -> bool {
    forall|i: int, j: int| 0 <= i < j < s.len() ==> !entry_eq(s[i], s[j])
}

/// Some entry of the sequence equals `e` under full-value equality.
pub open spec fn has_entry(s: Seq<CycleEntry>, e: CycleEntry) -> bool {
    exists|i: int| 0 <= i < s.len() && entry_eq(s[i], e)
}

/// The index of the entry equal to `e`. Meaningful when `has_entry` holds
/// and the sequence is duplicate-free, which makes the index unique.
pub open spec fn entry_index(s: Seq<CycleEntry>, e: CycleEntry) -> int {
    choose|i: int| 0 <= i < s.len() && entry_eq(s[i], e)
}

/// The sequence rotated left by `d` places, `d` reduced modulo the length:
/// the first `d % len` entries move to the end, order preserved.
pub open spec fn rotated(s: Seq<CycleEntry>, d: int) -> Seq<CycleEntry> {
    if s.len() == 0 {
        s
    } else {
        let k = d % (s.len() as int);
        s.subrange(k, s.len() as int) + s.subrange(0, k)
    }
}

/// What toggling `e` leaves behind: `e` removed where present, appended at
/// the end where absent.
pub open spec fn toggled(s: Seq<CycleEntry>, e: CycleEntry) -> Seq<CycleEntry> {
    if has_entry(s, e) {
        s.remove(entry_index(s, e))
    } else {
        s.push(e)
    }
}

/// The response a toggle of `e` reports for a cycle holding `s`.
pub open spec fn toggle_outcome(s: Seq<CycleEntry>, e: CycleEntry) -> MenuEventResponse {
    if has_entry(s, e) {
        MenuEventResponse::ItemRemoved
    } else {
        MenuEventResponse::ItemAdded
    }
}

/// How often an entry equal to `e` occurs in the sequence.
pub open spec fn entry_count(s: Seq<CycleEntry>, e: CycleEntry) -> nat
    decreases s.len(),
{
    if s.len() == 0 {
        0
    } else {
        entry_count(s.drop_last(), e) + (if entry_eq(s.last(), e) {
            1nat
        } else {
            0nat
        })
    }
}

/// The sequence with every later duplicate of an earlier entry dropped:
/// the first occurrence wins, order is otherwise preserved.
pub open spec fn deduped(s: Seq<CycleEntry>) -> Seq<CycleEntry>
    decreases s.len(),
{
    if s.len() == 0 {
        s
    } else if has_entry(s.drop_last(), s.last()) {
        deduped(s.drop_last())
    } else {
        deduped(s.drop_last()).push(s.last())
    }
}

/// Appending an entry that is not yet present keeps a sequence
/// duplicate-free.
proof fn lemma_push_unique(s: Seq<CycleEntry>, e: CycleEntry)
    requires
        unique_entries(s),
        !has_entry(s, e),
    ensures
        unique_entries(s.push(e)),
{
    let t = s.push(e);
    assert forall|i: int, j: int| 0 <= i < j < t.len() implies !entry_eq(t[i], t[j]) by {
        if j < s.len() {
            assert(!entry_eq(s[i], s[j]));
        } else {
            assert(t[j] == e);
            assert(!entry_eq(s[i], e));
        }
    }
}

/// Removing an entry keeps a sequence duplicate-free.
proof fn lemma_remove_unique(s: Seq<CycleEntry>, idx: int)
    requires
        unique_entries(s),
        0 <= idx < s.len(),
    ensures
        unique_entries(s.remove(idx)),
{
    let t = s.remove(idx);
    assert forall|i: int, j: int| 0 <= i < j < t.len() implies !entry_eq(t[i], t[j]) by {
        let i0 = if i < idx {
            i
        } else {
            i + 1
        };
        let j0 = if j < idx {
            j
        } else {
            j + 1
        };
        assert(t[i] == s[i0]);
        assert(t[j] == s[j0]);
        assert(!entry_eq(s[i0], s[j0]));
    }
}

/// A rotation keeps a sequence duplicate-free.
proof fn lemma_rotated_unique(s: Seq<CycleEntry>, d: int)
    requires
        unique_entries(s),
        0 <= d,
    ensures
        unique_entries(rotated(s, d)),
{
    if s.len() > 0 {
        let len = s.len() as int;
        let k = d % len;
        let r = rotated(s, d);
        assert forall|i: int, j: int| 0 <= i < j < r.len() implies !entry_eq(r[i], r[j]) by {
            let i0 = if i < len - k {
                k + i
            } else {
                i - (len - k)
            };
            let j0 = if j < len - k {
                k + j
            } else {
                j - (len - k)
            };
            assert(r[i] == s[i0]);
            assert(r[j] == s[j0]);
            if i0 < j0 {
                assert(!entry_eq(s[i0], s[j0]));
            } else {
                assert(!entry_eq(s[j0], s[i0]));
            }
        }
    }
}

/// An absent entry is counted zero times.
proof fn lemma_absent_count_zero(s: Seq<CycleEntry>, e: CycleEntry)
    requires
        !has_entry(s, e),
    ensures
        entry_count(s, e) == 0,
    decreases s.len(),
{
    if s.len() > 0 {
        assert(!entry_eq(s.last(), e)) by {
            assert(s[s.len() - 1] == s.last());
        }
        assert(!has_entry(s.drop_last(), e)) by {
            assert(forall|i: int|
                0 <= i < s.drop_last().len() ==> s.drop_last()[i] == s[i]);
        }
        lemma_absent_count_zero(s.drop_last(), e);
    }
}

/// Rotating a cycle only reorders it: the result holds the same multiset
/// of entries, and a rotation by the cycle's full length restores the
/// original order exactly.
pub proof fn lemma_rotation_preserves_membership(s: Seq<CycleEntry>, d: int)
    requires
        0 <= d,
    ensures
        rotated(s, d).to_multiset() == s.to_multiset(),
        rotated(s, s.len() as int) == s,
{
    if s.len() == 0 {
        assert(rotated(s, s.len() as int) == s);
    } else {
        let len = s.len() as int;
        let k = d % len;
        let front = s.subrange(0, k);
        let back = s.subrange(k, len);
        lemma_seq_union_to_multiset_commutative(back, front);
        assert(front + back =~= s);
        assert(rotated(s, d).to_multiset() == s.to_multiset());
        assert(len % len == 0);
        assert(rotated(s, len) =~= s);
    }
}

/// Toggling an absent entry into a cycle and then toggling it again
/// restores the cycle exactly: same entries, same order.
pub proof fn lemma_toggle_twice_restores(s: Seq<CycleEntry>, e: CycleEntry)
    requires
        unique_entries(s),
        !has_entry(s, e),
    ensures
        toggled(s, e) == s.push(e),
        toggled(toggled(s, e), e) == s,
{
    let t = s.push(e);
    assert(entry_eq(t[s.len() as int], e));
    assert(has_entry(t, e));
    let idx = entry_index(t, e);
    assert(0 <= idx < t.len() && entry_eq(t[idx], e));
    if idx < s.len() {
        assert(entry_eq(s[idx], e));
        assert(false);
    }
    assert(idx == s.len());
    assert(t.remove(idx) =~= s);
}

/// A toggle that reports `ItemAdded` leaves the entry in the cycle exactly
/// once, and the cycle stays duplicate-free.
pub proof fn lemma_toggle_add_exactly_once(s: Seq<CycleEntry>, e: CycleEntry)
    requires
        unique_entries(s),
        toggle_outcome(s, e) == MenuEventResponse::ItemAdded,
    ensures
        unique_entries(toggled(s, e)),
        entry_count(toggled(s, e), e) == 1,
{
    assert(!has_entry(s, e));
    lemma_push_unique(s, e);
    let t = s.push(e);
    assert(t.drop_last() =~= s);
    assert(entry_eq(t.last(), e));
    lemma_absent_count_zero(s, e);
    assert(entry_count(t, e) == 1);
}

/// Deduplication yields a duplicate-free sequence with the same members,
/// and leaves a sequence that already was duplicate-free untouched.
proof fn lemma_deduped_props(s: Seq<CycleEntry>)
    ensures
        unique_entries(deduped(s)),
        forall|e: CycleEntry| has_entry(deduped(s), e) <==> has_entry(s, e),
        unique_entries(s) ==> deduped(s) == s,
    decreases s.len(),
{
    if s.len() == 0 {
    } else {
        let front = s.drop_last();
        let last = s.last();
        lemma_deduped_props(front);
        assert(forall|i: int| 0 <= i < front.len() ==> front[i] == s[i]);
        assert(s[s.len() - 1] == last);
        assert forall|e: CycleEntry| has_entry(s, e) implies has_entry(front, e) || entry_eq(
            last,
            e,
        ) by {
            let i = choose|i: int| 0 <= i < s.len() && entry_eq(s[i], e);
            if i < front.len() {
                assert(entry_eq(front[i], e));
            }
        }
        if has_entry(front, last) {
            assert(deduped(s) == deduped(front));
            assert forall|e: CycleEntry| has_entry(s, e) implies has_entry(deduped(s), e) by {
                if !has_entry(front, e) {
                    assert(entry_eq(last, e));
                    let i = choose|i: int| 0 <= i < front.len() && entry_eq(front[i], last);
                    assert(entry_eq(front[i], e));
                }
            }
            assert forall|e: CycleEntry| has_entry(deduped(s), e) implies has_entry(s, e) by {
                assert(has_entry(front, e));
                let i = choose|i: int| 0 <= i < front.len() && entry_eq(front[i], e);
                assert(entry_eq(s[i], e));
            }
            if unique_entries(s) {
                let i = choose|i: int| 0 <= i < front.len() && entry_eq(front[i], last);
                assert(entry_eq(s[i], s[s.len() - 1]));
                assert(false);
            }
        } else {
            assert(!has_entry(deduped(front), last));
            lemma_push_unique(deduped(front), last);
            assert(deduped(s) == deduped(front).push(last));
            assert forall|e: CycleEntry| has_entry(deduped(s), e) implies has_entry(s, e) by {
                let i = choose|i: int| 0 <= i < deduped(s).len() && entry_eq(deduped(s)[i], e);
                if i < deduped(front).len() {
                    assert(entry_eq(deduped(front)[i], e));
                    assert(has_entry(front, e));
                } else {
                    assert(entry_eq(last, e));
                }
            }
            assert forall|e: CycleEntry| has_entry(s, e) implies has_entry(deduped(s), e) by {
                if has_entry(front, e) {
                    assert(has_entry(deduped(front), e));
                    let i = choose|i: int|
                        0 <= i < deduped(front).len() && entry_eq(deduped(front)[i], e);
                    assert(entry_eq(deduped(s)[i], e));
                } else {
                    assert(entry_eq(last, e));
                    assert(entry_eq(deduped(s)[deduped(s).len() - 1], e));
                }
            }
            if unique_entries(s) {
                assert(unique_entries(front)) by {
                    assert(forall|i: int, j: int|
                        0 <= i < j < front.len() ==> !entry_eq(s[i], s[j]));
                }
                assert(deduped(front) == front);
                assert(deduped(s) =~= s);
            }
        }
    }
}

/// Rotate one slot's vector left by `distance` (reduced modulo the length)
/// and hand back the new top of the cycle, or the sentinel empty entry for
/// an empty slot.
fn rotate_and_peek(v: &mut Vec<CycleEntry>, distance: usize) -> (r: CycleEntry)
    ensures
        final(v)@ == rotated(old(v)@, distance as int),
        old(v)@.len() == 0 ==> is_empty_entry(r),
        old(v)@.len() > 0 ==> r == final(v)@[0],
{
    let len = v.len();
    if len == 0 {
        return CycleEntry::default();
    }
    let k = distance % len;
    let ghost orig = v@;
    let mut count: usize = 0;
    while count < k
        invariant
            0 < len == orig.len(),
            k == distance as int % len as int,
            k < len,
            count <= k,
            v@ == orig.subrange(count as int, len as int) + orig.subrange(0, count as int),
        decreases k - count,
    {
        let moved = v.remove(0);
        v.push(moved);
        assert(v@ =~= orig.subrange(count + 1, len as int) + orig.subrange(0, count + 1)) by {
            assert(orig.subrange(count as int, len as int)[0] == orig[count as int]);
            assert(orig.subrange(0, count as int).push(orig[count as int]) =~= orig.subrange(
                0,
                count + 1,
            ));
        }
        count = count + 1;
    }
    assert(v@ == rotated(orig, distance as int));
    let top = &v[0];
    top.clone()
}

/// Toggle an entry's membership in one slot's vector: remove the matching
/// entry if one is present, append the entry otherwise.
fn toggle_in(v: &mut Vec<CycleEntry>, item: CycleEntry) -> (r: MenuEventResponse)
    requires
        unique_entries(old(v)@),
    ensures
        unique_entries(final(v)@),
        final(v)@ == toggled(old(v)@, item),
        r == toggle_outcome(old(v)@, item),
{
    let ghost orig = v@;
    let mut i: usize = 0;
    while i < v.len()
        invariant
            orig == old(v)@,
            v@ == orig,
            unique_entries(orig),
            i <= orig.len(),
            forall|k: int| 0 <= k < i ==> !entry_eq(orig[k], item),
        decreases orig.len() - i,
    {
        if v[i] == item {
            assert(entry_eq(orig[i as int], item));
            assert(has_entry(orig, item));
            proof {
                let idx = entry_index(orig, item);
                assert(0 <= idx < orig.len() && entry_eq(orig[idx], item));
                if idx != i as int {
                    if idx < i as int {
                        assert(!entry_eq(orig[idx], orig[i as int]));
                    } else {
                        assert(!entry_eq(orig[i as int], orig[idx]));
                    }
                    assert(false);
                }
                lemma_remove_unique(orig, i as int);
            }
            let _removed = v.remove(i);
            return MenuEventResponse::ItemRemoved;
        }
        i = i + 1;
    }
    assert(!has_entry(orig, item));
    proof {
        lemma_push_unique(orig, item);
    }
    v.push(item);
    MenuEventResponse::ItemAdded
}

/// Append the entries of `src` that no earlier entry duplicates, so that
/// `out` ends up holding `deduped` of the input.
fn push_deduped(out: &mut Vec<CycleEntry>, src: Vec<CycleEntry>)
    requires
        old(out)@.len() == 0,
    ensures
        final(out)@ == deduped(src@),
        unique_entries(final(out)@),
{
    proof {
        lemma_deduped_props(src@);
    }
    let mut i: usize = 0;
    while i < src.len()
        invariant
            i <= src@.len(),
            out@ == deduped(src@.subrange(0, i as int)),
        decreases src@.len() - i,
    {
        let ghost prefix = src@.subrange(0, i as int);
        let ghost longer = src@.subrange(0, i + 1);
        proof {
            lemma_deduped_props(prefix);
            assert(longer.drop_last() =~= prefix);
            assert(longer.last() == src@[i as int]);
        }
        let mut j: usize = 0;
        let mut present = false;
        while j < out.len()
            invariant
                j <= out@.len(),
                out@ == deduped(prefix),
                present ==> has_entry(out@, src@[i as int]),
                !present ==> forall|k: int| 0 <= k < j ==> !entry_eq(out@[k], src@[i as int]),
                i < src@.len(),
            decreases out@.len() - j,
        {
            if out[j] == src[i] {
                present = true;
                assert(entry_eq(out@[j as int], src@[i as int]));
            }
            j = j + 1;
        }
        proof {
            if present {
                assert(has_entry(prefix, src@[i as int]));
                assert(deduped(longer) == deduped(prefix));
            } else {
                assert(!has_entry(out@, src@[i as int]));
                assert(!has_entry(prefix, src@[i as int]));
                assert(deduped(longer) == deduped(prefix).push(src@[i as int]));
            }
        }
        if !present {
            let e = &src[i];
            let copy = e.clone();
            out.push(copy);
        }
        i = i + 1;
    }
    proof {
        assert(src@.subrange(0, src@.len() as int) =~= src@);
    }
}

/// The four ordered, duplicate-free rotations of favorited items, one per
/// equip slot. Order is meaningful: the first entry is the top of the
/// cycle. Mutated only through `advance` and `toggle`, which preserve the
/// no-duplicates invariant.
#[derive(Debug)]
pub struct CycleData {
    power: Vec<CycleEntry>,
    utility: Vec<CycleEntry>,
    left: Vec<CycleEntry>,
    right: Vec<CycleEntry>,
}

impl CycleData {
    /// The rotation owned by the given slot action. Non-slot actions own
    /// nothing and read as the empty rotation.
    pub closed spec fn slot(&self, which: Action) -> Seq<CycleEntry> {
        match which {
            Action::Power => self.power@,
            Action::Utility => self.utility@,
            Action::Left => self.left@,
            Action::Right => self.right@,
            _ => Seq::<CycleEntry>::empty(),
        }
    }

    /// Every slot's rotation is duplicate-free.
    pub closed spec fn wf(&self) -> bool {
        unique_entries(self.power@) && unique_entries(self.utility@) && unique_entries(self.left@)
            && unique_entries(self.right@)
    }

    /// Four empty rotations: the state of a fresh profile.
    pub fn new() -> (r: CycleData)
        ensures
            r.wf(),
            forall|a: Action| r.slot(a) == Seq::<CycleEntry>::empty(),
    {
        CycleData { power: Vec::new(), utility: Vec::new(), left: Vec::new(), right: Vec::new() }
    }

    /// Rebuild cycle data from four plain rotations, for instance as a
    /// persistence layer decoded them. Later duplicates of an entry are
    /// dropped, first occurrence wins, so a damaged store can never smuggle
    /// a duplicate into a slot; undamaged rotations come through unchanged.
    pub fn from_parts(
        power: Vec<CycleEntry>,
        utility: Vec<CycleEntry>,
        left: Vec<CycleEntry>,
        right: Vec<CycleEntry>,
    ) -> (r: CycleData)
        ensures
            r.wf(),
            r.slot(Action::Power) == deduped(power@),
            r.slot(Action::Utility) == deduped(utility@),
            r.slot(Action::Left) == deduped(left@),
            r.slot(Action::Right) == deduped(right@),
    {
        let mut p: Vec<CycleEntry> = Vec::new();
        let mut u: Vec<CycleEntry> = Vec::new();
        let mut l: Vec<CycleEntry> = Vec::new();
        let mut rt: Vec<CycleEntry> = Vec::new();
        push_deduped(&mut p, power);
        push_deduped(&mut u, utility);
        push_deduped(&mut l, left);
        push_deduped(&mut rt, right);
        CycleData { power: p, utility: u, left: l, right: rt }
    }

    /// The entries of one slot, top of cycle first, as plain values.
    pub fn entries(&self, which: Action) -> (r: Vec<CycleEntry>)
        ensures
            r@ == self.slot(which),
    {
        let source = match which {
            Action::Power => &self.power,
            Action::Utility => &self.utility,
            Action::Left => &self.left,
            Action::Right => &self.right,
            _ => {
                return Vec::new();
            },
        };
        let copy = source.clone();
        proof {
            assert forall|i: int| 0 <= i < copy@.len() implies copy@[i] == source@[i] by {
                assert(vstd::pervasive::cloned::<CycleEntry>(source@[i], copy@[i]));
            }
            assert(copy@ =~= source@);
        }
        copy
    }

    /// Rotate the named slot's cycle left by `distance` places (reduced
    /// modulo the cycle's length) and return the new top entry. An empty
    /// slot, or a non-slot action, changes nothing and yields the sentinel
    /// empty entry.
    pub fn advance(&mut self, which: Action, distance: usize) -> (r: CycleEntry)
        requires
            old(self).wf(),
        ensures
            final(self).wf(),
            is_slot(which) ==> final(self).slot(which) == rotated(
                old(self).slot(which),
                distance as int,
            ),
            forall|a: Action| a != which ==> final(self).slot(a) == old(self).slot(a),
            !is_slot(which) ==> *final(self) == *old(self),
            is_slot(which) && old(self).slot(which).len() > 0 ==> r == final(self).slot(which)[0],
            (!is_slot(which) || old(self).slot(which).len() == 0) ==> is_empty_entry(r),
    {
        proof {
            if is_slot(which) {
                lemma_rotated_unique(old(self).slot(which), distance as int);
            }
        }
        match which {
            Action::Power => rotate_and_peek(&mut self.power, distance),
            Action::Utility => rotate_and_peek(&mut self.utility, distance),
            Action::Left => rotate_and_peek(&mut self.left, distance),
            Action::Right => rotate_and_peek(&mut self.right, distance),
            _ => CycleEntry::default(),
        }
    }

    /// Toggle an entry's membership in the named slot: remove the matching
    /// entry if the cycle holds one, append the entry at the end otherwise.
    /// A non-slot action changes nothing and reports `NoChange`.
    pub fn toggle(&mut self, which: Action, item: CycleEntry) -> (r: MenuEventResponse)
        requires
            old(self).wf(),
        ensures
            final(self).wf(),
            is_slot(which) ==> final(self).slot(which) == toggled(old(self).slot(which), item)
                && r == toggle_outcome(old(self).slot(which), item),
            forall|a: Action| a != which ==> final(self).slot(a) == old(self).slot(a),
            !is_slot(which) ==> *final(self) == *old(self) && r == MenuEventResponse::NoChange,
    {
        match which {
            Action::Power => toggle_in(&mut self.power, item),
            Action::Utility => toggle_in(&mut self.utility, item),
            Action::Left => toggle_in(&mut self.left, item),
            Action::Right => toggle_in(&mut self.right, item),
            _ => MenuEventResponse::NoChange,
        }
    }
}

impl Default for CycleData {
    /// Same as `CycleData::new`: four empty rotations.
    fn default() -> (r: Self)
        ensures
            r.wf(),
            forall|a: Action| r.slot(a) == Seq::<CycleEntry>::empty(),
    {
        CycleData::new()
    }
}

} // verus!

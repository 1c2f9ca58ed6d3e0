//! The range set: the stored collection of tagged intervals and its
//! operations — applying a tag to a selection (with merge-on-overlap),
//! deleting single ranges, cascading removal by tag, and read-only views
//! for rendering.

use vstd::prelude::*;
use vstd::seq_lib::group_to_multiset_ensures;

use crate::interval::{Interval, RangeExt};

verus! {

/// One tagged interval: a tag name (a weak, name-based reference into the
/// registry) and a half-open byte interval over the buffer.
pub struct TaggedRange {
    pub tag_name: String,
    pub range: Interval,
}

impl TaggedRange {
    pub fn new(tag_name: String, range: Interval) -> (r: TaggedRange)
        ensures
            r == (TaggedRange { tag_name, range }),
    {
        TaggedRange { tag_name, range }
    }

    /// An owned copy, equal to `self`.
    pub fn duplicate(&self) -> (r: TaggedRange)
        ensures
            r == *self,
    {
        TaggedRange { tag_name: self.tag_name.clone(), range: self.range }
    }
}

/// Equality by tag name (by contents) and interval: how `delete_range`
/// identifies the range to remove.
pub open spec fn spec_matches(a: TaggedRange, b: TaggedRange) -> bool {
    a.tag_name@ == b.tag_name@ && a.range == b.range
}

/// `t` is a merge candidate for `sel` under `tag`: same tag, overlapping
/// interval.
pub open spec fn spec_is_hit(t: TaggedRange, tag: Seq<char>, sel: Interval) -> bool {
    t.tag_name@ == tag && t.range.spec_intersects(&sel)
}

/// The first merge candidate's index, in insertion order; `-1` when none.
pub open spec fn spec_first_hit(items: Seq<TaggedRange>, tag: Seq<char>, sel: Interval) -> int
    decreases items.len(),
{
    if items.len() == 0 {
        -1
    } else if spec_is_hit(items[0], tag, sel) {
        0int
    } else {
        let rest = spec_first_hit(items.drop_first(), tag, sel);
        if rest == -1 {
            -1
        } else {
            rest + 1
        }
    }
}

/// Some range of tag `tag` already encloses `sel` entirely.
pub open spec fn spec_has_enclosing(items: Seq<TaggedRange>, tag: Seq<char>, sel: Interval) -> bool {
    exists|i: int|
        0 <= i < items.len() && items[i].tag_name@ == tag && items[i].range.spec_encloses(sel)
}

/// The range set after applying tag `tag` to selection `sel`:
/// - an empty selection changes nothing;
/// - a selection already enclosed by a same-tag range changes nothing;
/// - else the first same-tag range overlapping `sel` is replaced by its
///   hull with `sel`;
/// - else a new range `(tag, sel)` is appended.
pub open spec fn spec_apply_tag(items: Seq<TaggedRange>, tag: String, sel: Interval) -> Seq<
    TaggedRange,
> {
    if sel.spec_is_empty() {
        items
    } else if spec_has_enclosing(items, tag@, sel) {
        items
    } else {
        let k = spec_first_hit(items, tag@, sel);
        if k >= 0 {
            items.update(
                k,
                TaggedRange { tag_name: items[k].tag_name, range: items[k].range.spec_union(&sel) },
            )
        } else {
            items.push(TaggedRange { tag_name: tag, range: sel })
        }
    }
}

proof fn lemma_first_hit_at(items: Seq<TaggedRange>, tag: Seq<char>, sel: Interval, k: int)
    requires
        0 <= k < items.len(),
        spec_is_hit(items[k], tag, sel),
        forall|j: int| 0 <= j < k ==> !spec_is_hit(items[j], tag, sel),
    ensures
        spec_first_hit(items, tag, sel) == k,
    decreases k,
{
    if k > 0 {
        lemma_first_hit_at(items.drop_first(), tag, sel, k - 1);
    }
}

proof fn lemma_first_hit_none(items: Seq<TaggedRange>, tag: Seq<char>, sel: Interval)
    requires
        forall|j: int| 0 <= j < items.len() ==> !spec_is_hit(items[j], tag, sel),
    ensures
        spec_first_hit(items, tag, sel) == -1,
    decreases items.len(),
{
    if items.len() > 0 {
        lemma_first_hit_none(items.drop_first(), tag, sel);
    }
}

proof fn lemma_first_hit_found(items: Seq<TaggedRange>, tag: Seq<char>, sel: Interval)
    requires
        spec_first_hit(items, tag, sel) != -1,
    ensures
        0 <= spec_first_hit(items, tag, sel) < items.len(),
        spec_is_hit(items[spec_first_hit(items, tag, sel)], tag, sel),
    decreases items.len(),
{
    if items.len() > 0 && !spec_is_hit(items[0], tag, sel) {
        lemma_first_hit_found(items.drop_first(), tag, sel);
    }
}

/// Applying the same tag to the same selection twice is the same as
/// applying it once: the first application leaves a same-tag range that
/// encloses the selection, so the second is a no-op.
pub proof fn lemma_apply_tag_idempotent(items: Seq<TaggedRange>, tag: String, sel: Interval)
    ensures
        spec_apply_tag(spec_apply_tag(items, tag, sel), tag, sel) == spec_apply_tag(
            items,
            tag,
            sel,
        ),
{
    let once = spec_apply_tag(items, tag, sel);
    if sel.spec_is_empty() {
    } else if spec_has_enclosing(items, tag@, sel) {
    } else {
        let k = spec_first_hit(items, tag@, sel);
        if k >= 0 {
            lemma_first_hit_found(items, tag@, sel);
            crate::interval::lemma_union_encloses(items[k].range, sel);
            assert(once[k].tag_name@ == tag@ && once[k].range.spec_encloses(sel));
            assert(spec_has_enclosing(once, tag@, sel));
        } else {
            let n = items.len() as int;
            assert(once[n].tag_name@ == tag@ && once[n].range.spec_encloses(sel));
            assert(spec_has_enclosing(once, tag@, sel));
        }
    }
}

/// What deleting one range does to the set: no-op when nothing matches
/// `target` (by tag name and interval); otherwise exactly the first
/// matching range disappears, order kept.
pub open spec fn spec_delete_range_post(
    before: Seq<TaggedRange>,
    after: Seq<TaggedRange>,
    target: TaggedRange,
) -> bool {
    if forall|j: int| 0 <= j < before.len() ==> !spec_matches(#[trigger] before[j], target) {
        after == before
    } else {
        exists|i: int|
            {
                &&& 0 <= i < before.len()
                &&& spec_matches(#[trigger] before[i], target)
                &&& forall|j: int| 0 <= j < i ==> !spec_matches(#[trigger] before[j], target)
                &&& after == before.remove(i)
            }
    }
}

/// The stored ranges kept when tag `tag` is deleted: every range of that
/// tag removed, all others unchanged and in order.
pub open spec fn spec_drop_tag(items: Seq<TaggedRange>, tag: Seq<char>) -> Seq<TaggedRange>
    decreases items.len(),
{
    if items.len() == 0 {
        items
    } else {
        let rest = spec_drop_tag(items.drop_last(), tag);
        if items.last().tag_name@ == tag {
            rest
        } else {
            rest.push(items.last())
        }
    }
}

/// The stored ranges of tag `tag`, unchanged and in order.
pub open spec fn spec_keep_tag(items: Seq<TaggedRange>, tag: Seq<char>) -> Seq<TaggedRange>
    decreases items.len(),
{
    if items.len() == 0 {
        items
    } else {
        let rest = spec_keep_tag(items.drop_last(), tag);
        if items.last().tag_name@ == tag {
            rest.push(items.last())
        } else {
            rest
        }
    }
}

/// Ordered by interval start (the renderer's snapshot order).
pub open spec fn spec_sorted_by_start(s: Seq<TaggedRange>) -> bool {
    forall|i: int, j: int| 0 <= i < j < s.len() ==> s[i].range.start <= s[j].range.start
}

/// Owns the collection of tagged intervals, in insertion order.
pub struct RangeSet {
    pub items: Vec<TaggedRange>,
}

impl RangeSet {
    pub fn new() -> (r: RangeSet)
        ensures
            r.items@.len() == 0,
    {
        RangeSet { items: Vec::new() }
    }

    /// Apply tag `tag_name` to `selection`, per `spec_apply_tag`: no-op on
    /// an empty or already-enclosed selection (so re-applying a tag is
    /// idempotent), else merge into the first overlapping same-tag range,
    /// else append. Returns whether the set may have been mutated (the
    /// caller's cue to persist).
    pub fn apply_tag(&mut self, tag_name: &String, selection: Interval) -> (changed: bool)
        ensures
            final(self).items@ == spec_apply_tag(old(self).items@, *tag_name, selection),
            selection.spec_is_empty() ==> final(self).items@ == old(self).items@,
            spec_has_enclosing(old(self).items@, tag_name@, selection) ==> final(self).items@
                == old(self).items@,
            changed == (!selection.spec_is_empty() && !spec_has_enclosing(
                old(self).items@,
                tag_name@,
                selection,
            )),
    {
        if selection.is_empty() {
            return false;
        }
        let mut i: usize = 0;
        while i < self.items.len()
            invariant
                self.items@ == old(self).items@,
                i <= self.items@.len(),
                forall|j: int|
                    0 <= j < i ==> !(self.items@[j].tag_name@ == tag_name@
                        && self.items@[j].range.spec_encloses(selection)),
            decreases self.items@.len() - i,
        {
            if self.items[i].tag_name == *tag_name && self.items[i].range.encloses(&selection) {
                return false;
            }
            i = i + 1;
        }
        assert(!spec_has_enclosing(self.items@, tag_name@, selection));
        let mut i: usize = 0;
        while i < self.items.len()
            invariant
                self.items@ == old(self).items@,
                !spec_has_enclosing(old(self).items@, tag_name@, selection),
                i <= self.items@.len(),
                forall|j: int| 0 <= j < i ==> !spec_is_hit(self.items@[j], tag_name@, selection),
            decreases self.items@.len() - i,
        {
            if self.items[i].tag_name == *tag_name && self.items[i].range.intersects(&selection) {
                let merged = self.items[i].range.union(&selection);
                proof {
                    lemma_first_hit_at(self.items@, tag_name@, selection, i as int);
                }
                self.items[i].range = merged;
                return true;
            }
            i = i + 1;
        }
        proof {
            lemma_first_hit_none(self.items@, tag_name@, selection);
        }
        self.items.push(TaggedRange { tag_name: tag_name.clone(), range: selection });
        true
    }

    /// Remove the first stored range equal (by tag name and interval) to
    /// `target`; no-op when none matches. Returns whether one was removed.
    pub fn delete_range(&mut self, target: &TaggedRange) -> (changed: bool)
        ensures
            spec_delete_range_post(old(self).items@, final(self).items@, *target),
            changed == exists|i: int|
                0 <= i < old(self).items@.len() && spec_matches(
                    #[trigger] old(self).items@[i],
                    *target,
                ),
    {
        let mut i: usize = 0;
        while i < self.items.len()
            invariant
                self.items@ == old(self).items@,
                i <= self.items@.len(),
                forall|j: int| 0 <= j < i ==> !spec_matches(self.items@[j], *target),
            decreases self.items@.len() - i,
        {
            if self.items[i].tag_name == target.tag_name && self.items[i].range == target.range {
                self.items.remove(i);
                return true;
            }
            i = i + 1;
        }
        false
    }

    /// Cascade half of tag deletion: remove every range of tag `tag_name`,
    /// leaving all other ranges unchanged and in order.
    pub fn remove_ranges_of_tag(&mut self, tag_name: &String)
        ensures
            final(self).items@ == spec_drop_tag(old(self).items@, tag_name@),
            forall|j: int|
                0 <= j < final(self).items@.len() ==> final(self).items@[j].tag_name@
                    != tag_name@,
            forall|j: int|
                0 <= j < final(self).items@.len() ==> exists|k: int|
                    0 <= k < old(self).items@.len() && #[trigger] final(self).items@[j] == old(
                        self,
                    ).items@[k],
    {
        let n = self.items.len();
        let mut kept: Vec<TaggedRange> = Vec::new();
        let mut i: usize = 0;
        while i < n
            invariant
                self.items@ == old(self).items@,
                n == self.items@.len(),
                i <= n,
                kept@ == spec_drop_tag(self.items@.subrange(0, i as int), tag_name@),
                forall|j: int| 0 <= j < kept@.len() ==> kept@[j].tag_name@ != tag_name@,
                forall|j: int|
                    0 <= j < kept@.len() ==> exists|k: int|
                        0 <= k < i && #[trigger] kept@[j] == self.items@[k],
            decreases n - i,
        {
            let item = &self.items[i];
            proof {
                assert(self.items@.subrange(0, i + 1).drop_last() =~= self.items@.subrange(
                    0,
                    i as int,
                ));
                assert(self.items@.subrange(0, i + 1).last() == self.items@[i as int]);
            }
            if !(item.tag_name == *tag_name) {
                kept.push(item.duplicate());
            }
            i = i + 1;
        }
        proof {
            assert(self.items@.subrange(0, n as int) =~= self.items@);
        }
        self.items = kept;
    }

    /// Read-only view for the renderer: the stored ranges of one tag, in
    /// insertion order. Never mutates.
    pub fn query_by_tag(&self, tag_name: &String) -> (r: Vec<TaggedRange>)
        ensures
            r@ == spec_keep_tag(self.items@, tag_name@),
    {
        let n = self.items.len();
        let mut found: Vec<TaggedRange> = Vec::new();
        let mut i: usize = 0;
        while i < n
            invariant
                n == self.items@.len(),
                i <= n,
                found@ == spec_keep_tag(self.items@.subrange(0, i as int), tag_name@),
            decreases n - i,
        {
            let item = &self.items[i];
            proof {
                assert(self.items@.subrange(0, i + 1).drop_last() =~= self.items@.subrange(
                    0,
                    i as int,
                ));
                assert(self.items@.subrange(0, i + 1).last() == self.items@[i as int]);
            }
            if item.tag_name == *tag_name {
                found.push(item.duplicate());
            }
            i = i + 1;
        }
        proof {
            assert(self.items@.subrange(0, n as int) =~= self.items@);
        }
        found
    }

    /// Read-only view for the renderer: every stored range, ordered by
    /// interval start. The same ranges as stored (as a multiset), sorted.
    pub fn query_snapshot(&self) -> (r: Vec<TaggedRange>)
        ensures
            spec_sorted_by_start(r@),
            r@.to_multiset() == self.items@.to_multiset(),
    {
        broadcast use group_to_multiset_ensures;

        let n = self.items.len();
        let mut out: Vec<TaggedRange> = Vec::new();
        let mut i: usize = 0;
        while i < n
            invariant
                n == self.items@.len(),
                i <= n,
                spec_sorted_by_start(out@),
                out@.to_multiset() == self.items@.subrange(0, i as int).to_multiset(),
            decreases n - i,
        {
            broadcast use group_to_multiset_ensures;

            let x = self.items[i].duplicate();
            let mut j: usize = 0;
            while j < out.len() && out[j].range.start <= x.range.start
                invariant
                    j <= out@.len(),
                    forall|k: int| 0 <= k < j ==> out@[k].range.start <= x.range.start,
                decreases out@.len() - j,
            {
                j = j + 1;
            }
            let ghost before = out@;
            out.insert(j, x);
            proof {
                before.insert_ensures(j as int, x);
                assert(spec_sorted_by_start(out@)) by {
                    assert forall|a: int, b: int|
                        0 <= a < b < out@.len() implies out@[a].range.start
                        <= out@[b].range.start by {
                        if b < j {
                        } else if a > j {
                        } else if a == j {
                            assert(out@[b] == before[b - 1]);
                        } else if b == j {
                            assert(out@[a] == before[a]);
                        } else {
                            assert(out@[a] == before[a]);
                            assert(out@[b] == before[b - 1]);
                        }
                    }
                }
                assert(self.items@.subrange(0, i + 1).drop_last() =~= self.items@.subrange(
                    0,
                    i as int,
                ));
                assert(self.items@.subrange(0, i + 1).last() == self.items@[i as int]);
                assert(self.items@.subrange(0, i + 1) == self.items@.subrange(0, i as int).push(
                    self.items@[i as int],
                ));
            }
            i = i + 1;
        }
        proof {
            assert(self.items@.subrange(0, n as int) =~= self.items@);
        }
        out
    }

    /// How many ranges are stored.
    pub fn count(&self) -> (r: usize)
        ensures
            r == self.items@.len(),
    {
        self.items.len()
    }
}

} // verus!

//! The validation pass: after a load and after every completed edit, each
//! stored range is clamped to the current buffer length, and every range
//! that no longer selects anything is dropped.

use vstd::prelude::*;

use crate::interval::Interval;
use crate::ranges::{RangeSet, TaggedRange};

verus! {

/// What validation does to one interval against buffer length `len`:
/// clamp `end` (and thereby `start`, which never exceeds a surviving
/// `end`) down to `len`, and drop the interval entirely when nothing of
/// the half-open span remains — that is, when `start >= len`, or when
/// `start >= end` after clamping.
pub open spec fn spec_sanitize_interval(r: Interval, len: int) -> Option<Interval> {
    let end = if r.end <= len {
        r.end as int
    } else {
        len
    };
    if r.start < end {
        Some(Interval { start: r.start, end: end as usize })
    } else {
        None
    }
}

/// The stored ranges that survive validation against buffer length `len`,
/// clamped, in their stored order.
pub open spec fn spec_sanitize(items: Seq<TaggedRange>, len: int) -> Seq<TaggedRange>
    decreases items.len(),
{
    if items.len() == 0 {
        items
    } else {
        let rest = spec_sanitize(items.drop_last(), len);
        match spec_sanitize_interval(items.last().range, len) {
            Some(r) => rest.push(TaggedRange { tag_name: items.last().tag_name, range: r }),
            None => rest,
        }
    }
}

/// Validation is the identity on every range already valid for the
/// buffer: `0 <= start < end <= len`.
pub proof fn lemma_sanitize_valid_identity(r: Interval, len: int)
    requires
        r.spec_valid(len),
    ensures
        spec_sanitize_interval(r, len) == Some(r),
{
}

/// A range reaching past the buffer has its `end` clamped to the buffer
/// length; if the clamped range then has `start >= end`, it is dropped.
pub proof fn lemma_sanitize_clamps(r: Interval, len: int)
    requires
        0 <= len < r.end,
    ensures
        r.start < len ==> spec_sanitize_interval(r, len) == Some(
            Interval { start: r.start, end: len as usize },
        ),
        r.start >= len ==> spec_sanitize_interval(r, len) is None,
{
}

/// Every range that survives validation is valid for the buffer.
pub proof fn lemma_sanitize_all_valid(items: Seq<TaggedRange>, len: int)
    requires
        len >= 0,
    ensures
        forall|j: int|
            0 <= j < spec_sanitize(items, len).len() ==> #[trigger] spec_sanitize(
                items,
                len,
            )[j].range.spec_valid(len),
    decreases items.len(),
{
    if items.len() > 0 {
        lemma_sanitize_all_valid(items.drop_last(), len);
        let rest = spec_sanitize(items.drop_last(), len);
        let s = spec_sanitize(items, len);
        match spec_sanitize_interval(items.last().range, len) {
            Some(r) => {
                assert(r.spec_valid(len));
                assert forall|j: int| 0 <= j < s.len() implies #[trigger] s[j].range.spec_valid(
                    len,
                ) by {
                    if j < rest.len() {
                        assert(s[j] == rest[j]);
                    } else {
                        assert(s[j].range == r);
                    }
                }
            },
            None => {
                assert(s == rest);
            },
        }
    }
}

/// Validation is the identity on a sequence of ranges that are all valid
/// for the buffer.
pub proof fn lemma_sanitize_valid_seq_identity(items: Seq<TaggedRange>, len: int)
    requires
        forall|j: int| 0 <= j < items.len() ==> #[trigger] items[j].range.spec_valid(len),
    ensures
        spec_sanitize(items, len) == items,
    decreases items.len(),
{
    if items.len() > 0 {
        assert(forall|j: int|
            0 <= j < items.drop_last().len() ==> #[trigger] items.drop_last()[j].range.spec_valid(
                len,
            ));
        lemma_sanitize_valid_seq_identity(items.drop_last(), len);
        assert(items[items.len() - 1].range.spec_valid(len));
        lemma_sanitize_valid_identity(items.last().range, len);
        assert(items.last() == (TaggedRange {
            tag_name: items.last().tag_name,
            range: items.last().range,
        }));
        assert(spec_sanitize(items, len) == items.drop_last().push(items.last()));
        assert(spec_sanitize(items, len) =~= items);
    }
}

/// Drop or clamp every stored range that is inconsistent with the current
/// buffer length, per `spec_sanitize`. Runs after every load and after
/// every completed edit, never mid-edit.
pub fn clean_invalid_ranges(set: &mut RangeSet, buffer_len: usize)
    ensures
        final(set).items@ == spec_sanitize(old(set).items@, buffer_len as int),
        forall|j: int|
            0 <= j < final(set).items@.len() ==> #[trigger] final(set).items@[j].range.spec_valid(
                buffer_len as int,
            ),
{
    let n = set.items.len();
    let mut kept: Vec<TaggedRange> = Vec::new();
    let mut i: usize = 0;
    while i < n
        invariant
            set.items@ == old(set).items@,
            n == set.items@.len(),
            i <= n,
            kept@ == spec_sanitize(set.items@.subrange(0, i as int), buffer_len as int),
        decreases n - i,
    {
        let item = &set.items[i];
        proof {
            assert(set.items@.subrange(0, i + 1).drop_last() =~= set.items@.subrange(0, i as int));
            assert(set.items@.subrange(0, i + 1).last() == set.items@[i as int]);
        }
        let end = if item.range.end <= buffer_len {
            item.range.end
        } else {
            buffer_len
        };
        if item.range.start < end {
            kept.push(
                TaggedRange {
                    tag_name: item.tag_name.clone(),
                    range: Interval { start: item.range.start, end },
                },
            );
        }
        i = i + 1;
    }
    proof {
        assert(set.items@.subrange(0, n as int) =~= set.items@);
        lemma_sanitize_all_valid(set.items@, buffer_len as int);
    }
    set.items = kept;
}

} // verus!

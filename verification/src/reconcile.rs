//! Edit reconciliation: translating one discrete text-change event into
//! offset corrections across all stored ranges.
//!
//! An event is `(caret, delta, sel_len)` in spirit: `caret` anchors the
//! edit, `sel_len` is the selection length before the edit, and the signed
//! net length change `delta` follows from the event kind — `+1` for a
//! plain insertion, `-1` for a no-selection backspace, `-sel_len` for
//! deleting a selection, and `1 - sel_len` for typing one replacement
//! character over a selection.

use vstd::prelude::*;

use crate::interval::Interval;
use crate::ranges::{RangeSet, TaggedRange};

verus! {

/// One discrete text-change event. `caret` is the edit anchor (for a
/// selection edit, the lower end of the selection); `sel_len` is how many
/// bytes were selected before the edit; `inserted` tells whether one
/// character was typed (else the edit was a pure deletion).
#[derive(Clone, Copy, PartialEq, Eq, Structural, Debug)]
pub struct EditEvent {
    pub caret: usize,
    pub sel_len: usize,
    pub inserted: bool,
}

/// The signed net change in buffer length the event causes.
pub open spec fn spec_delta(ev: EditEvent) -> int {
    if ev.sel_len == 0 {
        if ev.inserted {
            1
        } else {
            -1
        }
    } else {
        if ev.inserted {
            1 - ev.sel_len
        } else {
            -(ev.sel_len as int)
        }
    }
}

/// The translation rule for a single offset: a position strictly after
/// the anchor moves by the delta, clamped at zero (never negative); a
/// position at or before the anchor stays. In particular a range boundary
/// exactly at the caret is NOT shifted — by policy, text inserted at a
/// range's exact start is excluded from that range.
pub open spec fn spec_moved_point(p: usize, ev: EditEvent) -> usize {
    if p > ev.caret {
        let q = p + spec_delta(ev);
        if q < 0 {
            0
        } else {
            q as usize
        }
    } else {
        p
    }
}

/// Where one stored interval ends up after the event.
///
/// No-selection caret edit (`sel_len == 0`):
/// - an interval containing the caret grows or shrinks locally: `end`
///   moves by the delta, `start` stays (an edit inside the tag stays part
///   of the tag);
/// - any other interval is translated point by point.
///
/// Selection-replacing edit (`sel_len > 0`, selection `[caret, caret + sel_len)`):
/// - an interval exactly equal to the selection collapses to nothing on
///   delete, or to the single replacement character on insert;
/// - an interval containing the whole selection shrinks its `end` by the
///   lost length (saturating);
/// - any other interval is translated point by point.
///
/// An interval left with `start >= end` is kept as-is here; the validator
/// drops it afterwards. Reconciliation never merges ranges.
pub open spec fn spec_reconciled_interval(r: Interval, ev: EditEvent) -> Interval {
    if ev.sel_len == 0 {
        if r.start <= ev.caret < r.end {
            Interval {
                start: r.start,
                end: if ev.inserted {
                    (r.end + 1) as usize
                } else {
                    (r.end - 1) as usize
                },
            }
        } else {
            Interval { start: spec_moved_point(r.start, ev), end: spec_moved_point(r.end, ev) }
        }
    } else {
        let sel_end = ev.caret + ev.sel_len;
        if r.start == ev.caret && r.end == sel_end {
            if ev.inserted {
                Interval { start: r.start, end: (ev.caret + 1) as usize }
            } else {
                Interval { start: r.start, end: ev.caret }
            }
        } else if r.start <= ev.caret && sel_end <= r.end {
            let cut: int = if ev.inserted {
                ev.sel_len - 1
            } else {
                ev.sel_len as int
            };
            Interval {
                start: r.start,
                end: if r.end >= cut {
                    (r.end - cut) as usize
                } else {
                    0
                },
            }
        } else {
            Interval { start: spec_moved_point(r.start, ev), end: spec_moved_point(r.end, ev) }
        }
    }
}

/// All stored ranges after the event: each interval corrected
/// independently, tags and order untouched.
pub open spec fn spec_reconciled(items: Seq<TaggedRange>, ev: EditEvent) -> Seq<TaggedRange> {
    Seq::new(
        items.len(),
        |j: int|
            TaggedRange {
                tag_name: items[j].tag_name,
                range: spec_reconciled_interval(items[j].range, ev),
            },
    )
}

/// Net-zero reconciliation: for a range strictly outside the edited span,
/// inserting one character at a caret and then deleting the same number of
/// characters at the same caret restores the original offsets exactly —
/// whether the deletion is a no-selection backspace-style event or a
/// selection delete of the inserted character.
pub proof fn lemma_reconcile_net_zero(r: Interval, caret: usize)
    requires
        r.start <= r.end < usize::MAX,
        r.end <= caret || r.start > caret,
    ensures
        spec_reconciled_interval(
            spec_reconciled_interval(r, EditEvent { caret, sel_len: 0, inserted: true }),
            EditEvent { caret, sel_len: 0, inserted: false },
        ) == r,
        spec_reconciled_interval(
            spec_reconciled_interval(r, EditEvent { caret, sel_len: 0, inserted: true }),
            EditEvent { caret, sel_len: 1, inserted: false },
        ) == r,
{
}

/// The translation rule, executably.
fn moved_point(p: usize, ev: EditEvent) -> (q: usize)
    requires
        ev.sel_len == 0 && ev.inserted ==> p < usize::MAX,
    ensures
        q == spec_moved_point(p, ev),
{
    if p > ev.caret {
        if ev.sel_len == 0 {
            if ev.inserted {
                p + 1
            } else {
                p - 1
            }
        } else {
            if ev.inserted {
                let cut = ev.sel_len - 1;
                if p >= cut {
                    p - cut
                } else {
                    0
                }
            } else {
                if p >= ev.sel_len {
                    p - ev.sel_len
                } else {
                    0
                }
            }
        }
    } else {
        p
    }
}

/// Correct one interval for the event, per `spec_reconciled_interval`.
pub fn reconcile_interval(r: Interval, ev: EditEvent) -> (out: Interval)
    requires
        ev.caret + ev.sel_len <= usize::MAX,
        ev.sel_len == 0 && ev.inserted ==> r.start < usize::MAX && r.end < usize::MAX,
    ensures
        out == spec_reconciled_interval(r, ev),
{
    if ev.sel_len == 0 {
        if r.start <= ev.caret && ev.caret < r.end {
            let end = if ev.inserted {
                r.end + 1
            } else {
                r.end - 1
            };
            Interval { start: r.start, end }
        } else {
            Interval { start: moved_point(r.start, ev), end: moved_point(r.end, ev) }
        }
    } else {
        let sel_end = ev.caret + ev.sel_len;
        if r.start == ev.caret && r.end == sel_end {
            if ev.inserted {
                Interval { start: r.start, end: ev.caret + 1 }
            } else {
                Interval { start: r.start, end: ev.caret }
            }
        } else if r.start <= ev.caret && sel_end <= r.end {
            let cut = if ev.inserted {
                ev.sel_len - 1
            } else {
                ev.sel_len
            };
            let end = if r.end >= cut {
                r.end - cut
            } else {
                0
            };
            Interval { start: r.start, end }
        } else {
            Interval { start: moved_point(r.start, ev), end: moved_point(r.end, ev) }
        }
    }
}

/// Overflow guard for an insertion event: with no selection, every stored
/// offset must have room to move up by one. The document guarantees this,
/// since offsets never exceed the buffer length and an insertion implies
/// the buffer had room to grow.
pub open spec fn spec_event_fits(items: Seq<TaggedRange>, ev: EditEvent) -> bool {
    ev.sel_len == 0 && ev.inserted ==> forall|j: int|
        0 <= j < items.len() ==> (#[trigger] items[j]).range.start < usize::MAX
            && items[j].range.end < usize::MAX
}

/// Correct every stored range for one discrete edit event, in place.
/// Tags and stored order are untouched; nothing is merged or dropped here.
pub fn reconcile_edit(set: &mut RangeSet, ev: EditEvent)
    requires
        ev.caret + ev.sel_len <= usize::MAX,
        spec_event_fits(old(set).items@, ev),
    ensures
        final(set).items@ == spec_reconciled(old(set).items@, ev),
        final(set).items@.len() == old(set).items@.len(),
        forall|j: int|
            0 <= j < old(set).items@.len() ==> {
                &&& (#[trigger] final(set).items@[j]).tag_name == old(set).items@[j].tag_name
                &&& final(set).items@[j].range == spec_reconciled_interval(
                    old(set).items@[j].range,
                    ev,
                )
            },
    {
    let n = set.items.len();
    let mut i: usize = 0;
    while i < n
        invariant
            n == set.items@.len(),
            n == old(set).items@.len(),
            i <= n,
            ev.caret + ev.sel_len <= usize::MAX,
            spec_event_fits(old(set).items@, ev),
            forall|j: int|
                0 <= j < i ==> (#[trigger] set.items@[j]) == (TaggedRange {
                    tag_name: old(set).items@[j].tag_name,
                    range: spec_reconciled_interval(old(set).items@[j].range, ev),
                }),
            forall|j: int| i <= j < n ==> (#[trigger] set.items@[j]) == old(set).items@[j],
        decreases n - i,
    {
        let corrected = reconcile_interval(set.items[i].range, ev);
        set.items[i].range = corrected;
        i = i + 1;
    }
    proof {
        assert(set.items@ =~= spec_reconciled(old(set).items@, ev));
    }
}

} // verus!

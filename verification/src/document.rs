//! The document aggregate: buffer, tag registry, tagged ranges, and
//! settings, owned by one reducer that handles each discrete command or
//! edit event in full before the next.

use vstd::prelude::*;

use crate::color::Color;
use crate::interval::Interval;
use crate::ranges::{
    spec_apply_tag, spec_delete_range_post, spec_drop_tag, spec_has_enclosing, spec_matches,
    RangeSet, TaggedRange,
};
use crate::reconcile::{reconcile_edit, spec_event_fits, spec_reconciled, EditEvent};
use crate::tags::{
    spec_create_tag_post, spec_remove_tag_post, spec_set_color_post, TagRegistry,
};
use crate::validator::{
    clean_invalid_ranges, lemma_sanitize_valid_seq_identity, spec_sanitize,
};

verus! {

broadcast use vstd::std_specs::vec::axiom_spec_len;

/// Small user-interface flags, persisted alongside the document but
/// orthogonal to the tagging engine.
#[derive(Clone, Copy, PartialEq, Eq, Structural, Debug)]
pub struct Settings {
    pub dark_mode: bool,
    pub markdown_view_enabled: bool,
    pub mark_as_background: bool,
}

/// All flags off.
pub open spec fn spec_default_settings() -> Settings {
    Settings { dark_mode: false, markdown_view_enabled: false, mark_as_background: false }
}

impl Default for Settings {
    fn default() -> (s: Settings)
        ensures
            s == spec_default_settings(),
    {
        Settings { dark_mode: false, markdown_view_enabled: false, mark_as_background: false }
    }
}

/// The placeholder text a fresh document starts with.
pub open spec fn spec_welcome_text() -> Seq<u8> {
    vstd::utf8::encode_utf8(
        "Welcome to buffmonster!\n\nJust start typing here and tag your things."@,
    )
}

/// One discrete user command, processed in full by `apply_command`.
/// Text-change events are not commands; they go through `on_edit`.
pub enum Command {
    CreateTag { name: String },
    DeleteTag { name: String },
    SetColor { name: String, color: Color },
    ApplyTag { name: String, selection: Interval },
    DeleteRange { target: TaggedRange },
}

/// The whole mutable application state: the text buffer (UTF-8 bytes, the
/// sole source of truth for length; all offsets are byte offsets), the
/// tag registry, the tagged ranges, and the settings.
pub struct Document {
    pub buffer: Vec<u8>,
    pub tags: TagRegistry,
    pub ranges: RangeSet,
    pub settings: Settings,
}

impl Document {
    /// The standing invariant between operations: the registry is
    /// well-formed and every stored range is valid for the buffer.
    pub open spec fn wf(self) -> bool {
        &&& self.tags.wf()
        &&& forall|j: int|
            0 <= j < self.ranges.items@.len() ==> (#[trigger] self.ranges.items@[j]).range.spec_valid(
                self.buffer@.len() as int,
            )
    }

    /// A fresh document: placeholder welcome text, no tags, no ranges,
    /// default settings.
    pub fn new_default() -> (doc: Document)
        ensures
            doc.wf(),
            doc.buffer@ == spec_welcome_text(),
            doc.tags.tags@.len() == 0,
            doc.ranges.items@.len() == 0,
            doc.settings == spec_default_settings(),
    {
        Document {
            buffer: vstd::slice::slice_to_vec(
                "Welcome to buffmonster!\n\nJust start typing here and tag your things.".as_bytes(),
            ),
            tags: TagRegistry::new(),
            ranges: RangeSet::new(),
            settings: Settings::default(),
        }
    }

    /// Create a tag (trimmed name, automatic palette color); only the
    /// registry changes.
    pub fn create_tag(&mut self, name: &String)
        requires
            old(self).wf(),
        ensures
            final(self).wf(),
            spec_create_tag_post(old(self).tags.tags@, final(self).tags.tags@, name@),
            final(self).buffer@ == old(self).buffer@,
            final(self).ranges.items@ == old(self).ranges.items@,
            final(self).settings == old(self).settings,
    {
        self.tags.create_tag(name);
    }

    /// Overwrite a tag's color; stored ranges are untouched.
    pub fn set_color(&mut self, name: &String, color: Color)
        requires
            old(self).wf(),
        ensures
            final(self).wf(),
            spec_set_color_post(old(self).tags.tags@, final(self).tags.tags@, name@, color),
            final(self).buffer@ == old(self).buffer@,
            final(self).ranges.items@ == old(self).ranges.items@,
            final(self).settings == old(self).settings,
    {
        self.tags.set_color(name, color);
    }

    /// Delete a tag and cascade: the tag leaves the registry and every
    /// range carrying its name leaves the range set, all other tags and
    /// ranges byte-for-byte unchanged.
    pub fn delete_tag(&mut self, name: &String)
        requires
            old(self).wf(),
        ensures
            final(self).wf(),
            spec_remove_tag_post(old(self).tags.tags@, final(self).tags.tags@, name@),
            final(self).ranges.items@ == spec_drop_tag(old(self).ranges.items@, name@),
            forall|j: int|
                0 <= j < final(self).ranges.items@.len()
                    ==> final(self).ranges.items@[j].tag_name@ != name@,
            final(self).buffer@ == old(self).buffer@,
            final(self).settings == old(self).settings,
    {
        self.tags.remove_tag(name);
        self.ranges.remove_ranges_of_tag(name);
    }

    /// Apply a tag to the current selection (merge-on-overlap, idempotent
    /// on enclosed selections), then validate. Returns whether the range
    /// set may have been mutated — the cue to persist.
    pub fn apply_tag(&mut self, tag_name: &String, selection: Interval) -> (changed: bool)
        requires
            old(self).wf(),
        ensures
            final(self).wf(),
            final(self).ranges.items@ == spec_sanitize(
                spec_apply_tag(old(self).ranges.items@, *tag_name, selection),
                old(self).buffer@.len() as int,
            ),
            selection.spec_is_empty() ==> final(self).ranges.items@ == old(self).ranges.items@,
            spec_has_enclosing(old(self).ranges.items@, tag_name@, selection)
                ==> final(self).ranges.items@ == old(self).ranges.items@,
            changed == (!selection.spec_is_empty() && !spec_has_enclosing(
                old(self).ranges.items@,
                tag_name@,
                selection,
            )),
            final(self).buffer@ == old(self).buffer@,
            final(self).tags.tags@ == old(self).tags.tags@,
            final(self).settings == old(self).settings,
    {
        let changed = self.ranges.apply_tag(tag_name, selection);
        let len = self.buffer.len();
        if changed {
            clean_invalid_ranges(&mut self.ranges, len);
        } else {
            proof {
                lemma_sanitize_valid_seq_identity(self.ranges.items@, len as int);
            }
        }
        changed
    }

    /// Remove the first stored range equal to `target`; only the range
    /// set changes.
    pub fn delete_range(&mut self, target: &TaggedRange) -> (changed: bool)
        requires
            old(self).wf(),
        ensures
            final(self).wf(),
            spec_delete_range_post(old(self).ranges.items@, final(self).ranges.items@, *target),
            changed == exists|i: int|
                0 <= i < old(self).ranges.items@.len() && spec_matches(
                    #[trigger] old(self).ranges.items@[i],
                    *target,
                ),
            final(self).buffer@ == old(self).buffer@,
            final(self).tags.tags@ == old(self).tags.tags@,
            final(self).settings == old(self).settings,
    {
        let changed = self.ranges.delete_range(target);
        proof {
            if changed {
                let before = old(self).ranges.items@;
                let i = choose|i: int|
                    {
                        &&& 0 <= i < before.len()
                        &&& spec_matches(#[trigger] before[i], *target)
                        &&& forall|j: int| 0 <= j < i ==> !spec_matches(#[trigger] before[j], *target)
                        &&& self.ranges.items@ == before.remove(i)
                    };
                before.remove_ensures(i);
                assert forall|j: int| 0 <= j < self.ranges.items@.len() implies (
                #[trigger] self.ranges.items@[j]).range.spec_valid(
                    self.buffer@.len() as int,
                ) by {
                    if j < i {
                        assert(self.ranges.items@[j] == before[j]);
                    } else {
                        assert(self.ranges.items@[j] == before[j + 1]);
                    }
                }
            }
        }
        changed
    }

    /// Handle one discrete text-change event: the input layer has already
    /// put the changed text in `new_buffer`; reconcile every stored range
    /// against the event, then validate against the new buffer length.
    pub fn on_edit(&mut self, ev: EditEvent, new_buffer: Vec<u8>)
        requires
            old(self).wf(),
            ev.caret + ev.sel_len <= old(self).buffer@.len(),
            ev.inserted && ev.sel_len == 0 ==> old(self).buffer@.len() < usize::MAX,
        ensures
            final(self).wf(),
            final(self).buffer@ == new_buffer@,
            final(self).ranges.items@ == spec_sanitize(
                spec_reconciled(old(self).ranges.items@, ev),
                new_buffer@.len() as int,
            ),
            final(self).tags.tags@ == old(self).tags.tags@,
            final(self).settings == old(self).settings,
    {
        proof {
            // A vector's length fits in usize, so the event's selection,
            // lying within the old buffer, cannot overflow either.
            assert(vstd::std_specs::vec::spec_vec_len(&self.buffer) == self.buffer@.len());
            assert(spec_event_fits(self.ranges.items@, ev));
        }
        self.buffer = new_buffer;
        reconcile_edit(&mut self.ranges, ev);
        let len = self.buffer.len();
        clean_invalid_ranges(&mut self.ranges, len);
    }

    /// The single reducer for discrete user commands: each command is
    /// handled in full (including validation where ranges change) before
    /// the next is accepted.
    pub fn apply_command(&mut self, cmd: Command)
        requires
            old(self).wf(),
        ensures
            final(self).wf(),
            match cmd {
                Command::CreateTag { name } => {
                    &&& spec_create_tag_post(old(self).tags.tags@, final(self).tags.tags@, name@)
                    &&& final(self).ranges.items@ == old(self).ranges.items@
                    &&& final(self).buffer@ == old(self).buffer@
                    &&& final(self).settings == old(self).settings
                },
                Command::DeleteTag { name } => {
                    &&& spec_remove_tag_post(old(self).tags.tags@, final(self).tags.tags@, name@)
                    &&& final(self).ranges.items@ == spec_drop_tag(old(self).ranges.items@, name@)
                    &&& final(self).buffer@ == old(self).buffer@
                    &&& final(self).settings == old(self).settings
                },
                Command::SetColor { name, color } => {
                    &&& spec_set_color_post(
                        old(self).tags.tags@,
                        final(self).tags.tags@,
                        name@,
                        color,
                    )
                    &&& final(self).ranges.items@ == old(self).ranges.items@
                    &&& final(self).buffer@ == old(self).buffer@
                    &&& final(self).settings == old(self).settings
                },
                Command::ApplyTag { name, selection } => {
                    &&& final(self).ranges.items@ == spec_sanitize(
                        spec_apply_tag(old(self).ranges.items@, name, selection),
                        old(self).buffer@.len() as int,
                    )
                    &&& final(self).tags.tags@ == old(self).tags.tags@
                    &&& final(self).buffer@ == old(self).buffer@
                    &&& final(self).settings == old(self).settings
                },
                Command::DeleteRange { target } => {
                    &&& spec_delete_range_post(
                        old(self).ranges.items@,
                        final(self).ranges.items@,
                        target,
                    )
                    &&& final(self).tags.tags@ == old(self).tags.tags@
                    &&& final(self).buffer@ == old(self).buffer@
                    &&& final(self).settings == old(self).settings
                },
            },
    {
        match cmd {
            Command::CreateTag { name } => {
                self.create_tag(&name);
            },
            Command::DeleteTag { name } => {
                self.delete_tag(&name);
            },
            Command::SetColor { name, color } => {
                self.set_color(&name, color);
            },
            Command::ApplyTag { name, selection } => {
                self.apply_tag(&name, selection);
            },
            Command::DeleteRange { target } => {
                self.delete_range(&target);
            },
        }
    }
}

} // verus!

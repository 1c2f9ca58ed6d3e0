//! The persistence discipline, storage-format-agnostic: rebuilding a live,
//! validated document from whatever was read back — the structured
//! document when it parsed, else the raw text backup, else a fresh default.
//! Reading and writing the files themselves, and the encoding to the
//! structured format, live outside the engine.

use vstd::prelude::*;

use crate::document::{spec_default_settings, spec_welcome_text, Document, Settings};
use crate::ranges::{RangeSet, TaggedRange};
use crate::tags::{spec_restored_tags, Tag, TagRegistry};
use crate::validator::{clean_invalid_ranges, spec_sanitize};

verus! {

/// The unvalidated image of the structured storage document, exactly as
/// parsed: buffer bytes, tag entries, range entries, settings.
pub struct StoredDocument {
    pub buffer: Vec<u8>,
    pub tags: Vec<Tag>,
    pub ranges: Vec<TaggedRange>,
    pub settings: Settings,
}

/// A fresh default document: welcome text, no tags, no ranges, default
/// settings.
pub open spec fn spec_is_fresh(doc: Document) -> bool {
    &&& doc.buffer@ == spec_welcome_text()
    &&& doc.tags.tags@.len() == 0
    &&& doc.ranges.items@.len() == 0
    &&& doc.settings == spec_default_settings()
}

/// Turn a parsed storage image into a live document: tags are restored
/// with empty and repeated names dropped, and every stored range is
/// validated against the stored buffer's length.
pub fn from_stored(stored: StoredDocument) -> (doc: Document)
    ensures
        doc.wf(),
        doc.buffer@ == stored.buffer@,
        doc.settings == stored.settings,
        doc.tags.tags@ == spec_restored_tags(stored.tags@),
        doc.ranges.items@ == spec_sanitize(stored.ranges@, stored.buffer@.len() as int),
{
    let StoredDocument { buffer, tags, ranges, settings } = stored;
    let registry = TagRegistry::restore_tags(&tags);
    let mut set = RangeSet { items: ranges };
    let len = buffer.len();
    clean_invalid_ranges(&mut set, len);
    Document { buffer, tags: registry, ranges: set, settings }
}

/// The load policy. The structured document, when present and parsed, is
/// the source of truth and is validated on the way in. When it is absent
/// or unparseable, a non-empty raw-text backup recovers the buffer alone
/// (tags, ranges and settings default to empty). Failing both, the result
/// is a fresh default document.
pub fn recover(parsed: Option<StoredDocument>, backup: Option<Vec<u8>>) -> (doc: Document)
    ensures
        doc.wf(),
        match parsed {
            Some(stored) => {
                &&& doc.buffer@ == stored.buffer@
                &&& doc.settings == stored.settings
                &&& doc.tags.tags@ == spec_restored_tags(stored.tags@)
                &&& doc.ranges.items@ == spec_sanitize(
                    stored.ranges@,
                    stored.buffer@.len() as int,
                )
            },
            None => match backup {
                Some(text) => {
                    if text@.len() > 0 {
                        &&& doc.buffer@ == text@
                        &&& doc.tags.tags@.len() == 0
                        &&& doc.ranges.items@.len() == 0
                        &&& doc.settings == spec_default_settings()
                    } else {
                        spec_is_fresh(doc)
                    }
                },
                None => spec_is_fresh(doc),
            },
        },
{
    match parsed {
        Some(stored) => from_stored(stored),
        None => match backup {
            Some(text) => {
                if text.len() > 0 {
                    Document {
                        buffer: text,
                        tags: TagRegistry::new(),
                        ranges: RangeSet::new(),
                        settings: Settings::default(),
                    }
                } else {
                    Document::new_default()
                }
            },
            None => Document::new_default(),
        },
    }
}

} // verus!

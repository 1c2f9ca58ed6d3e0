//! The tag registry, automatic colors, and the load/recovery policy,
//! exercised on concrete values.

use buffmonster::color::{random_color, Color};
use buffmonster::document::{Document, Settings};
use buffmonster::interval::Interval;
use buffmonster::persist::{from_stored, recover, StoredDocument};
use buffmonster::ranges::TaggedRange;
use buffmonster::tags::{Tag, TagRegistry};

fn iv(start: usize, end: usize) -> Interval {
    Interval { start, end }
}

fn tr(tag: &str, start: usize, end: usize) -> TaggedRange {
    TaggedRange {
        tag_name: tag.to_string(),
        range: iv(start, end),
    }
}

// --- tag registry ---

#[test]
fn create_tag_trims_the_name() {
    let mut reg = TagRegistry::new();
    reg.create_tag(&"  notes \t".to_string());
    assert_eq!(reg.tags.len(), 1);
    assert_eq!(reg.tags[0].name, "notes");
    assert!(reg.color_of(&"notes".to_string()).is_some());
    assert!(reg.color_of(&"  notes \t".to_string()).is_none());
}

#[test]
fn create_tag_ignores_blank_names() {
    let mut reg = TagRegistry::new();
    reg.create_tag(&"".to_string());
    reg.create_tag(&"   ".to_string());
    assert_eq!(reg.count(), 0);
}

#[test]
fn create_tag_is_case_sensitively_unique() {
    let mut reg = TagRegistry::new();
    reg.create_tag(&"x".to_string());
    reg.create_tag(&"x".to_string());
    reg.create_tag(&" x ".to_string());
    reg.create_tag(&"X".to_string());
    assert_eq!(reg.count(), 2);
    assert_eq!(reg.tags[0].name, "x");
    assert_eq!(reg.tags[1].name, "X");
}

#[test]
fn automatic_colors_follow_the_palette() {
    // The palette is deterministic: the first assigned color is the warm
    // gradient sampled at stop 0 of 40.
    assert_eq!(random_color(0), Color { r: 109, g: 63, b: 169 });
    // Past the last stop the palette saturates.
    assert_eq!(random_color(40), random_color(39));
    assert_eq!(random_color(1000), random_color(39));
    // Different stops give different colors.
    assert_ne!(random_color(0), random_color(1));

    let mut reg = TagRegistry::new();
    reg.create_tag(&"first".to_string());
    reg.create_tag(&"second".to_string());
    assert_eq!(reg.tags[0].color, random_color(0));
    assert_eq!(reg.tags[1].color, random_color(1));
}

#[test]
fn set_color_overwrites_existing_only() {
    let mut reg = TagRegistry::new();
    reg.create_tag(&"x".to_string());
    let red = Color { r: 255, g: 0, b: 0 };
    reg.set_color(&"x".to_string(), red);
    assert_eq!(reg.color_of(&"x".to_string()), Some(red));
    // Absent tag: no-op, nothing appears.
    reg.set_color(&"y".to_string(), red);
    assert_eq!(reg.count(), 1);
    assert_eq!(reg.color_of(&"y".to_string()), None);
}

#[test]
fn delete_tag_cascades_to_ranges() {
    // delete_tag("x") removes tag "x" from the registry and every
    // TaggedRange with tag_name == "x", leaving all other tags and
    // ranges byte-for-byte unchanged.
    let mut doc = from_stored(StoredDocument {
        buffer: "hello world".as_bytes().to_vec(),
        tags: vec![
            Tag { name: "x".to_string(), color: Color { r: 1, g: 2, b: 3 } },
            Tag { name: "y".to_string(), color: Color { r: 4, g: 5, b: 6 } },
        ],
        ranges: vec![tr("x", 0, 2), tr("y", 3, 5), tr("x", 6, 8), tr("z", 9, 11)],
        settings: Settings::default(),
    });
    doc.delete_tag(&"x".to_string());
    assert_eq!(doc.tags.tags.len(), 1);
    assert_eq!(doc.tags.tags[0].name, "y");
    assert_eq!(doc.tags.tags[0].color, Color { r: 4, g: 5, b: 6 });
    assert_eq!(doc.ranges.items.len(), 2);
    assert_eq!(doc.ranges.items[0].tag_name, "y");
    assert_eq!(doc.ranges.items[0].range, iv(3, 5));
    assert_eq!(doc.ranges.items[1].tag_name, "z");
    assert_eq!(doc.ranges.items[1].range, iv(9, 11));
    assert_eq!(doc.buffer, "hello world".as_bytes());
}

#[test]
fn delete_absent_tag_still_cascades_over_dangling_ranges() {
    let mut doc = from_stored(StoredDocument {
        buffer: "hello world".as_bytes().to_vec(),
        tags: Vec::new(),
        ranges: vec![tr("ghost", 0, 3), tr("y", 4, 6)],
        settings: Settings::default(),
    });
    doc.delete_tag(&"ghost".to_string());
    assert_eq!(doc.ranges.items.len(), 1);
    assert_eq!(doc.ranges.items[0].tag_name, "y");
}

// --- restoring from storage ---

#[test]
fn from_stored_keeps_first_of_duplicate_names_and_drops_empty() {
    let doc = from_stored(StoredDocument {
        buffer: "abc".as_bytes().to_vec(),
        tags: vec![
            Tag { name: "x".to_string(), color: Color { r: 1, g: 1, b: 1 } },
            Tag { name: "".to_string(), color: Color { r: 9, g: 9, b: 9 } },
            Tag { name: "x".to_string(), color: Color { r: 2, g: 2, b: 2 } },
            Tag { name: "y".to_string(), color: Color { r: 3, g: 3, b: 3 } },
        ],
        ranges: Vec::new(),
        settings: Settings::default(),
    });
    assert_eq!(doc.tags.tags.len(), 2);
    assert_eq!(doc.tags.tags[0].name, "x");
    assert_eq!(doc.tags.tags[0].color, Color { r: 1, g: 1, b: 1 });
    assert_eq!(doc.tags.tags[1].name, "y");
}

#[test]
fn from_stored_validates_ranges() {
    let doc = from_stored(StoredDocument {
        buffer: "abc".as_bytes().to_vec(),
        tags: Vec::new(),
        ranges: vec![tr("x", 0, 99), tr("y", 5, 9), tr("z", 2, 2)],
        settings: Settings::default(),
    });
    assert_eq!(doc.ranges.items.len(), 1);
    assert_eq!(doc.ranges.items[0].tag_name, "x");
    assert_eq!(doc.ranges.items[0].range, iv(0, 3));
}

// --- the load policy ---

#[test]
fn load_prefers_the_structured_document() {
    let doc = recover(
        Some(StoredDocument {
            buffer: "kept".as_bytes().to_vec(),
            tags: Vec::new(),
            ranges: Vec::new(),
            settings: Settings { dark_mode: true, ..Settings::default() },
        }),
        Some("ignored backup".as_bytes().to_vec()),
    );
    assert_eq!(doc.buffer, "kept".as_bytes());
    assert!(doc.settings.dark_mode);
}

#[test]
fn load_falls_back_to_backup_text() {
    // The structured document is absent; the backup holds "Recovered text".
    let doc = recover(None, Some("Recovered text".as_bytes().to_vec()));
    assert_eq!(doc.buffer, "Recovered text".as_bytes());
    assert_eq!(doc.tags.tags.len(), 0);
    assert_eq!(doc.ranges.items.len(), 0);
    assert_eq!(doc.settings, Settings::default());
}

#[test]
fn load_with_nothing_yields_the_default_document() {
    let fresh = recover(None, None);
    assert_eq!(
        fresh.buffer,
        "Welcome to buffmonster!\n\nJust start typing here and tag your things.".as_bytes()
    );
    assert_eq!(fresh.tags.tags.len(), 0);
    assert_eq!(fresh.ranges.items.len(), 0);
    // An empty backup is no recovery source either.
    let also_fresh = recover(None, Some(Vec::new()));
    assert_eq!(also_fresh.buffer, fresh.buffer);
    let direct = Document::new_default();
    assert_eq!(direct.buffer, fresh.buffer);
}

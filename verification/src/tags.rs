//! The tag registry: the set of named tags and their display colors.
//! Names are unique (case-sensitive), trimmed on creation, and never empty.

use vstd::prelude::*;

use crate::color::{random_color, spec_auto_color, Color};

verus! {

/// A named tag with its display color. Ranges refer to tags by name.
pub struct Tag {
    pub name: String,
    pub color: Color,
}

/// What `str::trim` yields for the given characters.
pub uninterp spec fn trim_of(s: Seq<char>) -> Seq<char>;

/// Relies on str::trim: returns the input with leading and trailing
/// whitespace removed, a function of the characters alone.
#[verifier::external_body]
fn trim_name(name: &String) -> (r: String)
    ensures
        r@ == trim_of(name@),
{
    name.trim().to_owned()
}

/// Is some tag in `tags` named `name`?
pub open spec fn spec_has_tag(tags: Seq<Tag>, name: Seq<char>) -> bool {
    exists|i: int| 0 <= i < tags.len() && tags[i].name@ == name
}

/// All tag names are distinct and non-empty.
pub open spec fn spec_tags_wf(tags: Seq<Tag>) -> bool {
    &&& forall|i: int, j: int|
        0 <= i < j < tags.len() ==> tags[i].name@ != tags[j].name@
    &&& forall|i: int| 0 <= i < tags.len() ==> tags[i].name@.len() > 0
}

/// What creating a tag does to the registry: no-op when the trimmed name
/// is empty or already present; otherwise the new tag is appended, named
/// by the trimmed input and colored from the palette by the previous tag
/// count.
pub open spec fn spec_create_tag_post(before: Seq<Tag>, after: Seq<Tag>, name: Seq<char>) -> bool {
    if trim_of(name).len() == 0 || spec_has_tag(before, trim_of(name)) {
        after == before
    } else {
        &&& after.len() == before.len() + 1
        &&& after.subrange(0, before.len() as int) == before
        &&& after.last().name@ == trim_of(name)
        &&& (after.last().color.r, after.last().color.g, after.last().color.b)
            == spec_auto_color(before.len() as int)
    }
}

/// What overwriting a tag's color does to the registry: no-op when the
/// tag is absent; otherwise only that tag's color changes.
pub open spec fn spec_set_color_post(
    before: Seq<Tag>,
    after: Seq<Tag>,
    name: Seq<char>,
    color: Color,
) -> bool {
    if !spec_has_tag(before, name) {
        after == before
    } else {
        exists|i: int|
            0 <= i < before.len() && before[i].name@ == name && after == before.update(
                i,
                Tag { name: before[i].name, color },
            )
    }
}

/// What removing a tag does to the registry: no-op when the tag is
/// absent; otherwise exactly that tag disappears, order kept.
pub open spec fn spec_remove_tag_post(before: Seq<Tag>, after: Seq<Tag>, name: Seq<char>) -> bool {
    if !spec_has_tag(before, name) {
        after == before
    } else {
        exists|i: int|
            0 <= i < before.len() && before[i].name@ == name && after == before.remove(i)
    }
}

/// The registry rebuilt from stored entries: entries with an empty name,
/// or whose name was already seen, are dropped; the first occurrence of
/// each name wins, colors as stored.
pub open spec fn spec_restored_tags(entries: Seq<Tag>) -> Seq<Tag>
    decreases entries.len(),
{
    if entries.len() == 0 {
        entries
    } else {
        let rest = spec_restored_tags(entries.drop_last());
        if entries.last().name@.len() == 0 || spec_has_tag(rest, entries.last().name@) {
            rest
        } else {
            rest.push(entries.last())
        }
    }
}

/// Owns the set of named tags and their display colors.
pub struct TagRegistry {
    pub tags: Vec<Tag>,
}

impl TagRegistry {
    /// Well-formed: unique, non-empty names.
    pub open spec fn wf(self) -> bool {
        spec_tags_wf(self.tags@)
    }

    pub fn new() -> (r: TagRegistry)
        ensures
            r.wf(),
            r.tags@.len() == 0,
    {
        TagRegistry { tags: Vec::new() }
    }

    /// The index of the tag named `name`, if any.
    fn index_of(&self, name: &String) -> (r: Option<usize>)
        ensures
            match r {
                Some(i) => i < self.tags@.len() && self.tags@[i as int].name@ == name@,
                None => !spec_has_tag(self.tags@, name@),
            },
    {
        let mut i: usize = 0;
        while i < self.tags.len()
            invariant
                i <= self.tags@.len(),
                forall|j: int| 0 <= j < i ==> self.tags@[j].name@ != name@,
            decreases self.tags@.len() - i,
        {
            if self.tags[i].name == *name {
                return Some(i);
            }
            i = i + 1;
        }
        None
    }

    /// Create a tag named by the trimmed input, with an automatically
    /// assigned palette color. No-op when the trimmed name is empty or a
    /// tag of that name already exists (case-sensitive uniqueness).
    pub fn create_tag(&mut self, name: &String)
        requires
            old(self).wf(),
        ensures
            final(self).wf(),
            spec_create_tag_post(old(self).tags@, final(self).tags@, name@),
    {
        let trimmed = trim_name(name);
        if trimmed.as_str().is_empty() {
            return ;
        }
        if self.index_of(&trimmed).is_some() {
            return ;
        }
        let color = random_color(self.tags.len());
        let ghost before = self.tags@;
        self.tags.push(Tag { name: trimmed, color });
        proof {
            assert(final(self).tags@.subrange(0, before.len() as int) =~= before);
        }
    }

    /// Overwrite the color of the tag named `name`; no-op if absent.
    pub fn set_color(&mut self, name: &String, color: Color)
        requires
            old(self).wf(),
        ensures
            final(self).wf(),
            spec_set_color_post(old(self).tags@, final(self).tags@, name@, color),
    {
        match self.index_of(name) {
            Some(i) => {
                self.tags[i].color = color;
                proof {
                    let tagged = Tag { name: old(self).tags@[i as int].name, color };
                    assert(final(self).tags@ =~= old(self).tags@.update(i as int, tagged));
                }
            },
            None => {},
        }
    }

    /// Remove the tag named `name` from the registry; no-op if absent.
    /// (Cascading removal of that tag's ranges is the document's job.)
    pub fn remove_tag(&mut self, name: &String)
        requires
            old(self).wf(),
        ensures
            final(self).wf(),
            spec_remove_tag_post(old(self).tags@, final(self).tags@, name@),
            !spec_has_tag(final(self).tags@, name@),
    {
        match self.index_of(name) {
            Some(i) => {
                self.tags.remove(i);
                proof {
                    let removed = old(self).tags@.remove(i as int);
                    assert forall|a: int| 0 <= a < removed.len() implies removed[a].name@
                        != name@ by {
                        if a < i {
                            assert(removed[a] == old(self).tags@[a]);
                        } else {
                            assert(removed[a] == old(self).tags@[a + 1]);
                        }
                    }
                }
            },
            None => {},
        }
    }

    /// Insert a tag as restored from storage: the given color is kept.
    /// No-op when the name is empty or already present, so well-formedness
    /// holds whatever the storage contained.
    pub fn restore_tag(&mut self, name: String, color: Color)
        requires
            old(self).wf(),
        ensures
            final(self).wf(),
            name@.len() == 0 || spec_has_tag(old(self).tags@, name@) ==> final(self).tags@
                == old(self).tags@,
            name@.len() > 0 && !spec_has_tag(old(self).tags@, name@) ==> final(self).tags@
                == old(self).tags@.push(Tag { name, color }),
    {
        if name.as_str().is_empty() {
            return ;
        }
        if self.index_of(&name).is_some() {
            return ;
        }
        self.tags.push(Tag { name, color });
    }

    /// Rebuild a registry from entries as read back from storage, per
    /// `spec_restored_tags`: empty names and repeated names are dropped,
    /// so the registry is well-formed whatever the storage contained.
    pub fn restore_tags(entries: &Vec<Tag>) -> (r: TagRegistry)
        ensures
            r.wf(),
            r.tags@ == spec_restored_tags(entries@),
    {
        let n = entries.len();
        let mut reg = TagRegistry::new();
        let mut i: usize = 0;
        while i < n
            invariant
                n == entries@.len(),
                i <= n,
                reg.wf(),
                reg.tags@ == spec_restored_tags(entries@.subrange(0, i as int)),
            decreases n - i,
        {
            let entry = &entries[i];
            proof {
                assert(entries@.subrange(0, i + 1).drop_last() =~= entries@.subrange(0, i as int));
                assert(entries@.subrange(0, i + 1).last() == entries@[i as int]);
            }
            reg.restore_tag(entry.name.clone(), entry.color);
            proof {
                assert((Tag { name: entries@[i as int].name, color: entries@[i as int].color })
                    == entries@[i as int]);
            }
            i = i + 1;
        }
        proof {
            assert(entries@.subrange(0, n as int) =~= entries@);
        }
        reg
    }

    /// The color of the tag named `name`: `Some` exactly when the tag exists.
    pub fn color_of(&self, name: &String) -> (r: Option<Color>)
        ensures
            match r {
                Some(c) => exists|i: int|
                    0 <= i < self.tags@.len() && self.tags@[i].name@ == name@
                        && self.tags@[i].color == c,
                None => !spec_has_tag(self.tags@, name@),
            },
    {
        match self.index_of(name) {
            Some(i) => Some(self.tags[i].color),
            None => None,
        }
    }

    /// How many tags exist.
    pub fn count(&self) -> (r: usize)
        ensures
            r == self.tags@.len(),
    {
        self.tags.len()
    }
}

} // verus!

use vstd::prelude::*;

verus! {

/// The process-wide slot that owns the schema manifest text.  It follows a
/// single-assignment discipline: it starts empty, is published to exactly
/// once — before the engine is built, so before any reader exists — and is
/// read-only ever after.  There is no way to clear or overwrite it:
/// `publish` demands an empty slot, and no other method mutates it.
pub struct ManifestSlot {
    text: Option<String>,
}

impl ManifestSlot {
    /// Whether the manifest text has been published.
    pub closed spec fn is_published(&self) -> bool {
        self.text is Some
    }

    /// The published manifest text.
    pub closed spec fn content(&self) -> Seq<char>
        recommends
            self.is_published(),
    {
        self.text->0@
    }

    /// An empty slot, owned by the bootstrap until it publishes.
    pub fn new() -> (slot: ManifestSlot)
        ensures
            !slot.is_published(),
    {
        ManifestSlot { text: None }
    }

    /// Publishes the manifest text into the slot.  This is the single
    /// assignment: it requires the slot to still be empty, so a second
    /// writer cannot exist, and after it the slot holds exactly the text
    /// that was read from the manifest file.
    pub fn publish(&mut self, text: String)
        requires
            !old(self).is_published(),
        ensures
            final(self).is_published(),
            final(self).content() == text@,
    {
        self.text = Some(text);
    }

    /// Reads the published text.  Every reader sees the one fully written
    /// value that `publish` stored; there is no state in which a reader
    /// could observe a partial or later value.
    pub fn read(&self) -> (text: &String)
        requires
            self.is_published(),
        ensures
            text@ == self.content(),
    {
        match &self.text {
            Some(text) => text,
            None => unreached(),
        }
    }
}

/// Single assignment, stated as a law: what `publish` stored is what
/// `read` hands every reader.  A slot published with `published` has that
/// text as its one content, so any two readers — and any two reads by the
/// same reader — see the same fully written value, never a torn or
/// superseded one.
pub proof fn lemma_reads_see_published_text(
    slot: ManifestSlot,
    published: Seq<char>,
    seen_by_one: Seq<char>,
    seen_by_other: Seq<char>,
)
    requires
        slot.is_published(),
        slot.content() == published,
        seen_by_one == slot.content(),
        seen_by_other == slot.content(),
    ensures
        seen_by_one == published,
        seen_by_other == published,
        seen_by_one == seen_by_other,
{
}

} // verus!

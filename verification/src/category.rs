//! Channel categories.
use vstd::prelude::*;
use crate::text::text_eq;

verus! {

/// The logical channels that one session can carry.
#[derive(Clone, Copy, Debug, PartialEq, Eq, Structural)]
pub enum Category {
    Board,
    Element,
    ActiveMember,
    Client,
    Default,
}

/// Number of categories, and so of channel slots in a session.
pub const CATEGORY_COUNT: usize = 5;

impl Category {
    /// The category that a tag names. A tag that names none falls to `Default`.
    pub open spec fn of_tag(tag: Seq<char>) -> Category {
        if tag == "board"@ {
            Category::Board
        } else if tag == "element"@ {
            Category::Element
        } else if tag == "active_member"@ || tag == "active-member"@ {
            Category::ActiveMember
        } else if tag == "client"@ {
            Category::Client
        } else {
            Category::Default
        }
    }

    /// Whether a tag names one of the categories, rather than falling to
    /// `Default` unrecognised.
    pub open spec fn knows_tag(tag: Seq<char>) -> bool {
        tag == "board"@ || tag == "element"@ || tag == "active_member"@ || tag == "active-member"@
            || tag == "client"@ || tag == "default"@
    }

    /// The tag under which a category is written.
    pub open spec fn tag_text(self) -> Seq<char> {
        match self {
            Category::Board => "board"@,
            Category::Element => "element"@,
            Category::ActiveMember => "active_member"@,
            Category::Client => "client"@,
            Category::Default => "default"@,
        }
    }

    /// Position of a category's slot, below `CATEGORY_COUNT`.
    pub open spec fn slot(self) -> int {
        match self {
            Category::Board => 0,
            Category::Element => 1,
            Category::ActiveMember => 2,
            Category::Client => 3,
            Category::Default => 4,
        }
    }

    /// The category whose slot is at a position.
    pub open spec fn at_slot(slot: int) -> Category {
        if slot == 0 {
            Category::Board
        } else if slot == 1 {
            Category::Element
        } else if slot == 2 {
            Category::ActiveMember
        } else if slot == 3 {
            Category::Client
        } else {
            Category::Default
        }
    }

    /// Reads a category from its tag.
    pub fn from_tag(tag: &str) -> (category: Category)
        ensures
            category == Category::of_tag(tag@),
    {
        if text_eq(tag, "board") {
            Category::Board
        } else if text_eq(tag, "element") {
            Category::Element
        } else if text_eq(tag, "active_member") || text_eq(tag, "active-member") {
            Category::ActiveMember
        } else if text_eq(tag, "client") {
            Category::Client
        } else {
            Category::Default
        }
    }

    /// Whether the tag names a category; `from_tag` maps every other tag to
    /// `Default`, which a caller may want to report.
    pub fn is_known_tag(tag: &str) -> (known: bool)
        ensures
            known == Category::knows_tag(tag@),
    {
        text_eq(tag, "board") || text_eq(tag, "element") || text_eq(tag, "active_member")
            || text_eq(tag, "active-member") || text_eq(tag, "client") || text_eq(tag, "default")
    }

    /// The tag of a category.
    pub fn tag(&self) -> (tag: &'static str)
        ensures
            tag@ == self.tag_text(),
    {
        match self {
            Category::Board => "board",
            Category::Element => "element",
            Category::ActiveMember => "active_member",
            Category::Client => "client",
            Category::Default => "default",
        }
    }

    /// The slot of a category.
    pub fn index(&self) -> (slot: usize)
        ensures
            slot == self.slot(),
            slot < CATEGORY_COUNT,
    {
        match self {
            Category::Board => 0,
            Category::Element => 1,
            Category::ActiveMember => 2,
            Category::Client => 3,
            Category::Default => 4,
        }
    }

    /// The category of a slot; `None` beyond the last slot.
    pub fn from_index(slot: usize) -> (category: Option<Category>)
        ensures
            category is Some <==> slot < CATEGORY_COUNT,
            category matches Some(c) ==> c == Category::at_slot(slot as int) && c.slot() == slot,
    {
        if slot == 0 {
            Some(Category::Board)
        } else if slot == 1 {
            Some(Category::Element)
        } else if slot == 2 {
            Some(Category::ActiveMember)
        } else if slot == 3 {
            Some(Category::Client)
        } else if slot == 4 {
            Some(Category::Default)
        } else {
            None
        }
    }
}

/// Slots and categories correspond one to one.
pub proof fn lemma_slot_roundtrip(category: Category)
    ensures
        0 <= category.slot() < CATEGORY_COUNT,
        Category::at_slot(category.slot()) == category,
{
}

/// Reading the tag that a category is written under gives the category back.
pub proof fn lemma_tag_roundtrip(category: Category)
    ensures
        Category::of_tag(category.tag_text()) == category,
        Category::knows_tag(category.tag_text()),
{
    reveal_strlit("board");
    reveal_strlit("element");
    reveal_strlit("active_member");
    reveal_strlit("active-member");
    reveal_strlit("client");
    reveal_strlit("default");
    let t = category.tag_text();
    assert("board"@.len() == 5 && "element"@.len() == 7 && "client"@.len() == 6
        && "default"@.len() == 7 && "active_member"@.len() == 13 && "active-member"@.len() == 13);
    assert("element"@[0] == 'e' && "default"@[0] == 'd');
    assert("client"@[0] == 'c');
}

} // verus!

//! Requests to, and replies from, a scroll component: a list of entries
//! of coloured text.
use vstd::prelude::*;

use crate::request::Colour;

verus! {

/// A line position.
#[derive(PartialEq, Eq, Structural, Debug)]
pub enum ScrollPosition {
    /// A line counted from the top.
    Absolute { index: u32 },
    /// A line counted from the last one.
    Relative { index: i32 },
}

impl ScrollPosition {
    pub fn absolute(index: u32) -> (r: Self)
        ensures
            r == (ScrollPosition::Absolute { index }),
    {
        ScrollPosition::Absolute { index }
    }

    pub fn relative(index: i32) -> (r: Self)
        ensures
            r == (ScrollPosition::Relative { index }),
    {
        ScrollPosition::Relative { index }
    }
}

/// One piece of an entry.
#[derive(Clone, Debug)]
pub enum Chunk {
    /// Sets the colour of the text that follows.
    Colour { value: Colour },
    /// Text.
    Text { value: String },
}

impl Chunk {
    pub fn colour(colour: Colour) -> (r: Self)
        ensures
            r == (Chunk::Colour { value: colour }),
    {
        Chunk::Colour { value: colour }
    }

    pub fn text(text: String) -> (r: Self)
        ensures
            r == (Chunk::Text { value: text }),
    {
        Chunk::Text { value: text }
    }
}

/// An entry: chunks shown in order.
#[derive(Debug)]
pub struct Entry(pub Vec<Chunk>);

impl Default for Entry {
    fn default() -> (r: Self)
        ensures
            r.0@ == Seq::<Chunk>::empty(),
    {
        Entry(Vec::new())
    }
}

impl From<Vec<Chunk>> for Entry {
    fn from(value: Vec<Chunk>) -> (r: Self) {
        Entry(value)
    }
}

impl vstd::std_specs::convert::FromSpecImpl<Vec<Chunk>> for Entry {
    open spec fn obeys_from_spec() -> bool {
        true
    }

    open spec fn from_spec(v: Vec<Chunk>) -> Self {
        Entry(v)
    }
}

impl Entry {
    /// An entry of one text chunk.
    pub fn from_text(text: String) -> (r: Self)
        ensures
            r.0@ == seq![Chunk::Text { value: text }],
    {
        let mut v: Vec<Chunk> = Vec::new();
        v.push(Chunk::text(text));
        Entry(v)
    }

    /// Adds a chunk at the end.
    pub fn push(&mut self, new: Chunk)
        ensures
            final(self).0@ == old(self).0@.push(new),
    {
        self.0.push(new)
    }

    /// Moves the chunks of `other` to the end of this entry.
    pub fn append(&mut self, other: &mut Self)
        ensures
            final(self).0@ == old(self).0@ + old(other).0@,
            final(other).0@ == Seq::<Chunk>::empty(),
    {
        self.0.append(&mut other.0)
    }

    /// The chunks of this entry followed by those of `other`.
    pub fn join(self, other: Self) -> (r: Self)
        ensures
            r.0@ == self.0@ + other.0@,
    {
        let mut a = self;
        let mut b = other;
        a.append(&mut b);
        a
    }
}

/// A request to a scroll component, with the identifier its reply carries.
#[derive(Debug)]
pub struct ScrollRequest {
    pub content: ScrollRequestVariant,
    pub id: u32,
}

/// What a scroll request asks.
#[derive(Debug)]
pub enum ScrollRequestVariant {
    /// Add an entry at a position.
    AddEntry { position: ScrollPosition, entry: Entry },
    /// Remove the entry with this identifier.
    RemoveEntry { uid: u32 },
    /// Replace the entry with this identifier.
    UpdateEntry { uid: u32, new: Entry },
    /// Several requests at once.
    Multiple { requests: Vec<ScrollRequest> },
}

impl ScrollRequest {
    pub fn new(id: u32, content: ScrollRequestVariant) -> (r: Self)
        ensures
            r.id == id,
            r.content == content,
    {
        ScrollRequest { content, id }
    }
}

/// A reply from a scroll component.
#[derive(Debug)]
pub struct ScrollResponse {
    pub content: ScrollResponseVariant,
    pub id: u32,
}

/// What a scroll component replied.
#[derive(Debug)]
pub enum ScrollResponseVariant {
    /// An entry was added; its identifier.
    Created { uid: u32 },
    Updated,
    Removed,
    NotFound,
    Recieved,
    /// Replies to several requests, in order.
    Multiple { responses: Vec<ScrollResponseVariant> },
}

impl ScrollResponseVariant {
    /// The identifier of a created entry.
    pub fn as_created(&self) -> (r: Option<u32>)
        ensures
            match *self {
                ScrollResponseVariant::Created { uid } => r == Some(uid),
                _ => r is None,
            },
    {
        match self {
            ScrollResponseVariant::Created { uid } => Some(*uid),
            _ => None,
        }
    }

    /// The replies of a multiple request.
    pub fn as_multiple(&self) -> (r: Option<&[ScrollResponseVariant]>)
        ensures
            match *self {
                ScrollResponseVariant::Multiple { responses } => r matches Some(s) && s@
                    == responses@,
                _ => r is None,
            },
    {
        match self {
            ScrollResponseVariant::Multiple { responses } => Some(responses.as_slice()),
            _ => None,
        }
    }
}

} // verus!

//! Identifiers of local rows, and the address under which an object is known
//! to every server.

use vstd::prelude::*;

verus! {

/// Key of a person row.
#[derive(Clone, Copy, PartialEq, Eq, Structural, Debug, Hash)]
pub struct PersonId(pub i32);

/// Key of a community row.
#[derive(Clone, Copy, PartialEq, Eq, Structural, Debug, Hash)]
pub struct CommunityId(pub i32);

/// Key of a post row.
#[derive(Clone, Copy, PartialEq, Eq, Structural, Debug, Hash)]
pub struct PostId(pub i32);

/// Key of a local user row.
#[derive(Clone, Copy, PartialEq, Eq, Structural, Debug, Hash)]
pub struct LocalUserId(pub i32);

/// Key of a local image row.
#[derive(Clone, Copy, PartialEq, Eq, Structural, Debug, Hash)]
pub struct LocalImageId(pub i32);

/// A point in time, in universal time: whole seconds since the epoch and the
/// nanoseconds into the second.
#[derive(Clone, Copy, PartialEq, Eq, Structural, Debug, Hash)]
pub struct Timestamp {
    pub seconds: i64,
    pub nanoseconds: u32,
}

/// The address of an object as stored in a row: an opaque identifier that is
/// the same on every server. Two addresses are equal when their text is.
#[derive(Debug, PartialEq, Eq, Hash)]
pub struct DbUrl {
    text: String,
}

impl View for DbUrl {
    type V = Seq<char>;

    closed spec fn view(&self) -> Seq<char> {
        self.text@
    }
}

impl DeepView for DbUrl {
    type V = Seq<char>;

    open spec fn deep_view(&self) -> Seq<char> {
        self@
    }
}

impl DbUrl {
    /// An address with the given text.
    pub fn new(text: String) -> (url: DbUrl)
        ensures
            url@ == text@,
    {
        DbUrl { text }
    }

    /// An address with the text of `text`.
    pub fn from_str(text: &str) -> (url: DbUrl)
        ensures
            url@ == text@,
    {
        DbUrl { text: text.to_owned() }
    }

    /// The text of the address.
    pub fn as_str(&self) -> (text: &str)
        ensures
            text@ == self@,
    {
        self.text.as_str()
    }

    /// The text of the address, as an owned string.
    pub fn into_string(self) -> (text: String)
        ensures
            text@ == self@,
    {
        self.text
    }

    /// Whether the two addresses have the same text.
    pub fn same(&self, other: &DbUrl) -> (b: bool)
        ensures
            b == (self@ == other@),
    {
        self.text == other.text
    }
}

impl Clone for DbUrl {
    fn clone(&self) -> (copy: DbUrl)
        ensures
            copy == *self,
    {
        DbUrl { text: self.text.clone() }
    }
}

} // verus!

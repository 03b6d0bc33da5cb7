use vstd::prelude::*;

use crate::datetime::{datetime_text_of, utc_datetime_string, MAX_UTC_MILLIS};

verus! {

/// How many characters of a note's content the one-line preview keeps.
pub const SHIM_LEN: usize = 77;

/// An immutable captured note: created once, with final content, never
/// edited afterwards.
#[derive(Debug)]
pub struct Zettel {
    pub id: i64,
    pub content: String,
    /// Milliseconds since the 1970 epoch.
    pub created_at: i64,
}

impl Clone for Zettel {
    fn clone(&self) -> (r: Self)
        ensures
            r == *self,
    {
        Zettel { id: self.id, content: self.content.clone(), created_at: self.created_at }
    }
}

impl Zettel {
    /// A one-line preview: the whole content when it is short, else its
    /// first characters followed by an ellipsis. The length is counted in
    /// characters, never in bytes, so the cut cannot split a character.
    pub fn get_shim(&self) -> (r: String)
        ensures
            self.content@.len() < SHIM_LEN ==> r@ == self.content@,
            self.content@.len() >= SHIM_LEN ==> r@ == self.content@.subrange(0, SHIM_LEN as int)
                + "..."@,
    {
        let n = self.content.as_str().unicode_len();
        if n < SHIM_LEN {
            self.content.clone()
        } else {
            let mut s = String::from_str(self.content.as_str().substring_char(0, SHIM_LEN));
            s.append("...");
            s
        }
    }

    /// The note's creation instant rendered as calendar text.
    pub fn get_datetime_string(&self) -> (r: String)
        requires
            0 <= self.created_at <= MAX_UTC_MILLIS,
        ensures
            r@ == datetime_text_of(self.created_at as int / 1000),
    {
        let millis: u64 = self.created_at as u64;
        let secs: i64 = (millis / 1000) as i64;
        utc_datetime_string(secs)
    }
}

/// A directed citation row: `node_id` was written building on `parent_id`.
/// A row with `parent_id == None` marks `node_id` as a root; every note has
/// at least one row with its id as `node_id`.
#[derive(Debug)]
pub struct ZettelEdge {
    pub node_id: i64,
    pub parent_id: Option<i64>,
}

impl Clone for ZettelEdge {
    fn clone(&self) -> (r: Self)
        ensures
            r == *self,
    {
        ZettelEdge { node_id: self.node_id, parent_id: self.parent_id }
    }
}

/// A tag attached to a note; unique per `(zettel_id, tag)` pair.
#[derive(Debug)]
pub struct ZettelTag {
    pub zettel_id: i64,
    pub tag: String,
    /// Milliseconds since the 1970 epoch; refreshed when the tag is re-added.
    pub created_at: i64,
}

impl Clone for ZettelTag {
    fn clone(&self) -> (r: Self)
        ensures
            r == *self,
    {
        ZettelTag {
            zettel_id: self.zettel_id,
            tag: self.tag.clone(),
            created_at: self.created_at,
        }
    }
}

/// A one-way publication snapshot of a note's content under a title.
#[derive(Debug)]
pub struct Article {
    pub id: i64,
    pub zettel_id: i64,
    pub title: String,
    pub content: String,
    /// Milliseconds since the 1970 epoch.
    pub created_at: i64,
}

impl Clone for Article {
    fn clone(&self) -> (r: Self)
        ensures
            r == *self,
    {
        Article {
            id: self.id,
            zettel_id: self.zettel_id,
            title: self.title.clone(),
            content: self.content.clone(),
            created_at: self.created_at,
        }
    }
}

} // verus!

//! The record that a catalog keeps for one photo.

use vstd::prelude::*;

verus! {

/// A position on the globe. Latitude and longitude are in millionths of a
/// degree, negative to the south and to the west.
#[derive(Debug)]
pub struct Geo {
    pub latitude: i32,
    pub longitude: i32,
    pub accuracy: String,
}

/// A tag that a user put on a photo.
#[derive(Debug)]
pub struct Tag {
    pub tag: String,
    pub user: String,
    pub date_create: String,
}

/// Everything the catalog holds about one photo.
#[derive(Debug)]
pub struct PhotoItem {
    pub id: String,
    pub name: String,
    pub description: String,
    pub count_views: i32,
    pub count_faves: i32,
    pub count_comments: i32,
    pub date_taken: String,
    pub count_tags: i32,
    pub count_notes: i32,
    pub rotation: i32,
    pub date_imported: String,
    pub photopage: String,
    pub original: String,
    pub license: String,
    pub geo: Vec<Geo>,
    pub groups: Vec<String>,
    pub albums: Vec<String>,
    pub tags: Vec<Tag>,
    pub people: Vec<String>,
    pub notes: Vec<String>,
    pub privacy: String,
    pub comment_permissions: String,
    pub tagging_permissions: String,
    pub safety: String,
    pub comments: Vec<String>,
}

impl PhotoItem {
    /// Latitude and longitude of the first position on record. Further
    /// positions are never used.
    pub open spec fn position(self) -> Option<(i32, i32)> {
        if self.geo@.len() == 0 {
            None
        } else {
            Some((self.geo@[0].latitude, self.geo@[0].longitude))
        }
    }

    /// The position that gets embedded, if the photo has one.
    pub fn first_position(&self) -> (at: Option<(i32, i32)>)
        ensures
            at == self.position(),
    {
        if self.geo.len() == 0 {
            None
        } else {
            Some((self.geo[0].latitude, self.geo[0].longitude))
        }
    }
}

} // verus!

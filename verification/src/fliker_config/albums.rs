//! The album listing of a catalog.

use vstd::prelude::*;

verus! {

/// One album: its counters, its texts and the identifiers of its photos.
#[derive(Debug)]
pub struct Album {
    pub photo_count: i32,
    pub id: String,
    pub url: String,
    pub title: String,
    pub description: String,
    pub view_count: i32,
    pub created: String,
    pub last_updated: String,
    pub cover_photo: String,
    pub photos: Vec<String>,
}

/// All albums of a catalog, in the order of the listing.
#[derive(Debug)]
pub struct Albums {
    pub albums: Vec<Album>,
}

impl Albums {
    /// The first album with the given title, if the catalog has one.
    pub fn find_by_title(&self, title: &str) -> (found: Option<&Album>)
        ensures
            match found {
                Some(album) => exists|i: int|
                    0 <= i < self.albums@.len() && *album == #[trigger] self.albums@[i]
                        && album.title@ == title@
                        && forall|j: int| 0 <= j < i ==> #[trigger] self.albums@[j].title@ != title@,
                None => forall|j: int|
                    0 <= j < self.albums@.len() ==> #[trigger] self.albums@[j].title@ != title@,
            },
    {
        let wanted: String = title.to_owned();
        let mut i: usize = 0;
        while i < self.albums.len()
            invariant
                i <= self.albums@.len(),
                wanted@ == title@,
                forall|j: int| 0 <= j < i ==> #[trigger] self.albums@[j].title@ != title@,
            decreases self.albums@.len() - i,
        {
            if self.albums[i].title == wanted {
                return Some(&self.albums[i]);
            }
            i += 1;
        }
        None
    }
}

} // verus!

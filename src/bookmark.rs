use vstd::prelude::*;

verus! {

/// Store-assigned handle of a bookmark.
#[derive(Clone, Copy, Debug, PartialEq, Eq, Structural)]
pub struct BookmarkId(pub u64);

/// A bookmark record; `id` is absent until the store has assigned one.
#[derive(Clone, Debug)]
pub struct Bookmark {
    pub id: Option<BookmarkId>,
    pub url: String,
    pub title: String,
    pub group: Option<String>,
    pub position: Option<u64>,
}

/// The optional payload of a request.
pub struct RequestData {
    pub bookmark: Option<Bookmark>,
    pub bookmark_id: Option<BookmarkId>,
}

fn copy_text(s: &String) -> (r: String)
    ensures
        r == *s,
{
    s.clone()
}

impl Bookmark {
    /// A field-for-field copy of this bookmark.
    pub fn duplicate(&self) -> (r: Bookmark)
        ensures
            r == *self,
    {
        let group = match &self.group {
            Some(g) => Some(copy_text(g)),
            None => None,
        };
        Bookmark {
            id: self.id,
            url: copy_text(&self.url),
            title: copy_text(&self.title),
            group,
            position: self.position,
        }
    }
}

} // verus!

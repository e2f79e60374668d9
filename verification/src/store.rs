//! The photo store: photo records, the category enumeration, and the
//! append-only collection that assigns each new photo a unique identifier.

use vstd::prelude::*;

verus! {

/// The closed set of labels a photo can carry. A photo created without an
/// explicit category receives the default, `Portrailt`.
#[derive(Clone, Copy, Debug, PartialEq, Eq, Structural)]
pub enum PhotoCategory {
    Selfie,
    Portrailt,
    Action,
    Landscape,
    Graphic,
}

impl Default for PhotoCategory {
    /// The category used when none is given on creation.
    fn default() -> (c: Self)
        ensures
            c == PhotoCategory::Portrailt,
    {
        PhotoCategory::Portrailt
    }
}

/// The category a new photo receives: the requested one if present, the
/// default otherwise.
pub open spec fn category_or_default(requested: Option<PhotoCategory>) -> PhotoCategory {
    match requested {
        Some(c) => c,
        None => PhotoCategory::Portrailt,
    }
}

/// An immutable photo record. The store assigns `id`; the remaining fields
/// are taken from the creation request as given.
#[derive(Debug)]
pub struct Photo {
    pub id: usize,
    pub name: String,
    pub description: String,
    pub category: PhotoCategory,
}

impl Clone for Photo {
    fn clone(&self) -> (res: Photo)
        ensures
            res == *self,
    {
        Photo {
            id: self.id,
            name: self.name.clone(),
            description: self.description.clone(),
            category: self.category,
        }
    }
}

/// The in-memory photo store: an insertion-ordered, append-only collection of
/// photo records together with the counter that hands out identifiers. All
/// access is serialized by whoever owns the store (a single lock in the
/// hosting process); the store itself is single-threaded.
pub struct PhotoStore {
    sequence_id: usize,
    photos: Vec<Photo>,
}

impl View for PhotoStore {
    type V = Seq<Photo>;

    /// The store is abstractly the sequence of all photos ever created, in
    /// creation order.
    closed spec fn view(&self) -> Seq<Photo> {
        self.photos@
    }
}

impl PhotoStore {
    /// The store's invariant: the counter equals the number of photos ever
    /// created (none are ever removed), and the photo at position `i` carries
    /// identifier `i + 1` — identifiers start at 1, increase by one per
    /// creation, and are never reused.
    pub closed spec fn wf(self) -> bool {
        &&& self.sequence_id == self.photos@.len()
        &&& forall|i: int|
            0 <= i < self.photos@.len() ==> (#[trigger] self.photos@[i]).id == i + 1
    }

    /// A fresh store holds no photos and starts its counter at zero.
    pub fn new() -> (s: Self)
        ensures
            s.wf(),
            s@ == Seq::<Photo>::empty(),
    {
        PhotoStore { sequence_id: 0, photos: Vec::new() }
    }

    /// Creates a photo from the given fields, assigns it the next identifier,
    /// appends it to the collection, and returns a copy of the stored record.
    /// A missing category becomes the default.
    pub fn post_photo(
        &mut self,
        name: String,
        description: String,
        category: Option<PhotoCategory>,
    ) -> (photo: Photo)
        requires
            old(self).wf(),
            old(self)@.len() < usize::MAX,
        ensures
            final(self).wf(),
            final(self)@ == old(self)@.push(photo),
            photo.id == old(self)@.len() + 1,
            photo.name == name,
            photo.description == description,
            photo.category == category_or_default(category),
    {
        let id = self.sequence_id + 1;
        self.sequence_id = id;
        let category = match category {
            Some(c) => c,
            None => PhotoCategory::default(),
        };
        let photo = Photo { id, name, description, category };
        self.photos.push(photo.clone());
        photo
    }

    /// The number of photos created so far.
    pub fn total_photos(&self) -> (n: usize)
        ensures
            n == self@.len(),
    {
        self.photos.len()
    }

    /// A copy of the full collection, in creation order.
    pub fn all_photos(&self) -> (photos: Vec<Photo>)
        ensures
            photos@ == self@,
    {
        let mut photos: Vec<Photo> = Vec::new();
        let mut i: usize = 0;
        while i < self.photos.len()
            invariant
                i <= self.photos@.len(),
                photos@ == self@.subrange(0, i as int),
            decreases self.photos@.len() - i,
        {
            photos.push(self.photos[i].clone());
            assert(self@.subrange(0, i as int).push(self@[i as int]) =~= self@.subrange(
                0,
                i as int + 1,
            ));
            i = i + 1;
        }
        assert(self@.subrange(0, self@.len() as int) =~= self@);
        photos
    }
}

/// In a well-formed store the identifiers are exactly the positions shifted by
/// one: the photo at position `i` carries identifier `i + 1`, every identifier
/// lies between 1 and the collection's length, and no two photos share one —
/// after `n` creations the identifiers are `1..=n` with no duplicates and no
/// gaps, in creation order.
pub proof fn lemma_ids_sequential(s: PhotoStore)
    requires
        s.wf(),
    ensures
        forall|i: int| 0 <= i < s@.len() ==> (#[trigger] s@[i]).id == i + 1,
        forall|i: int| 0 <= i < s@.len() ==> 1 <= (#[trigger] s@[i]).id <= s@.len(),
        forall|i: int, j: int|
            0 <= i < s@.len() && 0 <= j < s@.len() && i != j ==> (#[trigger] s@[i]).id != (
            #[trigger] s@[j]).id,
{
}

} // verus!

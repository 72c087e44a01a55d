//! What the renderer holds on behalf of the host, and when it lets go.
//!
//! A terminal caches the fringe bitmaps that were uploaded for it, by bitmap
//! identifier, until it is torn down.  A frame holds the images behind the
//! host's pixmaps, by pixmap handle, each until its pixmap is freed.  After
//! a free or a teardown no lookup finds what was let go.
//!
//! The tables do not look into an image: `Image` is whatever the renderer
//! hands out for one.

use std::collections::HashMap;
use vstd::prelude::*;

verus! {

broadcast use vstd::std_specs::hash::group_hash_axioms;

/// What a table holds for an identifier.
pub open spec fn lookup<Id, Image>(table: Map<Id, Image>, id: Id) -> Option<Image> {
    if table.contains_key(id) {
        Some(table[id])
    } else {
        None
    }
}

/// The bitmaps that were uploaded to the renderer for one terminal, by
/// bitmap identifier.  An entry stays until the terminal is torn down.
pub struct FringeBitmapCache<Image> {
    bitmaps: HashMap<i32, Image>,
}

impl<Image> View for FringeBitmapCache<Image> {
    type V = Map<i32, Image>;

    closed spec fn view(&self) -> Map<i32, Image> {
        self.bitmaps@
    }
}

impl<Image: Copy> FringeBitmapCache<Image> {
    /// A cache that holds no bitmap.
    pub fn new() -> (cache: Self)
        ensures
            cache@ == Map::<i32, Image>::empty(),
    {
        FringeBitmapCache { bitmaps: HashMap::new() }
    }

    /// The image that was uploaded for `which`, if any.
    pub fn get(&self, which: i32) -> (image: Option<Image>)
        ensures
            image == lookup(self@, which),
    {
        match self.bitmaps.get(&which) {
            Some(image) => Some(*image),
            None => None,
        }
    }

    /// Records that `image` was uploaded for `which`, in place of what was
    /// recorded for it before.
    pub fn insert(&mut self, which: i32, image: Image)
        ensures
            final(self)@ == old(self)@.insert(which, image),
    {
        self.bitmaps.insert(which, image);
    }
}

/// The image of the fringe bitmap `which`: the cached one where there is
/// one, else the one that `create` uploads, which is then cached.  `create`
/// is not called for a bitmap that the cache holds.
pub fn get_or_create_fringe_bitmap<Image: Copy, F: FnOnce() -> Image>(
    cache: &mut FringeBitmapCache<Image>,
    which: i32,
    create: F,
) -> (image: Image)
    requires
        !old(cache)@.contains_key(which) ==> call_requires(create, ()),
    ensures
        old(cache)@.contains_key(which) ==> image == old(cache)@[which] && final(cache)@
            == old(cache)@,
        !old(cache)@.contains_key(which) ==> call_ensures(create, (), image) && final(cache)@
            == old(cache)@.insert(which, image),
        lookup(final(cache)@, which) == Some(image),
{
    match cache.get(which) {
        Some(image) => image,
        None => {
            let image = create();
            cache.insert(which, image);
            image
        },
    }
}

/// Lets go of everything that was cached for a terminal whose display
/// connection is freed.
pub fn gl_renderer_free_terminal_resources<Image>(cache: &mut FringeBitmapCache<Image>)
    ensures
        final(cache)@ == Map::<i32, Image>::empty(),
        forall|which: i32| lookup(final(cache)@, which) is None,
{
    cache.bitmaps.clear();
}

/// The images that back the host's pixmaps on one frame, by pixmap handle.
///
/// The table owns each image.  Whoever allocated a pixmap hands it back
/// with `wr_free_pixmap` and gets the image to destroy; from then on no
/// lookup finds it.
pub struct PixmapImages<Image> {
    images: HashMap<u64, Image>,
}

impl<Image> View for PixmapImages<Image> {
    type V = Map<u64, Image>;

    closed spec fn view(&self) -> Map<u64, Image> {
        self.images@
    }
}

impl<Image> PixmapImages<Image> {
    /// A frame without pixmaps.
    pub fn new() -> (images: Self)
        ensures
            images@ == Map::<u64, Image>::empty(),
    {
        PixmapImages { images: HashMap::new() }
    }

    /// The image behind `pixmap`, if the pixmap is live.
    pub fn image_by_pixmap(&self, pixmap: u64) -> (image: Option<&Image>)
        ensures
            match image {
                Some(found) => lookup(self@, pixmap) == Some(*found),
                None => lookup(self@, pixmap) is None,
            },
    {
        self.images.get(&pixmap)
    }

    /// Records `image` as the image behind `pixmap`, and returns the one
    /// that was recorded for it before, if there was one.
    pub fn insert(&mut self, pixmap: u64, image: Image) -> (replaced: Option<Image>)
        ensures
            final(self)@ == old(self)@.insert(pixmap, image),
            replaced == lookup(old(self)@, pixmap),
    {
        self.images.insert(pixmap, image)
    }

    /// Takes the image behind `pixmap` out of the table and returns it.
    /// Other pixmaps keep their images.
    pub fn delete_image_by_pixmap(&mut self, pixmap: u64) -> (image: Option<Image>)
        ensures
            final(self)@ == old(self)@.remove(pixmap),
            image == lookup(old(self)@, pixmap),
    {
        self.images.remove(&pixmap)
    }
}

/// Gives a pixmap back: its image leaves the frame's table and is handed
/// to the caller to destroy.  Afterwards no lookup finds an image for the
/// pixmap.
pub fn wr_free_pixmap<Image>(images: &mut PixmapImages<Image>, pixmap: u64) -> (released: Option<
    Image,
>)
    ensures
        final(images)@ == old(images)@.remove(pixmap),
        released == lookup(old(images)@, pixmap),
        lookup(final(images)@, pixmap) is None,
{
    images.delete_image_by_pixmap(pixmap)
}

/// Lets go of every image of a frame that is being deleted.
pub fn gl_renderer_free_frame_resources<Image>(images: &mut PixmapImages<Image>)
    ensures
        final(images)@ == Map::<u64, Image>::empty(),
        forall|pixmap: u64| lookup(final(images)@, pixmap) is None,
{
    images.images.clear();
}

/// Once a pixmap is freed, no lookup finds an image for it, whatever was
/// recorded for it before, and every other pixmap keeps what it had.
pub proof fn lemma_freed_pixmap_is_unreachable<Image>(
    images: Map<u64, Image>,
    pixmap: u64,
    other: u64,
)
    ensures
        lookup(images.remove(pixmap), pixmap) is None,
        other != pixmap ==> lookup(images.remove(pixmap), other) == lookup(images, other),
{
}

} // verus!

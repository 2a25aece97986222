//! Rendered images and the cache that keeps one per display text.
//!
//! The cache only grows: a text is stored once, and what is stored is never
//! changed. Other opacities are derived copies.

use vstd::prelude::*;
use crate::compositor::{scale_pixels, scaled_pixels};
use crate::easing::Fraction;

verus! {

/// What a [`RenderedImage`] stands for: its size and its bytes.
pub struct ImageModel {
    pub width: u32,
    pub height: u32,
    pub pixels: Seq<u8>,
}

/// A premultiplied ARGB8888 pixel buffer rendered at full opacity, with its
/// size in pixels.
#[derive(Debug)]
pub struct RenderedImage {
    width: u32,
    height: u32,
    pixels: Vec<u8>,
}

impl View for RenderedImage {
    type V = ImageModel;

    closed spec fn view(&self) -> ImageModel {
        ImageModel { width: self.width, height: self.height, pixels: self.pixels@ }
    }
}

/// Number of bytes of a `width` by `height` image.
pub open spec fn byte_len(width: u32, height: u32) -> int {
    4 * ((width as int) * (height as int))
}

impl ImageModel {
    /// The buffer holds four bytes for each pixel.
    pub open spec fn wf(&self) -> bool {
        self.pixels.len() == byte_len(self.width, self.height)
    }
}

impl RenderedImage {
    /// The image of that size over those bytes, if there are four bytes for
    /// each pixel.
    pub fn new(width: u32, height: u32, pixels: Vec<u8>) -> (r: Option<RenderedImage>)
        ensures
            r is Some <==> pixels@.len() == byte_len(width, height),
            r is Some ==> r->0@ == (ImageModel { width, height, pixels: pixels@ }),
            r is Some ==> r->0@.wf(),
    {
        assert(0 <= (width as int) * (height as int) <= 0xFFFF_FFFF * 0xFFFF_FFFF)
            by (nonlinear_arith)
            requires
                0 <= width <= 0xFFFF_FFFF,
                0 <= height <= 0xFFFF_FFFF,
        ;
        let expected: u128 = 4 * ((width as u128) * (height as u128));
        if pixels.len() as u128 == expected {
            Some(RenderedImage { width, height, pixels })
        } else {
            None
        }
    }

    /// Whether the buffer holds four bytes for each pixel.
    pub fn is_well_formed(&self) -> (r: bool)
        ensures
            r == self@.wf(),
    {
        assert(0 <= (self.width as int) * (self.height as int) <= 0xFFFF_FFFF * 0xFFFF_FFFF)
            by (nonlinear_arith)
            requires
                0 <= self.width <= 0xFFFF_FFFF,
                0 <= self.height <= 0xFFFF_FFFF,
        ;
        let expected: u128 = 4 * ((self.width as u128) * (self.height as u128));
        self.pixels.len() as u128 == expected
    }

    /// Width in pixels.
    pub fn width(&self) -> (r: u32)
        ensures
            r == self@.width,
    {
        self.width
    }

    /// Height in pixels.
    pub fn height(&self) -> (r: u32)
        ensures
            r == self@.height,
    {
        self.height
    }

    /// The bytes, row by row.
    pub fn pixels(&self) -> (r: &Vec<u8>)
        ensures
            r@ == self@.pixels,
    {
        &self.pixels
    }
}

/// Where the rows of an image lie in a shared-memory pool.
#[derive(Clone, Copy, Debug, PartialEq, Eq, Structural)]
pub struct BufferLayout {
    /// Bytes from one row to the next.
    pub stride: i32,
    /// Bytes of the whole image.
    pub size: i32,
}

/// Stride and size of a `width` by `height` ARGB8888 buffer, if both fit the
/// signed 32-bit fields that the pool takes.
pub fn buffer_layout(width: u32, height: u32) -> (r: Option<BufferLayout>)
    ensures
        r is Some <==> 4 * width <= i32::MAX && byte_len(width, height) <= i32::MAX,
        r is Some ==> r->0.stride == 4 * width && r->0.size == byte_len(width, height),
{
    assert(0 <= (width as int) * (height as int) <= 0xFFFF_FFFF * 0xFFFF_FFFF)
        by (nonlinear_arith)
        requires
            0 <= width <= 0xFFFF_FFFF,
            0 <= height <= 0xFFFF_FFFF,
    ;
    let stride: u64 = 4 * (width as u64);
    let size: u128 = 4 * ((width as u128) * (height as u128));
    if stride <= 0x7FFF_FFFF && size <= 0x7FFF_FFFF {
        Some(BufferLayout { stride: stride as i32, size: size as i32 })
    } else {
        None
    }
}

/// One text with its image.
struct CacheEntry {
    text: String,
    image: RenderedImage,
}

/// The map that a sequence of entries stands for.
spec fn entries_map(s: Seq<CacheEntry>) -> Map<Seq<char>, ImageModel>
    decreases s.len(),
{
    if s.len() == 0 {
        Map::empty()
    } else {
        entries_map(s.drop_last()).insert(s.last().text@, s.last().image@)
    }
}

/// No text occurs twice.
spec fn distinct_texts(s: Seq<CacheEntry>) -> bool {
    forall|i: int, j: int| 0 <= i < j < s.len() ==> s[i].text@ != s[j].text@
}

proof fn lemma_absent(s: Seq<CacheEntry>, t: Seq<char>)
    requires
        forall|i: int| 0 <= i < s.len() ==> s[i].text@ != t,
    ensures
        !entries_map(s).contains_key(t),
    decreases s.len(),
{
    if s.len() > 0 {
        lemma_absent(s.drop_last(), t);
    }
}

proof fn lemma_present(s: Seq<CacheEntry>, i: int)
    requires
        distinct_texts(s),
        0 <= i < s.len(),
    ensures
        entries_map(s).contains_key(s[i].text@),
        entries_map(s)[s[i].text@] == s[i].image@,
    decreases s.len(),
{
    if i < s.len() - 1 {
        lemma_present(s.drop_last(), i);
    }
}

proof fn lemma_all_wf(s: Seq<CacheEntry>, t: Seq<char>)
    requires
        forall|i: int| 0 <= i < s.len() ==> (#[trigger] s[i]).image@.wf(),
        entries_map(s).contains_key(t),
    ensures
        entries_map(s)[t].wf(),
    decreases s.len(),
{
    if s.len() > 0 {
        if s.last().text@ != t {
            lemma_all_wf(s.drop_last(), t);
        }
    }
}

/// The cache after a miss on `text` that the rasterizer answered with
/// `outcome`: a well-formed image is stored, anything else changes nothing.
pub open spec fn after_render(
    cache: Map<Seq<char>, ImageModel>,
    text: Seq<char>,
    outcome: Option<RenderedImage>,
) -> Map<Seq<char>, ImageModel> {
    match outcome {
        Some(image) => if image@.wf() {
            cache.insert(text, image@)
        } else {
            cache
        },
        None => cache,
    }
}

/// Display text to its image rendered at full opacity.
pub struct RenderCache {
    entries: Vec<CacheEntry>,
}

impl View for RenderCache {
    type V = Map<Seq<char>, ImageModel>;

    closed spec fn view(&self) -> Map<Seq<char>, ImageModel> {
        entries_map(self.entries@)
    }
}

impl RenderCache {
    /// No text is stored twice and every stored image has four bytes for each
    /// pixel.
    pub closed spec fn wf(&self) -> bool {
        &&& distinct_texts(self.entries@)
        &&& forall|i: int|
            0 <= i < self.entries@.len() ==> (#[trigger] self.entries@[i]).image@.wf()
    }

    /// Every image of a well-formed cache is well formed.
    pub proof fn lemma_images_wf(&self, text: Seq<char>)
        requires
            self.wf(),
            self@.contains_key(text),
        ensures
            self@[text].wf(),
    {
        lemma_all_wf(self.entries@, text);
    }

    /// An empty cache.
    pub fn new() -> (r: RenderCache)
        ensures
            r.wf(),
            r@ == Map::<Seq<char>, ImageModel>::empty(),
    {
        RenderCache { entries: Vec::new() }
    }

    fn find(&self, text: &str) -> (r: Option<usize>)
        requires
            self.wf(),
        ensures
            match r {
                Some(i) => i < self.entries@.len() && self.entries@[i as int].text@ == text@,
                None => forall|i: int| 0 <= i < self.entries@.len() ==> self.entries@[i].text@ != text@,
            },
    {
        let key: String = text.to_owned();
        let n: usize = self.entries.len();
        let mut i: usize = 0;
        while i < n
            invariant
                n == self.entries@.len(),
                i <= n,
                key@ == text@,
                forall|j: int| 0 <= j < i ==> self.entries@[j].text@ != text@,
            decreases n - i,
        {
            if self.entries[i].text == key {
                return Some(i);
            }
            i += 1;
        }
        None
    }

    /// Whether an image for `text` is stored.
    pub fn contains(&self, text: &str) -> (r: bool)
        requires
            self.wf(),
        ensures
            r == self@.contains_key(text@),
    {
        match self.find(text) {
            Some(i) => {
                proof {
                    lemma_present(self.entries@, i as int);
                }
                true
            },
            None => {
                proof {
                    lemma_absent(self.entries@, text@);
                }
                false
            },
        }
    }

    /// The image stored for `text`, if there is one.
    pub fn lookup(&self, text: &str) -> (r: Option<&RenderedImage>)
        requires
            self.wf(),
        ensures
            r is Some <==> self@.contains_key(text@),
            r is Some ==> r->0@ == self@[text@] && r->0@.wf(),
    {
        match self.find(text) {
            Some(i) => {
                proof {
                    lemma_present(self.entries@, i as int);
                }
                Some(&self.entries[i].image)
            },
            None => {
                proof {
                    lemma_absent(self.entries@, text@);
                }
                None
            },
        }
    }

    /// Stores `image` for `text` unless the text already has one. Returns
    /// whether the image was stored. Nothing that was stored before changes.
    pub fn store(&mut self, text: &str, image: RenderedImage) -> (stored: bool)
        requires
            old(self).wf(),
            image@.wf(),
        ensures
            final(self).wf(),
            stored == !old(self)@.contains_key(text@),
            final(self)@ == if stored {
                old(self)@.insert(text@, image@)
            } else {
                old(self)@
            },
            final(self)@.contains_key(text@),
            forall|t: Seq<char>| #[trigger]
                old(self)@.contains_key(t) ==> final(self)@.contains_key(t) && final(self)@[t]
                    == old(self)@[t],
    {
        match self.find(text) {
            Some(i) => {
                proof {
                    lemma_present(self.entries@, i as int);
                }
                false
            },
            None => {
                proof {
                    lemma_absent(self.entries@, text@);
                }
                let ghost before = self.entries@;
                let entry = CacheEntry { text: text.to_owned(), image };
                self.entries.push(entry);
                proof {
                    assert(self.entries@.drop_last() =~= before);
                    assert(self.entries@.last() == entry);
                }
                true
            },
        }
    }

    /// Makes sure that `text` has an image, and returns it: where none is
    /// stored, calls `rasterize` once and stores what it returns. Where one is
    /// stored, the cache stays as it is, whatever `rasterize` would return.
    /// Returns `None` where the rasterizer failed or returned a buffer of the
    /// wrong length; the cache is then as it was.
    pub fn ensure<F: Fn(&str) -> Option<RenderedImage>>(
        &mut self,
        text: &str,
        rasterize: F,
    ) -> (r: Option<&RenderedImage>)
        requires
            old(self).wf(),
            call_requires(rasterize, (text,)),
        ensures
            final(self).wf(),
            r is Some <==> final(self)@.contains_key(text@),
            r is Some ==> r->0@ == final(self)@[text@] && r->0@.wf(),
            old(self)@.contains_key(text@) ==> final(self)@ == old(self)@,
            !old(self)@.contains_key(text@) ==> exists|outcome: Option<RenderedImage>|
                call_ensures(rasterize, (text,), outcome) && final(self)@ == after_render(
                    old(self)@,
                    text@,
                    outcome,
                ),
            forall|t: Seq<char>| #[trigger]
                old(self)@.contains_key(t) ==> final(self)@.contains_key(t) && final(self)@[t]
                    == old(self)@[t],
    {
        if !self.contains(text) {
            let outcome = rasterize(text);
            let ghost seen = outcome;
            match outcome {
                Some(image) => {
                    if image.is_well_formed() {
                        self.store(text, image);
                    }
                },
                None => {},
            }
            proof {
                assert(call_ensures(rasterize, (text,), seen) && self@ == after_render(
                    old(self)@,
                    text@,
                    seen,
                ));
            }
        }
        self.lookup(text)
    }

    /// A new buffer holding the image of `text` scaled to `alpha`, or `None`
    /// if no image is stored for it. An opacity of one gives an exact copy.
    pub fn derive(&self, text: &str, alpha: &Fraction) -> (r: Option<Vec<u8>>)
        requires
            self.wf(),
            alpha.wf(),
        ensures
            r is Some <==> self@.contains_key(text@),
            r is Some ==> r->0@ == scaled_pixels(self@[text@].pixels, *alpha),
            r is Some && alpha.num == alpha.den ==> r->0@ == self@[text@].pixels,
    {
        match self.lookup(text) {
            Some(image) => Some(scale_pixels(&image.pixels, alpha)),
            None => None,
        }
    }
}

} // verus!

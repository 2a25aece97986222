use ime_indicator::cache::{buffer_layout, BufferLayout, RenderCache, RenderedImage};
use ime_indicator::easing::{fade_alpha, Fraction};

fn image(width: u32, height: u32, fill: u8) -> RenderedImage {
    let len: usize = (width as usize) * (height as usize) * 4;
    RenderedImage::new(width, height, vec![fill; len]).expect("a buffer of the right length")
}

#[test]
fn rendered_image_checks_buffer_length() {
    assert!(RenderedImage::new(2, 3, vec![0; 24]).is_some());
    assert!(RenderedImage::new(2, 3, vec![0; 23]).is_none());
    assert!(RenderedImage::new(2, 3, vec![0; 25]).is_none());
    assert!(RenderedImage::new(0, 3, Vec::new()).is_some());
    assert!(RenderedImage::new(0, 0, vec![0; 4]).is_none());
    assert!(RenderedImage::new(u32::MAX, u32::MAX, vec![0; 4]).is_none());
}

#[test]
fn rendered_image_getters() {
    let img = RenderedImage::new(2, 1, vec![1, 2, 3, 4, 5, 6, 7, 8]).unwrap();
    assert_eq!(img.width(), 2);
    assert_eq!(img.height(), 1);
    assert_eq!(img.pixels(), &vec![1, 2, 3, 4, 5, 6, 7, 8]);
    assert!(img.is_well_formed());
}

#[test]
fn buffer_layout_of_default_overlay() {
    assert_eq!(buffer_layout(300, 150), Some(BufferLayout { stride: 1200, size: 180000 }));
    assert_eq!(buffer_layout(1, 1), Some(BufferLayout { stride: 4, size: 4 }));
    assert_eq!(buffer_layout(0, 7), Some(BufferLayout { stride: 0, size: 0 }));
}

#[test]
fn buffer_layout_rejects_what_does_not_fit() {
    // 4 * 23171 * 23171 = 2_147_580_964 > i32::MAX
    assert_eq!(buffer_layout(23171, 23171), None);
    // 4 * 23170 * 23170 = 2_147_395_600 <= i32::MAX
    assert_eq!(
        buffer_layout(23170, 23170),
        Some(BufferLayout { stride: 92680, size: 2_147_395_600 })
    );
    assert_eq!(buffer_layout(u32::MAX, 0), None);
    assert_eq!(buffer_layout(u32::MAX, u32::MAX), None);
    assert_eq!(buffer_layout(536_870_912, 0), None);
    assert_eq!(
        buffer_layout(536_870_911, 1),
        Some(BufferLayout { stride: 2_147_483_644, size: 2_147_483_644 })
    );
}

#[test]
fn empty_cache_has_nothing() {
    let cache = RenderCache::new();
    assert!(!cache.contains("かな"));
    assert!(cache.lookup("かな").is_none());
    assert!(cache.derive("かな", &Fraction::one()).is_none());
}

#[test]
fn store_then_lookup() {
    let mut cache = RenderCache::new();
    assert!(cache.store("かな", image(2, 2, 9)));
    assert!(cache.contains("かな"));
    assert!(!cache.contains("en"));
    let found = cache.lookup("かな").unwrap();
    assert_eq!(found.width(), 2);
    assert_eq!(found.height(), 2);
    assert_eq!(found.pixels(), &vec![9u8; 16]);
}

#[test]
fn store_twice_keeps_the_first_image() {
    let mut cache = RenderCache::new();
    assert!(cache.store("en", image(1, 1, 200)));
    assert!(!cache.store("en", image(1, 1, 100)));
    assert_eq!(cache.lookup("en").unwrap().pixels(), &vec![200u8; 4]);
}

#[test]
fn store_keeps_other_entries() {
    let mut cache = RenderCache::new();
    assert!(cache.store("en", image(1, 1, 200)));
    assert!(cache.store("かな", image(1, 1, 100)));
    assert!(cache.store("", image(1, 1, 50)));
    assert_eq!(cache.lookup("en").unwrap().pixels(), &vec![200u8; 4]);
    assert_eq!(cache.lookup("かな").unwrap().pixels(), &vec![100u8; 4]);
    assert_eq!(cache.lookup("").unwrap().pixels(), &vec![50u8; 4]);
    assert!(!cache.contains("e"));
}

#[test]
fn derive_of_unknown_text_is_none() {
    let mut cache = RenderCache::new();
    cache.store("en", image(1, 1, 200));
    assert_eq!(cache.derive("かな", &Fraction::one()), None);
    assert_eq!(cache.derive("EN", &Fraction::zero()), None);
}

#[test]
fn derive_at_full_opacity_is_byte_identical() {
    let mut cache = RenderCache::new();
    let pixels: Vec<u8> = vec![255, 254, 3, 242, 0, 1, 128, 242];
    cache.store("en", RenderedImage::new(2, 1, pixels.clone()).unwrap());
    assert_eq!(cache.derive("en", &Fraction::one()), Some(pixels.clone()));
    assert_eq!(cache.derive("en", &fade_alpha(0, 10)), Some(pixels));
}

#[test]
fn derive_scales_every_channel() {
    let mut cache = RenderCache::new();
    let pixels: Vec<u8> = vec![255, 200, 100, 242];
    cache.store("en", RenderedImage::new(1, 1, pixels).unwrap());
    let half = Fraction::new(1, 2).unwrap();
    assert_eq!(cache.derive("en", &half), Some(vec![127, 100, 50, 121]));
    assert_eq!(cache.derive("en", &fade_alpha(5, 10)), Some(vec![31, 25, 12, 30]));
    assert_eq!(cache.derive("en", &Fraction::zero()), Some(vec![0, 0, 0, 0]));
}

#[test]
fn derive_never_changes_the_cached_image() {
    let mut cache = RenderCache::new();
    let pixels: Vec<u8> = vec![255, 200, 100, 242];
    cache.store("en", RenderedImage::new(1, 1, pixels.clone()).unwrap());
    for step in 0u32..=10 {
        let _ = cache.derive("en", &fade_alpha(step, 10));
        assert_eq!(cache.lookup("en").unwrap().pixels(), &pixels);
    }
}

#[test]
fn ensure_rasterizes_on_a_miss() {
    let calls = std::cell::Cell::new(0u32);
    let mut cache = RenderCache::new();
    let found = cache.ensure("かな", |text| {
        calls.set(calls.get() + 1);
        assert_eq!(text, "かな");
        Some(image(2, 2, 7))
    });
    assert_eq!(found.map(|img| (img.width(), img.height())), Some((2, 2)));
    assert_eq!(calls.get(), 1);
    assert_eq!(cache.lookup("かな").unwrap().pixels(), &vec![7u8; 16]);
}

#[test]
fn ensure_twice_rasterizes_once() {
    let calls = std::cell::Cell::new(0u32);
    let mut cache = RenderCache::new();
    let rasterize = |_: &str| {
        calls.set(calls.get() + 1);
        Some(image(1, 1, calls.get() as u8))
    };
    assert_eq!(cache.ensure("en", &rasterize).unwrap().pixels(), &vec![1u8; 4]);
    assert_eq!(cache.ensure("en", &rasterize).unwrap().pixels(), &vec![1u8; 4]);
    assert_eq!(calls.get(), 1);
    assert_eq!(cache.lookup("en").unwrap().pixels(), &vec![1u8; 4]);
    assert!(cache.ensure("かな", &rasterize).is_some());
    assert_eq!(calls.get(), 2);
    assert_eq!(cache.lookup("en").unwrap().pixels(), &vec![1u8; 4]);
    assert_eq!(cache.lookup("かな").unwrap().pixels(), &vec![2u8; 4]);
}

#[test]
fn ensure_with_failing_rasterizer_stores_nothing() {
    let calls = std::cell::Cell::new(0u32);
    let mut cache = RenderCache::new();
    let found = cache.ensure("en", |_| {
        calls.set(calls.get() + 1);
        None
    });
    assert!(found.is_none());
    assert_eq!(calls.get(), 1);
    assert!(!cache.contains("en"));
    // a later attempt asks the rasterizer again
    assert!(cache.ensure("en", |_| Some(image(1, 1, 3))).is_some());
    assert_eq!(cache.lookup("en").unwrap().pixels(), &vec![3u8; 4]);
}

#[test]
fn ensure_on_a_hit_ignores_the_rasterizer() {
    let mut cache = RenderCache::new();
    cache.store("en", image(1, 1, 9));
    // a hit never looks at what the rasterizer would return
    assert_eq!(cache.ensure("en", |_| None).unwrap().pixels(), &vec![9u8; 4]);
    assert!(cache.contains("en"));
    assert!(!cache.contains("かな"));
}

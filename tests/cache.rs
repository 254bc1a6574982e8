use std::cell::Cell;

use blitkit::cache::PipelineCache;
use blitkit::format::PixelFormat;

fn counting(builds: &Cell<u32>) -> impl FnOnce(PixelFormat) -> Option<u32> + '_ {
    move |_f| {
        builds.set(builds.get() + 1);
        Some(100 + builds.get())
    }
}

#[test]
fn empty_cache_has_nothing() {
    let c: PipelineCache<u32> = PipelineCache::new();
    assert_eq!(c.len(), 0);
    assert_eq!(c.find(PixelFormat::Rgba8Unorm), None);
}

#[test]
fn second_request_reuses_the_first_build() {
    let builds = Cell::new(0);
    let mut c: PipelineCache<u32> = PipelineCache::new();
    let i = c.get_or_try_insert_with(PixelFormat::Rgba16Float, counting(&builds)).unwrap();
    let first = *c.get(i);
    let j = c.get_or_try_insert_with(PixelFormat::Rgba16Float, counting(&builds)).unwrap();
    assert_eq!(i, j);
    assert_eq!(*c.get(j), first);
    assert_eq!(builds.get(), 1);
    assert_eq!(c.len(), 1);
}

#[test]
fn f1_f2_f1_leaves_two_entries() {
    let builds = Cell::new(0);
    let mut c: PipelineCache<u32> = PipelineCache::new();
    c.get_or_try_insert_with(PixelFormat::Rgba8Unorm, counting(&builds));
    c.get_or_try_insert_with(PixelFormat::Bgra8UnormSrgb, counting(&builds));
    assert_eq!(builds.get(), 2);
    c.get_or_try_insert_with(PixelFormat::Rgba8Unorm, counting(&builds));
    assert_eq!(builds.get(), 2);
    assert_eq!(c.len(), 2);
}

#[test]
fn one_build_per_distinct_format() {
    let builds = Cell::new(0);
    let mut c: PipelineCache<u32> = PipelineCache::new();
    let reqs = [
        PixelFormat::R8Unorm,
        PixelFormat::Rgba32Float,
        PixelFormat::R8Unorm,
        PixelFormat::Rgba32Float,
        PixelFormat::Bgra8Unorm,
        PixelFormat::R8Unorm,
    ];
    for f in reqs {
        let i = c.get_or_try_insert_with(f, counting(&builds)).unwrap();
        assert_eq!(c.find(f), Some(i));
    }
    assert_eq!(builds.get(), 3);
    assert_eq!(c.len(), 3);
}

#[test]
fn insert_then_find() {
    let mut c: PipelineCache<&str> = PipelineCache::new();
    c.insert(PixelFormat::Bgra8UnormSrgb, "default");
    c.insert(PixelFormat::Rgba16Float, "hdr");
    assert_eq!(c.find(PixelFormat::Rgba16Float), Some(1));
    assert_eq!(*c.get(0), "default");
    assert_eq!(c.find(PixelFormat::Rgba8Unorm), None);
}

#[test]
fn failed_build_caches_nothing() {
    let mut c: PipelineCache<u32> = PipelineCache::new();
    assert_eq!(c.get_or_try_insert_with(PixelFormat::Rgba32Float, |_f| None), None);
    assert_eq!(c.len(), 0);
    assert_eq!(c.find(PixelFormat::Rgba32Float), None);
    assert_eq!(c.get_or_try_insert_with(PixelFormat::Rgba32Float, |_f| Some(5)), Some(0));
    assert_eq!(*c.get(0), 5);
}

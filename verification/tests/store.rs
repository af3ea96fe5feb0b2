use hui::dirtiness::Dirtiness;
use hui::rectangle::Rectangle;
use hui::store::{DrawCall, RectangleRenderer, RenderError, INDEX_COUNT, MAX_LIVE};

fn sample(seed: u32) -> Rectangle {
    Rectangle {
        mvp: [
            [seed, seed + 1, seed + 2, seed + 3],
            [seed + 4, seed + 5, seed + 6, seed + 7],
            [seed + 8, seed + 9, seed + 10, seed + 11],
            [seed + 12, seed + 13, seed + 14, seed + 15],
        ],
        fill_color: [seed + 16, seed + 17, seed + 18, seed + 19],
        border_color: [seed + 20, seed + 21, seed + 22, seed + 23],
        corner_radii: [seed + 24, seed + 25, seed + 26, seed + 27],
        shadow_color: [seed + 28, seed + 29, seed + 30, seed + 31],
        half_size: [seed + 32, seed + 33],
        border_size: seed + 34,
        shadow_spread: seed + 35,
        shadow_offset: [seed + 36, seed + 37],
        shadow_blur: seed + 38,
    }
}

/// The bytes of `sample(seed)`: 39 words that count up from `seed`, then
/// one word of padding.
fn sample_bytes(seed: u32) -> Vec<u8> {
    let mut bytes = Vec::new();
    for i in 0..39u32 {
        bytes.extend_from_slice(&(seed + i).to_ne_bytes());
    }
    bytes.extend_from_slice(&0u32.to_ne_bytes());
    bytes
}

fn same_fields(a: &Rectangle, b: &Rectangle) -> bool {
    a.to_words() == b.to_words()
}

#[test]
fn new_store_is_clean_and_empty() {
    let store = RectangleRenderer::new(1024);
    assert_eq!(store.live_count(), 0);
    assert_eq!(store.dirtiness(), Dirtiness::Clean);
    assert!(!store.is_redraw_required());
    assert_eq!(store.max_instance_count(), 1024);
    assert!(store.staged_bytes().is_empty());
}

#[test]
fn instance_buffer_size_is_ceiling_times_record_size() {
    assert_eq!(RectangleRenderer::new(1024).instance_buffer_size(), 163_840);
    assert_eq!(RectangleRenderer::new(0).instance_buffer_size(), 0);
    assert_eq!(
        RectangleRenderer::new(u32::MAX).instance_buffer_size(),
        4_294_967_295u64 * 160
    );
    assert_eq!(MAX_LIVE, 4_294_967_294);
}

#[test]
fn add_stages_the_record_bytes() {
    let mut store = RectangleRenderer::new(1024);
    let _id = store.add(&sample(0x0102_0304));
    assert_eq!(store.live_count(), 1);
    assert_eq!(store.dirtiness(), Dirtiness::RedrawRequired);
    assert!(store.is_redraw_required());
    let bytes = store.staged_bytes();
    assert_eq!(bytes.len(), 160);
    assert_eq!(&bytes[..4], &0x0102_0304u32.to_ne_bytes());
    assert_eq!(&bytes[156..], &[0u8, 0, 0, 0]);
    assert_eq!(bytes, sample_bytes(0x0102_0304).as_slice());
}

#[test]
fn staged_bytes_are_the_memory_of_the_words() {
    let mut store = RectangleRenderer::new(4);
    let record = sample(0xA1B2_C3D4);
    store.add(&record);
    let words = record.to_words();
    let expected: &[u8] = bytemuck::cast_slice(&words);
    assert_eq!(store.staged_bytes(), expected);
    // The bytes are not the words handed back one for one.
    assert_eq!(store.staged_bytes().len(), 4 * words.len());
    assert_ne!(store.staged_bytes()[0] as u32, words[0]);
}

#[test]
fn dirtiness_only_escalates_until_a_frame() {
    let mut store = RectangleRenderer::new(16);
    assert_eq!(store.dirtiness(), Dirtiness::Clean);
    let a = store.add(&sample(1));
    assert_eq!(store.dirtiness(), Dirtiness::RedrawRequired);
    let b = store.add(&sample(100));
    assert_eq!(store.dirtiness(), Dirtiness::RedrawRequired);
    assert!(store.get_mut(a).is_some());
    assert_eq!(store.dirtiness(), Dirtiness::RebuildRequired);
    store.add(&sample(200));
    assert_eq!(store.dirtiness(), Dirtiness::RebuildRequired);
    assert!(store.remove(b).is_some());
    assert_eq!(store.dirtiness(), Dirtiness::RebuildRequired);
    assert!(store.render().unwrap().is_some());
    assert_eq!(store.dirtiness(), Dirtiness::Clean);
    assert!(!store.is_redraw_required());
}

#[test]
fn get_mut_escalates_even_without_a_write() {
    let mut store = RectangleRenderer::new(16);
    let id = store.add(&sample(1));
    store.render().unwrap();
    assert_eq!(store.dirtiness(), Dirtiness::Clean);
    let _ = store.get_mut(id);
    assert_eq!(store.dirtiness(), Dirtiness::RebuildRequired);
}

#[test]
fn append_only_fast_path() {
    let mut store = RectangleRenderer::new(1024);
    let n: usize = 5;
    let mut expected = Vec::new();
    for i in 0..n {
        let seed = 1000 * (i as u32 + 1);
        store.add(&sample(seed));
        expected.extend_from_slice(&sample_bytes(seed));
    }
    let call = store.render().unwrap();
    assert_eq!(
        call,
        Some(DrawCall { bytes_written: n * 160, index_count: 6, instance_count: 5, rebuilt: false })
    );
    assert_eq!(INDEX_COUNT, 6);
    assert_eq!(store.staged_bytes().len(), n * Rectangle::SIZE);
    assert_eq!(store.staged_bytes(), expected.as_slice());
    assert_eq!(store.dirtiness(), Dirtiness::Clean);
}

#[test]
fn rebuild_after_removal_uploads_the_live_records_only() {
    let mut store = RectangleRenderer::new(1024);
    let _a = store.add(&sample(10));
    let b = store.add(&sample(2000));
    let _c = store.add(&sample(30_000));
    let removed = store.remove(b).expect("b is live");
    assert!(same_fields(&removed, &sample(2000)));
    assert_eq!(store.live_count(), 2);
    let call = store.render().unwrap().expect("two live instances");
    assert_eq!(call.bytes_written, 2 * 160);
    assert_eq!(call.instance_count, 2);
    assert_eq!(call.index_count, 6);
    assert!(call.rebuilt);
    let mut expected = sample_bytes(10);
    expected.extend_from_slice(&sample_bytes(30_000));
    assert_eq!(store.staged_bytes(), expected.as_slice());
    assert_eq!(store.dirtiness(), Dirtiness::Clean);
}

#[test]
fn write_through_handle_reaches_the_upload() {
    let mut store = RectangleRenderer::new(8);
    let a = store.add(&sample(1));
    let _b = store.add(&sample(500));
    store.render().unwrap();
    {
        let rectangle = store.get_mut(a).expect("a is live");
        assert!(same_fields(rectangle, &sample(1)));
        *rectangle = sample(7000);
    }
    let call = store.render().unwrap().expect("two live instances");
    assert!(call.rebuilt);
    let mut expected = sample_bytes(7000);
    expected.extend_from_slice(&sample_bytes(500));
    assert_eq!(store.staged_bytes(), expected.as_slice());
}

#[test]
fn update_replaces_a_live_instance() {
    let mut store = RectangleRenderer::new(8);
    let a = store.add(&sample(1));
    store.render().unwrap();
    store.update(a, sample(42));
    assert_eq!(store.dirtiness(), Dirtiness::RebuildRequired);
    assert_eq!(store.live_count(), 1);
    store.render().unwrap();
    assert_eq!(store.staged_bytes(), sample_bytes(42).as_slice());
}

#[test]
fn update_of_a_stale_identifier_changes_nothing() {
    let mut store = RectangleRenderer::new(8);
    let a = store.add(&sample(1));
    let _b = store.add(&sample(2));
    store.remove(a);
    store.render().unwrap();
    assert_eq!(store.dirtiness(), Dirtiness::Clean);
    store.update(a, sample(42));
    assert_eq!(store.dirtiness(), Dirtiness::Clean);
    assert_eq!(store.live_count(), 1);
    assert_eq!(store.staged_bytes(), sample_bytes(2).as_slice());
}

#[test]
fn stale_identifier_is_rejected() {
    let mut store = RectangleRenderer::new(8);
    let a = store.add(&sample(1));
    let b = store.add(&sample(2));
    assert!(store.remove(a).is_some());
    assert!(store.remove(a).is_none());
    assert!(store.get_mut(a).is_none());
    assert_eq!(store.live_count(), 1);
    // The slot of `a` is taken again; the old identifier stays stale.
    let c = store.add(&sample(3));
    assert_ne!(a, c);
    assert!(store.get_mut(a).is_none());
    assert!(store.remove(a).is_none());
    assert_eq!(store.live_count(), 2);
    assert!(same_fields(store.get_mut(b).expect("b is live"), &sample(2)));
    assert!(same_fields(store.get_mut(c).expect("c is live"), &sample(3)));
}

#[test]
fn rebuild_walks_reused_slots_in_slot_order() {
    let mut store = RectangleRenderer::new(8);
    let a = store.add(&sample(1));
    let _b = store.add(&sample(2));
    store.remove(a);
    let _c = store.add(&sample(3));
    let call = store.render().unwrap().expect("two live instances");
    assert!(call.rebuilt);
    let mut expected = sample_bytes(3);
    expected.extend_from_slice(&sample_bytes(2));
    assert_eq!(store.staged_bytes(), expected.as_slice());
}

#[test]
fn empty_store_skips_the_draw() {
    let mut store = RectangleRenderer::new(8);
    assert_eq!(store.render(), Ok(None));
    assert_eq!(store.dirtiness(), Dirtiness::Clean);
    let a = store.add(&sample(1));
    store.remove(a);
    assert_eq!(store.dirtiness(), Dirtiness::RebuildRequired);
    assert_eq!(store.render(), Ok(None));
    assert_eq!(store.dirtiness(), Dirtiness::RebuildRequired);
    assert_eq!(store.staged_bytes().len(), 160);
    // The stale bytes go with the next rebuild.
    store.add(&sample(9));
    let call = store.render().unwrap().expect("one live instance");
    assert!(call.rebuilt);
    assert_eq!(store.staged_bytes(), sample_bytes(9).as_slice());
}

#[test]
fn clean_store_draws_again_without_rebuilding() {
    let mut store = RectangleRenderer::new(8);
    store.add(&sample(1));
    store.render().unwrap();
    let call = store.render().unwrap().expect("one live instance");
    assert_eq!(
        call,
        DrawCall { bytes_written: 160, index_count: 6, instance_count: 1, rebuilt: false }
    );
    assert_eq!(store.staged_bytes(), sample_bytes(1).as_slice());
}

#[test]
fn draw_fits_the_buffer_at_the_ceiling() {
    let mut store = RectangleRenderer::new(3);
    for i in 0..3 {
        store.add(&sample(i));
    }
    assert!(store.live_count() <= store.max_instance_count() as usize);
    let call = store.render().unwrap().expect("three live instances");
    assert_eq!(call.bytes_written as u64, store.instance_buffer_size());
}

#[test]
fn frame_beyond_the_ceiling_is_refused() {
    let mut store = RectangleRenderer::new(2);
    for i in 0..3 {
        store.add(&sample(i));
    }
    assert_eq!(store.render(), Err(RenderError::CapacityExceeded));
    assert_eq!(store.dirtiness(), Dirtiness::RedrawRequired);
    assert_eq!(store.live_count(), 3);
    assert_eq!(store.staged_bytes().len(), 3 * 160);
    let gone = store.add(&sample(9));
    store.remove(gone);
    assert_eq!(store.render(), Err(RenderError::CapacityExceeded));
    assert_eq!(store.dirtiness(), Dirtiness::RebuildRequired);
}

#[test]
fn frame_is_drawn_again_once_the_instances_fit() {
    let mut store = RectangleRenderer::new(1);
    let a = store.add(&sample(1));
    let _b = store.add(&sample(2));
    assert_eq!(store.render(), Err(RenderError::CapacityExceeded));
    store.remove(a);
    let call = store.render().unwrap().expect("one live instance");
    assert_eq!(call.instance_count, 1);
    assert!(call.rebuilt);
    assert_eq!(store.staged_bytes(), sample_bytes(2).as_slice());
}

#[test]
fn empty_store_fits_a_buffer_without_room() {
    let mut store = RectangleRenderer::new(0);
    assert_eq!(store.render(), Ok(None));
    store.add(&sample(1));
    assert_eq!(store.render(), Err(RenderError::CapacityExceeded));
}

use fraktaloj::cpu::ScalarCpuRenderer;
use fraktaloj::dimensions::Dimensions;

#[test]
fn construction_allocates_one_slot_per_pixel() {
    let renderer = ScalarCpuRenderer::new(4, 3).unwrap();
    assert_eq!(renderer.width(), 4);
    assert_eq!(renderer.height(), 3);
    assert_eq!(renderer.pixel_count(), 12);
}

#[test]
fn construction_fails_on_overflow_not_crash() {
    assert!(ScalarCpuRenderer::new(usize::MAX, 2).is_err());
    assert!(ScalarCpuRenderer::new(2, usize::MAX).is_err());
    assert!(ScalarCpuRenderer::new(usize::MAX, usize::MAX).is_err());
}

#[test]
fn construction_fails_on_zero_dimension() {
    assert!(ScalarCpuRenderer::new(0, 3).is_err());
    assert!(ScalarCpuRenderer::new(3, 0).is_err());
    assert!(ScalarCpuRenderer::new(0, 0).is_err());
}

#[test]
fn largest_representable_size_is_accepted() {
    let d = Dimensions::new(usize::MAX, 1).unwrap();
    assert_eq!(d.pixel_count(), usize::MAX);
    assert!(Dimensions::new(usize::MAX / 2, 2).is_ok());
    assert!(Dimensions::new(usize::MAX / 2 + 1, 2).is_err());
}

#[test]
fn fresh_renderer_counts_are_zero() {
    let renderer = ScalarCpuRenderer::new(2, 2).unwrap();
    let image = renderer.image(10);
    for i in 0..4 {
        assert_eq!(image.count_at(i), 0);
    }
}

#[test]
fn resize_changes_the_next_frame_length() {
    let mut renderer = ScalarCpuRenderer::new(4, 3).unwrap();
    assert_eq!(renderer.image(10).len(), 12);
    renderer.resize(2, 5).unwrap();
    let image = renderer.image(10);
    assert_eq!(image.len(), 10);
    assert_eq!(image.width(), 2);
    assert_eq!(image.height(), 5);
}

#[test]
fn resize_failure_keeps_the_old_state() {
    let mut renderer = ScalarCpuRenderer::new(4, 3).unwrap();
    assert!(renderer.resize(usize::MAX, 2).is_err());
    assert_eq!(renderer.width(), 4);
    assert_eq!(renderer.height(), 3);
    assert_eq!(renderer.pixel_count(), 12);
}

#[test]
fn stored_counts_come_back_in_the_image() {
    let mut renderer = ScalarCpuRenderer::new(3, 2).unwrap();
    renderer.store_counts(vec![1, 2, 3, 4, 5, 6]).unwrap();
    let image = renderer.image(6);
    assert_eq!(image.max_iterations(), 6);
    for i in 0..6 {
        assert_eq!(image.count_at(i), (i + 1) as u32);
    }
}

#[test]
fn store_counts_rejects_a_wrong_length() {
    let mut renderer = ScalarCpuRenderer::new(3, 2).unwrap();
    assert!(renderer.store_counts(vec![1, 2, 3]).is_err());
    assert_eq!(renderer.image(5).count_at(0), 0);
}

#[test]
fn pixel_stores_commute() {
    let mut forward = ScalarCpuRenderer::new(2, 2).unwrap();
    forward.set_count(0, 3);
    forward.set_count(1, 5);
    forward.set_count(2, 7);
    forward.set_count(3, 9);
    let mut backward = ScalarCpuRenderer::new(2, 2).unwrap();
    backward.set_count(3, 9);
    backward.set_count(2, 7);
    backward.set_count(1, 5);
    backward.set_count(0, 3);
    let a = forward.image(9);
    let b = backward.image(9);
    for i in 0..4 {
        assert_eq!(a.count_at(i), b.count_at(i));
    }
}

#[test]
fn set_count_updates_one_pixel() {
    let mut renderer = ScalarCpuRenderer::new(2, 2).unwrap();
    renderer.set_count(3, 7);
    let image = renderer.image(7);
    assert_eq!(image.count_at(0), 0);
    assert_eq!(image.count_at(3), 7);
}

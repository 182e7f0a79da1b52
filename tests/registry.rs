use horrible_game::consts::{CONTENT_LAYER, FRONT_LAYER, LAYER_SIZE, UI_LAYER};
use horrible_game::render::{RenderJobID, RenderJobs};

#[test]
fn ids_encode_layer_and_order() {
    let mut jobs: RenderJobs<&str> = RenderJobs::new();
    let a = jobs.add_job("a", CONTENT_LAYER);
    let b = jobs.add_job("b", CONTENT_LAYER);
    let c = jobs.add_job("c", UI_LAYER);
    assert_eq!(a, RenderJobID(4 * LAYER_SIZE));
    assert_eq!(b, RenderJobID(4 * LAYER_SIZE + 1));
    assert_eq!(c, RenderJobID(6 * LAYER_SIZE));
    assert_eq!(RenderJobs::<&str>::get_layer(b), CONTENT_LAYER);
    assert_eq!(RenderJobs::<&str>::get_layer(c), UI_LAYER);
    let f = jobs.add_job("f", FRONT_LAYER);
    assert_eq!(RenderJobs::<&str>::get_layer(f), 7);
}

#[test]
fn drawing_order_is_layer_then_insertion() {
    let mut jobs: RenderJobs<u32> = RenderJobs::new();
    let ui = jobs.add_job(1, UI_LAYER);
    let c1 = jobs.add_job(2, CONTENT_LAYER);
    let back = jobs.add_job(3, 0);
    let c2 = jobs.add_job(4, CONTENT_LAYER);
    assert_eq!(jobs.job_ids(), vec![back, c1, c2, ui]);
}

#[test]
fn get_set_remove() {
    let mut jobs: RenderJobs<u32> = RenderJobs::new();
    let a = jobs.add_job(10, CONTENT_LAYER);
    assert_eq!(jobs.get_job(a), Some(&10));
    if let Some(j) = jobs.get_job_mut(a) {
        *j = 11;
    }
    assert_eq!(jobs.get_job(a), Some(&11));
    jobs.set_job(12, a);
    assert_eq!(jobs.get_job(a), Some(&12));
    assert_eq!(jobs.remove_job(a), Some(12));
    assert_eq!(jobs.get_job(a), None);
    assert_eq!(jobs.remove_job(a), None);
    assert!(jobs.get_job_mut(a).is_none());
    let b = jobs.add_job(13, CONTENT_LAYER);
    assert_ne!(a, b);
    jobs.set_job(14, RenderJobID(5));
    assert_eq!(jobs.get_job(RenderJobID(5)), None);
    assert_eq!(jobs.job_ids(), vec![b]);
}

#[test]
fn room_in_layers() {
    let jobs: RenderJobs<u8> = RenderJobs::new();
    assert!(jobs.has_room(0));
    assert!(jobs.has_room(7));
    assert!(!jobs.has_room(8));
}

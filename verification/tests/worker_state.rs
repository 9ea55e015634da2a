use rustroom::adjustments::PhotoAdjustments;
use rustroom::worker::{WorkerMessage, WorkerState};
use rustroom::session::take_slider_change;

fn adj(exposure: i32) -> PhotoAdjustments {
    let mut a = PhotoAdjustments::default();
    a.exposure = exposure;
    a
}

#[test]
fn new_worker_has_nothing() {
    let s: WorkerState<u32, u8> = WorkerState::new();
    assert!(s.current_image.is_none());
    assert!(s.latest_adjustment.is_none());
}

#[test]
fn latest_adjustment_of_a_batch_wins() {
    let mut s: WorkerState<u32, u8> = WorkerState::new();
    s.receive(WorkerMessage::LoadImage(1));
    s.receive(WorkerMessage::Adjust(adj(60), 10));
    s.receive(WorkerMessage::Adjust(adj(70), 11));
    s.receive(WorkerMessage::LoadImage(2));
    s.receive(WorkerMessage::Adjust(adj(80), 12));
    assert_eq!(s.current_image, Some(2));
    let job = s.take_render_request();
    assert_eq!(job, Some((adj(80), 12)));
    assert!(s.latest_adjustment.is_none());
    assert_eq!(s.current_image, Some(2));
}

#[test]
fn adjustment_without_image_is_dropped() {
    let mut s: WorkerState<u32, u8> = WorkerState::new();
    s.receive(WorkerMessage::Adjust(adj(60), 10));
    assert_eq!(s.take_render_request(), None);
    assert!(s.latest_adjustment.is_none());
    // The next batch loads an image but brings no new slider state: nothing to render.
    s.receive(WorkerMessage::LoadImage(7));
    assert_eq!(s.take_render_request(), None);
    assert_eq!(s.current_image, Some(7));
}

#[test]
fn image_outlives_batches() {
    let mut s: WorkerState<u32, u8> = WorkerState::new();
    s.receive(WorkerMessage::LoadImage(3));
    assert_eq!(s.take_render_request(), None);
    s.receive(WorkerMessage::Adjust(adj(20), 1));
    assert_eq!(s.take_render_request(), Some((adj(20), 1)));
    assert_eq!(s.current_image, Some(3));
}

#[test]
fn slider_change_is_sent_once() {
    let mut last = PhotoAdjustments::default();
    let current = adj(75);
    assert_eq!(take_slider_change(&current, &mut last), Some(adj(75)));
    assert_eq!(last, adj(75));
    assert_eq!(take_slider_change(&current, &mut last), None);
    assert_eq!(last, adj(75));
    let back = PhotoAdjustments::default();
    assert_eq!(take_slider_change(&back, &mut last), Some(back));
}

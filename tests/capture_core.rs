use ta_screen::{
    bgra_to_rgba, decide_poll, describe_monitors, plan_capture, resolve_monitor, select_device,
    CaptureError, FrameStatus, Monitor, PollAction, RawMonitor, POLL_INTERVAL_MS, UNNAMED_MONITOR,
};

fn raw(name: Option<&str>, width: u32, height: u32, x: i32, y: i32) -> RawMonitor {
    RawMonitor { name: name.map(|n| n.to_string()), width, height, x, y }
}

fn two_displays() -> Vec<Monitor> {
    describe_monitors(&vec![raw(Some("A"), 1920, 1080, 0, 0), raw(Some("B"), 1280, 720, 1920, 0)])
        .unwrap()
}

#[test]
fn describe_keeps_order_and_fields() {
    let ms = two_displays();
    assert_eq!(ms.len(), 2);
    assert_eq!(ms[0].name, "A");
    assert_eq!((ms[0].width, ms[0].height, ms[0].x, ms[0].y), (1920, 1080, 0, 0));
    assert_eq!(ms[1].name, "B");
    assert_eq!((ms[1].width, ms[1].height, ms[1].x, ms[1].y), (1280, 720, 1920, 0));
}

#[test]
fn describe_names_unnamed_display() {
    let ms = describe_monitors(&vec![raw(None, 800, 600, -800, 0)]).unwrap();
    assert_eq!(ms[0].name, UNNAMED_MONITOR);
    assert_eq!(ms[0].name, "Monitior name not found");
    assert_eq!(ms[0].x, -800);
}

#[test]
fn describe_rejects_size_beyond_i32() {
    let big = describe_monitors(&vec![raw(Some("A"), 10, 10, 0, 0), raw(Some("B"), 1 << 31, 10, 0, 0)]);
    assert_eq!(big, Err(CaptureError::EnumerationError));
    let tall = describe_monitors(&vec![raw(Some("A"), 10, u32::MAX, 0, 0)]);
    assert_eq!(tall, Err(CaptureError::EnumerationError));
    let edge = describe_monitors(&vec![raw(Some("A"), i32::MAX as u32, 1, 0, 0)]).unwrap();
    assert_eq!(edge[0].width, i32::MAX);
}

#[test]
fn describe_empty_list() {
    assert_eq!(describe_monitors(&vec![]).unwrap().len(), 0);
}

#[test]
fn resolve_known_name_gives_position() {
    let ms = two_displays();
    assert_eq!(resolve_monitor(&ms, "B"), Ok(1));
    assert_eq!(resolve_monitor(&ms, "A"), Ok(0));
}

#[test]
fn resolve_every_enumerated_name_is_in_range() {
    let ms = describe_monitors(&vec![
        raw(Some("X"), 1, 1, 0, 0),
        raw(None, 1, 1, 0, 0),
        raw(Some("Y"), 1, 1, 0, 0),
    ])
    .unwrap();
    for m in &ms {
        let i = resolve_monitor(&ms, &m.name).unwrap();
        assert!(i < ms.len());
        assert_eq!(ms[i].name, m.name);
    }
}

#[test]
fn resolve_duplicate_name_takes_first() {
    let ms = describe_monitors(&vec![
        raw(Some("A"), 1, 1, 0, 0),
        raw(Some("D"), 2, 2, 0, 0),
        raw(Some("D"), 3, 3, 0, 0),
    ])
    .unwrap();
    assert_eq!(resolve_monitor(&ms, "D"), Ok(1));
}

#[test]
fn resolve_unknown_name_fails() {
    let ms = two_displays();
    assert_eq!(resolve_monitor(&ms, "C"), Err(CaptureError::MonitorNotFound));
    assert_eq!(resolve_monitor(&ms, ""), Err(CaptureError::MonitorNotFound));
    assert_eq!(resolve_monitor(&vec![], "A"), Err(CaptureError::MonitorNotFound));
}

#[test]
fn select_device_checks_counts_and_range() {
    assert_eq!(select_device(2, 2, 1), Ok(1));
    assert_eq!(select_device(2, 2, 2), Err(CaptureError::DeviceNotFound));
    assert_eq!(select_device(2, 1, 0), Err(CaptureError::DeviceNotFound));
    assert_eq!(select_device(1, 2, 0), Err(CaptureError::DeviceNotFound));
}

#[test]
fn plan_capture_resolves_and_checks_device() {
    let ms = two_displays();
    assert_eq!(plan_capture(&ms, "B", 2), Ok(1));
    assert_eq!(plan_capture(&ms, "B", 3), Err(CaptureError::DeviceNotFound));
    assert_eq!(plan_capture(&ms, "C", 2), Err(CaptureError::MonitorNotFound));
}

#[test]
fn convert_swaps_red_and_blue() {
    let frame = vec![10u8, 20, 30, 40, 1, 2, 3, 4];
    assert_eq!(bgra_to_rgba(&frame, 2, 1), Ok(vec![30u8, 20, 10, 40, 3, 2, 1, 4]));
}

#[test]
fn convert_is_a_permutation_of_each_group() {
    let n = 64usize;
    let frame: Vec<u8> = (0..4 * n).map(|i| (i * 7 % 251) as u8).collect();
    let px = bgra_to_rgba(&frame, 8, 8).unwrap();
    assert_eq!(px.len(), frame.len());
    for g in 0..n {
        let b = &frame[4 * g..4 * g + 4];
        assert_eq!(&px[4 * g..4 * g + 4], &[b[2], b[1], b[0], b[3]]);
    }
    assert_eq!(bgra_to_rgba(&frame, 8, 8), Ok(px));
}

#[test]
fn convert_drops_row_padding() {
    // Two rows of one pixel, each padded to 8 bytes.
    let frame = vec![1u8, 2, 3, 4, 90, 91, 92, 93, 5, 6, 7, 8, 94, 95, 96, 97];
    assert_eq!(bgra_to_rgba(&frame, 1, 2), Ok(vec![3u8, 2, 1, 4, 7, 6, 5, 8]));
    // Two rows of two pixels, each padded to 12 bytes.
    let frame: Vec<u8> = (0..24).map(|i| i as u8).collect();
    assert_eq!(
        bgra_to_rgba(&frame, 2, 2),
        Ok(vec![2u8, 1, 0, 3, 6, 5, 4, 7, 14, 13, 12, 15, 18, 17, 16, 19])
    );
}

#[test]
fn convert_empty_sizes() {
    let frame = vec![1u8, 2, 3, 4, 5, 6, 7, 8, 9, 10, 11, 12];
    assert_eq!(bgra_to_rgba(&frame, 0, 3), Ok(vec![]));
    assert_eq!(bgra_to_rgba(&frame, 2, 0), Ok(vec![]));
}

#[test]
fn convert_rejects_unequal_rows() {
    let frame = vec![0u8; 12];
    assert_eq!(bgra_to_rgba(&frame, 1, 5), Err(CaptureError::MalformedFrame));
    assert_eq!(bgra_to_rgba(&frame, 1, 8), Err(CaptureError::MalformedFrame));
}

#[test]
fn convert_rejects_partial_pixel() {
    let frame = vec![1u8, 2, 3, 4, 5, 6];
    assert_eq!(bgra_to_rgba(&frame, 1, 1), Err(CaptureError::MalformedFrame));
}

#[test]
fn convert_rejects_short_frame() {
    let frame = vec![0u8; 4 * 5];
    assert_eq!(bgra_to_rgba(&frame, 2, 3), Err(CaptureError::MalformedFrame));
    assert_eq!(bgra_to_rgba(&frame, usize::MAX, 2), Err(CaptureError::MalformedFrame));
    assert_eq!(bgra_to_rgba(&frame, usize::MAX / 4 + 1, 1), Err(CaptureError::MalformedFrame));
}

#[test]
fn poll_decisions() {
    assert_eq!(decide_poll(FrameStatus::NotReady), PollAction::Retry);
    assert_eq!(decide_poll(FrameStatus::Failed), PollAction::Abort(CaptureError::CaptureIOError));
    assert_eq!(decide_poll(FrameStatus::Ready(vec![9, 8])), PollAction::Deliver(vec![9, 8]));
    assert_eq!(POLL_INTERVAL_MS, 100);
}

/// Drives `decide_poll` over a device that answers from `answers` in turn,
/// counting the waits.
fn drive(answers: Vec<FrameStatus>) -> (usize, Option<PollAction>) {
    let mut waits = 0usize;
    for status in answers {
        match decide_poll(status) {
            PollAction::Retry => waits += 1,
            done => return (waits, Some(done)),
        }
    }
    (waits, None)
}

#[test]
fn poll_waits_k_times_then_delivers_fresh_frame() {
    for k in 0..5usize {
        let mut answers: Vec<FrameStatus> = (0..k).map(|_| FrameStatus::NotReady).collect();
        answers.push(FrameStatus::Ready(vec![k as u8, 1, 2, 3]));
        answers.push(FrameStatus::Ready(vec![0xff; 4]));
        answers.push(FrameStatus::Failed);
        assert_eq!(drive(answers), (k, Some(PollAction::Deliver(vec![k as u8, 1, 2, 3]))));
    }
}

#[test]
fn poll_failure_is_not_retried() {
    let answers = vec![FrameStatus::NotReady, FrameStatus::Failed, FrameStatus::Ready(vec![1, 2, 3, 4])];
    assert_eq!(drive(answers), (1, Some(PollAction::Abort(CaptureError::CaptureIOError))));
}

#[test]
fn end_to_end_two_displays() {
    let ms = two_displays();
    assert_eq!(resolve_monitor(&ms, "B"), Ok(1));
    let index = plan_capture(&ms, "B", 2).unwrap();
    assert_eq!(index, 1);
    let (w, h) = (ms[index].width as usize, ms[index].height as usize);
    let frame: Vec<u8> = (0..w * h * 4).map(|i| (i % 256) as u8).collect();
    assert_eq!(frame.len(), 1280 * 720 * 4);
    let px = bgra_to_rgba(&frame, w, h).unwrap();
    assert_eq!(px.len(), frame.len());
    for g in (0..w * h).step_by(997) {
        let b = &frame[4 * g..4 * g + 4];
        assert_eq!(&px[4 * g..4 * g + 4], &[b[2], b[1], b[0], b[3]]);
    }
    let last = w * h - 1;
    assert_eq!(px[4 * last], frame[4 * last + 2]);
    assert_eq!(px[4 * last + 2], frame[4 * last]);
}

#[test]
fn end_to_end_unknown_display() {
    let ms = two_displays();
    assert_eq!(resolve_monitor(&ms, "C"), Err(CaptureError::MonitorNotFound));
    assert_eq!(plan_capture(&ms, "C", 2), Err(CaptureError::MonitorNotFound));
}

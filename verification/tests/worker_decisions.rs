use deepfilter_vst::{priming_frames, worker_poll, Frame, WindowAccumulator, WorkerAction};

#[test]
fn abandonment_exits_within_one_poll() {
    let mut acc = WindowAccumulator::new(4);
    // Abandonment wins even when a frame is available.
    let act = worker_poll(&mut acc, true, Some(Frame::new(1, 2)));
    assert!(matches!(act, WorkerAction::Exit));
    let act = worker_poll(&mut acc, true, None);
    assert!(matches!(act, WorkerAction::Exit));
    assert_eq!(acc.pending(), 0);
}

#[test]
fn empty_input_yields() {
    let mut acc = WindowAccumulator::new(4);
    let act = worker_poll(&mut acc, false, None);
    assert!(matches!(act, WorkerAction::Idle));
    assert_eq!(acc.pending(), 0);
}

#[test]
fn window_completes_at_exact_length() {
    let mut acc = WindowAccumulator::new(4);
    for i in 0..3u32 {
        let act = worker_poll(&mut acc, false, Some(Frame::new(i, 100 + i)));
        assert!(matches!(act, WorkerAction::Accumulated));
        assert_eq!(acc.pending(), i as usize + 1);
    }
    let act = worker_poll(&mut acc, false, Some(Frame::new(3, 103)));
    match act {
        WorkerAction::Window(win) => {
            assert_eq!(win.len(), 4);
            for i in 0..4u32 {
                assert_eq!(win[i as usize], Frame::new(i, 100 + i));
            }
        }
        other => panic!("expected a completed window, got {:?}", other),
    }
    assert_eq!(acc.pending(), 0);
}

#[test]
fn accumulator_batches_exactly() {
    let mut acc = WindowAccumulator::new(3);
    assert_eq!(acc.target(), 3);
    assert!(acc.push(Frame::new(1, 0)).is_none());
    assert!(acc.push(Frame::new(2, 0)).is_none());
    let win = acc.push(Frame::new(3, 0)).expect("third frame completes the window");
    assert_eq!(win.len(), 3);
    assert_eq!(win[0], Frame::new(1, 0));
    assert_eq!(win[1], Frame::new(2, 0));
    assert_eq!(win[2], Frame::new(3, 0));
    // The accumulator starts over, so the next window holds only later frames.
    assert_eq!(acc.pending(), 0);
    assert!(acc.push(Frame::new(4, 0)).is_none());
}

#[test]
fn target_can_change_between_windows() {
    let mut acc = WindowAccumulator::new(2);
    assert!(acc.push(Frame::new(1, 0)).is_none());
    let win = acc.push(Frame::new(2, 0)).expect("second frame completes the window");
    assert_eq!(win.len(), 2);
    acc.set_target(3);
    assert!(acc.push(Frame::new(3, 0)).is_none());
    assert!(acc.push(Frame::new(4, 0)).is_none());
    let win = acc.push(Frame::new(5, 0)).expect("three frames now make a window");
    assert_eq!(win.len(), 3);
}

#[test]
fn priming_is_all_silence() {
    let v = priming_frames(1920);
    assert_eq!(v.len(), 1920);
    for f in &v {
        assert_eq!(*f, Frame::silence());
        // Zero bits are the zero sample, so primed output really is silence.
        assert_eq!(f32::from_bits(f.left), 0.0);
        assert_eq!(f32::from_bits(f.right), 0.0);
    }
}

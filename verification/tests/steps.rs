use matrixd::frame::Frame;
use matrixd::generator::Generator;
use matrixd::generator::StepOutcome;
use matrixd::generator::cooperative_step;
use matrixd::generator::threaded_step;

#[test]
fn cooperative_step_emits_then_stops() {
    let (frame_tx, frame_rx) = crossbeam_channel::unbounded::<Frame>();
    let (signal_tx, signal_rx) = crossbeam_channel::unbounded::<()>();
    let mut g = Generator::new();

    // No notification pending: after one full tick interval a frame arrives.
    let o = cooperative_step(&mut g, &frame_tx, &signal_rx);
    assert_eq!(o, StepOutcome::Sent);
    assert_eq!(g.emitted, 1);
    let f = frame_rx.try_recv().expect("one frame must have been sent");
    assert_eq!(f.r.len(), 64);
    assert_eq!(f.g.len(), 64);
    assert_eq!(f.b.len(), 64);

    // After the shutdown notification no further frame arrives.
    signal_tx.send(()).unwrap();
    let o = cooperative_step(&mut g, &frame_tx, &signal_rx);
    assert_eq!(o, StepOutcome::Stopped);
    assert!(g.stopped);
    assert_eq!(g.emitted, 1);
    assert!(frame_rx.try_recv().is_err());
}

#[test]
fn cooperative_step_stops_before_first_tick() {
    let (frame_tx, frame_rx) = crossbeam_channel::unbounded::<Frame>();
    let (signal_tx, signal_rx) = crossbeam_channel::unbounded::<()>();
    signal_tx.send(()).unwrap();

    let mut g = Generator::new();
    let o = cooperative_step(&mut g, &frame_tx, &signal_rx);
    assert_eq!(o, StepOutcome::Stopped);
    assert!(g.stopped);
    assert_eq!(g.emitted, 0);
    assert!(frame_rx.try_recv().is_err());
}

#[test]
fn threaded_step_emits_then_stops() {
    let (frame_tx, frame_rx) = crossbeam_channel::unbounded::<Frame>();
    let (signal_tx, signal_rx) = crossbeam_channel::unbounded::<()>();
    let mut g = Generator::new();

    let o = threaded_step(&mut g, &frame_tx, &signal_rx);
    assert_eq!(o, StepOutcome::Sent);
    assert_eq!(g.emitted, 1);
    let f = frame_rx.try_recv().expect("one frame must have been sent");
    assert_eq!(f.r.len(), 64);

    signal_tx.send(()).unwrap();
    let o = threaded_step(&mut g, &frame_tx, &signal_rx);
    assert_eq!(o, StepOutcome::Stopped);
    assert_eq!(g.emitted, 1);
    assert!(frame_rx.try_recv().is_err());
}

#[test]
fn threaded_step_reports_disconnected_consumer() {
    let (frame_tx, frame_rx) = crossbeam_channel::unbounded::<Frame>();
    let (_signal_tx, signal_rx) = crossbeam_channel::unbounded::<()>();
    drop(frame_rx);

    let mut g = Generator::new();
    let o = threaded_step(&mut g, &frame_tx, &signal_rx);
    assert_eq!(o, StepOutcome::Disconnected);
}

#[test]
fn closed_signal_channel_stops_generator() {
    let (frame_tx, frame_rx) = crossbeam_channel::unbounded::<Frame>();
    let (signal_tx, signal_rx) = crossbeam_channel::unbounded::<()>();
    drop(signal_tx);

    let mut g = Generator::new();
    let o = threaded_step(&mut g, &frame_tx, &signal_rx);
    assert_eq!(o, StepOutcome::Stopped);
    assert_eq!(g.emitted, 0);
    assert!(frame_rx.try_recv().is_err());
}

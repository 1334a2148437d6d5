use matrixd::interrupt::SignalError;
use matrixd::interrupt::notify_shutdown;
use matrixd::interrupt::signal_catcher;

#[test]
fn notify_shutdown_reaches_every_consumer() {
    let (tx, rx) = crossbeam_channel::unbounded::<()>();
    let rx2 = rx.clone();
    let rx3 = rx.clone();

    let accepted = notify_shutdown(&tx);
    assert_eq!(accepted, 3);

    // Three consumers racing on the same channel each observe at least
    // one of the three redundant notifications.
    assert!(rx.try_recv().is_ok());
    assert!(rx2.try_recv().is_ok());
    assert!(rx3.try_recv().is_ok());
}

#[test]
fn notify_shutdown_without_receivers_is_refused() {
    let (tx, rx) = crossbeam_channel::unbounded::<()>();
    drop(rx);
    let accepted = notify_shutdown(&tx);
    assert_eq!(accepted, 0);
}

#[test]
fn installing_twice_fails_second_time() {
    let first = signal_catcher();
    assert!(first.is_ok());

    let second = signal_catcher();
    match second {
        Ok(_) => panic!("the second installation must be refused"),
        Err(e) => assert_eq!(e, SignalError::AlreadyInstalled),
    }
}

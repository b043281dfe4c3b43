use notice::Notify;
use notice::Wait;
use notice::Error;

#[test]
fn eventfd_single_signal_counts_one() {
    let (notify, wait) = notice::eventfd::pair().unwrap();
    notify.notify().unwrap();
    assert_eq!(1, wait.wait().unwrap());
}

#[test]
fn eventfd_double_signal_counts_two_exactly() {
    let (notify, wait) = notice::eventfd::pair().unwrap();
    notify.notify().unwrap();
    notify.notify().unwrap();
    assert_eq!(2, wait.wait().unwrap());
}

#[test]
fn eventfd_pair_descriptors_are_distinct() {
    let (notify, wait) = notice::eventfd::pair().unwrap();
    assert_ne!(notify.as_raw_fd(), wait.as_raw_fd());
}

#[test]
fn pipe_pair_descriptors_are_distinct() {
    let (notify, wait) = notice::pipe::pair().unwrap();
    assert_ne!(notify.as_raw_fd(), wait.as_raw_fd());
}

#[test]
fn count_is_accepts_exactly_the_expected_count() {
    assert!(notice::count_is(&Ok(3), 3));
    assert!(!notice::count_is(&Ok(2), 3));
    assert!(!notice::count_is(&Err(Error::Protocol), 3));
    assert!(!notice::count_is(&Err(Error::Os(9)), 0));
}

#[test]
fn pipe_single_signal_counts_one() {
    let (notify, wait) = notice::pipe::pair().unwrap();
    notify.notify().unwrap();
    assert_eq!(1, wait.wait().unwrap());
}

#[test]
fn pipe_double_signal_counts_two_with_default_buffer() {
    let (notify, wait) = notice::pipe::pair().unwrap();
    assert!(wait.buffer_len() >= 2);
    notify.notify().unwrap();
    notify.notify().unwrap();
    assert_eq!(2, wait.wait().unwrap());
}

#[test]
fn pipe_default_buffer_len_is_64() {
    let (_notify, wait) = notice::pipe::pair().unwrap();
    assert_eq!(64, wait.buffer_len());
    assert_eq!(64, notice::pipe::DEFAULT_BUFFER_SIZE);
}

#[test]
fn pipe_set_buffer_len_caps_one_wait_and_rest_is_drained_later() {
    let (notify, mut wait) = notice::pipe::pair().unwrap();
    wait.set_buffer_len(2);
    assert_eq!(2, wait.buffer_len());

    for _ in 0..5 {
        notify.notify().unwrap();
    }

    // Five accumulated signals, read-buffer length two: at most two per wait.
    assert_eq!(2, wait.wait().unwrap());
    assert_eq!(2, wait.wait().unwrap());
    assert_eq!(1, wait.wait().unwrap());
}

#[test]
fn eventfd_round_trip_preserves_behavior() {
    let (notify, wait) = notice::eventfd::pair().unwrap();

    let n_fd = notify.into_raw_fd();
    let w_fd = wait.into_raw_fd();
    let notify = notice::eventfd::Notifier::from_raw(n_fd);
    let wait = notice::eventfd::Waiter::from_raw(w_fd);
    assert_eq!(n_fd, notify.as_raw_fd());
    assert_eq!(w_fd, wait.as_raw_fd());

    notify.notify().unwrap();
    assert_eq!(1, wait.wait().unwrap());
}

#[test]
fn pipe_round_trip_preserves_behavior() {
    let (notify, wait) = notice::pipe::pair().unwrap();

    let n_fd = notify.into_raw_fd();
    let w_fd = wait.into_raw_fd();
    let notify = notice::pipe::Notifier::from_raw(n_fd);
    let wait = notice::pipe::Waiter::from_raw(w_fd);
    assert_eq!(n_fd, notify.as_raw_fd());
    assert_eq!(w_fd, wait.as_raw_fd());
    assert_eq!(notice::pipe::DEFAULT_BUFFER_SIZE, wait.buffer_len());

    notify.notify().unwrap();
    assert_eq!(1, wait.wait().unwrap());
}

#[test]
fn invalid_descriptor_fails_with_os_error() {
    let notify = notice::eventfd::Notifier::from_raw(-1);
    let err = notify.notify().unwrap_err();
    assert!(matches!(err, Error::Os(_)));

    let wait = notice::eventfd::Waiter::from_raw(-1);
    let err = wait.wait().unwrap_err();
    assert!(matches!(err, Error::Os(_)));

    let notify = notice::pipe::Notifier::from_raw(-1);
    let err = notify.notify().unwrap_err();
    assert!(matches!(err, Error::Os(_)));

    let wait = notice::pipe::Waiter::from_raw(-1);
    let err = wait.wait().unwrap_err();
    assert!(matches!(err, Error::Os(_)));
}

#[test]
fn descriptor_closed_out_of_band_fails_with_os_error() {
    let (notify, _wait) = notice::eventfd::pair().unwrap();

    // Close the notifier's descriptor behind its back, then reconstruct a
    // notifier over the dead descriptor number.
    let n_fd = notify.into_raw_fd();
    nix::unistd::close(n_fd).unwrap();
    let notify = notice::eventfd::Notifier::from_raw(n_fd);

    let err = notify.notify().unwrap_err();
    match err {
        Error::Os(code) => assert_eq!(nix::errno::Errno::EBADF as i32, code),
        Error::Protocol => panic!("expected an operating-system error"),
    }
}

#[test]
fn error_accessors_expose_the_code() {
    let os = Error::Os(7);
    assert!(os.is_os());
    assert_eq!(Some(7), os.os_code());

    let protocol = Error::Protocol;
    assert!(!protocol.is_os());
    assert_eq!(None, protocol.os_code());
    assert_ne!(os, protocol);
}

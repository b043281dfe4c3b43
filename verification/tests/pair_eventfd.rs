use notice::all_tests;
use notice::Pair;

struct EventFdPair;

impl Pair for EventFdPair {
    type Notify = notice::eventfd::Notifier;
    type Wait = notice::eventfd::Waiter;

    fn pair(&self) -> (Self::Notify, Self::Wait) {
        notice::eventfd::pair().unwrap()
    }
}

#[test]
fn pair_test() {
    assert!(all_tests::<EventFdPair>(EventFdPair));
}

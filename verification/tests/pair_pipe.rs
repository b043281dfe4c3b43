use notice::all_tests;
use notice::Pair;

struct PipePair;

impl Pair for PipePair {
    type Notify = notice::pipe::Notifier;
    type Wait = notice::pipe::Waiter;

    fn pair(&self) -> (Self::Notify, Self::Wait) {
        notice::pipe::pair().unwrap()
    }
}

#[test]
fn pipe_pair_test() {
    assert!(all_tests::<PipePair>(PipePair));
}

use notice::all_tests;
use notice::Pair;

struct FacadePair;

impl Pair for FacadePair {
    type Notify = notice::Notifier;
    type Wait = notice::Waiter;

    fn pair(&self) -> (Self::Notify, Self::Wait) {
        notice::pair().unwrap()
    }
}

#[test]
fn test() {
    assert!(all_tests::<FacadePair>(FacadePair));
}

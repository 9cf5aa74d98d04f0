use moonshine::sequence::Sequence;

#[test]
fn successful_steps_follow_each_other() {
    let mut steps = Sequence::new(vec!["a", "b", "c"]);
    for expected in ["a", "b", "c"] {
        assert_eq!(steps.pending(), Some(&expected));
        assert!(!steps.complete());
        steps.report(true);
    }
    assert_eq!(steps.pending(), None);
    assert!(steps.complete());
    steps.report(false);
    assert!(steps.complete());
    assert!(Sequence::<u8>::new(Vec::new()).complete());
}

#[test]
fn failed_step_ends_the_others() {
    for failing in 0..3 {
        let mut steps = Sequence::new(vec!["a", "b", "c"]);
        for _ in 0..failing {
            steps.report(true);
        }
        steps.report(false);
        assert_eq!(steps.pending(), None);
        steps.report(true);
        assert!(!steps.complete());
    }
}

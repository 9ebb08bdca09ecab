use presenter::buttons::{Input, PressCounts};

#[test]
fn counts_follow_edges_per_input() {
    let mut counts = PressCounts::new();
    let edges = [Input::A, Input::B, Input::A, Input::A, Input::B];
    let mut previous = counts.snapshot();
    for edge in edges {
        let snap = counts.record_edge(edge);
        assert!(snap[0] >= previous[0] && snap[1] >= previous[1]);
        previous = snap;
    }
    assert_eq!(counts.get(Input::A), 3);
    assert_eq!(counts.get(Input::B), 2);
    assert_eq!(counts.snapshot(), [3, 2]);
}

#[test]
fn snapshot_is_published_after_each_edge() {
    let mut counts = PressCounts::new();
    assert_eq!(counts.record_edge(Input::B), [0, 1]);
    assert_eq!(counts.record_edge(Input::A), [1, 1]);
}

#[test]
fn counter_saturates_at_largest_value() {
    let mut counts = PressCounts::new();
    for _ in 0..300 {
        counts.record_edge(Input::A);
    }
    assert_eq!(counts.get(Input::A), 255);
    assert_eq!(counts.get(Input::B), 0);
    assert_eq!(counts.record_edge(Input::A), [255, 0]);
}

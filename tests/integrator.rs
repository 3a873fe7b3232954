use rayt::trace::{on_hit_test, on_scatter, trace_path, PathEnd, Step, Vertex};

#[test]
fn miss_shows_sky_for_any_budget() {
    for b in [0usize, 1, 5, 50] {
        assert_eq!(on_hit_test(b, false), Step::Sky);
        assert_eq!(trace_path(b, &vec![Vertex::Miss]), PathEnd::Sky(0));
    }
    assert_eq!(trace_path(50, &Vec::new()), PathEnd::Sky(0));
}

#[test]
fn zero_budget_hit_is_black() {
    assert_eq!(on_hit_test(0, true), Step::Black);
    assert_eq!(trace_path(0, &vec![Vertex::Scattered]), PathEnd::Black(0));
    assert_eq!(trace_path(0, &vec![Vertex::Absorbed]), PathEnd::Black(0));
    assert_eq!(trace_path(0, &vec![Vertex::Miss]), PathEnd::Sky(0));
}

#[test]
fn scatter_spends_one_bounce() {
    assert_eq!(on_hit_test(3, true), Step::Scatter);
    assert_eq!(on_scatter(3, true), Step::Bounce(2));
    assert_eq!(on_scatter(1, true), Step::Bounce(0));
    assert_eq!(on_scatter(3, false), Step::Black);
}

#[test]
fn paths_end_by_rule() {
    let v = vec![Vertex::Scattered, Vertex::Scattered, Vertex::Miss];
    assert_eq!(trace_path(5, &v), PathEnd::Sky(2));
    assert_eq!(trace_path(2, &v), PathEnd::Sky(2));
    assert_eq!(trace_path(1, &v), PathEnd::Black(1));
    let a = vec![Vertex::Scattered, Vertex::Absorbed, Vertex::Miss];
    assert_eq!(trace_path(5, &a), PathEnd::Black(1));
    let long = vec![Vertex::Scattered; 10];
    assert_eq!(trace_path(4, &long), PathEnd::Black(4));
}

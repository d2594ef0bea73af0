use abstract_process::tag::TagSource;

#[test]
fn outstanding_tags_never_collide() {
    let mut tags = TagSource::new();
    let mut seen = Vec::new();
    for _ in 0..100 {
        assert!(tags.has_next());
        let t = tags.fresh();
        assert!(!seen.contains(&t));
        seen.push(t);
    }
}

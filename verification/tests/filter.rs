use godot_logger::{Filter, LevelFilter};

#[test]
fn module() {
    let filter = Filter::new("godot_logger::filter", LevelFilter::Debug);
    assert_eq!(filter.module(), "godot_logger::filter");
}

#[test]
fn level() {
    let filter = Filter::new("godot_logger::filter", LevelFilter::Debug);
    assert!(matches!(filter.level(), LevelFilter::Debug));
}

#[test]
fn filter_stores_both_fields_unchanged() {
    let filter = Filter::new("app.physics", LevelFilter::Trace);
    assert_eq!(filter.module(), "app.physics");
    assert!(matches!(filter.level(), LevelFilter::Trace));
}

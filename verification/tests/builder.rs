use godot_logger::{Builder, Level, LevelFilter};

#[test]
fn default_log_level() {
    let mut builder = Builder::default();

    builder = builder.default_log_level(Level::Debug);

    assert!(matches!(builder.default_log_level, Level::Debug));
}

#[test]
fn add_filter() {
    let mut builder = Builder::default();

    builder = builder.add_filter("godot_logger::builder", LevelFilter::Off);

    assert_eq!(builder.filters.len(), 1);
}

#[test]
fn trait_default() {
    let builder = Builder::default();
    assert!(matches!(builder.default_log_level, Level::Warn));
}

#[test]
fn default_config_has_no_filters() {
    let builder = godot_logger::GodotLogger::builder();
    assert!(matches!(builder.default_log_level, Level::Warn));
    assert_eq!(builder.filters.len(), 0);
}

#[test]
fn add_filter_keeps_insertion_order_and_duplicates() {
    let builder = Builder::default()
        .add_filter("app", LevelFilter::Debug)
        .add_filter("app", LevelFilter::Info)
        .add_filter("net", LevelFilter::Trace);

    assert_eq!(builder.filters.len(), 3);
    assert_eq!(builder.filters[0].module(), "app");
    assert!(matches!(builder.filters[0].level(), LevelFilter::Debug));
    assert_eq!(builder.filters[1].module(), "app");
    assert!(matches!(builder.filters[1].level(), LevelFilter::Info));
    assert_eq!(builder.filters[2].module(), "net");
    assert!(matches!(builder.filters[2].level(), LevelFilter::Trace));
}

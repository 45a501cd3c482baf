use godot_logger::{Builder, Error, Level, Registry};

#[test]
fn first_initialization_succeeds() {
    let mut registry = Registry::new();
    assert!(!registry.is_initialized());
    let outcome = registry.try_initialize(Builder::default().build());
    assert_eq!(outcome, Ok(()));
    assert!(registry.is_initialized());
}

#[test]
fn second_initialization_fails_and_keeps_the_first_sink() {
    let mut registry = Registry::new();
    let first = Builder::default().default_log_level(Level::Debug).build();
    assert_eq!(registry.try_initialize(first), Ok(()));

    let second = Builder::default().default_log_level(Level::Trace).build();
    assert_eq!(registry.try_initialize(second), Err(Error::AlreadyInitialized));

    let active = registry.active.as_ref().expect("a sink stays registered");
    assert!(matches!(active.default_log_level, Level::Debug));
}

#[test]
fn already_initialized_error_has_a_message() {
    assert_eq!(Error::AlreadyInitialized.message(), "attempted to initialize the logger twice");
    assert_eq!(Error::UnrecognizedLevel.message(), "unrecognized severity level name");
}

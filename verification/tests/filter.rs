use tunelo::filter::{FilterAction, FilterMode};

#[test]
fn filter_defaults() {
    assert!(matches!(FilterMode::default(), FilterMode::DenyList));
    assert_ne!(FilterAction::Allow, FilterAction::Deny);
}

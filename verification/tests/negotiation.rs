use borealis::context::{
    CapabilityHint, ContextApi, ContextConfig, ContextNegotiator, Profile, Version, PROPOSAL_LEN,
};

fn preferred() -> ContextConfig {
    ContextConfig { api: ContextApi::CoreGL, version: None, profile: Profile::Core }
}

fn fallback() -> ContextConfig {
    ContextConfig { api: ContextApi::GLES, version: None, profile: Profile::Unspecified }
}

fn legacy() -> ContextConfig {
    ContextConfig {
        api: ContextApi::LegacyGL,
        version: Some(Version { major: 2, minor: 1 }),
        profile: Profile::Unspecified,
    }
}

#[test]
fn proposal_has_three_configs_in_fixed_order() {
    let configs = ContextNegotiator::propose(CapabilityHint { window_available: true });
    assert_eq!(configs, vec![preferred(), fallback(), legacy()]);
    assert_eq!(configs.len(), PROPOSAL_LEN);
}

#[test]
fn proposal_ignores_the_hint() {
    let with_window = ContextNegotiator::propose(CapabilityHint { window_available: true });
    let without = ContextNegotiator::propose(CapabilityHint { window_available: false });
    assert_eq!(with_window, without);
}

#[test]
fn proposal_is_restartable() {
    let hint = CapabilityHint { window_available: false };
    let first = ContextNegotiator::propose(hint);
    let second = ContextNegotiator::propose(hint);
    assert_eq!(first, second);
    assert_eq!(ContextNegotiator::nth(hint, 2), Some(legacy()));
    assert_eq!(ContextNegotiator::nth(hint, 0), Some(preferred()));
    assert_eq!(ContextNegotiator::nth(hint, 0), Some(preferred()));
}

#[test]
fn nth_walks_the_proposal() {
    let hint = CapabilityHint { window_available: true };
    assert_eq!(ContextNegotiator::nth(hint, 0), Some(preferred()));
    assert_eq!(ContextNegotiator::nth(hint, 1), Some(fallback()));
    assert_eq!(ContextNegotiator::nth(hint, 2), Some(legacy()));
}

#[test]
fn nth_ends_after_the_legacy_config() {
    let hint = CapabilityHint { window_available: true };
    assert_eq!(ContextNegotiator::nth(hint, 3), None);
    assert_eq!(ContextNegotiator::nth(hint, usize::MAX), None);
}

#[test]
fn legacy_config_asks_for_version_two_one() {
    let configs = ContextNegotiator::propose(CapabilityHint { window_available: true });
    assert_eq!(configs[2].version, Some(Version { major: 2, minor: 1 }));
    assert_eq!(configs[0].version, None);
    assert_eq!(configs[1].version, None);
    assert_eq!(configs[0].profile, Profile::Core);
}

use ram_lavalampe::diag::DiagKey;
use ram_lavalampe::{DiagnosticCache, LoadError, Tier};

#[test]
fn a_key_is_fresh_only_the_first_time() {
    let mut cache = DiagnosticCache::new();
    let key = DiagKey::FewerFrames { available: 7 };
    assert!(cache.record(key));
    assert!(!cache.record(key));
    assert!(!cache.record(key));
}

#[test]
fn different_keys_are_deduplicated_independently() {
    let mut cache = DiagnosticCache::new();
    assert!(cache.record(DiagKey::FewerFrames { available: 7 }));
    assert!(cache.record(DiagKey::FewerFrames { available: 8 }));
    assert!(cache.record(DiagKey::ExtraFrames { available: 7 }));
    assert!(cache.record(DiagKey::LoadFailed {
        tier: Tier::Red,
        error: LoadError::AssetNotFound
    }));
    assert!(cache.record(DiagKey::LoadFailed {
        tier: Tier::Red,
        error: LoadError::DecodeError
    }));
    assert!(!cache.record(DiagKey::FewerFrames { available: 7 }));
    assert!(!cache.record(DiagKey::LoadFailed {
        tier: Tier::Red,
        error: LoadError::AssetNotFound
    }));
}

use vstd::prelude::*;
use crate::sheet::LoadError;
use crate::tier::Tier;

verus! {

/// The key of a diagnostic message.  Two diagnostics with the same key
/// are the same message; the cache suppresses every repetition.
#[derive(Clone, Copy, Debug, PartialEq, Eq, Structural)]
pub enum DiagKey {
    /// Loading the asset of this tier failed with this error.
    LoadFailed { tier: Tier, error: LoadError },
    /// The sheet holds fewer frames than the nominal expected count; the
    /// smaller native count is used.
    FewerFrames { available: usize },
    /// The sheet holds more frames than the nominal expected count; the
    /// extra frames are ignored.
    ExtraFrames { available: usize },
}

/// One recording step as a mathematical function: the grown set of
/// emitted keys, and whether the key was fresh (not yet emitted).
pub open spec fn spec_record(emitted: Set<DiagKey>, key: DiagKey) -> (Set<DiagKey>, bool) {
    (emitted.insert(key), !emitted.contains(key))
}

/// The set of diagnostic keys emitted so far.  It grows monotonically
/// for the process lifetime and is never cleared.
pub struct DiagnosticCache {
    keys: Vec<DiagKey>,
}

impl DiagnosticCache {
    /// The keys emitted so far.
    pub closed spec fn emitted(self) -> Set<DiagKey> {
        self.keys@.to_set()
    }

    /// An empty cache: nothing has been emitted yet.
    pub fn new() -> (cache: DiagnosticCache)
        ensures
            cache.emitted() == Set::<DiagKey>::empty(),
    {
        let cache = DiagnosticCache { keys: Vec::new() };
        proof {
            assert(cache.emitted() =~= Set::<DiagKey>::empty());
        }
        cache
    }

    /// Record a diagnostic key.  The result says whether the key was
    /// fresh, so the caller emits the message exactly when `record`
    /// returns true; either way the key is in the cache afterwards.
    pub fn record(&mut self, key: DiagKey) -> (fresh: bool)
        ensures
            fresh == spec_record(old(self).emitted(), key).1,
            final(self).emitted() == spec_record(old(self).emitted(), key).0,
    {
        let n = self.keys.len();
        let mut i: usize = 0;
        while i < n
            invariant
                self == old(self),
                n == self.keys@.len(),
                i <= n,
                forall|j: int| 0 <= j < i ==> self.keys@[j] != key,
            decreases n - i,
        {
            if self.keys[i] == key {
                proof {
                    assert(old(self).emitted().contains(key));
                    assert(self.emitted() =~= old(self).emitted().insert(key));
                }
                return false;
            }
            i += 1;
        }
        proof {
            assert(!old(self).emitted().contains(key));
        }
        self.keys.push(key);
        proof {
            assert forall|k2: DiagKey| #[trigger] self.keys@.contains(k2)
                implies old(self).keys@.contains(k2) || k2 == key by {
                let idx = choose|idx: int| 0 <= idx < self.keys@.len() && self.keys@[idx] == k2;
                if idx < old(self).keys@.len() {
                    assert(old(self).keys@[idx] == k2);
                }
            }
            assert forall|k2: DiagKey| old(self).keys@.contains(k2)
                implies #[trigger] self.keys@.contains(k2) by {
                let idx = choose|idx: int| 0 <= idx < old(self).keys@.len()
                    && old(self).keys@[idx] == k2;
                assert(self.keys@[idx] == k2);
            }
            assert(self.keys@.contains(key)) by {
                assert(self.keys@[self.keys@.len() - 1] == key);
            }
            assert(self.emitted() =~= old(self).emitted().insert(key));
        }
        true
    }
}

/// A diagnostic is emitted at most once per process lifetime: once a key
/// has been recorded, recording it again is never fresh, whatever other
/// keys were recorded in between, because the cache only grows.
pub proof fn lemma_diagnostic_emitted_at_most_once(
    emitted: Set<DiagKey>,
    later: Set<DiagKey>,
    key: DiagKey,
)
    requires
        spec_record(emitted, key).0.subset_of(later),
    ensures
        spec_record(later, key).1 == false,
{
    assert(later.contains(key));
}

} // verus!

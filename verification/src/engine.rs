use vstd::prelude::*;
use vstd::arithmetic::div_mod::lemma_mod_division_less_than_divisor;
use vstd::arithmetic::div_mod::lemma_mod_multiples_vanish;
use vstd::arithmetic::div_mod::lemma_add_mod_noop_right;
use vstd::arithmetic::div_mod::lemma_small_mod;
use crate::blend::spec_blend;
use crate::blend::Pixel;
use crate::compositor::composite_frame;
use crate::compositor::fill_buffer;
use crate::compositor::spec_buf_pixel;
use crate::compositor::spec_cell_done;
use crate::compositor::spec_marker_color;
use crate::diag::spec_record;
use crate::diag::DiagKey;
use crate::diag::DiagnosticCache;
use crate::sheet::load_sheet_from_bytes;
use crate::sheet::spec_load_outcome;
use crate::sheet::FRAME_SIZE;
use crate::sheet::LoadError;
use crate::sheet::SpriteSheet;
use crate::tier::fill_color;
use crate::tier::playback_interval_ms;
use crate::tier::spec_fill_color;
use crate::tier::spec_playback_interval_ms;
use crate::tier::Tier;

verus! {

/// The metric is sampled at most once per this interval, in
/// milliseconds; between samples the cached value is reused.
pub const SAMPLE_INTERVAL_MS: u64 = 1000;

/// The longest idle sleep of the render loop, in milliseconds.
pub const MAX_IDLE_SLEEP_MS: u64 = 10;

/// The background color of the destination buffer: opaque black.
pub open spec fn spec_background() -> Pixel {
    Pixel { r: 0, g: 0, b: 0, a: 255 }
}

/// How many frames of the sheet are played: the native count, clamped
/// to the configured nominal expected count.
pub open spec fn spec_effective_frames(sheet: SpriteSheet, nominal: int) -> int {
    vstd::math::min(sheet.spec_native_frame_count(), nominal)
}

/// The single mutable entity of the engine: the selected tier, the
/// loaded sheet with the tier it belongs to, the animation clock, and
/// the configured nominal frame count.
pub struct AnimationState {
    /// The tier asked for by the last load attempt, or nothing before
    /// the first attempt.
    pub requested: Option<Tier>,
    /// The loaded sprite sheet, or nothing in the degraded state.
    pub sheet: Option<SpriteSheet>,
    /// The tier whose asset the loaded sheet is.
    pub sheet_tier: Option<Tier>,
    /// Whether the loaded sheet belongs to the fallback tier rather
    /// than the requested one.
    pub fallback_active: bool,
    /// The current frame index.
    pub frame_index: usize,
    /// The timestamp, in milliseconds, of the last frame advance.
    pub last_advance_ms: u64,
    /// The nominal expected frame count, used for reconciliation.
    pub nominal_frames: usize,
}

impl AnimationState {
    /// The state's invariant: a loaded sheet is well formed and belongs
    /// to a known tier, the frame index stays inside the effective
    /// frame count, the degraded state has frame index zero, and the
    /// fallback flag holds exactly when the loaded sheet's tier is not
    /// the requested one.
    pub open spec fn wf(self) -> bool {
        &&& self.nominal_frames > 0
        &&& (self.sheet_tier is Some <==> self.sheet is Some)
        &&& match self.sheet {
            Some(s) => {
                &&& s.wf()
                &&& self.requested is Some
                &&& self.frame_index < spec_effective_frames(s, self.nominal_frames as int)
            },
            None => self.frame_index == 0,
        }
        &&& self.fallback_active == (self.sheet_tier is Some && self.requested is Some
            && self.sheet_tier != self.requested)
    }

    /// The freshly created state: no tier selected, no sheet loaded,
    /// the clock at the given time.
    pub fn new(nominal_frames: usize, now_ms: u64) -> (st: AnimationState)
        requires
            nominal_frames > 0,
        ensures
            st.wf(),
            st.requested is None,
            st.sheet is None,
            st.sheet_tier is None,
            !st.fallback_active,
            st.frame_index == 0,
            st.last_advance_ms == now_ms,
            st.nominal_frames == nominal_frames,
    {
        AnimationState {
            requested: None,
            sheet: None,
            sheet_tier: None,
            fallback_active: false,
            frame_index: 0,
            last_advance_ms: now_ms,
            nominal_frames,
        }
    }
}

/// Whether a load attempt is due for the selected tier: always when the
/// tier is not the one last asked for, and on a fresh metric sample
/// also when the engine is degraded or showing the fallback asset, so
/// that a failed load is retried from scratch on the next sample.
pub open spec fn spec_needs_reload(st: AnimationState, tier: Tier, fresh_sample: bool) -> bool {
    st.requested != Some(tier) || (fresh_sample && (st.fallback_active || st.sheet is None))
}

impl AnimationState {
    /// Decide whether the tick must attempt to load the tier's asset.
    pub fn needs_reload(&self, tier: Tier, fresh_sample: bool) -> (due: bool)
        ensures
            due == spec_needs_reload(*self, tier, fresh_sample),
    {
        let same = match self.requested {
            Some(t) => t == tier,
            None => false,
        };
        !same || (fresh_sample && (self.fallback_active || self.sheet.is_none()))
    }
}

/// The views of optionally read asset bytes, absent when no candidate
/// path for the asset exists.
pub open spec fn spec_bytes_view(bytes: Option<Vec<u8>>) -> Option<Seq<u8>> {
    match bytes {
        Some(b) => Some(b@),
        None => None,
    }
}

/// The degraded state after a failed load: the tier is remembered, but
/// no sheet is held and the frame index is reset.
pub open spec fn spec_degraded(st: AnimationState, tier: Tier, prev: AnimationState) -> bool {
    st == AnimationState {
        requested: Some(tier),
        sheet: None,
        sheet_tier: None,
        fallback_active: false,
        frame_index: 0,
        last_advance_ms: prev.last_advance_ms,
        nominal_frames: prev.nominal_frames,
    }
}

fn note_load_failure(
    st: &mut AnimationState,
    tier: Tier,
    error: LoadError,
    cache: &mut DiagnosticCache,
) -> (r: (bool, Option<DiagKey>))
    requires
        old(st).wf(),
    ensures
        final(st).wf(),
        ({
            let key = DiagKey::LoadFailed { tier, error };
            &&& final(cache).emitted() == spec_record(old(cache).emitted(), key).0
            &&& r.1 == if spec_record(old(cache).emitted(), key).1 {
                Some(key)
            } else {
                None::<DiagKey>
            }
            &&& if tier != Tier::Green {
                r.0 == true && *final(st) == *old(st)
            } else {
                r.0 == false && spec_degraded(*final(st), tier, *old(st))
            }
        }),
{
    let key = DiagKey::LoadFailed { tier, error };
    let fresh = cache.record(key);
    let diag = if fresh {
        Some(key)
    } else {
        None
    };
    if tier == Tier::Green {
        st.requested = Some(tier);
        st.sheet = None;
        st.sheet_tier = None;
        st.fallback_active = false;
        st.frame_index = 0;
        (false, diag)
    } else {
        (true, diag)
    }
}

/// Install a freshly validated sheet for the given requested tier; the
/// sheet belongs to `loaded_tier`, which differs from the requested
/// tier exactly when the fallback asset was loaded.
fn install_sheet(st: &mut AnimationState, requested: Tier, loaded_tier: Tier, sheet: SpriteSheet)
    requires
        old(st).wf(),
        sheet.wf(),
    ensures
        final(st).wf(),
        final(st).requested == Some(requested),
        final(st).sheet == Some(sheet),
        final(st).sheet_tier == Some(loaded_tier),
        final(st).fallback_active == (loaded_tier != requested),
        final(st).frame_index == 0,
        final(st).last_advance_ms == old(st).last_advance_ms,
        final(st).nominal_frames == old(st).nominal_frames,
{
    st.requested = Some(requested);
    st.sheet_tier = Some(loaded_tier);
    st.fallback_active = !(loaded_tier == requested);
    st.frame_index = 0;
    st.sheet = Some(sheet);
}

/// Apply the outcome of loading the selected tier's own asset.
///
/// On success the sheet is installed for that tier and the frame index
/// resets.  On failure the error's diagnostic is recorded (returned for
/// emission only when fresh); if the failed tier is not the fallback
/// tier the state is left as it was and the caller owes a fallback
/// attempt, otherwise the engine degrades to no sheet at all.
pub fn apply_primary_load(
    st: &mut AnimationState,
    tier: Tier,
    bytes: Option<Vec<u8>>,
    cache: &mut DiagnosticCache,
) -> (r: (bool, Option<DiagKey>))
    requires
        old(st).wf(),
    ensures
        final(st).wf(),
        match spec_load_outcome(spec_bytes_view(bytes)) {
            Ok(d) => {
                &&& final(st).requested == Some(tier)
                &&& final(st).sheet matches Some(s) && s.pixels@ == d.0 && s.width == d.1
                    && s.height == d.2
                &&& final(st).sheet_tier == Some(tier)
                &&& !final(st).fallback_active
                &&& final(st).frame_index == 0
                &&& final(st).last_advance_ms == old(st).last_advance_ms
                &&& final(st).nominal_frames == old(st).nominal_frames
                &&& final(cache).emitted() == old(cache).emitted()
                &&& r == (false, None::<DiagKey>)
            },
            Err(e) => {
                let key = DiagKey::LoadFailed { tier, error: e };
                &&& final(cache).emitted() == spec_record(old(cache).emitted(), key).0
                &&& r.1 == if spec_record(old(cache).emitted(), key).1 {
                    Some(key)
                } else {
                    None::<DiagKey>
                }
                &&& if tier != Tier::Green {
                    r.0 == true && *final(st) == *old(st)
                } else {
                    r.0 == false && spec_degraded(*final(st), tier, *old(st))
                }
            },
        },
{
    match bytes {
        None => note_load_failure(st, tier, LoadError::AssetNotFound, cache),
        Some(b) => match load_sheet_from_bytes(&b) {
            Ok(sheet) => {
                install_sheet(st, tier, tier, sheet);
                (false, None)
            },
            Err(e) => note_load_failure(st, tier, e, cache),
        },
    }
}

/// Apply the outcome of loading the fallback tier's asset, after the
/// requested tier's own asset failed to load.
///
/// On success the fallback sheet is installed with the fallback flag
/// set.  On failure its diagnostic is recorded (returned when fresh)
/// and the engine degrades: no sheet, frame index reset.
pub fn apply_fallback_load(
    st: &mut AnimationState,
    requested: Tier,
    bytes: Option<Vec<u8>>,
    cache: &mut DiagnosticCache,
) -> (diag: Option<DiagKey>)
    requires
        old(st).wf(),
        requested != Tier::Green,
    ensures
        final(st).wf(),
        match spec_load_outcome(spec_bytes_view(bytes)) {
            Ok(d) => {
                &&& final(st).requested == Some(requested)
                &&& final(st).sheet matches Some(s) && s.pixels@ == d.0 && s.width == d.1
                    && s.height == d.2
                &&& final(st).sheet_tier == Some(Tier::Green)
                &&& final(st).fallback_active
                &&& final(st).frame_index == 0
                &&& final(st).last_advance_ms == old(st).last_advance_ms
                &&& final(st).nominal_frames == old(st).nominal_frames
                &&& final(cache).emitted() == old(cache).emitted()
                &&& diag is None
            },
            Err(e) => {
                let key = DiagKey::LoadFailed { tier: Tier::Green, error: e };
                &&& final(cache).emitted() == spec_record(old(cache).emitted(), key).0
                &&& diag == if spec_record(old(cache).emitted(), key).1 {
                    Some(key)
                } else {
                    None::<DiagKey>
                }
                &&& spec_degraded(*final(st), requested, *old(st))
            },
        },
{
    match bytes {
        None => {
            let (_, diag) = note_fallback_failure(st, requested, LoadError::AssetNotFound, cache);
            diag
        },
        Some(b) => match load_sheet_from_bytes(&b) {
            Ok(sheet) => {
                install_sheet(st, requested, Tier::Green, sheet);
                None
            },
            Err(e) => {
                let (_, diag) = note_fallback_failure(st, requested, e, cache);
                diag
            },
        },
    }
}

fn note_fallback_failure(
    st: &mut AnimationState,
    requested: Tier,
    error: LoadError,
    cache: &mut DiagnosticCache,
) -> (r: (bool, Option<DiagKey>))
    requires
        old(st).wf(),
    ensures
        final(st).wf(),
        ({
            let key = DiagKey::LoadFailed { tier: Tier::Green, error };
            &&& final(cache).emitted() == spec_record(old(cache).emitted(), key).0
            &&& r.1 == if spec_record(old(cache).emitted(), key).1 {
                Some(key)
            } else {
                None::<DiagKey>
            }
            &&& spec_degraded(*final(st), requested, *old(st))
        }),
{
    let key = DiagKey::LoadFailed { tier: Tier::Green, error };
    let fresh = cache.record(key);
    let diag = if fresh {
        Some(key)
    } else {
        None
    };
    st.requested = Some(requested);
    st.sheet = None;
    st.sheet_tier = None;
    st.fallback_active = false;
    st.frame_index = 0;
    (false, diag)
}

/// One frame advance: the index steps forward and wraps at the
/// effective frame count.
pub open spec fn spec_advance_index(i: int, eff: int) -> int {
    (i + 1) % eff
}

/// The index after `n` frame advances.
pub open spec fn spec_advance_index_n(i: int, n: nat, eff: int) -> int
    decreases n,
{
    if n == 0 {
        i
    } else {
        spec_advance_index_n(spec_advance_index(i, eff), (n - 1) as nat, eff)
    }
}

/// After `n` advances from `i` the frame index is `(i + n) % eff`; in
/// particular it always stays in `[0, eff)`.
pub proof fn lemma_advance_index_n(i: int, n: nat, eff: int)
    requires
        0 < eff,
        0 <= i < eff,
    ensures
        spec_advance_index_n(i, n, eff) == (i + n) % eff,
        0 <= spec_advance_index_n(i, n, eff) < eff,
    decreases n,
{
    if n == 0 {
        lemma_small_mod(i as nat, eff as nat);
    } else {
        let i1 = spec_advance_index(i, eff);
        lemma_mod_division_less_than_divisor(i + 1, eff);
        lemma_advance_index_n(i1, (n - 1) as nat, eff);
        lemma_add_mod_noop_right(n - 1, i + 1, eff);
    }
}

/// The frame index wraps rather than saturates: after exactly `eff`
/// advances it returns to where it began.
pub proof fn lemma_frame_index_wraps(i: int, eff: int)
    requires
        0 < eff,
        0 <= i < eff,
    ensures
        spec_advance_index_n(i, eff as nat, eff) == i,
{
    lemma_advance_index_n(i, eff as nat, eff);
    lemma_mod_multiples_vanish(1, i, eff);
    lemma_small_mod(i as nat, eff as nat);
}

/// The reconciliation diagnostic owed when the sheet's native frame
/// count differs from the nominal expected count.
pub open spec fn spec_reconcile_key(native: int, nominal: int) -> Option<DiagKey> {
    if native < nominal {
        Some(DiagKey::FewerFrames { available: native as usize })
    } else if native > nominal {
        Some(DiagKey::ExtraFrames { available: native as usize })
    } else {
        None
    }
}

/// The playback interval of the tier the engine is on; the value for a
/// state before the first load attempt is the calmest tier's.
pub open spec fn spec_current_interval(st: AnimationState) -> int {
    match st.requested {
        Some(t) => spec_playback_interval_ms(t),
        None => spec_playback_interval_ms(Tier::Green),
    }
}

/// One tick of the animation clock.
///
/// With no sheet loaded nothing happens.  Otherwise the native frame
/// count is reconciled with the nominal expected count (emitting the
/// fewer-frames or extra-frames diagnostic once, through the cache),
/// and if the tier's playback interval has elapsed since the last
/// advance, the frame index steps forward and wraps at the effective
/// frame count.
pub fn advance_frame(st: &mut AnimationState, now_ms: u64, cache: &mut DiagnosticCache) -> (diag:
    Option<DiagKey>)
    requires
        old(st).wf(),
        old(st).last_advance_ms <= now_ms,
    ensures
        final(st).wf(),
        final(st).requested == old(st).requested,
        final(st).sheet == old(st).sheet,
        final(st).sheet_tier == old(st).sheet_tier,
        final(st).fallback_active == old(st).fallback_active,
        final(st).nominal_frames == old(st).nominal_frames,
        match old(st).sheet {
            None => *final(st) == *old(st) && final(cache).emitted() == old(cache).emitted()
                && diag is None,
            Some(s) => {
                let native = s.spec_native_frame_count();
                let nominal = old(st).nominal_frames as int;
                let eff = spec_effective_frames(s, nominal);
                &&& match spec_reconcile_key(native, nominal) {
                    Some(key) => final(cache).emitted() == spec_record(
                        old(cache).emitted(),
                        key,
                    ).0 && diag == if spec_record(old(cache).emitted(), key).1 {
                        Some(key)
                    } else {
                        None::<DiagKey>
                    },
                    None => final(cache).emitted() == old(cache).emitted() && diag is None,
                }
                &&& if now_ms - old(st).last_advance_ms >= spec_current_interval(*old(st)) {
                    final(st).frame_index == spec_advance_index(old(st).frame_index as int, eff)
                        && final(st).last_advance_ms == now_ms
                } else {
                    final(st).frame_index == old(st).frame_index && final(st).last_advance_ms
                        == old(st).last_advance_ms
                }
            },
        },
{
    let native = match &st.sheet {
        Some(s) => s.native_frame_count(),
        None => {
            return None;
        },
    };
    let nominal = st.nominal_frames;
    let diag: Option<DiagKey> = if native < nominal {
        let key = DiagKey::FewerFrames { available: native };
        let fresh = cache.record(key);
        if fresh {
            Some(key)
        } else {
            None
        }
    } else if native > nominal {
        let key = DiagKey::ExtraFrames { available: native };
        let fresh = cache.record(key);
        if fresh {
            Some(key)
        } else {
            None
        }
    } else {
        None
    };
    let eff = if native < nominal {
        native
    } else {
        nominal
    };
    let tier = match st.requested {
        Some(t) => t,
        None => Tier::Green,
    };
    let interval = playback_interval_ms(tier);
    if now_ms - st.last_advance_ms >= interval {
        proof {
            lemma_mod_division_less_than_divisor(st.frame_index + 1, eff as int);
        }
        st.frame_index = (st.frame_index + 1) % eff;
        st.last_advance_ms = now_ms;
    }
    diag
}

/// What one destination cell shows after a render: the current frame's
/// source pixel blended over the black background (the marker color
/// where a source index would escape the sheet), or, with no sheet
/// loaded, a flat fill — the remembered tier's color, or plain
/// background before any tier was requested.
pub open spec fn spec_rendered_pixel(st: AnimationState, x: int, y: int) -> Pixel {
    match st.sheet {
        Some(s) => {
            let si = y * s.width + st.frame_index * FRAME_SIZE + x;
            if 4 * si + 4 <= s.pixels@.len() {
                spec_blend(spec_background(), spec_buf_pixel(s.pixels@, si))
            } else {
                spec_marker_color()
            }
        },
        None => match st.requested {
            Some(t) => spec_fill_color(t),
            None => spec_background(),
        },
    }
}

/// Write the tick's output into the destination buffer: clear it to the
/// background color, then composite the current frame of the loaded
/// sheet over it; with no sheet, the flat degraded indicator.
pub fn render(st: &AnimationState, dest: &mut Vec<u8>)
    requires
        st.wf(),
        old(dest)@.len() == FRAME_SIZE * FRAME_SIZE * 4,
    ensures
        final(dest)@.len() == old(dest)@.len(),
        forall|x: int, y: int|
            0 <= x < FRAME_SIZE && 0 <= y < FRAME_SIZE ==> spec_buf_pixel(
                final(dest)@,
                y * FRAME_SIZE + x,
            ) == spec_rendered_pixel(*st, x, y),
{
    match &st.sheet {
        Some(s) => {
            fill_buffer(dest, Pixel { r: 0, g: 0, b: 0, a: 255 });
            let ghost cleared = dest@;
            composite_frame(dest, s, st.frame_index);
            proof {
                assert forall|x: int, y: int| 0 <= x < FRAME_SIZE && 0 <= y < FRAME_SIZE
                    implies spec_buf_pixel(dest@, y * FRAME_SIZE + x) == spec_rendered_pixel(
                    *st,
                    x,
                    y,
                ) by {
                    assert(spec_cell_done(dest@, cleared, *s, st.frame_index as int, x, y));
                    assert(4 * (y * FRAME_SIZE + x) + 4 <= cleared.len());
                    assert(spec_buf_pixel(cleared, y * FRAME_SIZE + x) == spec_background());
                }
            }
        },
        None => {
            match &st.requested {
                Some(t) => {
                    let color = fill_color(*t);
                    fill_buffer(dest, color);
                },
                None => {
                    fill_buffer(dest, Pixel { r: 0, g: 0, b: 0, a: 255 });
                },
            }
        },
    }
}

/// Whether a new metric sample is due: at most one sample per sampling
/// interval; in between the cached metric is reused.
pub fn sample_due(now_ms: u64, last_sample_ms: u64) -> (due: bool)
    requires
        last_sample_ms <= now_ms,
    ensures
        due == (now_ms - last_sample_ms >= SAMPLE_INTERVAL_MS),
{
    now_ms - last_sample_ms >= SAMPLE_INTERVAL_MS
}

/// The idle sleep owed at the end of a tick: until the next frame
/// advance is due, but never more than the bounded maximum; a brief
/// minimal sleep once an advance is already due.
pub open spec fn spec_idle_sleep_ms(now_ms: int, last_advance_ms: int, interval_ms: int) -> int {
    let elapsed = now_ms - last_advance_ms;
    if elapsed < interval_ms {
        vstd::math::min(interval_ms - elapsed, MAX_IDLE_SLEEP_MS as int)
    } else {
        1
    }
}

/// How long the loop may sleep before the next tick, in milliseconds:
/// bounded, so the loop stays responsive to exit signals.
pub fn idle_sleep_ms(now_ms: u64, last_advance_ms: u64, interval_ms: u64) -> (ms: u64)
    requires
        last_advance_ms <= now_ms,
    ensures
        ms == spec_idle_sleep_ms(now_ms as int, last_advance_ms as int, interval_ms as int),
        ms <= MAX_IDLE_SLEEP_MS,
{
    let elapsed = now_ms - last_advance_ms;
    if elapsed < interval_ms {
        let remaining = interval_ms - elapsed;
        if remaining < MAX_IDLE_SLEEP_MS {
            remaining
        } else {
            MAX_IDLE_SLEEP_MS
        }
    } else {
        1
    }
}

} // verus!

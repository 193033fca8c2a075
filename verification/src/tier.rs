use vstd::prelude::*;
use crate::blend::Pixel;

verus! {

/// The discrete visual tiers, from calm to critical, selected by
/// thresholding the sampled metric.  Each tier carries a sprite-sheet
/// asset, a playback interval and a solid fill color.
#[derive(Clone, Copy, Debug, PartialEq, Eq, Structural)]
pub enum Tier {
    Green,
    Yellow,
    Orange,
    Red,
}

/// Severity of a tier: `Green < Yellow < Orange < Red`.
pub open spec fn tier_rank(t: Tier) -> int {
    match t {
        Tier::Green => 0,
        Tier::Yellow => 1,
        Tier::Orange => 2,
        Tier::Red => 3,
    }
}

/// The classifier as a mathematical function.  The metric is measured in
/// hundredths of a percent, so 3000 stands for 30%.  Each comparison is
/// inclusive on the tier's upper bound; inputs above 8000 fall to `Red`
/// and inputs at or below 3000 (negative ones included) to `Green`.
pub open spec fn spec_classify(metric: int) -> Tier {
    if metric <= 3000 {
        Tier::Green
    } else if metric <= 5000 {
        Tier::Yellow
    } else if metric <= 8000 {
        Tier::Orange
    } else {
        Tier::Red
    }
}

/// Classify a metric given in hundredths of a percent into a tier.
pub fn classify(metric: u64) -> (t: Tier)
    ensures
        t == spec_classify(metric as int),
{
    if metric <= 3000 {
        Tier::Green
    } else if metric <= 5000 {
        Tier::Yellow
    } else if metric <= 8000 {
        Tier::Orange
    } else {
        Tier::Red
    }
}

/// The classifier is a monotonically non-decreasing step function of the
/// metric: a larger metric never selects a less severe tier.
pub proof fn lemma_classify_monotone(m1: int, m2: int)
    requires
        m1 <= m2,
    ensures
        tier_rank(spec_classify(m1)) <= tier_rank(spec_classify(m2)),
{
}

/// Classify a metric given as raw usage counters, with no rounding: the
/// percentage `100 * used / total` is compared against each threshold as
/// an exact rational, and a zero total counts as zero percent.
pub open spec fn spec_classify_usage(used: int, total: int) -> Tier {
    if total == 0 {
        Tier::Green
    } else if 100 * used <= 30 * total {
        Tier::Green
    } else if 100 * used <= 50 * total {
        Tier::Yellow
    } else if 100 * used <= 80 * total {
        Tier::Orange
    } else {
        Tier::Red
    }
}

/// Classify raw usage counters (used and total byte counts) into a tier.
pub fn classify_usage(used: u64, total: u64) -> (t: Tier)
    ensures
        t == spec_classify_usage(used as int, total as int),
{
    if total == 0 {
        Tier::Green
    } else if used as u128 * 100 <= total as u128 * 30 {
        Tier::Green
    } else if used as u128 * 100 <= total as u128 * 50 {
        Tier::Yellow
    } else if used as u128 * 100 <= total as u128 * 80 {
        Tier::Orange
    } else {
        Tier::Red
    }
}

/// The usage classifier is the metric classifier taken at the exact
/// scaled metric: whenever `metric * total == 10000 * used` (that is,
/// the metric is exactly `100 * used / total` percent, in hundredths of
/// a percent), both pick the same tier.
pub proof fn lemma_classify_usage_matches_metric(used: int, total: int, metric: int)
    requires
        total > 0,
        used >= 0,
        metric * total == 10000 * used,
    ensures
        spec_classify_usage(used, total) == spec_classify(metric),
{
    assert(metric <= 3000 <==> 100 * used <= 30 * total) by (nonlinear_arith)
        requires
            total > 0,
            metric * total == 10000 * used,
    ;
    assert(metric <= 5000 <==> 100 * used <= 50 * total) by (nonlinear_arith)
        requires
            total > 0,
            metric * total == 10000 * used,
    ;
    assert(metric <= 8000 <==> 100 * used <= 80 * total) by (nonlinear_arith)
        requires
            total > 0,
            metric * total == 10000 * used,
    ;
}

pub open spec fn spec_playback_interval_ms(t: Tier) -> int {
    match t {
        Tier::Green => 200,
        Tier::Yellow => 150,
        Tier::Orange => 100,
        Tier::Red => 60,
    }
}

/// The wall-clock duration, in milliseconds, between frame advances
/// while this tier is selected.
pub fn playback_interval_ms(t: Tier) -> (ms: u64)
    ensures
        ms == spec_playback_interval_ms(t),
{
    match t {
        Tier::Green => 200,
        Tier::Yellow => 150,
        Tier::Orange => 100,
        Tier::Red => 60,
    }
}

/// The tier whose asset is attempted when the selected tier's asset
/// cannot be loaded.
pub fn fallback_tier() -> (t: Tier)
    ensures
        t == Tier::Green,
{
    Tier::Green
}

pub open spec fn spec_asset_file_name(t: Tier) -> Seq<char> {
    match t {
        Tier::Green => "lavalampe_green.png"@,
        Tier::Yellow => "lavalampe_yellow.png"@,
        Tier::Orange => "lavalampe_orange.png"@,
        Tier::Red => "lavalampe_red.png"@,
    }
}

/// The file name of the tier's sprite-sheet asset.
pub fn asset_file_name(t: Tier) -> (name: &'static str)
    ensures
        name@ == spec_asset_file_name(t),
{
    match t {
        Tier::Green => "lavalampe_green.png",
        Tier::Yellow => "lavalampe_yellow.png",
        Tier::Orange => "lavalampe_orange.png",
        Tier::Red => "lavalampe_red.png",
    }
}

pub open spec fn spec_fill_color(t: Tier) -> Pixel {
    match t {
        Tier::Green => Pixel { r: 0, g: 255, b: 0, a: 255 },
        Tier::Yellow => Pixel { r: 255, g: 255, b: 0, a: 255 },
        Tier::Orange => Pixel { r: 255, g: 165, b: 0, a: 255 },
        Tier::Red => Pixel { r: 255, g: 0, b: 0, a: 255 },
    }
}

/// The opaque solid color that stands for the tier when no sprite sheet
/// is available.
pub fn fill_color(t: Tier) -> (p: Pixel)
    ensures
        p == spec_fill_color(t),
{
    match t {
        Tier::Green => Pixel { r: 0, g: 255, b: 0, a: 255 },
        Tier::Yellow => Pixel { r: 255, g: 255, b: 0, a: 255 },
        Tier::Orange => Pixel { r: 255, g: 165, b: 0, a: 255 },
        Tier::Red => Pixel { r: 255, g: 0, b: 0, a: 255 },
    }
}

} // verus!

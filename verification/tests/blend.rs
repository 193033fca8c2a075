use ram_lavalampe::blend::blend;
use ram_lavalampe::Pixel;

#[test]
fn opaque_source_reproduces_source_channels() {
    let dst = Pixel { r: 10, g: 20, b: 30, a: 40 };
    let src = Pixel { r: 200, g: 100, b: 50, a: 255 };
    assert_eq!(blend(dst, src), Pixel { r: 200, g: 100, b: 50, a: 255 });
}

#[test]
fn transparent_source_reproduces_destination() {
    let dst = Pixel { r: 10, g: 20, b: 30, a: 40 };
    let src = Pixel { r: 200, g: 100, b: 50, a: 0 };
    assert_eq!(blend(dst, src), dst);
}

#[test]
fn half_alpha_over_black_halves_the_source_within_one() {
    let black = Pixel { r: 0, g: 0, b: 0, a: 255 };
    for c in 0u16..=255 {
        let c = c as u8;
        let src = Pixel { r: c, g: c, b: c, a: 128 };
        let out = blend(black, src);
        let half = c / 2;
        assert!(
            out.r >= half && out.r <= half + 1,
            "channel {} blended to {}, expected about {}",
            c,
            out.r,
            half
        );
    }
}

#[test]
fn half_alpha_over_black_exact_values() {
    let black = Pixel { r: 0, g: 0, b: 0, a: 255 };
    let src = Pixel { r: 100, g: 50, b: 255, a: 128 };
    let out = blend(black, src);
    // channel = channel * 128 / 255, truncated
    assert_eq!(out.r, 50);
    assert_eq!(out.g, 25);
    assert_eq!(out.b, 128);
    // alpha = (128 * 128 + 255 * 127) / 255, truncated
    assert_eq!(out.a, 191);
}

#[test]
fn partial_alpha_over_colored_destination() {
    let dst = Pixel { r: 10, g: 20, b: 30, a: 40 };
    let src = Pixel { r: 200, g: 100, b: 50, a: 100 };
    let out = blend(dst, src);
    // out = (src * 100 + dst * 155) / 255, truncated
    assert_eq!(out.r as u32, (200 * 100 + 10 * 155) / 255);
    assert_eq!(out.g as u32, (100 * 100 + 20 * 155) / 255);
    assert_eq!(out.b as u32, (50 * 100 + 30 * 155) / 255);
    assert_eq!(out.a as u32, (100 * 100 + 40 * 155) / 255);
    assert_eq!(out, Pixel { r: 84, g: 51, b: 37, a: 63 });
}

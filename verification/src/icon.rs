//! The indicator bitmap: a filled disc of one colour on a transparent
//! background.
//!
//! The tray icon is a 32 by 32 RGBA image. A pixel belongs to the disc when
//! its centre distance from the image centre is under the disc radius; disc
//! pixels carry the given colour fully opaque, the rest are fully
//! transparent. Turning the raw bytes into the toolkit's icon value is the
//! surrounding program's job.
use vstd::prelude::*;

verus! {

/// Width and height of the indicator bitmap, in pixels.
pub const ICON_SIDE: u32 = 32;

/// Whether the pixel at the given coordinates belongs to the disc: its
/// squared distance from the centre is under the squared radius of 14
/// (half the side less a 2-pixel margin). The comparison of squares says
/// the same as comparing the distance itself against 14, and needs no
/// square root.
pub open spec fn pixel_in_disc(x: int, y: int) -> bool {
    let dx = x - 16;
    let dy = y - 16;
    dx * dx + dy * dy < 196
}

/// The four bytes of one pixel: the given colour fully opaque on the disc,
/// fully transparent elsewhere.
pub open spec fn spec_pixel(x: int, y: int, r: u8, g: u8, b: u8) -> Seq<u8> {
    if pixel_in_disc(x, y) {
        seq![r, g, b, 255u8]
    } else {
        seq![0u8, 0u8, 0u8, 0u8]
    }
}

/// Whether the buffer holds the right bytes for the pixel at the given
/// coordinates, in row-major RGBA order.
pub open spec fn pixel_bytes_ok(v: Seq<u8>, x: int, y: int, r: u8, g: u8, b: u8) -> bool {
    let p = (y * 32 + x) * 4;
    v.subrange(p, p + 4) == spec_pixel(x, y, r, g, b)
}

/// The raw RGBA bytes of the indicator bitmap in the given colour: a filled
/// disc, row-major, four bytes per pixel.
pub fn generate_icon_rgba(r: u8, g: u8, b: u8) -> (v: Vec<u8>)
    ensures
        v@.len() == 4096,
        forall|y: int, x: int|
            0 <= y < 32 && 0 <= x < 32 ==> #[trigger] pixel_bytes_ok(v@, x, y, r, g, b),
{
    let mut v: Vec<u8> = Vec::new();
    let mut y: u32 = 0;
    while y < 32
        invariant
            0 <= y <= 32,
            v@.len() == y * 128,
            forall|yy: int, xx: int|
                0 <= yy < y && 0 <= xx < 32 ==> #[trigger] pixel_bytes_ok(v@, xx, yy, r, g, b),
        decreases 32 - y,
    {
        let mut x: u32 = 0;
        while x < 32
            invariant
                0 <= y < 32,
                0 <= x <= 32,
                v@.len() == y * 128 + x * 4,
                forall|yy: int, xx: int|
                    0 <= yy < y && 0 <= xx < 32 ==> #[trigger] pixel_bytes_ok(v@, xx, yy, r, g, b),
                forall|xx: int|
                    0 <= xx < x ==> #[trigger] pixel_bytes_ok(v@, xx, y as int, r, g, b),
            decreases 32 - x,
        {
            let ghost prev = v@;
            let dx: i32 = (x as i32) - 16;
            let dy: i32 = (y as i32) - 16;
            proof {
                assert(0 <= dx * dx <= 256) by (nonlinear_arith)
                    requires
                        -16 <= dx <= 16,
                ;
                assert(0 <= dy * dy <= 256) by (nonlinear_arith)
                    requires
                        -16 <= dy <= 16,
                ;
            }
            if dx * dx + dy * dy < 196 {
                v.push(r);
                v.push(g);
                v.push(b);
                v.push(255);
            } else {
                v.push(0);
                v.push(0);
                v.push(0);
                v.push(0);
            }
            proof {
                assert(v@.len() == prev.len() + 4);
                assert(v@.subrange(prev.len() as int, prev.len() + 4 as int) =~= spec_pixel(
                    x as int,
                    y as int,
                    r,
                    g,
                    b,
                ));
                assert(pixel_bytes_ok(v@, x as int, y as int, r, g, b));
                assert forall|yy: int, xx: int|
                    0 <= yy < y && 0 <= xx < 32 implies #[trigger] pixel_bytes_ok(
                    v@,
                    xx,
                    yy,
                    r,
                    g,
                    b,
                ) by {
                    assert(pixel_bytes_ok(prev, xx, yy, r, g, b));
                    assert((yy * 32 + xx) * 4 + 4 <= prev.len()) by (nonlinear_arith)
                        requires
                            0 <= yy < y,
                            0 <= xx < 32,
                            prev.len() == y * 128 + x * 4,
                            0 <= x,
                    ;
                    assert(v@.subrange((yy * 32 + xx) * 4, (yy * 32 + xx) * 4 + 4) =~= prev
                        .subrange((yy * 32 + xx) * 4, (yy * 32 + xx) * 4 + 4));
                }
                assert forall|xx: int| 0 <= xx < x implies #[trigger] pixel_bytes_ok(
                    v@,
                    xx,
                    y as int,
                    r,
                    g,
                    b,
                ) by {
                    assert(pixel_bytes_ok(prev, xx, y as int, r, g, b));
                    assert((y * 32 + xx) * 4 + 4 <= prev.len()) by (nonlinear_arith)
                        requires
                            0 <= xx < x,
                            prev.len() == y * 128 + x * 4,
                            0 <= y,
                    ;
                    assert(v@.subrange((y * 32 + xx) * 4, (y * 32 + xx) * 4 + 4) =~= prev
                        .subrange((y * 32 + xx) * 4, (y * 32 + xx) * 4 + 4));
                }
            }
            x = x + 1;
        }
        y = y + 1;
    }
    v
}

} // verus!

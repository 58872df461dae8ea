//! The two 32x32 RGBA tray icons (idle / recording), computed pixel by
//! pixel: a dark-grey disc with a light rim, and for recording a red dot.

use vstd::prelude::*;

verus! {

/// Icon side length in pixels.
pub const SIZE: u32 = 32;

/// Squared distance of pixel `(x, y)` from the icon's centre `(16, 16)`.
pub open spec fn dist_sq(x: int, y: int) -> int {
    (x - 16) * (x - 16) + (y - 16) * (y - 16)
}

/// The colour of pixel `(x, y)`: inside the disc of radius 14, the rim
/// (squared distance at least 12²) is light grey and the rest dark grey;
/// outside it is transparent; with a dot colour, the disc of radius 7 takes
/// that colour.
pub open spec fn pixel_spec(x: int, y: int, dot: Option<Seq<u8>>) -> Seq<u8> {
    let d = dist_sq(x, y);
    if dot is Some && d <= 49 {
        dot->0
    } else if d <= 196 {
        if d >= 144 {
            seq![110u8, 110u8, 116u8, 255u8]
        } else {
            seq![58u8, 58u8, 62u8, 255u8]
        }
    } else {
        seq![0u8, 0u8, 0u8, 0u8]
    }
}

/// The whole RGBA buffer, rows top to bottom, four bytes per pixel.
pub open spec fn icon_spec(dot: Option<Seq<u8>>) -> Seq<u8> {
    Seq::new(4096, |i: int| pixel_spec((i / 4) % 32, (i / 4) / 32, dot)[i % 4])
}

/// An optional colour as a byte sequence.
pub open spec fn color_view(dot: Option<[u8; 4]>) -> Option<Seq<u8>> {
    match dot {
        Some(c) => Some(c@),
        None => None,
    }
}

fn pixel(x: i32, y: i32, dot: Option<[u8; 4]>) -> (px: [u8; 4])
    requires
        0 <= x < 32,
        0 <= y < 32,
    ensures
        px@ == pixel_spec(x as int, y as int, color_view(dot)),
{
    let dx = x - 16;
    let dy = y - 16;
    assert(dx * dx <= 256) by (nonlinear_arith)
        requires
            -16 <= dx <= 15,
    ;
    assert(dy * dy <= 256) by (nonlinear_arith)
        requires
            -16 <= dy <= 15,
    ;
    assert(dx * dx >= 0 && dy * dy >= 0) by (nonlinear_arith);
    let d = dx * dx + dy * dy;
    let px: [u8; 4] = match dot {
        Some(c) if d <= 49 => c,
        _ => if d <= 196 {
            if d >= 144 {
                [110u8, 110, 116, 255]
            } else {
                [58u8, 58, 62, 255]
            }
        } else {
            [0u8, 0, 0, 0]
        },
    };
    assert(px@ =~= pixel_spec(x as int, y as int, color_view(dot)));
    px
}

proof fn lemma_index_split(x: int, y: int, k: int)
    requires
        0 <= x < 32,
        0 <= y < 32,
        0 <= k < 4,
    ensures
        (128 * y + 4 * x + k) / 4 == 32 * y + x,
        (128 * y + 4 * x + k) % 4 == k,
        (32 * y + x) % 32 == x,
        (32 * y + x) / 32 == y,
{
    assert((128 * y + 4 * x + k) / 4 == 32 * y + x) by (nonlinear_arith)
        requires
            0 <= x < 32,
            0 <= y < 32,
            0 <= k < 4,
    ;
    assert((128 * y + 4 * x + k) % 4 == k) by (nonlinear_arith)
        requires
            0 <= x < 32,
            0 <= y < 32,
            0 <= k < 4,
    ;
    assert((32 * y + x) % 32 == x) by (nonlinear_arith)
        requires
            0 <= x < 32,
            0 <= y < 32,
    ;
    assert((32 * y + x) / 32 == y) by (nonlinear_arith)
        requires
            0 <= x < 32,
            0 <= y < 32,
    ;
}

proof fn lemma_icon_byte(dot: Option<Seq<u8>>, x: int, y: int, k: int)
    requires
        0 <= x < 32,
        0 <= y < 32,
        0 <= k < 4,
    ensures
        icon_spec(dot)[128 * y + 4 * x + k] == pixel_spec(x, y, dot)[k],
{
    lemma_index_split(x, y, k);
}

/// Solid dark-gray round icon with a light border, and a dot of
/// `dot_color` in the middle when one is given.
pub fn build(dot_color: Option<[u8; 4]>) -> (buf: Vec<u8>)
    ensures
        buf@ == icon_spec(color_view(dot_color)),
        buf@.len() == SIZE * SIZE * 4,
{
    let ghost target = icon_spec(color_view(dot_color));
    let mut buf: Vec<u8> = Vec::new();
    let mut y: i32 = 0;
    while y < 32
        invariant
            0 <= y <= 32,
            target == icon_spec(color_view(dot_color)),
            buf@ == target.take(128 * y),
        decreases 32 - y,
    {
        let mut x: i32 = 0;
        while x < 32
            invariant
                0 <= y < 32,
                0 <= x <= 32,
                target == icon_spec(color_view(dot_color)),
                buf@ == target.take(128 * y + 4 * x),
            decreases 32 - x,
        {
            let px = pixel(x, y, dot_color);
            let ghost base = 128 * y + 4 * x;
            let ghost before = buf@;
            buf.push(px[0]);
            buf.push(px[1]);
            buf.push(px[2]);
            buf.push(px[3]);
            proof {
                lemma_icon_byte(color_view(dot_color), x as int, y as int, 0);
                lemma_icon_byte(color_view(dot_color), x as int, y as int, 1);
                lemma_icon_byte(color_view(dot_color), x as int, y as int, 2);
                lemma_icon_byte(color_view(dot_color), x as int, y as int, 3);
                assert(target.take(base + 4) =~= before.push(px@[0]).push(px@[1]).push(px@[2]).push(
                    px@[3],
                ));
            }
            x += 1;
        }
        y += 1;
    }
    assert(target.take(4096) =~= target);
    buf
}

/// The idle icon's pixels.
pub fn idle_rgba() -> (buf: Vec<u8>)
    ensures
        buf@ == icon_spec(None),
{
    build(None)
}

/// The recording icon's pixels: the idle icon with a red dot.
pub fn recording_rgba() -> (buf: Vec<u8>)
    ensures
        buf@ == icon_spec(Some(seq![220u8, 40u8, 40u8, 255u8])),
{
    let r = build(Some([220u8, 40, 40, 255]));
    assert(color_view(Some([220u8, 40, 40, 255])) == Some(seq![220u8, 40u8, 40u8, 255u8])) by {
        assert([220u8, 40, 40, 255]@ =~= seq![220u8, 40u8, 40u8, 255u8]);
    }
    r
}

/// Law: the recording icon differs from the idle icon only inside the dot
/// (squared distance at most 7² from the centre), where it is the dot's
/// colour.
pub proof fn law_recording_icon_is_idle_plus_dot(i: int, dot: Seq<u8>)
    requires
        0 <= i < 4096,
        dot.len() == 4,
    ensures
        dist_sq((i / 4) % 32, (i / 4) / 32) > 49 ==> icon_spec(Some(dot))[i] == icon_spec(None)[i],
        dist_sq((i / 4) % 32, (i / 4) / 32) <= 49 ==> icon_spec(Some(dot))[i] == dot[i % 4],
{
}

} // verus!

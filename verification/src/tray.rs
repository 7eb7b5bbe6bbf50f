//! The tray icon: a white rounded square with a dark dot, framed in the
//! colour of the state.
//!
//! Lengths are in half pixels, so that the middle of a pixel is a whole
//! number.

use vstd::prelude::*;

use crate::state::AppState;

verus! {

/// The width and height of the icon in pixels.
pub const SIZE: u32 = 32;

/// The width and height of the square.
pub const BOX_SIZE: i32 = 48;

/// The radius of its corners.
pub const BOX_RADIUS: i32 = 14;

/// The width of its frame.
pub const BORDER_WIDTH: i32 = 5;

/// The radius of the dot.
pub const DOT_RADIUS: i32 = 10;

/// The colour of a state.
pub open spec fn color_of(state: AppState) -> Seq<u8> {
    match state {
        AppState::Idle => seq![16u8, 185, 129],
        AppState::Recording => seq![239u8, 68, 68],
        AppState::Transcribing => seq![245u8, 158, 11],
        AppState::Injecting => seq![6u8, 182, 212],
        AppState::Error => seq![190u8, 18, 60],
    }
}

/// The colour of a state, red, green and blue.
pub fn state_color(state: AppState) -> (r: [u8; 3])
    ensures
        r@ == color_of(state),
{
    let r: [u8; 3] = match state {
        AppState::Idle => [16, 185, 129],
        AppState::Recording => [239, 68, 68],
        AppState::Transcribing => [245, 158, 11],
        AppState::Injecting => [6, 182, 212],
        AppState::Error => [190, 18, 60],
    };
    assert(r@ =~= color_of(state));
    r
}

/// The text of a state.
pub open spec fn tooltip_of(state: AppState) -> Seq<char> {
    match state {
        AppState::Idle => "8voice — Hazır"@,
        AppState::Recording => "8voice — Kayıt yapıyor…"@,
        AppState::Transcribing => "8voice — Metne çevriliyor…"@,
        AppState::Injecting => "8voice — Yazılıyor…"@,
        AppState::Error => "8voice — Hata"@,
    }
}

/// The text of a state.
pub fn tooltip_text(state: AppState) -> (r: &'static str)
    ensures
        r@ == tooltip_of(state),
{
    match state {
        AppState::Idle => "8voice — Hazır",
        AppState::Recording => "8voice — Kayıt yapıyor…",
        AppState::Transcribing => "8voice — Metne çevriliyor…",
        AppState::Injecting => "8voice — Yazılıyor…",
        AppState::Error => "8voice — Hata",
    }
}

pub open spec fn abs(n: int) -> int {
    if n < 0 {
        -n
    } else {
        n
    }
}

pub open spec fn max(a: int, b: int) -> int {
    if a < b {
        b
    } else {
        a
    }
}

/// Whether the point at `dx`, `dy` from the middle of a rounded square lies
/// more than `t` outside its edge; a negative `t` counts inwards. With `half`
/// half the square's width and `r` the radius of its corners, the signed
/// distance to the edge is the distance to the square without its rounding,
/// less `r`.
pub open spec fn beyond_edge(dx: int, dy: int, half: int, r: int, t: int) -> bool {
    let ex = abs(dx) - (half - r);
    let ey = abs(dy) - (half - r);
    if ex > 0 || ey > 0 {
        // the distance to the inner square is the root of this sum
        let squares = max(ex, 0) * max(ex, 0) + max(ey, 0) * max(ey, 0);
        r + t < 0 || squares > (r + t) * (r + t)
    } else {
        // inside the inner square the nearer side counts
        max(ex, ey) > r + t
    }
}

/// The colour and opacity of a pixel.
pub open spec fn pixel(state: AppState, x: int, y: int) -> Seq<u8> {
    // from the middle of the icon to the middle of the pixel
    let dx = 2 * x + 1 - 32;
    let dy = 2 * y + 1 - 32;
    if beyond_edge(dx, dy, 24, 14, 0) {
        seq![0u8, 0, 0, 0]
    } else if beyond_edge(dx, dy, 24, 14, -5) {
        color_of(state).push(255)
    } else if dx * dx + dy * dy <= 10 * 10 {
        seq![23u8, 23, 23, 255]
    } else {
        seq![255u8, 255, 255, 255]
    }
}

/// The icon of a state, row by row, four bytes for a pixel.
pub open spec fn icon_bytes(state: AppState) -> Seq<u8> {
    Seq::new(4 * 32 * 32, |i: int| pixel(state, (i / 4) % 32, (i / 4) / 32)[i % 4])
}

/// An icon: red, green, blue and opacity of each pixel, row by row.
#[derive(Debug)]
pub struct Icon {
    pub rgba: Vec<u8>,
    pub width: u32,
    pub height: u32,
}

fn abs_i32(n: i32) -> (r: i32)
    requires
        -1000 <= n <= 1000,
    ensures
        r == abs(n as int),
{
    if n < 0 {
        -n
    } else {
        n
    }
}

fn max_i32(a: i32, b: i32) -> (r: i32)
    ensures
        r == max(a as int, b as int),
{
    if a < b {
        b
    } else {
        a
    }
}

/// Whether a point lies more than `t` outside the edge of a rounded square.
fn rounded_rect_beyond(dx: i32, dy: i32, half: i32, r: i32, t: i32) -> (b: bool)
    requires
        -1000 <= dx <= 1000,
        -1000 <= dy <= 1000,
        0 <= r <= half <= 1000,
        -1000 <= t <= 1000,
    ensures
        b == beyond_edge(dx as int, dy as int, half as int, r as int, t as int),
{
    let ex: i32 = abs_i32(dx) - (half - r);
    let ey: i32 = abs_i32(dy) - (half - r);
    if ex > 0 || ey > 0 {
        let ox: i32 = max_i32(ex, 0);
        let oy: i32 = max_i32(ey, 0);
        let k: i32 = r + t;
        assert(0 <= ox * ox <= 1000 * 1000) by (nonlinear_arith)
            requires
                0 <= ox <= 1000,
        ;
        assert(0 <= oy * oy <= 1000 * 1000) by (nonlinear_arith)
            requires
                0 <= oy <= 1000,
        ;
        assert(0 <= k * k <= 2000 * 2000) by (nonlinear_arith)
            requires
                -2000 <= k <= 2000,
        ;
        k < 0 || ox * ox + oy * oy > k * k
    } else {
        max_i32(ex, ey) > r + t
    }
}

/// Appends one pixel.
fn push_pixel(out: &mut Vec<u8>, state: AppState, x: u32, y: u32)
    requires
        x < 32,
        y < 32,
    ensures
        final(out)@ == old(out)@ + pixel(state, x as int, y as int),
{
    let ghost before = out@;
    let dx: i32 = 2 * x as i32 + 1 - SIZE as i32;
    let dy: i32 = 2 * y as i32 + 1 - SIZE as i32;
    let color = state_color(state);
    assert(0 <= dx * dx <= 31 * 31) by (nonlinear_arith)
        requires
            -31 <= dx <= 31,
    ;
    assert(0 <= dy * dy <= 31 * 31) by (nonlinear_arith)
        requires
            -31 <= dy <= 31,
    ;
    let (r, g, b, a): (u8, u8, u8, u8) = if rounded_rect_beyond(
        dx,
        dy,
        BOX_SIZE / 2,
        BOX_RADIUS,
        0,
    ) {
        (0, 0, 0, 0)
    } else if rounded_rect_beyond(dx, dy, BOX_SIZE / 2, BOX_RADIUS, -BORDER_WIDTH) {
        (color[0], color[1], color[2], 255)
    } else if dx * dx + dy * dy <= DOT_RADIUS * DOT_RADIUS {
        (23, 23, 23, 255)
    } else {
        (255, 255, 255, 255)
    };
    out.push(r);
    out.push(g);
    out.push(b);
    out.push(a);
    assert(out@ =~= before + pixel(state, x as int, y as int));
}

/// The icon of a state.
pub fn render_icon(state: AppState) -> (r: Icon)
    ensures
        r.rgba@ == icon_bytes(state),
        r.width == SIZE,
        r.height == SIZE,
{
    let mut rgba: Vec<u8> = Vec::with_capacity(4096);
    assert(rgba@ =~= icon_bytes(state).take(0));
    for y in 0..SIZE
        invariant
            rgba@ == icon_bytes(state).take(4 * (32 * y)),
    {
        for x in 0..SIZE
            invariant
                y < 32,
                rgba@ == icon_bytes(state).take(4 * (32 * y + x)),
        {
            push_pixel(&mut rgba, state, x, y);
            proof {
                lemma_next_pixel(state, x as int, y as int);
            }
        }
    }
    assert(icon_bytes(state).take(4096) =~= icon_bytes(state));
    Icon { rgba, width: SIZE, height: SIZE }
}

/// The icon of the idle state.
pub fn idle_icon() -> (r: Icon)
    ensures
        r.rgba@ == icon_bytes(AppState::Idle),
        r.width == SIZE,
        r.height == SIZE,
{
    render_icon(AppState::Idle)
}

/// The icon up to a pixel, and that pixel, are the icon up to the next one.
proof fn lemma_next_pixel(state: AppState, x: int, y: int)
    requires
        0 <= x < 32,
        0 <= y < 32,
    ensures
        icon_bytes(state).take(4 * (32 * y + x)) + pixel(state, x, y) == icon_bytes(state).take(
            4 * (32 * y + x + 1),
        ),
{
    let n = 4 * (32 * y + x);
    let a = icon_bytes(state).take(n) + pixel(state, x, y);
    let b = icon_bytes(state).take(n + 4);
    assert(pixel(state, x, y).len() == 4);
    assert forall|i: int| 0 <= i < n + 4 implies #[trigger] a[i] == b[i] by {
        if i >= n {
            assert(i / 4 == 32 * y + x);
            assert((32 * y + x) % 32 == x && (32 * y + x) / 32 == y);
            assert(i % 4 == i - n);
        }
    }
    assert(a =~= b);
}

/// The icon tells the states apart: no two of them look the same.
pub proof fn law_states_look_different(a: AppState, b: AppState)
    requires
        a != b,
    ensures
        icon_bytes(a) != icon_bytes(b),
{
    // a pixel in the middle of the left side of the frame
    let i: int = 2064;
    assert(!beyond_edge(-23, 1, 24, 14, 0)) by (nonlinear_arith);
    assert(beyond_edge(-23, 1, 24, 14, -5)) by (nonlinear_arith);
    assert(pixel(a, 4, 16) == color_of(a).push(255));
    assert(pixel(b, 4, 16) == color_of(b).push(255));
    assert(icon_bytes(a)[i] == color_of(a)[0]);
    assert(icon_bytes(b)[i] == color_of(b)[0]);
    assert(color_of(a)[0] != color_of(b)[0]);
}

} // verus!

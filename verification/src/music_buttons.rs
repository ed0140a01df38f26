//! Widget arithmetic for the transport buttons and the timeline slider.
//!
//! The rendering shell draws on a pixel grid; everything it needs to decide
//! — where the pointer maps on the timeline, how wide the progress bar is,
//! which colour a button takes while the hover animation runs — is integer
//! arithmetic and is verified here.

use vstd::prelude::*;

verus! {

/// Drawing parameters shared by the transport buttons.
pub struct MusicButtons {
    pub width: u64,
    pub height: u64,
}

/// The timeline position that a pointer at `pointer_x` selects, on a slider
/// whose track starts at `min_x` and is `width` pixels wide: the offset into
/// the track, clamped to `[0, width]`, scaled linearly to `[0, total_sec]`.
pub open spec fn spec_slider_value(pointer_x: int, min_x: int, width: u64, total_sec: u64) -> int {
    let off = if pointer_x - min_x <= 0 {
        0
    } else if pointer_x - min_x >= width {
        width as int
    } else {
        pointer_x - min_x
    };
    (off * total_sec) / (width as int)
}

proof fn lemma_mul_u64_fits(a: int, b: int)
    by (nonlinear_arith)
    requires
        0 <= a < 0x1_0000_0000_0000_0000,
        0 <= b < 0x1_0000_0000_0000_0000,
    ensures
        a * b < 0x1_0000_0000_0000_0000_0000_0000_0000_0000,
{
}

proof fn lemma_mul_bounds(a: int, b: int, ca: int, cb: int)
    by (nonlinear_arith)
    requires
        0 <= a <= ca,
        0 <= b <= cb,
    ensures
        a * b <= ca * cb,
{
}

proof fn lemma_scale_le(off: int, total: int, width: int)
    by (nonlinear_arith)
    requires
        0 <= off <= width,
        0 < width,
        0 <= total,
    ensures
        0 <= (off * total) / width <= total,
        0 <= (total * off) / width <= total,
{
}

proof fn lemma_scale_full(total: int, width: int)
    by (nonlinear_arith)
    requires
        0 < width,
        0 <= total,
    ensures
        (width * total) / width == total,
{
}

impl MusicButtons {
    pub fn new() -> (b: MusicButtons)
        ensures
            b.width == 60,
            b.height == 25,
    {
        MusicButtons { width: 60, height: 25 }
    }

    /// The fixed size, in pixels, that each transport button asks for.
    pub fn desired_size(&self) -> (s: (u64, u64))
        ensures
            s == (self.width, self.height),
    {
        (self.width, self.height)
    }

    /// Maps a pointer position on the timeline slider to a playback second.
    /// A pointer at or left of the track start selects second 0; one at or
    /// right of the track end selects `total_sec`; in between the mapping is
    /// linear.
    pub fn slider_value_at(
        &self,
        pointer_x: i64,
        min_x: i64,
        width: u64,
        total_sec: u64,
    ) -> (sec: u64)
        requires
            width >= 1,
        ensures
            sec == spec_slider_value(pointer_x as int, min_x as int, width, total_sec),
            sec <= total_sec,
    {
        let diff: i128 = pointer_x as i128 - min_x as i128;
        let off: u64 = if diff <= 0 {
            0
        } else if diff >= width as i128 {
            width
        } else {
            diff as u64
        };
        proof {
            lemma_scale_le(off as int, total_sec as int, width as int);
            lemma_mul_u64_fits(off as int, total_sec as int);
        }
        let scaled: u128 = (off as u128) * (total_sec as u128) / (width as u128);
        scaled as u64
    }

    /// The background of a transport button this frame: the theme's active
    /// colour while the pointer holds the button down, otherwise the idle
    /// colour blended towards the hover colour by the hover fraction.
    pub fn button_background_color(&self, pressed: bool, active: Rgb, hover: HoverAnim) -> (c: Rgb)
        requires
            hover.value <= 1000,
        ensures
            pressed ==> c == active,
            !pressed ==> c == spec_lerp_color(spec_bg_idle(), spec_bg_hover(), hover.value, 1000),
    {
        if pressed {
            active
        } else {
            lerp_color(
                Rgb { r: 30, g: 30, b: 35 },
                Rgb { r: 45, g: 45, b: 50 },
                hover.value,
                1000,
            )
        }
    }

    /// The icon colour this frame: the theme's selection colour while the
    /// button is held down, otherwise the text colour blended towards the
    /// selection colour by the hover fraction.
    pub fn icon_color(&self, pressed: bool, text: Rgb, selection: Rgb, hover: HoverAnim) -> (c: Rgb)
        requires
            hover.value <= 1000,
        ensures
            pressed ==> c == selection,
            !pressed ==> c == spec_lerp_color(text, selection, hover.value, 1000),
    {
        if pressed {
            selection
        } else {
            lerp_color(text, selection, hover.value, 1000)
        }
    }

    /// How many pixels of the slider track are filled when playback stands
    /// at `current_sec` of `total_sec`: the same linear map as the pointer
    /// mapping, run in the other direction, clamped to the track.
    pub fn progress_width(&self, current_sec: u64, total_sec: u64, width: u64) -> (w: u64)
        ensures
            total_sec == 0 ==> w == 0,
            total_sec > 0 ==> w == (if current_sec >= total_sec {
                width as int
            } else {
                (current_sec * width) / (total_sec as int)
            }),
            w <= width,
    {
        if total_sec == 0 {
            0
        } else if current_sec >= total_sec {
            width
        } else {
            proof {
                lemma_scale_le(current_sec as int, width as int, total_sec as int);
                lemma_mul_u64_fits(current_sec as int, width as int);
            }
            ((current_sec as u128) * (width as u128) / (total_sec as u128)) as u64
        }
    }

    /// Renders a second count as the time label shown beside the slider.
    pub fn format_time(&self, seconds: u64) -> (r: String)
        ensures
            r@ == spec_format_time(seconds),
    {
        let h = seconds / 3600;
        let m = (seconds % 3600) / 60;
        let s = seconds % 60;
        let mut out = String::new();
        if h > 0 {
            push_decimal(&mut out, h);
            out.append(":");
            push_two_digits(&mut out, m);
            out.append(":");
            push_two_digits(&mut out, s);
        } else {
            push_decimal(&mut out, m);
            out.append(":");
            push_two_digits(&mut out, s);
        }
        proof {
            reveal_strlit(":");
            assert(out@ =~= spec_format_time(seconds));
        }
        out
    }
}

/// A colour on the theme's palette.
#[derive(Clone, Copy, PartialEq, Eq, Structural, Debug)]
pub struct Rgb {
    pub r: u8,
    pub g: u8,
    pub b: u8,
}

/// The idle background of a transport button.
pub open spec fn spec_bg_idle() -> Rgb {
    Rgb { r: 30, g: 30, b: 35 }
}

/// The fully hovered background of a transport button.
pub open spec fn spec_bg_hover() -> Rgb {
    Rgb { r: 45, g: 45, b: 50 }
}

/// One channel interpolated `num/den` of the way from `a` to `b`, rounding
/// the travelled distance down.
pub open spec fn spec_lerp_channel(a: u8, b: u8, num: u16, den: u16) -> int {
    if b >= a {
        a + ((b - a) * num) / (den as int)
    } else {
        a - ((a - b) * num) / (den as int)
    }
}

/// `a` and `b` blended channel by channel, `num/den` of the way.
pub open spec fn spec_lerp_color(a: Rgb, b: Rgb, num: u16, den: u16) -> Rgb {
    Rgb {
        r: spec_lerp_channel(a.r, b.r, num, den) as u8,
        g: spec_lerp_channel(a.g, b.g, num, den) as u8,
        b: spec_lerp_channel(a.b, b.b, num, den) as u8,
    }
}

fn lerp_channel(a: u8, b: u8, num: u16, den: u16) -> (c: u8)
    requires
        0 < den,
        num <= den,
    ensures
        c == spec_lerp_channel(a, b, num, den),
{
    if b >= a {
        let d: u32 = (b - a) as u32;
        proof {
            lemma_scale_le(num as int, d as int, den as int);
            lemma_mul_bounds(d as int, num as int, 255, 65535);
        }
        let step: u32 = d * (num as u32) / (den as u32);
        a + (step as u8)
    } else {
        let d: u32 = (a - b) as u32;
        proof {
            lemma_scale_le(num as int, d as int, den as int);
            lemma_mul_bounds(d as int, num as int, 255, 65535);
        }
        let step: u32 = d * (num as u32) / (den as u32);
        a - (step as u8)
    }
}

/// Blends two palette colours channel by channel; the blend runs `num/den`
/// of the way from `a` to `b`.
pub fn lerp_color(a: Rgb, b: Rgb, num: u16, den: u16) -> (c: Rgb)
    requires
        0 < den,
        num <= den,
    ensures
        c == spec_lerp_color(a, b, num, den),
{
    Rgb {
        r: lerp_channel(a.r, b.r, num, den),
        g: lerp_channel(a.g, b.g, num, den),
        b: lerp_channel(a.b, b.b, num, den),
    }
}

/// The hover animation of one widget: an explicit fraction in thousandths,
/// nudged a quarter of the remaining distance towards its target each frame.
#[derive(Clone, Copy, PartialEq, Eq, Structural, Debug)]
pub struct HoverAnim {
    pub value: u16,
}

/// One smoothing step of the hover fraction: a quarter of the remaining
/// distance, rounded up so the target is always reached.
pub open spec fn spec_anim_step(value: u16, hovered: bool) -> int {
    let target: int = if hovered {
        1000
    } else {
        0
    };
    if value < target {
        value + (target - value + 3) / 4
    } else {
        value - (value - target + 3) / 4
    }
}

impl HoverAnim {
    pub fn new() -> (a: HoverAnim)
        ensures
            a.value == 0,
    {
        HoverAnim { value: 0 }
    }

    /// Advances the animation one frame towards 1000 while the widget is
    /// hovered and towards 0 while it is not; each step covers a quarter of
    /// the remaining distance, so the fraction converges without ever
    /// overshooting.
    pub fn step(&mut self, hovered: bool)
        requires
            old(self).value <= 1000,
        ensures
            final(self).value == spec_anim_step(old(self).value, hovered),
            final(self).value <= 1000,
            hovered ==> final(self).value >= old(self).value,
            !hovered ==> final(self).value <= old(self).value,
    {
        if hovered {
            if self.value < 1000 {
                self.value = self.value + (1000 - self.value + 3) / 4;
            }
        } else {
            if self.value > 0 {
                self.value = self.value - (self.value + 3) / 4;
            }
        }
    }
}

/// The decimal digit `d` as a character.
pub open spec fn spec_digit_char(d: nat) -> char {
    if d == 0 {
        '0'
    } else if d == 1 {
        '1'
    } else if d == 2 {
        '2'
    } else if d == 3 {
        '3'
    } else if d == 4 {
        '4'
    } else if d == 5 {
        '5'
    } else if d == 6 {
        '6'
    } else if d == 7 {
        '7'
    } else if d == 8 {
        '8'
    } else {
        '9'
    }
}

/// The usual decimal rendering of `n`, without leading zeroes (except for 0
/// itself).
pub open spec fn spec_decimal(n: nat) -> Seq<char>
    decreases n,
{
    if n < 10 {
        seq![spec_digit_char(n)]
    } else {
        spec_decimal(n / 10) + seq![spec_digit_char(n % 10)]
    }
}

/// `n` rendered as exactly two digits, for the minute and second fields.
pub open spec fn spec_two_digits(n: nat) -> Seq<char> {
    seq![spec_digit_char(n / 10), spec_digit_char(n % 10)]
}

/// Seconds rendered as `H:MM:SS` when there is at least one whole hour, and
/// as `M:SS` otherwise.
pub open spec fn spec_format_time(seconds: u64) -> Seq<char> {
    let h = seconds as nat / 3600;
    let m = (seconds as nat % 3600) / 60;
    let s = seconds as nat % 60;
    if h > 0 {
        spec_decimal(h) + seq![':'] + spec_two_digits(m) + seq![':'] + spec_two_digits(s)
    } else {
        spec_decimal(m) + seq![':'] + spec_two_digits(s)
    }
}

fn digit_str(d: u64) -> (r: &'static str)
    requires
        d < 10,
    ensures
        r@ == seq![spec_digit_char(d as nat)],
{
    let r = match d {
        0 => "0",
        1 => "1",
        2 => "2",
        3 => "3",
        4 => "4",
        5 => "5",
        6 => "6",
        7 => "7",
        8 => "8",
        _ => "9",
    };
    proof {
        reveal_strlit("0");
        reveal_strlit("1");
        reveal_strlit("2");
        reveal_strlit("3");
        reveal_strlit("4");
        reveal_strlit("5");
        reveal_strlit("6");
        reveal_strlit("7");
        reveal_strlit("8");
        reveal_strlit("9");
        assert(r@ =~= seq![spec_digit_char(d as nat)]);
    }
    r
}

fn push_decimal(out: &mut String, n: u64)
    ensures
        final(out)@ == old(out)@ + spec_decimal(n as nat),
    decreases n,
{
    if n < 10 {
        out.append(digit_str(n));
        proof {
            assert(out@ =~= old(out)@ + spec_decimal(n as nat));
        }
    } else {
        push_decimal(out, n / 10);
        out.append(digit_str(n % 10));
        proof {
            assert(out@ =~= old(out)@ + spec_decimal(n as nat));
        }
    }
}

fn push_two_digits(out: &mut String, n: u64)
    requires
        n < 100,
    ensures
        final(out)@ == old(out)@ + spec_two_digits(n as nat),
{
    out.append(digit_str(n / 10));
    out.append(digit_str(n % 10));
    proof {
        assert(out@ =~= old(out)@ + spec_two_digits(n as nat));
    }
}

/// A drag to the left edge of the slider track selects second 0, and a drag
/// to its right edge (or beyond either edge) selects exactly `total_sec`.
pub proof fn lemma_slider_endpoints(pointer_x: int, min_x: int, width: u64, total_sec: u64)
    requires
        width >= 1,
    ensures
        pointer_x <= min_x ==> spec_slider_value(pointer_x, min_x, width, total_sec) == 0,
        pointer_x - min_x >= width ==> spec_slider_value(pointer_x, min_x, width, total_sec)
            == total_sec,
{
    if pointer_x - min_x >= width {
        lemma_scale_full(total_sec as int, width as int);
    }
}

} // verus!

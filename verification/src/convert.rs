//! Bit-exact conversion between integer-channel pixel memory formats.
//!
//! One pixel travels through a normalized intermediate: every channel is read
//! as a fraction of its type's maximum, the four `[R, G, B, A]` slots are
//! filled according to the source format's source definition (a missing alpha
//! reads as fully opaque), premultiplied sources are divided by alpha, and
//! each output channel is quantized to `round(value * max)` of the target's
//! channel type, saturating at the target maximum.  All of this is exact
//! rational arithmetic: `round(n / d)` with ties away from zero is computed
//! as `(2n + d) / (2d)` in integers, so the result is pinned bit for bit.
//!
//! A premultiplied pixel with alpha zero carries no color information; its
//! color channels convert to zero wherever the target is premultiplied, and
//! to zero or the target maximum (for a zero or nonzero stored channel)
//! where the target is straight.

use vstd::arithmetic::div_mod::{
    lemma_fundamental_div_mod, lemma_fundamental_div_mod_converse_div,
};
use vstd::prelude::*;

use crate::memory_format::{ChannelType, MemoryFormat, MemoryFormatInfo};

verus! {

/// Which source channel fills one of the `[R, G, B, A]` slots.
#[derive(Debug, Clone, Copy, PartialEq, Eq, Structural)]
pub enum Source {
    C0,
    C1,
    C2,
    C3,
    Opaque,
}

/// What one emitted channel of the target format carries.
#[derive(Debug, Clone, Copy, PartialEq, Eq, Structural)]
pub enum Target {
    R,
    G,
    B,
    A,
    RgbAvg,
}

/// Conversion failure: the source or target buffer does not fit the formats.
#[derive(Debug, Clone, Copy, PartialEq, Eq, Structural)]
pub enum ConvertError {
    /// The source buffer is not a whole number of channels, or holds fewer
    /// than one pixel.
    SizeError,
    /// The target buffer is too short for one pixel of the target format.
    TruncationError,
    /// The requested destination format cannot be produced.
    UnsupportedFormat,
}

/// `round(n / d)` with ties away from zero, for `n >= 0` and `d > 0`.
pub open spec fn spec_round_div(n: int, d: int) -> int {
    (2 * n + d) / (2 * d)
}

/// One channel value read from little-endian bytes: channel `i` of a pixel.
pub open spec fn spec_decode_channel(ct: ChannelType, bytes: Seq<u8>, i: int) -> int {
    if ct == ChannelType::U16 {
        bytes[2 * i] + 256 * bytes[2 * i + 1]
    } else {
        bytes[i] as int
    }
}

/// The little-endian bytes of one channel value.
pub open spec fn spec_encode_channel(ct: ChannelType, v: int) -> Seq<u8> {
    if ct == ChannelType::U16 {
        seq![(v % 256) as u8, (v / 256) as u8]
    } else {
        seq![v as u8]
    }
}

/// Defines from which channels to get the RGBA values, in the order
/// `(R, G, B, A)`.
pub open spec fn spec_source_definition(format: MemoryFormat) -> (Source, Source, Source, Source) {
    match format {
        MemoryFormat::B8g8r8a8Premultiplied | MemoryFormat::B8g8r8a8 => (
            Source::C2,
            Source::C1,
            Source::C0,
            Source::C3,
        ),
        MemoryFormat::A8r8g8b8Premultiplied | MemoryFormat::A8r8g8b8 => (
            Source::C1,
            Source::C2,
            Source::C3,
            Source::C0,
        ),
        MemoryFormat::R8g8b8a8Premultiplied
        | MemoryFormat::R8g8b8a8
        | MemoryFormat::R16g16b16a16Premultiplied
        | MemoryFormat::R16g16b16a16
        | MemoryFormat::R16g16b16a16Float
        | MemoryFormat::R32g32b32a32FloatPremultiplied
        | MemoryFormat::R32g32b32a32Float => (Source::C0, Source::C1, Source::C2, Source::C3),
        MemoryFormat::A8b8g8r8 => (Source::C3, Source::C2, Source::C1, Source::C0),
        MemoryFormat::R8g8b8
        | MemoryFormat::R16g16b16
        | MemoryFormat::R16g16b16Float
        | MemoryFormat::R32g32b32Float => (Source::C0, Source::C1, Source::C2, Source::Opaque),
        MemoryFormat::B8g8r8 => (Source::C2, Source::C1, Source::C0, Source::Opaque),
        MemoryFormat::G8a8Premultiplied
        | MemoryFormat::G8a8
        | MemoryFormat::G16a16Premultiplied
        | MemoryFormat::G16a16 => (Source::C0, Source::C0, Source::C0, Source::C1),
        MemoryFormat::G8 | MemoryFormat::G16 => (
            Source::C0,
            Source::C0,
            Source::C0,
            Source::Opaque,
        ),
    }
}

/// What each emitted channel of the format carries, one entry per channel.
pub open spec fn spec_target_definition(format: MemoryFormat) -> Seq<Target> {
    match format {
        MemoryFormat::B8g8r8a8Premultiplied | MemoryFormat::B8g8r8a8 => seq![
            Target::B,
            Target::G,
            Target::R,
            Target::A,
        ],
        MemoryFormat::A8r8g8b8Premultiplied | MemoryFormat::A8r8g8b8 => seq![
            Target::A,
            Target::R,
            Target::G,
            Target::B,
        ],
        MemoryFormat::R8g8b8a8Premultiplied
        | MemoryFormat::R8g8b8a8
        | MemoryFormat::R16g16b16a16Premultiplied
        | MemoryFormat::R16g16b16a16
        | MemoryFormat::R16g16b16a16Float
        | MemoryFormat::R32g32b32a32FloatPremultiplied
        | MemoryFormat::R32g32b32a32Float => seq![Target::R, Target::G, Target::B, Target::A],
        MemoryFormat::A8b8g8r8 => seq![Target::A, Target::B, Target::G, Target::R],
        MemoryFormat::R8g8b8
        | MemoryFormat::R16g16b16
        | MemoryFormat::R16g16b16Float
        | MemoryFormat::R32g32b32Float => seq![Target::R, Target::G, Target::B],
        MemoryFormat::B8g8r8 => seq![Target::B, Target::G, Target::R],
        MemoryFormat::G8a8Premultiplied
        | MemoryFormat::G8a8
        | MemoryFormat::G16a16Premultiplied
        | MemoryFormat::G16a16 => seq![Target::RgbAvg, Target::A],
        MemoryFormat::G8 | MemoryFormat::G16 => seq![Target::RgbAvg],
    }
}

/// Whether a slot selector only names channels the format has.
pub open spec fn spec_source_ok(d: Source, n_channels: int) -> bool {
    match d {
        Source::C0 => n_channels >= 1,
        Source::C1 => n_channels >= 2,
        Source::C2 => n_channels >= 3,
        Source::C3 => n_channels >= 4,
        Source::Opaque => true,
    }
}

/// The scaled value one slot selector reads from a pixel.
pub open spec fn spec_source_value(format: MemoryFormat, pix: Seq<u8>, d: Source) -> int {
    match d {
        Source::C0 => spec_decode_channel(format.spec_channel_type(), pix, 0),
        Source::C1 => spec_decode_channel(format.spec_channel_type(), pix, 1),
        Source::C2 => spec_decode_channel(format.spec_channel_type(), pix, 2),
        Source::C3 => spec_decode_channel(format.spec_channel_type(), pix, 3),
        Source::Opaque => format.spec_channel_max(),
    }
}

/// The `(R, G, B, A)` channel values of a pixel, each scaled to the source
/// format's channel maximum (alpha reads as the maximum when absent).
pub open spec fn spec_quad(format: MemoryFormat, pix: Seq<u8>) -> (int, int, int, int) {
    let (dr, dg, db, da) = spec_source_definition(format);
    (
        spec_source_value(format, pix, dr),
        spec_source_value(format, pix, dg),
        spec_source_value(format, pix, db),
        spec_source_value(format, pix, da),
    )
}

/// One converted color channel (R, G or B), given its stored source value
/// `s` and the stored source alpha `a`, both scaled to the source maximum.
pub open spec fn spec_color_out(f: MemoryFormat, g: MemoryFormat, s: int, a: int) -> int {
    let sm = f.spec_channel_max();
    let tm = g.spec_channel_max();
    if f.spec_is_premultiplied() {
        if g.spec_is_premultiplied() {
            if a == 0 {
                0
            } else {
                spec_round_div(s * tm, sm)
            }
        } else {
            if a == 0 {
                if s == 0 {
                    0
                } else {
                    tm
                }
            } else {
                if spec_round_div(s * tm, a) > tm {
                    tm
                } else {
                    spec_round_div(s * tm, a)
                }
            }
        }
    } else {
        if g.spec_is_premultiplied() {
            spec_round_div(s * a * tm, sm * sm)
        } else {
            spec_round_div(s * tm, sm)
        }
    }
}

/// The converted alpha channel.
pub open spec fn spec_alpha_out(f: MemoryFormat, g: MemoryFormat, a: int) -> int {
    spec_round_div(a * g.spec_channel_max(), f.spec_channel_max())
}

/// The converted gray channel: the average of the unpremultiplied R, G and B.
pub open spec fn spec_gray_out(
    f: MemoryFormat,
    g: MemoryFormat,
    s0: int,
    s1: int,
    s2: int,
    a: int,
) -> int {
    let sm = f.spec_channel_max();
    let tm = g.spec_channel_max();
    if f.spec_is_premultiplied() {
        if a == 0 {
            if s0 == 0 || s1 == 0 || s2 == 0 {
                0
            } else {
                tm
            }
        } else {
            if spec_round_div((s0 + s1 + s2) * tm, 3 * a) > tm {
                tm
            } else {
                spec_round_div((s0 + s1 + s2) * tm, 3 * a)
            }
        }
    } else {
        spec_round_div((s0 + s1 + s2) * tm, 3 * sm)
    }
}

/// The value of one emitted channel, from the source quad.
pub open spec fn spec_target_value_quad(
    f: MemoryFormat,
    g: MemoryFormat,
    q: (int, int, int, int),
    t: Target,
) -> int {
    match t {
        Target::R => spec_color_out(f, g, q.0, q.3),
        Target::G => spec_color_out(f, g, q.1, q.3),
        Target::B => spec_color_out(f, g, q.2, q.3),
        Target::A => spec_alpha_out(f, g, q.3),
        Target::RgbAvg => spec_gray_out(f, g, q.0, q.1, q.2, q.3),
    }
}

/// The value of one emitted channel, from the source pixel bytes.
pub open spec fn spec_target_value(
    f: MemoryFormat,
    g: MemoryFormat,
    pix: Seq<u8>,
    t: Target,
) -> int {
    spec_target_value_quad(f, g, spec_quad(f, pix), t)
}

/// The output bytes for a list of emitted channels.
pub open spec fn spec_transform_slots(
    f: MemoryFormat,
    pix: Seq<u8>,
    g: MemoryFormat,
    defs: Seq<Target>,
) -> Seq<u8>
    decreases defs.len(),
{
    if defs.len() == 0 {
        Seq::empty()
    } else {
        spec_encode_channel(g.spec_channel_type(), spec_target_value(f, g, pix, defs.first()))
            + spec_transform_slots(f, pix, g, defs.drop_first())
    }
}

/// The bytes of one pixel of format `f` converted to format `g`.
pub open spec fn spec_transform_pixel(f: MemoryFormat, pix: Seq<u8>, g: MemoryFormat) -> Seq<u8> {
    spec_transform_slots(f, pix, g, spec_target_definition(g))
}

/// A pixel occupies exactly channel count times channel size bytes.
pub proof fn lemma_layout(format: MemoryFormat)
    ensures
        format.spec_n_bytes() == format.spec_n_channels() * format.spec_channel_size(),
        1 <= format.spec_n_channels() <= 4,
        1 <= format.spec_channel_size() <= 4,
        1 <= format.spec_n_bytes() <= 16,
{
}

/// The source definition of a format only names channels the format has.
pub proof fn lemma_source_definition_ok(format: MemoryFormat)
    ensures
        spec_source_ok(spec_source_definition(format).0, format.spec_n_channels()),
        spec_source_ok(spec_source_definition(format).1, format.spec_n_channels()),
        spec_source_ok(spec_source_definition(format).2, format.spec_n_channels()),
        spec_source_ok(spec_source_definition(format).3, format.spec_n_channels()),
{
}

/// The target definition has one entry per channel of the format.
pub proof fn lemma_target_definition_len(format: MemoryFormat)
    ensures
        spec_target_definition(format).len() == format.spec_n_channels(),
{
}

proof fn lemma_round_div_bounds(n: int, d: int, m: int)
    requires
        d > 0,
        0 <= n,
        n <= d * m,
    ensures
        0 <= spec_round_div(n, d) <= m,
{
    let q = spec_round_div(n, d);
    lemma_fundamental_div_mod(2 * n + d, 2 * d);
    let r = (2 * n + d) % (2 * d);
    assert(0 <= q <= m) by (nonlinear_arith)
        requires
            2 * n + d == 2 * d * q + r,
            0 <= r < 2 * d,
            0 <= n,
            n <= d * m,
            d > 0,
    ;
}

/// Quantizing a value that is already a multiple of the denominator is exact.
pub proof fn lemma_round_div_exact(v: int, d: int)
    requires
        d > 0,
        0 <= v,
    ensures
        spec_round_div(v * d, d) == v,
{
    assert(2 * (v * d) + d == v * (2 * d) + d) by (nonlinear_arith);
    lemma_fundamental_div_mod_converse_div(2 * (v * d) + d, 2 * d, v, d);
}

/// Every emitted channel value lies between zero and the target maximum.
pub proof fn lemma_target_value_in_range(
    f: MemoryFormat,
    g: MemoryFormat,
    q: (int, int, int, int),
    t: Target,
)
    requires
        f.spec_is_integer(),
        g.spec_is_integer(),
        0 <= q.0 <= f.spec_channel_max(),
        0 <= q.1 <= f.spec_channel_max(),
        0 <= q.2 <= f.spec_channel_max(),
        0 <= q.3 <= f.spec_channel_max(),
    ensures
        0 <= spec_target_value_quad(f, g, q, t) <= g.spec_channel_max(),
{
    let sm = f.spec_channel_max();
    let tm = g.spec_channel_max();
    assert(sm == 0xff || sm == 0xffff);
    assert(tm == 0xff || tm == 0xffff);
    match t {
        Target::A => {
            assert(q.3 * tm <= sm * tm) by (nonlinear_arith)
                requires
                    0 <= q.3 <= sm,
                    0 <= tm,
            ;
            lemma_round_div_bounds(q.3 * tm, sm, tm);
        },
        Target::R | Target::G | Target::B => {
            let s = if t == Target::R {
                q.0
            } else if t == Target::G {
                q.1
            } else {
                q.2
            };
            let a = q.3;
            if f.spec_is_premultiplied() {
                if a != 0 {
                    if g.spec_is_premultiplied() {
                        assert(s * tm <= sm * tm) by (nonlinear_arith)
                            requires
                                0 <= s <= sm,
                                0 <= tm,
                        ;
                        lemma_round_div_bounds(s * tm, sm, tm);
                    } else {
                        assert(0 <= s * tm && s * tm <= a * (s * tm)) by (nonlinear_arith)
                            requires
                                0 <= s,
                                0 <= tm,
                                1 <= a,
                        ;
                        lemma_round_div_bounds(s * tm, a, s * tm);
                    }
                }
            } else {
                if g.spec_is_premultiplied() {
                    assert(s * a * tm <= sm * sm * tm) by (nonlinear_arith)
                        requires
                            0 <= s <= sm,
                            0 <= a <= sm,
                            0 <= tm,
                    ;
                    assert(sm * sm * tm == (sm * sm) * tm && 0 < sm * sm) by (nonlinear_arith)
                        requires
                            0 < sm,
                    ;
                    lemma_round_div_bounds(s * a * tm, sm * sm, tm);
                } else {
                    assert(s * tm <= sm * tm) by (nonlinear_arith)
                        requires
                            0 <= s <= sm,
                            0 <= tm,
                    ;
                    lemma_round_div_bounds(s * tm, sm, tm);
                }
            }
        },
        Target::RgbAvg => {
            let sum = q.0 + q.1 + q.2;
            if f.spec_is_premultiplied() {
                if q.3 != 0 {
                    assert(0 <= sum * tm && sum * tm <= (3 * q.3) * (sum * tm)) by (nonlinear_arith)
                        requires
                            0 <= sum,
                            0 <= tm,
                            1 <= q.3,
                    ;
                    lemma_round_div_bounds(sum * tm, 3 * q.3, sum * tm);
                }
            } else {
                assert(sum * tm <= (3 * sm) * tm) by (nonlinear_arith)
                    requires
                        0 <= sum <= 3 * sm,
                        0 <= tm,
                ;
                lemma_round_div_bounds(sum * tm, 3 * sm, tm);
            }
        },
    }
}

/// Appending one emitted channel extends the output bytes at the end.
proof fn lemma_slots_push(
    f: MemoryFormat,
    pix: Seq<u8>,
    g: MemoryFormat,
    defs: Seq<Target>,
    t: Target,
)
    ensures
        spec_transform_slots(f, pix, g, defs.push(t)) == spec_transform_slots(f, pix, g, defs)
            + spec_encode_channel(g.spec_channel_type(), spec_target_value(f, g, pix, t)),
    decreases defs.len(),
{
    if defs.len() == 0 {
        assert(defs.push(t).drop_first() =~= defs);
        assert(spec_transform_slots(f, pix, g, defs.push(t)) =~= spec_encode_channel(
            g.spec_channel_type(),
            spec_target_value(f, g, pix, t),
        ));
    } else {
        assert(defs.push(t).drop_first() =~= defs.drop_first().push(t));
        lemma_slots_push(f, pix, g, defs.drop_first(), t);
        assert(spec_transform_slots(f, pix, g, defs.push(t)) =~= spec_transform_slots(
            f,
            pix,
            g,
            defs,
        ) + spec_encode_channel(g.spec_channel_type(), spec_target_value(f, g, pix, t)));
    }
}

/// The output bytes for a list of emitted channels occupy one channel size
/// per entry.
pub proof fn lemma_slots_len(f: MemoryFormat, pix: Seq<u8>, g: MemoryFormat, defs: Seq<Target>)
    requires
        g.spec_is_integer(),
    ensures
        spec_transform_slots(f, pix, g, defs).len() == defs.len() * g.spec_channel_size(),
    decreases defs.len(),
{
    let cs = g.spec_channel_size();
    let n = defs.len() as int;
    if defs.len() == 0 {
        assert(0 * cs == 0) by (nonlinear_arith);
    } else {
        lemma_slots_len(f, pix, g, defs.drop_first());
        assert(spec_transform_slots(f, pix, g, defs).len() == cs + (n - 1) * cs);
        assert(cs + (n - 1) * cs == n * cs) by (nonlinear_arith);
    }
}

/// A converted pixel occupies exactly the target format's pixel size.
pub proof fn lemma_transform_pixel_len(f: MemoryFormat, pix: Seq<u8>, g: MemoryFormat)
    requires
        g.spec_is_integer(),
    ensures
        spec_transform_pixel(f, pix, g).len() == g.spec_n_bytes(),
{
    lemma_slots_len(f, pix, g, spec_target_definition(g));
    lemma_target_definition_len(g);
    lemma_layout(g);
}

fn channel_max(format: MemoryFormat) -> (r: u64)
    requires
        format.spec_is_integer(),
    ensures
        r as int == format.spec_channel_max(),
{
    if format.channel_type() == ChannelType::U8 {
        0xff
    } else {
        0xffff
    }
}

/// `round(n / d)` with ties away from zero, exactly.
fn round_div(n: u64, d: u64) -> (r: u64)
    requires
        d > 0,
        n <= 0x4000_0000_0000_0000,
        d <= 0x4000_0000_0000_0000,
    ensures
        r as int == spec_round_div(n as int, d as int),
{
    (2 * n + d) / (2 * d)
}

/// Defines from which channels to get the RGBA values.
///
/// The return value is in the order `(R, G, B, A)`.
fn source_definition(format: MemoryFormat) -> (r: (Source, Source, Source, Source))
    ensures
        r == spec_source_definition(format),
{
    match format {
        MemoryFormat::B8g8r8a8Premultiplied | MemoryFormat::B8g8r8a8 => (
            Source::C2,
            Source::C1,
            Source::C0,
            Source::C3,
        ),
        MemoryFormat::A8r8g8b8Premultiplied | MemoryFormat::A8r8g8b8 => (
            Source::C1,
            Source::C2,
            Source::C3,
            Source::C0,
        ),
        MemoryFormat::R8g8b8a8Premultiplied
        | MemoryFormat::R8g8b8a8
        | MemoryFormat::R16g16b16a16Premultiplied
        | MemoryFormat::R16g16b16a16
        | MemoryFormat::R16g16b16a16Float
        | MemoryFormat::R32g32b32a32FloatPremultiplied
        | MemoryFormat::R32g32b32a32Float => (Source::C0, Source::C1, Source::C2, Source::C3),
        MemoryFormat::A8b8g8r8 => (Source::C3, Source::C2, Source::C1, Source::C0),
        MemoryFormat::R8g8b8
        | MemoryFormat::R16g16b16
        | MemoryFormat::R16g16b16Float
        | MemoryFormat::R32g32b32Float => (Source::C0, Source::C1, Source::C2, Source::Opaque),
        MemoryFormat::B8g8r8 => (Source::C2, Source::C1, Source::C0, Source::Opaque),
        MemoryFormat::G8a8Premultiplied
        | MemoryFormat::G8a8
        | MemoryFormat::G16a16Premultiplied
        | MemoryFormat::G16a16 => (Source::C0, Source::C0, Source::C0, Source::C1),
        MemoryFormat::G8 | MemoryFormat::G16 => (
            Source::C0,
            Source::C0,
            Source::C0,
            Source::Opaque,
        ),
    }
}

/// What each emitted channel of the format carries.
fn target_definition(format: MemoryFormat) -> (r: Vec<Target>)
    ensures
        r@ == spec_target_definition(format),
{
    let r: Vec<Target> = match format {
        MemoryFormat::B8g8r8a8Premultiplied | MemoryFormat::B8g8r8a8 => {
            vec![Target::B, Target::G, Target::R, Target::A]
        },
        MemoryFormat::A8r8g8b8Premultiplied | MemoryFormat::A8r8g8b8 => {
            vec![Target::A, Target::R, Target::G, Target::B]
        },
        MemoryFormat::R8g8b8a8Premultiplied
        | MemoryFormat::R8g8b8a8
        | MemoryFormat::R16g16b16a16Premultiplied
        | MemoryFormat::R16g16b16a16
        | MemoryFormat::R16g16b16a16Float
        | MemoryFormat::R32g32b32a32FloatPremultiplied
        | MemoryFormat::R32g32b32a32Float => {
            vec![Target::R, Target::G, Target::B, Target::A]
        },
        MemoryFormat::A8b8g8r8 => {
            vec![Target::A, Target::B, Target::G, Target::R]
        },
        MemoryFormat::R8g8b8
        | MemoryFormat::R16g16b16
        | MemoryFormat::R16g16b16Float
        | MemoryFormat::R32g32b32Float => {
            vec![Target::R, Target::G, Target::B]
        },
        MemoryFormat::B8g8r8 => {
            vec![Target::B, Target::G, Target::R]
        },
        MemoryFormat::G8a8Premultiplied
        | MemoryFormat::G8a8
        | MemoryFormat::G16a16Premultiplied
        | MemoryFormat::G16a16 => {
            vec![Target::RgbAvg, Target::A]
        },
        MemoryFormat::G8 | MemoryFormat::G16 => {
            vec![Target::RgbAvg]
        },
    };
    proof {
        assert(r@ =~= spec_target_definition(format));
    }
    r
}

fn read_channel(format: MemoryFormat, src: &[u8], i: usize) -> (r: u16)
    requires
        format.spec_is_integer(),
        (i + 1) * format.spec_channel_size() <= src@.len(),
    ensures
        r as int == spec_decode_channel(format.spec_channel_type(), src@, i as int),
        r as int <= format.spec_channel_max(),
{
    if format.channel_type() == ChannelType::U8 {
        src[i] as u16
    } else {
        let len = src.len();
        proof {
            assert((i + 1) * 2 == 2 * i + 2) by (nonlinear_arith);
            assert(2 * i + 2 <= len);
        }
        (src[2 * i] as u16) + 256 * (src[2 * i + 1] as u16)
    }
}

fn read_source(format: MemoryFormat, src: &[u8], d: Source) -> (r: u16)
    requires
        format.spec_is_integer(),
        src@.len() >= format.spec_n_bytes(),
        spec_source_ok(d, format.spec_n_channels()),
    ensures
        r as int == spec_source_value(format, src@, d),
        r as int <= format.spec_channel_max(),
{
    proof {
        lemma_layout(format);
        let n = format.spec_n_channels();
        let cs = format.spec_channel_size();
        assert((n < 1 || 1 * cs <= n * cs) && (n < 2 || 2 * cs <= n * cs) && (n < 3 || 3 * cs <= n
            * cs) && (n < 4 || 4 * cs <= n * cs)) by (nonlinear_arith)
            requires
                cs >= 1,
        ;
    }
    match d {
        Source::C0 => read_channel(format, src, 0),
        Source::C1 => read_channel(format, src, 1),
        Source::C2 => read_channel(format, src, 2),
        Source::C3 => read_channel(format, src, 3),
        Source::Opaque => {
            if format.channel_type() == ChannelType::U8 {
                0xff
            } else {
                0xffff
            }
        },
    }
}

fn color_out(f: MemoryFormat, g: MemoryFormat, s: u16, a: u16) -> (r: u16)
    requires
        f.spec_is_integer(),
        g.spec_is_integer(),
        s as int <= f.spec_channel_max(),
        a as int <= f.spec_channel_max(),
    ensures
        r as int == spec_color_out(f, g, s as int, a as int),
        r as int <= g.spec_channel_max(),
{
    proof {
        lemma_target_value_in_range(f, g, (s as int, s as int, s as int, a as int), Target::R);
    }
    let sm: u64 = channel_max(f);
    let tm: u64 = channel_max(g);
    let s64: u64 = s as u64;
    let a64: u64 = a as u64;
    if f.is_premultiplied() {
        if g.is_premultiplied() {
            if a == 0 {
                0
            } else {
                round_div(s64 * tm, sm) as u16
            }
        } else {
            if a == 0 {
                if s == 0 {
                    0
                } else {
                    tm as u16
                }
            } else {
                let q = round_div(s64 * tm, a64);
                if q > tm {
                    tm as u16
                } else {
                    q as u16
                }
            }
        }
    } else {
        if g.is_premultiplied() {
            proof {
                assert(s64 * a64 * tm <= 0xffff * 0xffff * 0xffff && s64 * a64 * tm == (
                s as int) * (a as int) * (tm as int) && sm * sm <= 0xffff * 0xffff)
                    by (nonlinear_arith)
                    requires
                        s64 <= 0xffff,
                        a64 <= 0xffff,
                        tm <= 0xffff,
                        sm <= 0xffff,
                        s64 == s,
                        a64 == a,
                ;
            }
            round_div(s64 * a64 * tm, sm * sm) as u16
        } else {
            round_div(s64 * tm, sm) as u16
        }
    }
}

fn gray_out(f: MemoryFormat, g: MemoryFormat, s0: u16, s1: u16, s2: u16, a: u16) -> (r: u16)
    requires
        f.spec_is_integer(),
        g.spec_is_integer(),
        s0 as int <= f.spec_channel_max(),
        s1 as int <= f.spec_channel_max(),
        s2 as int <= f.spec_channel_max(),
        a as int <= f.spec_channel_max(),
    ensures
        r as int == spec_gray_out(f, g, s0 as int, s1 as int, s2 as int, a as int),
        r as int <= g.spec_channel_max(),
{
    proof {
        lemma_target_value_in_range(
            f,
            g,
            (s0 as int, s1 as int, s2 as int, a as int),
            Target::RgbAvg,
        );
    }
    let sm: u64 = channel_max(f);
    let tm: u64 = channel_max(g);
    let sum: u64 = s0 as u64 + s1 as u64 + s2 as u64;
    if f.is_premultiplied() {
        if a == 0 {
            if s0 == 0 || s1 == 0 || s2 == 0 {
                0
            } else {
                tm as u16
            }
        } else {
            proof {
                assert(sum * tm <= 0x3_0000 * 0xffff) by (nonlinear_arith)
                    requires
                        sum <= 0x2_fffd,
                        tm <= 0xffff,
                ;
            }
            let q = round_div(sum * tm, 3 * (a as u64));
            if q > tm {
                tm as u16
            } else {
                q as u16
            }
        }
    } else {
        proof {
            assert(sum * tm <= 0x3_0000 * 0xffff) by (nonlinear_arith)
                requires
                    sum <= 0x2_fffd,
                    tm <= 0xffff,
            ;
        }
        round_div(sum * tm, 3 * sm) as u16
    }
}

fn out_value(
    f: MemoryFormat,
    g: MemoryFormat,
    s0: u16,
    s1: u16,
    s2: u16,
    a: u16,
    t: Target,
) -> (r: u16)
    requires
        f.spec_is_integer(),
        g.spec_is_integer(),
        s0 as int <= f.spec_channel_max(),
        s1 as int <= f.spec_channel_max(),
        s2 as int <= f.spec_channel_max(),
        a as int <= f.spec_channel_max(),
    ensures
        r as int == spec_target_value_quad(
            f,
            g,
            (s0 as int, s1 as int, s2 as int, a as int),
            t,
        ),
        r as int <= g.spec_channel_max(),
{
    match t {
        Target::R => color_out(f, g, s0, a),
        Target::G => color_out(f, g, s1, a),
        Target::B => color_out(f, g, s2, a),
        Target::A => {
            proof {
                lemma_target_value_in_range(
                    f,
                    g,
                    (s0 as int, s1 as int, s2 as int, a as int),
                    Target::A,
                );
            }
            let sm: u64 = channel_max(f);
            let tm: u64 = channel_max(g);
            round_div((a as u64) * tm, sm) as u16
        },
        Target::RgbAvg => gray_out(f, g, s0, s1, s2, a),
    }
}

fn push_channel(format: MemoryFormat, v: u16, out: &mut Vec<u8>)
    requires
        format.spec_is_integer(),
        v as int <= format.spec_channel_max(),
    ensures
        final(out)@ == old(out)@ + spec_encode_channel(format.spec_channel_type(), v as int),
{
    if format.channel_type() == ChannelType::U8 {
        out.push(v as u8);
        assert(out@ =~= old(out)@ + spec_encode_channel(format.spec_channel_type(), v as int));
    } else {
        out.push((v % 256) as u8);
        out.push((v / 256) as u8);
        assert(out@ =~= old(out)@ + spec_encode_channel(format.spec_channel_type(), v as int));
    }
}

/// Convert one pixel of `src_format` (read from the start of `src`) into the
/// bytes of the same pixel in `target_format`.
pub fn convert_pixel(src_format: MemoryFormat, src: &[u8], target_format: MemoryFormat) -> (out:
    Vec<u8>)
    requires
        src_format.spec_is_integer(),
        target_format.spec_is_integer(),
        src@.len() >= src_format.spec_n_bytes(),
    ensures
        out@ == spec_transform_pixel(src_format, src@, target_format),
        out@.len() == target_format.spec_n_bytes(),
{
    proof {
        lemma_source_definition_ok(src_format);
        lemma_transform_pixel_len(src_format, src@, target_format);
    }
    let (dr, dg, db, da) = source_definition(src_format);
    let s0 = read_source(src_format, src, dr);
    let s1 = read_source(src_format, src, dg);
    let s2 = read_source(src_format, src, db);
    let a = read_source(src_format, src, da);
    let tdefs = target_definition(target_format);
    let mut out: Vec<u8> = Vec::new();
    let ghost gq = spec_quad(src_format, src@);
    proof {
        assert(gq == (s0 as int, s1 as int, s2 as int, a as int));
        assert(tdefs@.take(0) =~= Seq::<Target>::empty());
    }
    let n = tdefs.len();
    let mut j: usize = 0;
    while j < n
        invariant
            n == tdefs@.len(),
            j <= n,
            tdefs@ == spec_target_definition(target_format),
            src_format.spec_is_integer(),
            target_format.spec_is_integer(),
            s0 as int <= src_format.spec_channel_max(),
            s1 as int <= src_format.spec_channel_max(),
            s2 as int <= src_format.spec_channel_max(),
            a as int <= src_format.spec_channel_max(),
            (s0 as int, s1 as int, s2 as int, a as int) == spec_quad(src_format, src@),
            out@ == spec_transform_slots(src_format, src@, target_format, tdefs@.take(j as int)),
        decreases n - j,
    {
        let v = out_value(src_format, target_format, s0, s1, s2, a, tdefs[j]);
        push_channel(target_format, v, &mut out);
        proof {
            lemma_slots_push(src_format, src@, target_format, tdefs@.take(j as int), tdefs@[
                j as int]);
            assert(tdefs@.take(j + 1) =~= tdefs@.take(j as int).push(tdefs@[j as int]));
        }
        j += 1;
    }
    proof {
        assert(tdefs@.take(n as int) =~= tdefs@);
    }
    out
}

impl MemoryFormat {
    /// Convert the pixel at the start of `src` from `src_format` to
    /// `target_format`, writing its bytes over the start of `target`.
    ///
    /// Succeeds exactly when `src` is a whole number of channels holding at
    /// least one pixel and `target` has room for one target pixel; on an
    /// error the target buffer is untouched.
    pub fn transform(
        src_format: MemoryFormat,
        src: &Vec<u8>,
        target_format: MemoryFormat,
        target: &mut Vec<u8>,
    ) -> (r: Result<(), ConvertError>)
        requires
            src_format.spec_is_integer(),
            target_format.spec_is_integer(),
        ensures
            match r {
                Ok(()) => src@.len() as int % src_format.spec_channel_size() == 0 && src@.len()
                    >= src_format.spec_n_bytes() && old(target)@.len()
                    >= target_format.spec_n_bytes() && final(target)@ == spec_transform_pixel(
                    src_format,
                    src@,
                    target_format,
                ) + old(target)@.skip(target_format.spec_n_bytes()),
                Err(e) => final(target)@ == old(target)@ && (e == ConvertError::SizeError <==> (
                src@.len() as int % src_format.spec_channel_size() != 0 || src@.len()
                    < src_format.spec_n_bytes())) && (e == ConvertError::TruncationError ==> old(
                    target,
                )@.len() < target_format.spec_n_bytes()),
            },
            r is Err <==> (src@.len() as int % src_format.spec_channel_size() != 0 || src@.len()
                < src_format.spec_n_bytes() || old(target)@.len()
                < target_format.spec_n_bytes()),
    {
        let cs = src_format.channel_type().size();
        let sb = src_format.n_bytes().usize();
        let tb = target_format.n_bytes().usize();
        if src.len() % cs != 0 || src.len() < sb {
            return Err(ConvertError::SizeError);
        }
        if target.len() < tb {
            return Err(ConvertError::TruncationError);
        }
        let pix = convert_pixel(src_format, src.as_slice(), target_format);
        let mut i: usize = 0;
        while i < tb
            invariant
                i <= tb,
                tb == target_format.spec_n_bytes(),
                pix@.len() == tb,
                target@.len() == old(target)@.len(),
                old(target)@.len() >= tb,
                pix@ == spec_transform_pixel(src_format, src@, target_format),
                target@ == old(target)@.map(
                    |k: int, b: u8| if k < i { pix@[k] } else { b },
                ),
            decreases tb - i,
        {
            let b = pix[i];
            target.set(i, b);
            proof {
                assert(target@ =~= old(target)@.map(
                    |k: int, b: u8| if k < i + 1 { pix@[k] } else { b },
                ));
            }
            i += 1;
        }
        proof {
            assert(target@ =~= pix@ + old(target)@.skip(tb as int));
        }
        Ok(())
    }
}

} // verus!

verus! {

/// The stored bytes of pixel `p` (row-major order) in a strided buffer.
pub open spec fn spec_pixel_bytes(
    f: MemoryFormat,
    buf: Seq<u8>,
    stride: int,
    width: int,
    p: int,
) -> Seq<u8> {
    let row = p / width;
    let col = p % width;
    buf.subrange(
        row * stride + col * f.spec_n_bytes(),
        row * stride + (col + 1) * f.spec_n_bytes(),
    )
}

/// The first `n` pixels of a strided buffer, converted and tightly packed.
pub open spec fn spec_convert_pixels(
    f: MemoryFormat,
    buf: Seq<u8>,
    stride: int,
    width: int,
    g: MemoryFormat,
    n: int,
) -> Seq<u8>
    decreases n,
{
    if n <= 0 {
        Seq::empty()
    } else {
        spec_convert_pixels(f, buf, stride, width, g, n - 1) + spec_transform_pixel(
            f,
            spec_pixel_bytes(f, buf, stride, width, n - 1),
            g,
        )
    }
}

/// A converted buffer holds one target pixel per source pixel.
pub proof fn lemma_convert_pixels_len(
    f: MemoryFormat,
    buf: Seq<u8>,
    stride: int,
    width: int,
    g: MemoryFormat,
    n: int,
)
    requires
        g.spec_is_integer(),
        n >= 0,
    ensures
        spec_convert_pixels(f, buf, stride, width, g, n).len() == n * g.spec_n_bytes(),
    decreases n,
{
    if n == 0 {
        assert(0 * g.spec_n_bytes() == 0) by (nonlinear_arith);
    } else {
        lemma_convert_pixels_len(f, buf, stride, width, g, n - 1);
        lemma_transform_pixel_len(f, spec_pixel_bytes(f, buf, stride, width, n - 1), g);
        assert((n - 1) * g.spec_n_bytes() + g.spec_n_bytes() == n * g.spec_n_bytes())
            by (nonlinear_arith);
    }
}

/// Pixel `p` of the converted buffer is the conversion of source pixel `p`.
pub proof fn lemma_convert_pixels_index(
    f: MemoryFormat,
    buf: Seq<u8>,
    stride: int,
    width: int,
    g: MemoryFormat,
    n: int,
    p: int,
)
    requires
        g.spec_is_integer(),
        0 <= p < n,
    ensures
        spec_convert_pixels(f, buf, stride, width, g, n).subrange(
            p * g.spec_n_bytes(),
            (p + 1) * g.spec_n_bytes(),
        ) == spec_transform_pixel(f, spec_pixel_bytes(f, buf, stride, width, p), g),
    decreases n,
{
    let tb = g.spec_n_bytes();
    lemma_layout(g);
    lemma_convert_pixels_len(f, buf, stride, width, g, n - 1);
    lemma_transform_pixel_len(f, spec_pixel_bytes(f, buf, stride, width, n - 1), g);
    assert((n - 1) * tb + tb == n * tb) by (nonlinear_arith);
    assert(p * tb + tb == (p + 1) * tb) by (nonlinear_arith);
    assert(0 <= p * tb) by (nonlinear_arith)
        requires
            0 <= p,
            0 <= tb,
    ;
    if p == n - 1 {
        assert(spec_convert_pixels(f, buf, stride, width, g, n).subrange(p * tb, (p + 1) * tb)
            =~= spec_transform_pixel(f, spec_pixel_bytes(f, buf, stride, width, p), g));
    } else {
        lemma_convert_pixels_index(f, buf, stride, width, g, n - 1, p);
        assert(0 <= p * tb && (p + 1) * tb <= (n - 1) * tb) by (nonlinear_arith)
            requires
                0 <= p,
                p + 1 <= n - 1,
                tb >= 1,
        ;
        assert(spec_convert_pixels(f, buf, stride, width, g, n).subrange(p * tb, (p + 1) * tb)
            =~= spec_convert_pixels(f, buf, stride, width, g, n - 1).subrange(
            p * tb,
            (p + 1) * tb,
        ));
    }
}

/// Rewrite a strided pixel buffer into another memory format.
///
/// The result holds `width * height` converted pixels, tightly packed with
/// stride `width * n_bytes(target_format)` and no row padding.  Fails exactly
/// when the declared stride cannot hold a row, or the buffer is shorter than
/// `height` rows of `stride` bytes.
pub fn change_memory_format(
    src_format: MemoryFormat,
    buf: &Vec<u8>,
    width: u32,
    height: u32,
    stride: u32,
    target_format: MemoryFormat,
) -> (r: Result<Vec<u8>, ConvertError>)
    requires
        src_format.spec_is_integer(),
        target_format.spec_is_integer(),
        width * height * target_format.spec_n_bytes() <= usize::MAX,
    ensures
        r is Ok <==> (stride >= width * src_format.spec_n_bytes() && buf@.len() >= height
            * stride),
        (match r {
            Ok(out) => out@ == spec_convert_pixels(
                src_format,
                buf@,
                stride as int,
                width as int,
                target_format,
                width * height,
            ) && out@.len() == width * height * target_format.spec_n_bytes(),
            Err(e) => e == ConvertError::SizeError,
        }),
{
    let sb = src_format.n_bytes().usize();
    let tb = target_format.n_bytes().usize();
    proof {
        assert((height as int) * (stride as int) <= 0xffff_ffff * 0xffff_ffff && (width as int) * (
        sb as int) <= 0xffff_ffff * 16) by (nonlinear_arith)
            requires
                height as int <= 0xffff_ffff,
                stride as int <= 0xffff_ffff,
                width as int <= 0xffff_ffff,
                0 <= sb as int <= 16,
        ;
    }
    if (stride as u64) < (width as u64) * (sb as u64) {
        return Err(ConvertError::SizeError);
    }
    if (buf.len() as u64) < (height as u64) * (stride as u64) {
        return Err(ConvertError::SizeError);
    }
    let buflen = buf.len();
    let w = width as usize;
    let h = height as usize;
    let st = stride as usize;
    let mut out: Vec<u8> = Vec::new();
    let mut row: usize = 0;
    proof {
        lemma_convert_pixels_len(
            src_format,
            buf@,
            st as int,
            w as int,
            target_format,
            width as int * height as int,
        );
    }
    while row < h
        invariant
            src_format.spec_is_integer(),
            target_format.spec_is_integer(),
            w == width,
            h == height,
            st == stride,
            sb == src_format.spec_n_bytes(),
            tb == target_format.spec_n_bytes(),
            stride >= width * src_format.spec_n_bytes(),
            buf@.len() >= height * stride,
            buflen == buf@.len(),
            row <= h,
            out@ == spec_convert_pixels(
                src_format,
                buf@,
                st as int,
                w as int,
                target_format,
                row * w,
            ),
        decreases h - row,
    {
        let mut col: usize = 0;
        while col < w
            invariant
                src_format.spec_is_integer(),
                target_format.spec_is_integer(),
                w == width,
                h == height,
                st == stride,
                sb == src_format.spec_n_bytes(),
                tb == target_format.spec_n_bytes(),
                stride >= width * src_format.spec_n_bytes(),
                buf@.len() >= height * stride,
                buflen == buf@.len(),
                row < h,
                col <= w,
                out@ == spec_convert_pixels(
                    src_format,
                    buf@,
                    st as int,
                    w as int,
                    target_format,
                    row * w + col,
                ),
            decreases w - col,
        {
            proof {
                assert((col + 1) * sb <= w * sb && w * sb <= st && row * st + st <= h * st && row
                    * st >= 0 && col * sb >= 0 && row * st + (col + 1) * sb <= h * st)
                    by (nonlinear_arith)
                    requires
                        col + 1 <= w,
                        row + 1 <= h,
                        0 <= col,
                        0 <= row,
                        0 <= sb,
                        0 <= st,
                        w * sb <= st,
                ;
                assert(col * sb + sb == (col + 1) * sb) by (nonlinear_arith);
            }
            let off = row * st + col * sb;
            let pixslice = vstd::slice::slice_subrange(buf.as_slice(), off, off + sb);
            let mut pix = convert_pixel(src_format, pixslice, target_format);
            out.append(&mut pix);
            proof {
                let p = row * w + col;
                vstd::arithmetic::div_mod::lemma_fundamental_div_mod_converse_div(
                    p as int,
                    w as int,
                    row as int,
                    col as int,
                );
                vstd::arithmetic::div_mod::lemma_fundamental_div_mod_converse_mod(
                    p as int,
                    w as int,
                    row as int,
                    col as int,
                );
                assert(spec_pixel_bytes(src_format, buf@, st as int, w as int, p as int)
                    =~= pixslice@);
            }
            col += 1;
        }
        proof {
            assert(row * w + w == (row + 1) * w) by (nonlinear_arith);
        }
        row += 1;
    }
    proof {
        assert(h * w == (width as int) * (height as int)) by (nonlinear_arith)
            requires
                h as int == height as int,
                w as int == width as int,
        ;
    }
    Ok(out)
}

} // verus!

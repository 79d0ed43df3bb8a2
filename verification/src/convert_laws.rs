//! Laws of the pixel-format converter.
//!
//! The statements here relate several conversions: a conversion between
//! lossless-compatible formats can be undone, premultiplying and
//! unpremultiplying at full or zero alpha is the identity, and the gray
//! channel is the rounded average of red, green and blue.

use vstd::arithmetic::div_mod::{
    lemma_fundamental_div_mod, lemma_fundamental_div_mod_converse_div,
};
use vstd::prelude::*;

use crate::convert::{
    lemma_layout, lemma_round_div_exact, lemma_target_value_in_range, lemma_transform_pixel_len,
    spec_decode_channel, spec_encode_channel, spec_gray_out, spec_quad, spec_round_div,
    spec_source_definition, spec_source_value, spec_target_definition, spec_target_value,
    spec_transform_pixel, spec_transform_slots, Source, Target,
};
use crate::memory_format::{ChannelType, MemoryFormat, MemoryFormatInfo};

verus! {

/// Whether a format stores a single gray channel in place of red, green and
/// blue.
pub open spec fn spec_is_gray(format: MemoryFormat) -> bool {
    match format {
        MemoryFormat::G8a8Premultiplied
        | MemoryFormat::G8a8
        | MemoryFormat::G8
        | MemoryFormat::G16a16Premultiplied
        | MemoryFormat::G16a16
        | MemoryFormat::G16 => true,
        _ => false,
    }
}

/// Two formats between which a conversion loses nothing: they store their
/// channels in the same integer type with the same premultiplication, the
/// target keeps the source's alpha, a color target keeps the source's
/// colors (a gray source draws equal colors from its one gray channel), and
/// neither is a premultiplied gray format, whose stored gray channel is not
/// premultiplied on output.
pub open spec fn spec_lossless_pair(f: MemoryFormat, g: MemoryFormat) -> bool {
    &&& f.spec_is_integer()
    &&& g.spec_is_integer()
    &&& f.spec_channel_type() == g.spec_channel_type()
    &&& f.spec_is_premultiplied() == g.spec_is_premultiplied()
    &&& (f.spec_has_alpha() ==> g.spec_has_alpha())
    &&& (spec_is_gray(f) || !spec_is_gray(g))
    &&& (f.spec_is_premultiplied() ==> !spec_is_gray(f) && !spec_is_gray(g))
}

/// A premultiplied pixel that carries no information it cannot keep: when
/// its alpha is zero, its stored colors are zero too.  (A straight pixel
/// carries anything.)
pub open spec fn spec_premul_sane(f: MemoryFormat, pix: Seq<u8>) -> bool {
    f.spec_is_premultiplied() ==> {
        let q = spec_quad(f, pix);
        q.3 == 0 ==> q.0 == 0 && q.1 == 0 && q.2 == 0
    }
}

/// Quantization commutes with scaling numerator and denominator.
pub proof fn lemma_round_div_scale(n: int, d: int, k: int)
    requires
        d > 0,
        k > 0,
        0 <= n,
    ensures
        spec_round_div(n * k, d * k) == spec_round_div(n, d),
{
    let q = spec_round_div(n, d);
    lemma_fundamental_div_mod(2 * n + d, 2 * d);
    let r = (2 * n + d) % (2 * d);
    assert(2 * (n * k) + d * k == q * (2 * (d * k)) + r * k && 0 <= r * k && r * k < 2 * (d * k))
        by (nonlinear_arith)
        requires
            2 * n + d == 2 * d * q + r,
            0 <= r < 2 * d,
            k > 0,
    ;
    lemma_fundamental_div_mod_converse_div(2 * (n * k) + d * k, 2 * (d * k), q, r * k);
}

/// Converting one `R8g8b8` pixel `[r, g, b]` to `G8` yields the rounded
/// average `round((r + g + b) / 3)`.
pub proof fn lemma_grayscale_projection(r: u8, g: u8, b: u8)
    ensures
        spec_transform_pixel(MemoryFormat::R8g8b8, seq![r, g, b], MemoryFormat::G8) == seq![
            spec_round_div(r + g + b, 3) as u8,
        ],
{
    reveal_with_fuel(spec_transform_slots, 3);
    let pix: Seq<u8> = seq![r, g, b];
    let sum: int = r + g + b;
    assert(spec_gray_out(MemoryFormat::R8g8b8, MemoryFormat::G8, r as int, g as int, b as int, 255)
        == spec_round_div(sum * 255, 3int * 255));
    lemma_round_div_scale(sum, 3, 255);
    assert(spec_transform_pixel(MemoryFormat::R8g8b8, pix, MemoryFormat::G8) =~= seq![
        spec_round_div(sum, 3) as u8,
    ]);
}

/// Converting `R8g8b8a8` to `R8g8b8a8Premultiplied` and back is the
/// identity on every pixel whose alpha is 255, and on the fully transparent
/// zero pixel.  (At alpha zero with nonzero stored colors the
/// premultiplication step maps the colors to zero, so nothing can restore
/// them.)
pub proof fn lemma_premultiplication_identity(pix: Seq<u8>)
    requires
        pix.len() == 4,
        pix[3] == 255 || (pix[3] == 0 && pix[0] == 0 && pix[1] == 0 && pix[2] == 0),
    ensures
        spec_transform_pixel(
            MemoryFormat::R8g8b8a8Premultiplied,
            spec_transform_pixel(
                MemoryFormat::R8g8b8a8,
                pix,
                MemoryFormat::R8g8b8a8Premultiplied,
            ),
            MemoryFormat::R8g8b8a8,
        ) == pix,
{
    reveal_with_fuel(spec_transform_slots, 6);
    let f = MemoryFormat::R8g8b8a8;
    let g = MemoryFormat::R8g8b8a8Premultiplied;
    let mid = spec_transform_pixel(f, pix, g);
    if pix[3] == 255 {
        let s0 = pix[0] as int;
        let s1 = pix[1] as int;
        let s2 = pix[2] as int;
        assert(spec_round_div(255int * 255, 255) == 255) by {
            lemma_round_div_exact(255, 255);
        }
        assert(s0 * 255 * 255 == s0 * (255int * 255) && s1 * 255 * 255 == s1 * (255int * 255) && s2
            * 255 * 255 == s2 * (255int * 255)) by (nonlinear_arith);
        lemma_round_div_exact(s0, 255int * 255);
        lemma_round_div_exact(s1, 255int * 255);
        lemma_round_div_exact(s2, 255int * 255);
        assert(mid =~= pix);
        lemma_round_div_exact(s0, 255);
        lemma_round_div_exact(s1, 255);
        lemma_round_div_exact(s2, 255);
        assert(spec_transform_pixel(g, mid, f) =~= pix);
    } else {
        assert(spec_round_div(0, 255) == 0) by {
            lemma_round_div_exact(0, 255);
        }
        assert(spec_round_div(0, 255int * 255) == 0) by {
            lemma_round_div_exact(0, 255int * 255);
        }
        assert(mid =~= pix);
        assert(spec_transform_pixel(g, mid, f) =~= pix);
    }
}

/// Every channel value a pixel's quad reads is within the format's channel
/// maximum.
pub proof fn lemma_quad_bounds(f: MemoryFormat, pix: Seq<u8>)
    requires
        f.spec_is_integer(),
    ensures
        ({
            let q = spec_quad(f, pix);
            &&& 0 <= q.0 <= f.spec_channel_max()
            &&& 0 <= q.1 <= f.spec_channel_max()
            &&& 0 <= q.2 <= f.spec_channel_max()
            &&& 0 <= q.3 <= f.spec_channel_max()
        }),
{
}

/// Channel `j` of a converted pixel decodes to the value of the target
/// format's `j`-th emitted channel.
proof fn lemma_slots_decode(
    f: MemoryFormat,
    pix: Seq<u8>,
    g: MemoryFormat,
    defs: Seq<Target>,
    j: int,
)
    requires
        f.spec_is_integer(),
        g.spec_is_integer(),
        0 <= j < defs.len(),
        forall|t: Target|
            0 <= #[trigger] spec_target_value(f, g, pix, t) <= g.spec_channel_max(),
    ensures
        spec_decode_channel(g.spec_channel_type(), spec_transform_slots(f, pix, g, defs), j)
            == spec_target_value(f, g, pix, defs[j]),
    decreases j,
{
    let ct = g.spec_channel_type();
    let cs = g.spec_channel_size();
    let s = spec_transform_slots(f, pix, g, defs);
    let v0 = spec_target_value(f, g, pix, defs.first());
    let enc = spec_encode_channel(ct, v0);
    let rest = spec_transform_slots(f, pix, g, defs.drop_first());
    assert(s == enc + rest);
    crate::convert::lemma_slots_len(f, pix, g, defs);
    crate::convert::lemma_slots_len(f, pix, g, defs.drop_first());
    if j == 0 {
        if ct == ChannelType::U16 {
            lemma_fundamental_div_mod(v0, 256);
            assert(s[0] == (v0 % 256) as u8);
            assert(s[1] == (v0 / 256) as u8);
        } else {
            assert(s[0] == v0 as u8);
        }
    } else {
        lemma_slots_decode(f, pix, g, defs.drop_first(), j - 1);
        assert((j - 1) * cs + cs == j * cs && j * cs + cs == (j + 1) * cs && (j + 1) * cs
            <= defs.len() * cs && (j - 1) * cs >= 0) by (nonlinear_arith)
            requires
                1 <= j,
                j + 1 <= defs.len(),
                cs >= 1,
        ;
        if ct == ChannelType::U16 {
            assert(s[2 * j] == rest[2 * (j - 1)]);
            assert(s[2 * j + 1] == rest[2 * (j - 1) + 1]);
        } else {
            assert(s[j] == rest[j - 1]);
        }
        assert(defs.drop_first()[j - 1] == defs[j]);
    }
}

/// Whether slot selector `d` of a format reads the channel into which the
/// format emits `t`.
pub open spec fn spec_slot_points(h: MemoryFormat, d: Source, t: Target) -> bool {
    let td = spec_target_definition(h);
    match d {
        Source::C0 => td.len() > 0 && td[0] == t,
        Source::C1 => td.len() > 1 && td[1] == t,
        Source::C2 => td.len() > 2 && td[2] == t,
        Source::C3 => td.len() > 3 && td[3] == t,
        Source::Opaque => false,
    }
}

/// Each format reads its quad back from the channels it writes: the red,
/// green and blue slots read the channels that emit red, green and blue (or
/// the one gray channel, for a gray format), the alpha slot reads the
/// channel that emits alpha, and a format without alpha reads alpha as
/// opaque.  A gray format reads all three colors from its first channel.
pub proof fn lemma_source_slots(h: MemoryFormat)
    requires
        h.spec_is_integer(),
    ensures
        ({
            let (d0, d1, d2, d3) = spec_source_definition(h);
            &&& spec_slot_points(h, d0, if spec_is_gray(h) { Target::RgbAvg } else { Target::R })
            &&& spec_slot_points(h, d1, if spec_is_gray(h) { Target::RgbAvg } else { Target::G })
            &&& spec_slot_points(h, d2, if spec_is_gray(h) { Target::RgbAvg } else { Target::B })
            &&& (h.spec_has_alpha() ==> spec_slot_points(h, d3, Target::A))
            &&& (!h.spec_has_alpha() ==> d3 == Source::Opaque)
            &&& (spec_is_gray(h) ==> d0 == Source::C0 && d1 == Source::C0 && d2 == Source::C0)
        }),
{
    match h {
        MemoryFormat::B8g8r8a8Premultiplied | MemoryFormat::B8g8r8a8 => {
            assert(spec_target_definition(h) =~= seq![Target::B, Target::G, Target::R, Target::A]);
        },
        MemoryFormat::A8r8g8b8Premultiplied | MemoryFormat::A8r8g8b8 => {
            assert(spec_target_definition(h) =~= seq![Target::A, Target::R, Target::G, Target::B]);
        },
        MemoryFormat::R8g8b8a8Premultiplied
        | MemoryFormat::R8g8b8a8
        | MemoryFormat::R16g16b16a16Premultiplied
        | MemoryFormat::R16g16b16a16 => {
            assert(spec_target_definition(h) =~= seq![Target::R, Target::G, Target::B, Target::A]);
        },
        MemoryFormat::A8b8g8r8 => {
            assert(spec_target_definition(h) =~= seq![Target::A, Target::B, Target::G, Target::R]);
        },
        MemoryFormat::R8g8b8 | MemoryFormat::R16g16b16 => {
            assert(spec_target_definition(h) =~= seq![Target::R, Target::G, Target::B]);
        },
        MemoryFormat::B8g8r8 => {
            assert(spec_target_definition(h) =~= seq![Target::B, Target::G, Target::R]);
        },
        MemoryFormat::G8a8Premultiplied
        | MemoryFormat::G8a8
        | MemoryFormat::G16a16Premultiplied
        | MemoryFormat::G16a16 => {
            assert(spec_target_definition(h) =~= seq![Target::RgbAvg, Target::A]);
        },
        MemoryFormat::G8 | MemoryFormat::G16 => {
            assert(spec_target_definition(h) =~= seq![Target::RgbAvg]);
        },
        _ => {
            assert(false);
        },
    }
}

/// The quad component one emitted channel carries, when source and target
/// scale agree.
pub open spec fn spec_readback(t: Target, q: (int, int, int, int)) -> int {
    match t {
        Target::R => q.0,
        Target::G => q.1,
        Target::B => q.2,
        Target::A => q.3,
        Target::RgbAvg => q.0,
    }
}

/// Writing a pixel's quad through the format's own emitted channels
/// reproduces each stored channel.
proof fn lemma_write_reproduces(h: MemoryFormat, pix: Seq<u8>, j: int)
    requires
        h.spec_is_integer(),
        0 <= j < h.spec_n_channels(),
    ensures
        spec_readback(spec_target_definition(h)[j], spec_quad(h, pix)) == spec_decode_channel(
            h.spec_channel_type(),
            pix,
            j,
        ),
{
    match h {
        MemoryFormat::B8g8r8a8Premultiplied | MemoryFormat::B8g8r8a8 => {
            assert(spec_target_definition(h) =~= seq![Target::B, Target::G, Target::R, Target::A]);
        },
        MemoryFormat::A8r8g8b8Premultiplied | MemoryFormat::A8r8g8b8 => {
            assert(spec_target_definition(h) =~= seq![Target::A, Target::R, Target::G, Target::B]);
        },
        MemoryFormat::R8g8b8a8Premultiplied
        | MemoryFormat::R8g8b8a8
        | MemoryFormat::R16g16b16a16Premultiplied
        | MemoryFormat::R16g16b16a16 => {
            assert(spec_target_definition(h) =~= seq![Target::R, Target::G, Target::B, Target::A]);
        },
        MemoryFormat::A8b8g8r8 => {
            assert(spec_target_definition(h) =~= seq![Target::A, Target::B, Target::G, Target::R]);
        },
        MemoryFormat::R8g8b8 | MemoryFormat::R16g16b16 => {
            assert(spec_target_definition(h) =~= seq![Target::R, Target::G, Target::B]);
        },
        MemoryFormat::B8g8r8 => {
            assert(spec_target_definition(h) =~= seq![Target::B, Target::G, Target::R]);
        },
        MemoryFormat::G8a8Premultiplied
        | MemoryFormat::G8a8
        | MemoryFormat::G16a16Premultiplied
        | MemoryFormat::G16a16 => {
            assert(spec_target_definition(h) =~= seq![Target::RgbAvg, Target::A]);
        },
        MemoryFormat::G8 | MemoryFormat::G16 => {
            assert(spec_target_definition(h) =~= seq![Target::RgbAvg]);
        },
        _ => {
            assert(false);
        },
    }
}

/// Between formats of the same channel type and premultiplication, each
/// emitted channel carries its quad component unchanged.
proof fn lemma_values(f: MemoryFormat, g: MemoryFormat, pix: Seq<u8>, t: Target)
    requires
        f.spec_is_integer(),
        g.spec_is_integer(),
        f.spec_channel_type() == g.spec_channel_type(),
        f.spec_is_premultiplied() == g.spec_is_premultiplied(),
        spec_premul_sane(f, pix),
        t == Target::RgbAvg ==> !f.spec_is_premultiplied() && spec_quad(f, pix).0 == spec_quad(
            f,
            pix,
        ).1 && spec_quad(f, pix).1 == spec_quad(f, pix).2,
    ensures
        spec_target_value(f, g, pix, t) == spec_readback(t, spec_quad(f, pix)),
{
    let q = spec_quad(f, pix);
    let sm = f.spec_channel_max();
    lemma_quad_bounds(f, pix);
    match t {
        Target::A => {
            lemma_round_div_exact(q.3, sm);
        },
        Target::R | Target::G | Target::B => {
            let s = spec_readback(t, q);
            if f.spec_is_premultiplied() && q.3 == 0 {
            } else {
                lemma_round_div_exact(s, sm);
            }
        },
        Target::RgbAvg => {
            assert((q.0 + q.1 + q.2) * sm == q.0 * (3 * sm)) by (nonlinear_arith)
                requires
                    q.0 == q.1 && q.1 == q.2,
            ;
            lemma_round_div_exact(q.0, 3 * sm);
        },
    }
}

/// Two byte strings of `n` channels whose channels decode equally are equal.
proof fn lemma_decode_determines(ct: ChannelType, xs: Seq<u8>, ys: Seq<u8>, n: int)
    requires
        ct == ChannelType::U8 || ct == ChannelType::U16,
        n >= 0,
        xs.len() == n * ct.spec_size(),
        ys.len() == n * ct.spec_size(),
        forall|j: int|
            0 <= j < n ==> #[trigger] spec_decode_channel(ct, xs, j) == spec_decode_channel(
                ct,
                ys,
                j,
            ),
    ensures
        xs == ys,
{
    let cs = ct.spec_size();
    assert forall|k: int| 0 <= k < xs.len() implies xs[k] == ys[k] by {
        lemma_fundamental_div_mod(k, cs);
        let j = k / cs;
        let b = k % cs;
        assert(0 <= j && j < n) by (nonlinear_arith)
            requires
                k == cs * j + b,
                0 <= b < cs,
                0 <= k,
                k < n * cs,
                cs >= 1,
        ;
        assert(spec_decode_channel(ct, xs, j) == spec_decode_channel(ct, ys, j));
        if ct == ChannelType::U16 {
            assert(k == 2 * j || k == 2 * j + 1);
        } else {
            assert(k == j);
        }
    }
    assert(xs =~= ys);
}

/// Converting between two lossless-compatible formats and back is the
/// identity, bit for bit.  A premultiplied pixel must be sane: at alpha
/// zero its stored colors are zero, since the conversion cannot preserve
/// color under zero alpha.
pub proof fn lemma_format_round_trip(f: MemoryFormat, g: MemoryFormat, pix: Seq<u8>)
    requires
        spec_lossless_pair(f, g),
        pix.len() == f.spec_n_bytes(),
        spec_premul_sane(f, pix),
    ensures
        spec_transform_pixel(g, spec_transform_pixel(f, pix, g), f) == pix,
{
    let q = spec_quad(f, pix);
    let mid = spec_transform_pixel(f, pix, g);
    let back = spec_transform_pixel(g, mid, f);
    let ct = f.spec_channel_type();
    lemma_quad_bounds(f, pix);
    lemma_layout(f);
    lemma_layout(g);
    lemma_source_slots(f);
    lemma_source_slots(g);
    lemma_transform_pixel_len(f, pix, g);
    lemma_transform_pixel_len(g, mid, f);
    crate::convert::lemma_target_definition_len(f);
    crate::convert::lemma_target_definition_len(g);
    if spec_is_gray(f) {
        assert(q.0 == q.1 && q.1 == q.2);
    }
    assert forall|t: Target|
        0 <= #[trigger] spec_target_value(f, g, pix, t) <= g.spec_channel_max() by {
        lemma_target_value_in_range(f, g, q, t);
    }
    assert forall|i: int|
        0 <= i < g.spec_n_channels() implies #[trigger] spec_decode_channel(ct, mid, i)
        == spec_target_value(f, g, pix, spec_target_definition(g)[i]) by {
        lemma_slots_decode(f, pix, g, spec_target_definition(g), i);
    }
    // the quad read back from the converted pixel is the original quad
    let (e0, e1, e2, e3) = spec_source_definition(g);
    let role_r = if spec_is_gray(g) {
        Target::RgbAvg
    } else {
        Target::R
    };
    let role_g = if spec_is_gray(g) {
        Target::RgbAvg
    } else {
        Target::G
    };
    let role_b = if spec_is_gray(g) {
        Target::RgbAvg
    } else {
        Target::B
    };
    lemma_values(f, g, pix, role_r);
    lemma_values(f, g, pix, role_g);
    lemma_values(f, g, pix, role_b);
    lemma_values(f, g, pix, Target::A);
    assert(spec_source_value(g, mid, e0) == q.0);
    assert(spec_source_value(g, mid, e1) == q.1);
    assert(spec_source_value(g, mid, e2) == q.2);
    assert(spec_source_value(g, mid, e3) == q.3);
    assert(spec_quad(g, mid) == q);
    // values of the way back are in range as well
    assert forall|t: Target|
        0 <= #[trigger] spec_target_value(g, f, mid, t) <= f.spec_channel_max() by {
        lemma_target_value_in_range(g, f, q, t);
    }
    // each channel of the result decodes to the original channel
    assert forall|j: int|
        0 <= j < f.spec_n_channels() implies #[trigger] spec_decode_channel(ct, back, j)
        == spec_decode_channel(ct, pix, j) by {
        lemma_slots_decode(g, mid, f, spec_target_definition(f), j);
        lemma_values(g, f, mid, spec_target_definition(f)[j]);
        lemma_write_reproduces(f, pix, j);
    }
    lemma_decode_determines(ct, back, pix, f.spec_n_channels());
}

} // verus!

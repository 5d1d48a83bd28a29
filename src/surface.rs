use vstd::prelude::*;

use wgpu::TextureFormat;

verus! {

#[verifier::external_type_specification]
#[verifier::external_body]
pub struct ExTextureFormat(TextureFormat);

/// Relies on wgpu::TextureFormat::is_srgb: whether the format is one of the
/// sRGB-encoded ones.
#[verifier::external_body]
fn is_srgb(format: &TextureFormat) -> bool {
    format.is_srgb()
}

/// The configuration picked for a surface, as positions in the lists of
/// formats, present modes and alpha modes that the surface supports.
#[derive(Clone, Copy, Debug, PartialEq, Eq, Structural)]
pub struct SurfaceChoice {
    pub format: usize,
    pub present_mode: usize,
    pub alpha_mode: usize,
    pub width: u32,
    pub height: u32,
}

/// The format to use, given for each supported format whether it is
/// sRGB-encoded: the first sRGB one, or else the first one.
pub open spec fn preferred_format(srgb: Seq<bool>) -> int {
    if exists|i: int| 0 <= i < srgb.len() && srgb[i] {
        choose|i: int| 0 <= i < srgb.len() && srgb[i] && forall|j: int| 0 <= j < i ==> !srgb[j]
    } else {
        0
    }
}

/// The index of the first `true` in `srgb`, or `srgb.len()` if there is none.
fn first_srgb(srgb: &Vec<bool>) -> (k: usize)
    ensures
        k <= srgb@.len(),
        forall|j: int| 0 <= j < k ==> !srgb@[j],
        k < srgb@.len() ==> srgb@[k as int],
{
    let mut k: usize = 0;
    while k < srgb.len()
        invariant
            k <= srgb@.len(),
            forall|j: int| 0 <= j < k ==> !srgb@[j],
        decreases srgb@.len() - k,
    {
        if srgb[k] {
            return k;
        }
        k = k + 1;
    }
    k
}

/// Picks the configuration of a `width` by `height` surface: the preferred
/// format, and the first present mode and alpha mode offered. Returns `None`
/// when the surface offers no format, no present mode or no alpha mode.
pub fn choose_surface(srgb: &Vec<bool>, present_modes: usize, alpha_modes: usize, width: u32, height: u32)
    -> (r: Option<SurfaceChoice>)
    ensures
        r is None <==> (srgb@.len() == 0 || present_modes == 0 || alpha_modes == 0),
        r matches Some(c) ==> c == (SurfaceChoice {
            format: preferred_format(srgb@) as usize,
            present_mode: 0,
            alpha_mode: 0,
            width,
            height,
        }),
        r matches Some(c) ==> c.format < srgb@.len(),
{
    if srgb.len() == 0 || present_modes == 0 || alpha_modes == 0 {
        return None;
    }
    let k = first_srgb(srgb);
    let format = if k < srgb.len() {
        proof {
            let p = choose|i: int| 0 <= i < srgb@.len() && srgb@[i] && forall|j: int| 0 <= j < i ==> !srgb@[j];
            assert(0 <= k < srgb@.len() && srgb@[k as int] && forall|j: int| 0 <= j < k ==> !srgb@[j]);
            if p < k {
                assert(!srgb@[p]);
            } else if p > k {
                assert(!srgb@[k as int]);
            }
            assert(preferred_format(srgb@) == k);
        }
        k
    } else {
        assert(!exists|i: int| 0 <= i < srgb@.len() && srgb@[i]);
        0
    };
    Some(SurfaceChoice { format, present_mode: 0, alpha_mode: 0, width, height })
}

/// Whether each of `formats` is sRGB-encoded, in order.
pub fn srgb_flags(formats: &Vec<TextureFormat>) -> (flags: Vec<bool>)
    ensures
        flags@.len() == formats@.len(),
{
    let mut flags: Vec<bool> = Vec::new();
    let mut i: usize = 0;
    while i < formats.len()
        invariant
            i <= formats@.len(),
            flags@.len() == i,
        decreases formats@.len() - i,
    {
        flags.push(is_srgb(&formats[i]));
        i = i + 1;
    }
    flags
}

/// Picks the configuration of a `width` by `height` surface from the formats
/// it supports, in the surface's order: the first sRGB-encoded format, or
/// else the first format; and the first present mode and alpha mode offered.
/// Returns `None` when the surface offers no format, no present mode or no
/// alpha mode.
pub fn choose_surface_config(
    formats: &Vec<TextureFormat>,
    present_modes: usize,
    alpha_modes: usize,
    width: u32,
    height: u32,
) -> (r: Option<SurfaceChoice>)
    ensures
        r is None <==> (formats@.len() == 0 || present_modes == 0 || alpha_modes == 0),
        r matches Some(c) ==> exists|srgb: Seq<bool>|
            srgb.len() == formats@.len() && c == (SurfaceChoice {
                format: #[trigger] preferred_format(srgb) as usize,
                present_mode: 0,
                alpha_mode: 0,
                width,
                height,
            }),
        r matches Some(c) ==> c.format < formats@.len(),
{
    let flags = srgb_flags(formats);
    let r = choose_surface(&flags, present_modes, alpha_modes, width, height);
    proof {
        if r is Some {
            assert(flags@.len() == formats@.len());
            let _ = preferred_format(flags@);
        }
    }
    r
}

} // verus!

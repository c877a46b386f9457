//! Choice of the surface's presentation format.
use vstd::prelude::*;

verus! {

/// wgpu's `TextureFormat`, carried through unopened.
#[verifier::external_type_specification]
#[verifier::external_body]
pub struct ExTextureFormat(wgpu::TextureFormat);

/// Relies on wgpu's `TextureFormat::is_srgb`, which tells whether a format
/// is an sRGB (gamma-correcting) one. Nothing is assumed of its answer.
pub assume_specification[ wgpu::TextureFormat::is_srgb ](f: &wgpu::TextureFormat) -> bool;

/// The position of the format to present with, given which of the offered
/// formats are sRGB: the first sRGB one, else the first one; `None` when
/// nothing is offered.
pub fn pick_format_index(srgb: &Vec<bool>) -> (r: Option<usize>)
    ensures
        r is None <==> srgb@.len() == 0,
        r matches Some(i) ==> {
            &&& i < srgb@.len()
            &&& forall|j: int| 0 <= j < i ==> !srgb@[j]
            &&& srgb@[i as int] || (i == 0 && forall|j: int| 0 <= j < srgb@.len() ==> !srgb@[j])
        },
{
    let n = srgb.len();
    if n == 0 {
        return None;
    }
    let mut i: usize = 0;
    while i < n
        invariant
            n == srgb@.len(),
            i <= n,
            forall|j: int| 0 <= j < i ==> !srgb@[j],
        decreases n - i,
    {
        if srgb[i] {
            return Some(i);
        }
        i = i + 1;
    }
    Some(0)
}

/// The presentation format for a surface that offers `formats`, in the
/// order the surface lists them: the first sRGB one, else the first one;
/// `None` when nothing is offered.
pub fn select_format(formats: &Vec<wgpu::TextureFormat>) -> (r: Option<wgpu::TextureFormat>)
    ensures
        r is None <==> formats@.len() == 0,
        r matches Some(f) ==> exists|i: int| 0 <= i < formats@.len() && formats@[i] == f,
{
    let mut srgb: Vec<bool> = Vec::new();
    let mut k: usize = 0;
    while k < formats.len()
        invariant
            k <= formats@.len(),
            srgb@.len() == k,
        decreases formats@.len() - k,
    {
        srgb.push(formats[k].is_srgb());
        k = k + 1;
    }
    match pick_format_index(&srgb) {
        Some(i) => Some(formats[i]),
        None => None,
    }
}

} // verus!

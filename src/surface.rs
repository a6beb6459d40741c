use vstd::prelude::*;

verus! {

#[verifier::external_type_specification]
#[verifier::external_body]
pub struct ExTextureFormat(wgpu::TextureFormat);

#[verifier::external_type_specification]
#[verifier::external_body]
pub struct ExPresentMode(wgpu::PresentMode);

#[verifier::external_type_specification]
#[verifier::external_body]
pub struct ExCompositeAlphaMode(wgpu::CompositeAlphaMode);

/// Relies on wgpu's `TextureFormat::is_srgb`, which tells whether a format
/// stores colour sRGB-encoded. Nothing is assumed of its answer.
pub assume_specification[ wgpu::TextureFormat::is_srgb ](f: &wgpu::TextureFormat) -> bool;

/// The index of the preferred surface format, given for each supported
/// format whether it is sRGB: the first sRGB one, else the first one, and
/// none when nothing is supported.
pub fn first_srgb_or_first(srgb: &Vec<bool>) -> (r: Option<usize>)
    ensures
        r is Some <==> srgb@.len() > 0,
        r matches Some(i) ==> i < srgb@.len(),
        r matches Some(i) ==> (srgb@[i as int] && forall|j: int| 0 <= j < i ==> !#[trigger] srgb@[j])
            || (i == 0 && forall|j: int| 0 <= j < srgb@.len() ==> !#[trigger] srgb@[j]),
{
    let mut i: usize = 0;
    while i < srgb.len()
        invariant
            i <= srgb@.len(),
            forall|j: int| 0 <= j < i ==> !#[trigger] srgb@[j],
        decreases srgb@.len() - i,
    {
        if srgb[i] {
            return Some(i);
        }
        i = i + 1;
    }
    if srgb.len() > 0 {
        Some(0)
    } else {
        None
    }
}

/// The surface format to configure: the first sRGB one that the surface
/// supports, else the first supported one; none when the list is empty.
pub fn choose_surface_format(formats: &Vec<wgpu::TextureFormat>) -> (r: Option<wgpu::TextureFormat>)
    ensures
        r is Some <==> formats@.len() > 0,
        r matches Some(f) ==> exists|i: int| 0 <= i < formats@.len() && formats@[i] == f,
{
    let mut srgb: Vec<bool> = Vec::new();
    let mut i: usize = 0;
    while i < formats.len()
        invariant
            i <= formats@.len(),
            srgb@.len() == i,
        decreases formats@.len() - i,
    {
        srgb.push(formats[i].is_srgb());
        i = i + 1;
    }
    match first_srgb_or_first(&srgb) {
        Some(k) => Some(formats[k]),
        None => None,
    }
}

/// What the swapchain is configured with, besides its size.
pub struct SurfaceChoice {
    pub format: wgpu::TextureFormat,
    pub present_mode: wgpu::PresentMode,
    pub alpha_mode: wgpu::CompositeAlphaMode,
}

/// Picks the swapchain's format (see `choose_surface_format`), and the
/// first supported present mode and alpha mode. None when the surface
/// supports no format, no present mode or no alpha mode.
pub fn choose_surface(
    formats: &Vec<wgpu::TextureFormat>,
    present_modes: &Vec<wgpu::PresentMode>,
    alpha_modes: &Vec<wgpu::CompositeAlphaMode>,
) -> (r: Option<SurfaceChoice>)
    ensures
        r is Some <==> formats@.len() > 0 && present_modes@.len() > 0 && alpha_modes@.len() > 0,
        r matches Some(c) ==> (exists|i: int| 0 <= i < formats@.len() && formats@[i] == c.format)
            && c.present_mode == present_modes@[0] && c.alpha_mode == alpha_modes@[0],
{
    if present_modes.len() == 0 || alpha_modes.len() == 0 {
        return None;
    }
    match choose_surface_format(formats) {
        Some(format) => Some(
            SurfaceChoice { format, present_mode: present_modes[0], alpha_mode: alpha_modes[0] },
        ),
        None => None,
    }
}

} // verus!

//! Choice of the pixel format that the window surface is drawn in.
use vstd::prelude::*;

verus! {

/// A pixel format of the graphics library, carried through unread.
#[verifier::external_type_specification]
#[verifier::external_body]
pub struct ExTextureFormat(wgpu::TextureFormat);

/// The `srgb` flag of what `wgpu::TextureFormat::describe` says of `format`.
pub uninterp spec fn format_is_srgb(format: wgpu::TextureFormat) -> bool;

/// Calls `wgpu::TextureFormat::describe` and hands out the `srgb` flag of the
/// description. The flag comes from a fixed table with one row per format, so it
/// depends on `format` alone.
#[verifier::external_body]
fn is_srgb(format: wgpu::TextureFormat) -> (srgb: bool)
    ensures
        srgb == format_is_srgb(format),
{
    format.describe().srgb
}

/// `index` is the position of the first `true` in `flags`, or 0 if there is none.
pub open spec fn is_preferred(flags: Seq<bool>, index: int) -> bool {
    ||| {
        &&& 0 <= index < flags.len()
        &&& flags[index]
        &&& forall|i: int| 0 <= i < index ==> !#[trigger] flags[i]
    }
    ||| {
        &&& index == 0
        &&& forall|i: int| 0 <= i < flags.len() ==> !#[trigger] flags[i]
    }
}

/// The sRGB flag of each of `formats`.
pub open spec fn srgb_flags(formats: Seq<wgpu::TextureFormat>) -> Seq<bool> {
    formats.map_values(|format: wgpu::TextureFormat| format_is_srgb(format))
}

/// `format` is the first sRGB format on offer, or the first of all if none is sRGB.
pub open spec fn is_surface_format(
    formats: Seq<wgpu::TextureFormat>,
    format: wgpu::TextureFormat,
) -> bool {
    exists|index: int|
        #[trigger] is_preferred(srgb_flags(formats), index) && 0 <= index < formats.len()
            && format == formats[index]
}

/// The position of the format to take, given which of the offered ones are sRGB.
pub fn preferred_index(flags: &[bool]) -> (index: usize)
    ensures
        is_preferred(flags@, index as int),
        flags@.len() > 0 ==> index < flags@.len(),
        forall|i: int| 0 <= i < index ==> !#[trigger] flags@[i],
        (exists|i: int| 0 <= i < flags@.len() && #[trigger] flags@[i]) ==> flags@[index as int],
        !(exists|i: int| 0 <= i < flags@.len() && #[trigger] flags@[i]) ==> index == 0,
{
    let mut i: usize = 0;
    while i < flags.len()
        invariant
            0 <= i <= flags@.len(),
            forall|j: int| 0 <= j < i ==> !#[trigger] flags@[j],
        decreases flags@.len() - i,
    {
        if flags[i] {
            return i;
        }
        i = i + 1;
    }
    0
}

/// The format to configure a surface with, out of those that it offers: the first
/// sRGB one, or the first one if none is sRGB.
pub fn surface_format(formats: &[wgpu::TextureFormat]) -> (format: wgpu::TextureFormat)
    requires
        formats@.len() > 0,
    ensures
        is_surface_format(formats@, format),
        exists|index: int|
            0 <= index < formats@.len() && format == #[trigger] formats@[index] && (forall|i: int|
                0 <= i < index ==> !format_is_srgb(#[trigger] formats@[i])) && (format_is_srgb(
                format,
            ) || index == 0),
        !format_is_srgb(format) ==> format == formats@[0] && forall|i: int|
            0 <= i < formats@.len() ==> !format_is_srgb(#[trigger] formats@[i]),
{
    let mut flags: Vec<bool> = Vec::new();
    let mut i: usize = 0;
    while i < formats.len()
        invariant
            0 <= i <= formats@.len(),
            flags@ == srgb_flags(formats@.take(i as int)),
        decreases formats@.len() - i,
    {
        flags.push(is_srgb(formats[i]));
        i = i + 1;
        assert(flags@ =~= srgb_flags(formats@.take(i as int)));
    }
    assert(formats@.take(i as int) =~= formats@);
    let index = preferred_index(flags.as_slice());
    assert(0 <= index < formats@.len());
    proof {
        lemma_surface_format_is_the_first_srgb(formats@, formats@[index as int]);
    }
    formats[index]
}

/// A list of offers settles the surface's format: no two formats both fit it.
pub proof fn lemma_surface_format_is_unique(
    formats: Seq<wgpu::TextureFormat>,
    first: wgpu::TextureFormat,
    second: wgpu::TextureFormat,
)
    requires
        is_surface_format(formats, first),
        is_surface_format(formats, second),
    ensures
        first == second,
{
}

/// The format taken is one of those on offer, and it is sRGB whenever any of them is.
pub proof fn lemma_surface_format_is_srgb_if_offered(
    formats: Seq<wgpu::TextureFormat>,
    format: wgpu::TextureFormat,
)
    requires
        is_surface_format(formats, format),
    ensures
        formats.contains(format),
        (exists|i: int| 0 <= i < formats.len() && #[trigger] format_is_srgb(formats[i]))
            ==> format_is_srgb(format),
{
    let flags = srgb_flags(formats);
    let index = choose|index: int|
        #[trigger] is_preferred(flags, index) && 0 <= index < formats.len() && format
            == formats[index];
    if exists|i: int| 0 <= i < formats.len() && #[trigger] format_is_srgb(formats[i]) {
        let i = choose|i: int| 0 <= i < formats.len() && #[trigger] format_is_srgb(formats[i]);
        assert(flags[i]);
        assert(flags[index]);
    }
}

/// No offer before the one taken is sRGB; and if the one taken is not, then it is the first
/// of all, and none of the others is either.
pub proof fn lemma_surface_format_is_the_first_srgb(
    formats: Seq<wgpu::TextureFormat>,
    format: wgpu::TextureFormat,
)
    requires
        is_surface_format(formats, format),
    ensures
        exists|index: int|
            0 <= index < formats.len() && format == #[trigger] formats[index] && (forall|i: int|
                0 <= i < index ==> !format_is_srgb(#[trigger] formats[i])) && (format_is_srgb(
                format,
            ) || index == 0),
        !format_is_srgb(format) ==> format == formats[0] && forall|i: int|
            0 <= i < formats.len() ==> !format_is_srgb(#[trigger] formats[i]),
{
    let flags = srgb_flags(formats);
    let index = choose|index: int|
        #[trigger] is_preferred(flags, index) && 0 <= index < formats.len() && format
            == formats[index];
    assert(forall|i: int|
        0 <= i < formats.len() ==> #[trigger] flags[i] == format_is_srgb(formats[i]));
    assert forall|i: int| 0 <= i < index implies !format_is_srgb(#[trigger] formats[i]) by {
        assert(!flags[i]);
    }
    assert(format == formats[index]);
    if !format_is_srgb(format) {
        assert forall|i: int| 0 <= i < formats.len() implies !format_is_srgb(
            #[trigger] formats[i],
        ) by {
            assert(!flags[i]);
        }
    }
}

/// What is offered after an sRGB format changes nothing; and what is offered before it does
/// not either, as long as it is not sRGB.
pub proof fn lemma_first_srgb_is_taken_wherever_it_stands(
    before: Seq<wgpu::TextureFormat>,
    srgb: wgpu::TextureFormat,
    after: Seq<wgpu::TextureFormat>,
    format: wgpu::TextureFormat,
)
    requires
        forall|i: int| 0 <= i < before.len() ==> !format_is_srgb(#[trigger] before[i]),
        format_is_srgb(srgb),
        is_surface_format(before.push(srgb) + after, format),
    ensures
        format == srgb,
{
    let formats = before.push(srgb) + after;
    lemma_surface_format_is_the_first_srgb(formats, format);
    assert(formats[before.len() as int] == srgb);
    let index = choose|index: int|
        0 <= index < formats.len() && format == #[trigger] formats[index] && (forall|i: int|
            0 <= i < index ==> !format_is_srgb(#[trigger] formats[i])) && (format_is_srgb(format)
            || index == 0);
    assert(format_is_srgb(formats[before.len() as int]));
    if index < before.len() {
        assert(formats[index] == before[index]);
        assert(false);
    }
}

} // verus!

//! Device queries turned into choices: memory types, image formats, queue
//! families and device features.
use vstd::prelude::*;
use crate::vkconst::{
    ACCESS_NONE, ACCESS_SHADER_READ, ACCESS_TRANSFER_WRITE, FORMAT_D24_UNORM_S8_UINT, FORMAT_D32_SFLOAT, FORMAT_D32_SFLOAT_S8_UINT, FORMAT_FEATURE_DEPTH_STENCIL_ATTACHMENT, IMAGE_ASPECT_COLOR, IMAGE_LAYOUT_SHADER_READ_ONLY_OPTIMAL, IMAGE_LAYOUT_TRANSFER_DST_OPTIMAL, IMAGE_LAYOUT_UNDEFINED, IMAGE_TILING_LINEAR, IMAGE_TILING_OPTIMAL, IMAGE_TYPE_2D, IMAGE_VIEW_TYPE_2D, PIPELINE_STAGE_FRAGMENT_SHADER, PIPELINE_STAGE_TOP_OF_PIPE, PIPELINE_STAGE_TRANSFER, QUEUE_FAMILY_IGNORED, QUEUE_GRAPHICS, SAMPLE_COUNT_1, SHADER_STAGE_FRAGMENT, SHADER_STAGE_VERTEX, SHARING_MODE_EXCLUSIVE, VK_TRUE,
};
use crate::descs::{BufferCopyDesc, BufferDesc, BufferImageCopyDesc, Extent, ImageBarrierDesc, ImageDesc, ImageViewDesc, ShaderStageDesc, SubresourceRange};
use ash::vk::{Image, ShaderModule};

verus! {

/// Helpers that pick among what a physical device offers.
pub struct InternalVulkan;

/// The format features that a physical device reports for one format.
#[derive(Clone, Copy, Debug)]
pub struct FormatProperties {
    pub linear_tiling_features: u32,
    pub optimal_tiling_features: u32,
}

/// Memory type `i` of a device whose memory types have the property flags
/// `type_flags` may hold a resource that accepts the types in
/// `type_bits`, and it has every property in `properties`.
pub open spec fn memory_type_suitable(type_flags: Seq<u32>, type_bits: u32, properties: u32, i: int) -> bool {
    &&& 0 <= i < type_flags.len()
    &&& i < 32
    &&& type_bits & (1u32 << (i as u32)) != 0
    &&& type_flags[i] & properties == properties
}

/// A format with `props` offers `features` under `tiling`.
pub open spec fn format_supports(props: FormatProperties, tiling: i32, features: u32) -> bool {
    ||| tiling == IMAGE_TILING_LINEAR && props.linear_tiling_features & features == features
    ||| tiling == IMAGE_TILING_OPTIMAL && props.optimal_tiling_features & features == features
}

pub open spec fn format_suitable(props: Seq<FormatProperties>, tiling: i32, features: u32, i: int) -> bool {
    0 <= i < props.len() && format_supports(props[i], tiling, features)
}

/// `r` is the first of `formats` whose properties offer `features` under
/// `tiling`, or `None` when no format does.
pub open spec fn is_first_supported_format(
    formats: Seq<i32>,
    props: Seq<FormatProperties>,
    tiling: i32,
    features: u32,
    r: Option<i32>,
) -> bool {
    match r {
        Some(f) => exists|i: int|
            #![trigger formats[i]]
            0 <= i < formats.len() && formats[i] == f && format_suitable(props, tiling, features, i)
                && forall|j: int| 0 <= j < i ==> !format_suitable(props, tiling, features, j),
        None => forall|j: int| 0 <= j < formats.len() ==> !format_suitable(props, tiling, features, j),
    }
}

/// The features a format with `props` has under `tiling`: those of linear
/// tiling for linear tiling, those of optimal tiling otherwise.
pub open spec fn tiling_features(props: FormatProperties, tiling: i32) -> u32 {
    if tiling == IMAGE_TILING_LINEAR {
        props.linear_tiling_features
    } else {
        props.optimal_tiling_features
    }
}

/// The depth formats the renderer accepts, best first.
pub open spec fn depth_format_candidates_spec() -> Seq<i32> {
    seq![FORMAT_D32_SFLOAT, FORMAT_D32_SFLOAT_S8_UINT, FORMAT_D24_UNORM_S8_UINT]
}

/// Queue family `i` can draw and present to the surface.
pub open spec fn queue_family_suitable(queue_flags: Seq<u32>, surface_support: Seq<bool>, i: int) -> bool {
    &&& 0 <= i < queue_flags.len()
    &&& i < surface_support.len()
    &&& queue_flags[i] & QUEUE_GRAPHICS == QUEUE_GRAPHICS
    &&& surface_support[i]
}

/// `r` is the first queue family that can draw and present, or `None`.
pub open spec fn is_first_queue_family(queue_flags: Seq<u32>, surface_support: Seq<bool>, r: Option<u32>) -> bool {
    match r {
        Some(i) => queue_family_suitable(queue_flags, surface_support, i as int)
            && forall|j: int| 0 <= j < i ==> !queue_family_suitable(queue_flags, surface_support, j),
        None => forall|j: int| 0 <= j < queue_flags.len() ==> !queue_family_suitable(queue_flags, surface_support, j),
    }
}

/// The three features the renderer needs are all enabled.
pub open spec fn features_available(sampler_anisotropy: u32, runtime_descriptor_array: u32, non_uniform_indexing: u32) -> bool {
    sampler_anisotropy == VK_TRUE && runtime_descriptor_array == VK_TRUE && non_uniform_indexing == VK_TRUE
}

/// `f` has every bit of `p` exactly when no bit of `p` is missing from `f`.
proof fn lemma_contains_bits(f: u32, p: u32)
    ensures
        (f & p == p) == (p & !f == 0),
{
    assert((f & p == p) == (p & !f == 0)) by (bit_vector);
}

/// A bit of `p` that is one of the 32 single bits is in `f` when `f` has
/// all of `p`.
proof fn lemma_contained_bit(f: u32, p: u32, b: u32)
    requires
        f & p == p,
        b < 32,
        p & (1u32 << b) != 0,
    ensures
        f & (1u32 << b) != 0,
{
    assert(f & p == p && b < 32 && p & (1u32 << b) != 0 ==> f & (1u32 << b) != 0) by (bit_vector);
}

/// When each of the 32 bits of `p` is in `f`, `f` has all of `p`.
proof fn lemma_bits_cover(f: u32, p: u32)
    requires
        p & (1u32 << 0u32) != 0 ==> f & (1u32 << 0u32) != 0,
        p & (1u32 << 1u32) != 0 ==> f & (1u32 << 1u32) != 0,
        p & (1u32 << 2u32) != 0 ==> f & (1u32 << 2u32) != 0,
        p & (1u32 << 3u32) != 0 ==> f & (1u32 << 3u32) != 0,
        p & (1u32 << 4u32) != 0 ==> f & (1u32 << 4u32) != 0,
        p & (1u32 << 5u32) != 0 ==> f & (1u32 << 5u32) != 0,
        p & (1u32 << 6u32) != 0 ==> f & (1u32 << 6u32) != 0,
        p & (1u32 << 7u32) != 0 ==> f & (1u32 << 7u32) != 0,
        p & (1u32 << 8u32) != 0 ==> f & (1u32 << 8u32) != 0,
        p & (1u32 << 9u32) != 0 ==> f & (1u32 << 9u32) != 0,
        p & (1u32 << 10u32) != 0 ==> f & (1u32 << 10u32) != 0,
        p & (1u32 << 11u32) != 0 ==> f & (1u32 << 11u32) != 0,
        p & (1u32 << 12u32) != 0 ==> f & (1u32 << 12u32) != 0,
        p & (1u32 << 13u32) != 0 ==> f & (1u32 << 13u32) != 0,
        p & (1u32 << 14u32) != 0 ==> f & (1u32 << 14u32) != 0,
        p & (1u32 << 15u32) != 0 ==> f & (1u32 << 15u32) != 0,
        p & (1u32 << 16u32) != 0 ==> f & (1u32 << 16u32) != 0,
        p & (1u32 << 17u32) != 0 ==> f & (1u32 << 17u32) != 0,
        p & (1u32 << 18u32) != 0 ==> f & (1u32 << 18u32) != 0,
        p & (1u32 << 19u32) != 0 ==> f & (1u32 << 19u32) != 0,
        p & (1u32 << 20u32) != 0 ==> f & (1u32 << 20u32) != 0,
        p & (1u32 << 21u32) != 0 ==> f & (1u32 << 21u32) != 0,
        p & (1u32 << 22u32) != 0 ==> f & (1u32 << 22u32) != 0,
        p & (1u32 << 23u32) != 0 ==> f & (1u32 << 23u32) != 0,
        p & (1u32 << 24u32) != 0 ==> f & (1u32 << 24u32) != 0,
        p & (1u32 << 25u32) != 0 ==> f & (1u32 << 25u32) != 0,
        p & (1u32 << 26u32) != 0 ==> f & (1u32 << 26u32) != 0,
        p & (1u32 << 27u32) != 0 ==> f & (1u32 << 27u32) != 0,
        p & (1u32 << 28u32) != 0 ==> f & (1u32 << 28u32) != 0,
        p & (1u32 << 29u32) != 0 ==> f & (1u32 << 29u32) != 0,
        p & (1u32 << 30u32) != 0 ==> f & (1u32 << 30u32) != 0,
        p & (1u32 << 31u32) != 0 ==> f & (1u32 << 31u32) != 0,
    ensures
        f & p == p,
{
    assert(f & p == p) by (bit_vector)
        requires
            p & (1u32 << 0u32) != 0 ==> f & (1u32 << 0u32) != 0,
            p & (1u32 << 1u32) != 0 ==> f & (1u32 << 1u32) != 0,
            p & (1u32 << 2u32) != 0 ==> f & (1u32 << 2u32) != 0,
            p & (1u32 << 3u32) != 0 ==> f & (1u32 << 3u32) != 0,
            p & (1u32 << 4u32) != 0 ==> f & (1u32 << 4u32) != 0,
            p & (1u32 << 5u32) != 0 ==> f & (1u32 << 5u32) != 0,
            p & (1u32 << 6u32) != 0 ==> f & (1u32 << 6u32) != 0,
            p & (1u32 << 7u32) != 0 ==> f & (1u32 << 7u32) != 0,
            p & (1u32 << 8u32) != 0 ==> f & (1u32 << 8u32) != 0,
            p & (1u32 << 9u32) != 0 ==> f & (1u32 << 9u32) != 0,
            p & (1u32 << 10u32) != 0 ==> f & (1u32 << 10u32) != 0,
            p & (1u32 << 11u32) != 0 ==> f & (1u32 << 11u32) != 0,
            p & (1u32 << 12u32) != 0 ==> f & (1u32 << 12u32) != 0,
            p & (1u32 << 13u32) != 0 ==> f & (1u32 << 13u32) != 0,
            p & (1u32 << 14u32) != 0 ==> f & (1u32 << 14u32) != 0,
            p & (1u32 << 15u32) != 0 ==> f & (1u32 << 15u32) != 0,
            p & (1u32 << 16u32) != 0 ==> f & (1u32 << 16u32) != 0,
            p & (1u32 << 17u32) != 0 ==> f & (1u32 << 17u32) != 0,
            p & (1u32 << 18u32) != 0 ==> f & (1u32 << 18u32) != 0,
            p & (1u32 << 19u32) != 0 ==> f & (1u32 << 19u32) != 0,
            p & (1u32 << 20u32) != 0 ==> f & (1u32 << 20u32) != 0,
            p & (1u32 << 21u32) != 0 ==> f & (1u32 << 21u32) != 0,
            p & (1u32 << 22u32) != 0 ==> f & (1u32 << 22u32) != 0,
            p & (1u32 << 23u32) != 0 ==> f & (1u32 << 23u32) != 0,
            p & (1u32 << 24u32) != 0 ==> f & (1u32 << 24u32) != 0,
            p & (1u32 << 25u32) != 0 ==> f & (1u32 << 25u32) != 0,
            p & (1u32 << 26u32) != 0 ==> f & (1u32 << 26u32) != 0,
            p & (1u32 << 27u32) != 0 ==> f & (1u32 << 27u32) != 0,
            p & (1u32 << 28u32) != 0 ==> f & (1u32 << 28u32) != 0,
            p & (1u32 << 29u32) != 0 ==> f & (1u32 << 29u32) != 0,
            p & (1u32 << 30u32) != 0 ==> f & (1u32 << 30u32) != 0,
            p & (1u32 << 31u32) != 0 ==> f & (1u32 << 31u32) != 0,;
}

/// The bits of `p` are all in `f`, or some single bit of `p` is missing
/// from `f`.
proof fn lemma_missing_bit(f: u32, p: u32)
    requires
        f & p != p,
    ensures
        exists|b: u32| b < 32 && #[trigger] (p & (1u32 << b)) != 0 && f & (1u32 << b) == 0,
{
    if !(exists|b: u32| b < 32 && #[trigger] (p & (1u32 << b)) != 0 && f & (1u32 << b) == 0) {
        lemma_bits_cover(f, p);
    }
}

/// A memory type is chosen for `properties` only if the resource accepts
/// it and it has every requested property: each bit of `properties` is set
/// in the type's flags.
pub proof fn chosen_memory_type_has_every_property(type_flags: Seq<u32>, type_bits: u32, properties: u32, i: int, b: u32)
    requires
        memory_type_suitable(type_flags, type_bits, properties, i),
        b < 32,
        properties & (1u32 << b) != 0,
    ensures
        0 <= i < type_flags.len(),
        type_bits & (1u32 << (i as u32)) != 0,
        type_flags[i] & (1u32 << b) != 0,
{
    lemma_contained_bit(type_flags[i], properties, b);
}

/// A memory type that the resource accepts is passed over only when some
/// requested property bit is missing from its flags.
pub proof fn passed_over_memory_type_misses_a_property(type_flags: Seq<u32>, type_bits: u32, properties: u32, i: int)
    requires
        0 <= i < type_flags.len(),
        i < 32,
        type_bits & (1u32 << (i as u32)) != 0,
        !memory_type_suitable(type_flags, type_bits, properties, i),
    ensures
        exists|b: u32| b < 32 && #[trigger] (properties & (1u32 << b)) != 0 && type_flags[i] & (1u32 << b) == 0,
{
    lemma_missing_bit(type_flags[i], properties);
}

/// A format supports `features` under `tiling` only if the tiling is
/// linear or optimal and every requested feature bit is among that
/// tiling's features.
pub proof fn supported_format_has_every_feature(props: FormatProperties, tiling: i32, features: u32, b: u32)
    requires
        format_supports(props, tiling, features),
        b < 32,
        features & (1u32 << b) != 0,
    ensures
        tiling == IMAGE_TILING_LINEAR || tiling == IMAGE_TILING_OPTIMAL,
        tiling == IMAGE_TILING_LINEAR ==> props.linear_tiling_features & (1u32 << b) != 0,
        tiling == IMAGE_TILING_OPTIMAL ==> props.optimal_tiling_features & (1u32 << b) != 0,
{
    if tiling == IMAGE_TILING_LINEAR {
        lemma_contained_bit(props.linear_tiling_features, features, b);
    } else {
        lemma_contained_bit(props.optimal_tiling_features, features, b);
    }
}

/// Under optimal tiling, a format is passed over only when some requested
/// feature bit is missing from its optimal-tiling features (and likewise
/// for linear tiling).
pub proof fn unsupported_format_misses_a_feature(props: FormatProperties, tiling: i32, features: u32)
    requires
        tiling == IMAGE_TILING_LINEAR || tiling == IMAGE_TILING_OPTIMAL,
        !format_supports(props, tiling, features),
    ensures
        tiling == IMAGE_TILING_LINEAR ==> exists|b: u32|
            b < 32 && #[trigger] (features & (1u32 << b)) != 0 && props.linear_tiling_features & (1u32 << b) == 0,
        tiling == IMAGE_TILING_OPTIMAL ==> exists|b: u32|
            b < 32 && #[trigger] (features & (1u32 << b)) != 0 && props.optimal_tiling_features & (1u32 << b) == 0,
{
    if tiling == IMAGE_TILING_LINEAR {
        lemma_missing_bit(props.linear_tiling_features, features);
    } else {
        lemma_missing_bit(props.optimal_tiling_features, features);
    }
}

/// A queue family is chosen only if it has the graphics bit and can
/// present to the surface.
pub proof fn chosen_queue_family_draws_and_presents(queue_flags: Seq<u32>, surface_support: Seq<bool>, i: int)
    requires
        queue_family_suitable(queue_flags, surface_support, i),
    ensures
        0 <= i < queue_flags.len(),
        queue_flags[i] & 0x1u32 != 0,
        surface_support[i],
{
    let f = queue_flags[i];
    assert(f & 0x1u32 == 0x1u32 ==> f & 0x1u32 != 0) by (bit_vector);
}

/// A queue family is passed over only when it lacks the graphics bit or
/// cannot present to the surface.
pub proof fn passed_over_queue_family_cannot_draw_or_present(queue_flags: Seq<u32>, surface_support: Seq<bool>, i: int)
    requires
        0 <= i < queue_flags.len(),
        i < surface_support.len(),
        !queue_family_suitable(queue_flags, surface_support, i),
    ensures
        queue_flags[i] & 0x1u32 == 0 || !surface_support[i],
{
    let f = queue_flags[i];
    assert(f & 0x1u32 != 0x1u32 ==> f & 0x1u32 == 0) by (bit_vector);
}

impl InternalVulkan {
    /// The first memory type that the resource accepts and that has all of
    /// `properties`; `None` when there is none.
    pub fn find_memory_type(memory_type_flags: &Vec<u32>, memory_type_bits: u32, properties: u32) -> (r: Option<u32>)
        requires
            memory_type_flags.len() <= 32,
        ensures
            match r {
                Some(i) => memory_type_suitable(memory_type_flags@, memory_type_bits, properties, i as int)
                    && forall|j: int| 0 <= j < i ==> !memory_type_suitable(memory_type_flags@, memory_type_bits, properties, j),
                None => forall|j: int| !memory_type_suitable(memory_type_flags@, memory_type_bits, properties, j),
            },
            match r {
                Some(i) => (i as int) < memory_type_flags.len()
                    && memory_type_bits & (1u32 << i) != 0
                    && properties & !memory_type_flags@[i as int] == 0,
                None => true,
            },
            forall|j: int|
                0 <= j < (match r { Some(i) => i as int, None => memory_type_flags.len() as int })
                    && memory_type_bits & (1u32 << (j as u32)) != 0
                    ==> properties & !(#[trigger] memory_type_flags@[j]) != 0,
    {
        let count = memory_type_flags.len();
        let mut index: usize = 0;
        while index < count
            invariant
                count == memory_type_flags.len(),
                count <= 32,
                index <= count,
                forall|j: int| 0 <= j < index ==> !memory_type_suitable(memory_type_flags@, memory_type_bits, properties, j),
                forall|j: int| 0 <= j < index && memory_type_bits & (1u32 << (j as u32)) != 0
                    ==> properties & !(#[trigger] memory_type_flags@[j]) != 0,
            decreases count - index,
        {
            let bit: u32 = 1u32 << (index as u32);
            proof {
                lemma_contains_bits(memory_type_flags@[index as int], properties);
            }
            if memory_type_bits & bit != 0 && memory_type_flags[index] & properties == properties {
                return Some(index as u32);
            }
            index = index + 1;
        }
        None
    }

    /// The first of `formats` that offers `features` under `tiling`, where
    /// `properties[i]` are the properties the device reports for
    /// `formats[i]`; `None` when none does.
    pub fn find_supported_format(
        formats: &Vec<i32>,
        properties: &Vec<FormatProperties>,
        tiling: i32,
        features: u32,
    ) -> (r: Option<i32>)
        requires
            formats.len() == properties.len(),
        ensures
            is_first_supported_format(formats@, properties@, tiling, features, r),
            match r {
                Some(f) => (tiling == IMAGE_TILING_LINEAR || tiling == IMAGE_TILING_OPTIMAL)
                    && exists|i: int|
                        0 <= i < formats.len() && #[trigger] formats[i] == f
                            && features & !tiling_features(properties[i], tiling) == 0
                            && forall|j: int| 0 <= j < i
                                ==> features & !tiling_features(#[trigger] properties[j], tiling) != 0,
                None => (tiling == IMAGE_TILING_LINEAR || tiling == IMAGE_TILING_OPTIMAL) ==> forall|j: int|
                    0 <= j < formats.len() ==> features & !tiling_features(#[trigger] properties[j], tiling) != 0,
            },
    {
        let mut index: usize = 0;
        while index < formats.len()
            invariant
                formats.len() == properties.len(),
                index <= formats.len(),
                forall|j: int| 0 <= j < index ==> !format_suitable(properties@, tiling, features, j),
                (tiling == IMAGE_TILING_LINEAR || tiling == IMAGE_TILING_OPTIMAL) ==> forall|j: int|
                    0 <= j < index ==> features & !tiling_features(#[trigger] properties[j], tiling) != 0,
            decreases formats.len() - index,
        {
            let props = properties[index];
            proof {
                lemma_contains_bits(props.linear_tiling_features, features);
                lemma_contains_bits(props.optimal_tiling_features, features);
            }
            if tiling == IMAGE_TILING_LINEAR && props.linear_tiling_features & features == features {
                assert(format_suitable(properties@, tiling, features, index as int));
                return Some(formats[index]);
            }
            if tiling == IMAGE_TILING_OPTIMAL && props.optimal_tiling_features & features == features {
                assert(format_suitable(properties@, tiling, features, index as int));
                return Some(formats[index]);
            }
            index = index + 1;
        }
        None
    }

    /// The depth formats that `find_depth_format` tries, in order.
    pub fn depth_format_candidates() -> (r: Vec<i32>)
        ensures
            r@ == depth_format_candidates_spec(),
    {
        let r = vec![FORMAT_D32_SFLOAT, FORMAT_D32_SFLOAT_S8_UINT, FORMAT_D24_UNORM_S8_UINT];
        assert(r@ == depth_format_candidates_spec());
        r
    }

    /// The first depth format, among `depth_format_candidates`, that can be
    /// a depth attachment of an optimally tiled image; `properties[i]` are
    /// the device's properties for candidate `i`.
    pub fn find_depth_format(properties: &Vec<FormatProperties>) -> (r: Option<i32>)
        requires
            properties.len() == 3,
        ensures
            is_first_supported_format(
                depth_format_candidates_spec(),
                properties@,
                IMAGE_TILING_OPTIMAL,
                FORMAT_FEATURE_DEPTH_STENCIL_ATTACHMENT,
                r,
            ),
            match r {
                Some(f) => exists|i: int|
                    0 <= i < 3 && #[trigger] depth_format_candidates_spec()[i] == f
                        && FORMAT_FEATURE_DEPTH_STENCIL_ATTACHMENT & !properties[i].optimal_tiling_features == 0
                        && forall|j: int| 0 <= j < i
                            ==> FORMAT_FEATURE_DEPTH_STENCIL_ATTACHMENT & !(#[trigger] properties[j]).optimal_tiling_features != 0,
                None => forall|j: int| 0 <= j < 3
                    ==> FORMAT_FEATURE_DEPTH_STENCIL_ATTACHMENT & !(#[trigger] properties[j]).optimal_tiling_features != 0,
            },
    {
        let formats = Self::depth_format_candidates();
        Self::find_supported_format(&formats, properties, IMAGE_TILING_OPTIMAL, FORMAT_FEATURE_DEPTH_STENCIL_ATTACHMENT)
    }

    /// The first queue family that supports graphics and can present to the
    /// surface, where `queue_flags[i]` are the flags of family `i` and
    /// `surface_support[i]` says whether it can present.
    pub fn get_queue_family_index(queue_flags: &Vec<u32>, surface_support: &Vec<bool>) -> (r: Option<u32>)
        requires
            queue_flags.len() == surface_support.len(),
            queue_flags.len() <= u32::MAX,
        ensures
            is_first_queue_family(queue_flags@, surface_support@, r),
            match r {
                Some(i) => (i as int) < queue_flags.len() && queue_flags[i as int] & 0x1u32 != 0
                    && surface_support[i as int],
                None => true,
            },
            forall|j: int|
                0 <= j < (match r { Some(i) => i as int, None => queue_flags.len() as int })
                    ==> (#[trigger] queue_flags[j]) & 0x1u32 == 0 || !surface_support[j],
    {
        let mut index: usize = 0;
        while index < queue_flags.len()
            invariant
                queue_flags.len() == surface_support.len(),
                queue_flags.len() <= u32::MAX,
                index <= queue_flags.len(),
                forall|j: int| 0 <= j < index ==> !queue_family_suitable(queue_flags@, surface_support@, j),
                forall|j: int| 0 <= j < index ==> (#[trigger] queue_flags[j]) & 0x1u32 == 0 || !surface_support[j],
            decreases queue_flags.len() - index,
        {
            let flags = queue_flags[index];
            assert((flags & 0x1u32 == 0x1u32) == (flags & 0x1u32 != 0)) by (bit_vector);
            if queue_flags[index] & QUEUE_GRAPHICS == QUEUE_GRAPHICS && surface_support[index] {
                return Some(index as u32);
            }
            index = index + 1;
        }
        None
    }

    /// Whether sampler anisotropy, runtime descriptor arrays and non-uniform
    /// indexing of sampled image arrays are all available (each given as
    /// the `VkBool32` the device reports).
    pub fn device_features_available(
        sampler_anisotropy: u32,
        runtime_descriptor_array: u32,
        shader_sampled_image_array_non_uniform_indexing: u32,
    ) -> (r: bool)
        ensures
            r == features_available(sampler_anisotropy, runtime_descriptor_array, shader_sampled_image_array_non_uniform_indexing),
    {
        sampler_anisotropy == VK_TRUE && runtime_descriptor_array == VK_TRUE
            && shader_sampled_image_array_non_uniform_indexing == VK_TRUE
    }

    /// The create info of a single-level, single-layer 2D image with one
    /// sample per pixel, owned by one queue family and starting out with
    /// undefined contents.
    pub fn image_desc(extent: Extent, format: i32, tiling: i32, usage: u32) -> (r: ImageDesc)
        ensures
            r == (ImageDesc {
                image_type: IMAGE_TYPE_2D,
                width: extent.width,
                height: extent.height,
                depth: 1,
                mip_levels: 1,
                array_layers: 1,
                format,
                tiling,
                initial_layout: IMAGE_LAYOUT_UNDEFINED,
                usage,
                sharing_mode: SHARING_MODE_EXCLUSIVE,
                samples: SAMPLE_COUNT_1,
            }),
    {
        ImageDesc {
            image_type: IMAGE_TYPE_2D,
            width: extent.width,
            height: extent.height,
            depth: 1,
            mip_levels: 1,
            array_layers: 1,
            format,
            tiling,
            initial_layout: IMAGE_LAYOUT_UNDEFINED,
            usage,
            sharing_mode: SHARING_MODE_EXCLUSIVE,
            samples: SAMPLE_COUNT_1,
        }
    }

    /// The create info of a buffer of `size` bytes owned by one queue family.
    pub fn buffer_desc(size: u64, usage: u32) -> (r: BufferDesc)
        ensures
            r == (BufferDesc { size, usage, sharing_mode: SHARING_MODE_EXCLUSIVE }),
    {
        BufferDesc { size, usage, sharing_mode: SHARING_MODE_EXCLUSIVE }
    }

    /// The create info of a 2D view of the first level and layer of `image`.
    pub fn image_view_desc(image: Image, format: i32, aspect_mask: u32) -> (r: ImageViewDesc)
        ensures
            r.image == image,
            r.view_type == IMAGE_VIEW_TYPE_2D,
            r.format == format,
            r.subresource_range == first_level_and_layer(aspect_mask),
    {
        ImageViewDesc {
            image,
            view_type: IMAGE_VIEW_TYPE_2D,
            format,
            subresource_range: SubresourceRange {
                aspect_mask,
                base_mip_level: 0,
                level_count: 1,
                base_array_layer: 0,
                layer_count: 1,
            },
        }
    }

    /// Whether `transition_barrier` knows how to move an image from
    /// `old_layout` to `new_layout`.
    pub fn is_supported_transition(old_layout: i32, new_layout: i32) -> (r: bool)
        ensures
            r == supported_transition(old_layout, new_layout),
    {
        (old_layout == IMAGE_LAYOUT_UNDEFINED && new_layout == IMAGE_LAYOUT_TRANSFER_DST_OPTIMAL)
            || (old_layout == IMAGE_LAYOUT_TRANSFER_DST_OPTIMAL
                && new_layout == IMAGE_LAYOUT_SHADER_READ_ONLY_OPTIMAL)
    }

    /// The barrier that moves the color contents of `image` from
    /// `old_layout` to `new_layout`: before a transfer, nothing needs to be
    /// waited for and the transfer's writes wait; after a transfer, the
    /// fragment shader's reads wait for the transfer's writes.
    pub fn transition_barrier(image: Image, old_layout: i32, new_layout: i32) -> (r: ImageBarrierDesc)
        requires
            supported_transition(old_layout, new_layout),
        ensures
            r.old_layout == old_layout,
            r.new_layout == new_layout,
            r.src_queue_family_index == QUEUE_FAMILY_IGNORED,
            r.dst_queue_family_index == QUEUE_FAMILY_IGNORED,
            r.image == image,
            r.subresource_range == first_level_and_layer(IMAGE_ASPECT_COLOR),
            (r.src_access_mask, r.dst_access_mask, r.src_stage_mask, r.dst_stage_mask)
                == transition_masks(old_layout, new_layout),
    {
        let (src_access_mask, dst_access_mask, src_stage_mask, dst_stage_mask) =
            if old_layout == IMAGE_LAYOUT_UNDEFINED {
                (ACCESS_NONE, ACCESS_TRANSFER_WRITE, PIPELINE_STAGE_TOP_OF_PIPE, PIPELINE_STAGE_TRANSFER)
            } else {
                (ACCESS_TRANSFER_WRITE, ACCESS_SHADER_READ, PIPELINE_STAGE_TRANSFER, PIPELINE_STAGE_FRAGMENT_SHADER)
            };
        ImageBarrierDesc {
            old_layout,
            new_layout,
            src_queue_family_index: QUEUE_FAMILY_IGNORED,
            dst_queue_family_index: QUEUE_FAMILY_IGNORED,
            image,
            subresource_range: SubresourceRange {
                aspect_mask: IMAGE_ASPECT_COLOR,
                base_mip_level: 0,
                level_count: 1,
                base_array_layer: 0,
                layer_count: 1,
            },
            src_access_mask,
            dst_access_mask,
            src_stage_mask,
            dst_stage_mask,
        }
    }

    /// The region that copies a tightly packed buffer into the whole first
    /// level and layer of a color image of size `extent`.
    pub fn buffer_image_copy_desc(extent: Extent) -> (r: BufferImageCopyDesc)
        ensures
            r == (BufferImageCopyDesc {
                buffer_offset: 0,
                buffer_row_length: 0,
                buffer_image_height: 0,
                aspect_mask: IMAGE_ASPECT_COLOR,
                mip_level: 0,
                base_array_layer: 0,
                layer_count: 1,
                offset_x: 0,
                offset_y: 0,
                offset_z: 0,
                width: extent.width,
                height: extent.height,
                depth: 1,
            }),
    {
        BufferImageCopyDesc {
            buffer_offset: 0,
            buffer_row_length: 0,
            buffer_image_height: 0,
            aspect_mask: IMAGE_ASPECT_COLOR,
            mip_level: 0,
            base_array_layer: 0,
            layer_count: 1,
            offset_x: 0,
            offset_y: 0,
            offset_z: 0,
            width: extent.width,
            height: extent.height,
            depth: 1,
        }
    }

    /// The region that copies the first `size` bytes of one buffer to the
    /// start of another.
    pub fn buffer_copy_desc(size: u64) -> (r: BufferCopyDesc)
        ensures
            r == (BufferCopyDesc { src_offset: 0, dst_offset: 0, size }),
    {
        BufferCopyDesc { src_offset: 0, dst_offset: 0, size }
    }
}

/// The first mip level and array layer of the aspects in `aspect_mask`.
pub open spec fn first_level_and_layer(aspect_mask: u32) -> SubresourceRange {
    SubresourceRange { aspect_mask, base_mip_level: 0, level_count: 1, base_array_layer: 0, layer_count: 1 }
}

/// The layout transitions that the renderer performs: undefined contents
/// to a transfer destination, and a transfer destination to an image the
/// shaders read.
pub open spec fn supported_transition(old_layout: i32, new_layout: i32) -> bool {
    ||| old_layout == IMAGE_LAYOUT_UNDEFINED && new_layout == IMAGE_LAYOUT_TRANSFER_DST_OPTIMAL
    ||| old_layout == IMAGE_LAYOUT_TRANSFER_DST_OPTIMAL && new_layout == IMAGE_LAYOUT_SHADER_READ_ONLY_OPTIMAL
}

/// Source and destination access masks and stage masks of a supported
/// transition.
pub open spec fn transition_masks(old_layout: i32, new_layout: i32) -> (u32, u32, u32, u32) {
    if old_layout == IMAGE_LAYOUT_UNDEFINED {
        (ACCESS_NONE, ACCESS_TRANSFER_WRITE, PIPELINE_STAGE_TOP_OF_PIPE, PIPELINE_STAGE_TRANSFER)
    } else {
        (ACCESS_TRANSFER_WRITE, ACCESS_SHADER_READ, PIPELINE_STAGE_TRANSFER, PIPELINE_STAGE_FRAGMENT_SHADER)
    }
}

/// The first word of every SPIR-V module.
pub const SPIRV_MAGIC: u32 = 0x0723_0203;

/// Word `i` of `bytes` read least significant byte first.
pub open spec fn le_word(bytes: Seq<u8>, i: int) -> u32 {
    (bytes[4 * i] as int + bytes[4 * i + 1] as int * 0x100 + bytes[4 * i + 2] as int * 0x1_0000
        + bytes[4 * i + 3] as int * 0x100_0000) as u32
}

/// Word `i` of `bytes` read most significant byte first.
pub open spec fn be_word(bytes: Seq<u8>, i: int) -> u32 {
    (bytes[4 * i + 3] as int + bytes[4 * i + 2] as int * 0x100 + bytes[4 * i + 1] as int * 0x1_0000
        + bytes[4 * i] as int * 0x100_0000) as u32
}

/// The SPIR-V words that `bytes` encode, in whichever byte order makes the
/// first word the magic number; `None` when the length is not a positive
/// multiple of four or neither byte order yields the magic number.
pub open spec fn spirv_words(bytes: Seq<u8>) -> Option<Seq<u32>> {
    if bytes.len() == 0 || bytes.len() % 4 != 0 {
        None
    } else if le_word(bytes, 0) == SPIRV_MAGIC {
        Some(Seq::new(bytes.len() / 4, |i: int| le_word(bytes, i)))
    } else if be_word(bytes, 0) == SPIRV_MAGIC {
        Some(Seq::new(bytes.len() / 4, |i: int| be_word(bytes, i)))
    } else {
        None
    }
}

/// `bytes` with the four bytes of every word in reverse order.
pub open spec fn swap_word_bytes(bytes: Seq<u8>) -> Seq<u8> {
    Seq::new(bytes.len(), |k: int| bytes[k - k % 4 + (3 - k % 4)])
}

proof fn magic_is_not_its_own_reverse(b0: u8, b1: u8, b2: u8, b3: u8)
    requires
        (b0 as int + b1 as int * 0x100 + b2 as int * 0x1_0000 + b3 as int * 0x100_0000) as u32 == SPIRV_MAGIC,
    ensures
        (b3 as int + b2 as int * 0x100 + b1 as int * 0x1_0000 + b0 as int * 0x100_0000) as u32 != SPIRV_MAGIC,
{
    assert((b0 as int + b1 as int * 0x100 + b2 as int * 0x1_0000 + b3 as int * 0x100_0000) as u32 == 0x0723_0203u32
        ==> (b3 as int + b2 as int * 0x100 + b1 as int * 0x1_0000 + b0 as int * 0x100_0000) as u32 != 0x0723_0203u32)
        by (bit_vector);
}

/// A SPIR-V module decodes to the same words whichever byte order it was
/// written in.
pub proof fn spirv_byte_order_is_irrelevant(bytes: Seq<u8>)
    requires
        bytes.len() % 4 == 0,
    ensures
        spirv_words(swap_word_bytes(bytes)) == spirv_words(bytes),
{
    let swapped = swap_word_bytes(bytes);
    let n = bytes.len() / 4;
    assert forall|i: int| 0 <= i < n implies le_word(swapped, i) == be_word(bytes, i) && be_word(swapped, i) == le_word(bytes, i) by {
        assert((4 * i) % 4 == 0 && (4 * i + 1) % 4 == 1 && (4 * i + 2) % 4 == 2 && (4 * i + 3) % 4 == 3) by (nonlinear_arith);
        assert(4 * i + 3 < bytes.len()) by (nonlinear_arith)
            requires 0 <= i < n, n == bytes.len() / 4, bytes.len() % 4 == 0;
    }
    if bytes.len() > 0 {
        assert(n > 0);
        if le_word(bytes, 0) == SPIRV_MAGIC {
            magic_is_not_its_own_reverse(bytes[0], bytes[1], bytes[2], bytes[3]);
            assert(Seq::new(n, |i: int| be_word(swapped, i)) =~= Seq::new(n, |i: int| le_word(bytes, i)));
        } else if be_word(bytes, 0) == SPIRV_MAGIC {
            assert(Seq::new(n, |i: int| le_word(swapped, i)) =~= Seq::new(n, |i: int| be_word(bytes, i)));
        }
    }
}

/// Calls `ash::util::read_spv` on the bytes. Its source reads the input as
/// native-endian words, byte-swaps all of them when the first one is the
/// byte-swapped magic number, and fails when the length is not a multiple
/// of four or the first word is then not the magic number; the contract
/// states that outcome independently of the machine's byte order.
#[verifier::external_body]
fn read_spv(bytes: &[u8]) -> (r: Option<Vec<u32>>)
    ensures
        match r {
            Some(words) => spirv_words(bytes@) == Some(words@),
            None => spirv_words(bytes@) is None,
        },
{
    ash::util::read_spv(&mut std::io::Cursor::new(bytes)).ok()
}

/// Which of the two shaders could not be decoded.
#[derive(Clone, Copy, Debug, PartialEq, Eq, Structural)]
pub enum ShaderCodeError {
    Vertex,
    Fragment,
}

/// The decoded code of the vertex and the fragment shader.
#[derive(Debug)]
pub struct ShaderCode {
    pub vertex: Vec<u32>,
    pub fragment: Vec<u32>,
}

/// The shader modules made from a `ShaderCode`.
#[derive(Clone, Copy, Debug)]
pub struct ShaderModules {
    pub vertex_module: ShaderModule,
    pub fragment_module: ShaderModule,
}

impl InternalVulkan {
    /// Decodes the SPIR-V files of the vertex and the fragment shader, the
    /// vertex shader first.
    pub fn create_shader_code(vertex_bytes: &[u8], fragment_bytes: &[u8]) -> (r: Result<ShaderCode, ShaderCodeError>)
        ensures
            match r {
                Ok(code) => spirv_words(vertex_bytes@) == Some(code.vertex@)
                    && spirv_words(fragment_bytes@) == Some(code.fragment@),
                Err(ShaderCodeError::Vertex) => spirv_words(vertex_bytes@) is None,
                Err(ShaderCodeError::Fragment) => spirv_words(vertex_bytes@) is Some
                    && spirv_words(fragment_bytes@) is None,
            },
    {
        let vertex = match read_spv(vertex_bytes) {
            Some(words) => words,
            None => return Err(ShaderCodeError::Vertex),
        };
        let fragment = match read_spv(fragment_bytes) {
            Some(words) => words,
            None => return Err(ShaderCodeError::Fragment),
        };
        Ok(ShaderCode { vertex, fragment })
    }

    /// The vertex and the fragment stage of the graphics pipeline.
    pub fn create_shader_stages(modules: ShaderModules) -> (r: Vec<ShaderStageDesc>)
        ensures
            r@.len() == 2,
            r@[0].stage == SHADER_STAGE_VERTEX,
            r@[0].module == modules.vertex_module,
            r@[1].stage == SHADER_STAGE_FRAGMENT,
            r@[1].module == modules.fragment_module,
    {
        vec![
            ShaderStageDesc { stage: SHADER_STAGE_VERTEX, module: modules.vertex_module },
            ShaderStageDesc { stage: SHADER_STAGE_FRAGMENT, module: modules.fragment_module },
        ]
    }
}

} // verus!

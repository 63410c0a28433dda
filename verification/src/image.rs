//! Image descriptions and the Vulkan create infos derived from them.
use vstd::prelude::*;

use vstd::arithmetic::power2::{pow2, lemma_pow2_unfold, lemma2_to64};

use crate::vk;

verus! {

broadcast use vstd::array::group_array_axioms;

/// Dimensionality of an image; it also decides the default type of its views.
#[derive(Clone, Copy, Debug, Hash, PartialEq, Eq, Structural)]
pub enum ImageType {
    Tex1d,
    Tex1dArray,
    Tex2d,
    Tex2dArray,
    Tex3d,
    Cube,
    CubeArray,
}

/// The `VkImageViewType` that matches an image type.
pub open spec fn spec_view_type(image_type: ImageType) -> i32 {
    match image_type {
        ImageType::Tex1d => vk::IMAGE_VIEW_TYPE_1D,
        ImageType::Tex1dArray => vk::IMAGE_VIEW_TYPE_1D_ARRAY,
        ImageType::Tex2d => vk::IMAGE_VIEW_TYPE_2D,
        ImageType::Tex2dArray => vk::IMAGE_VIEW_TYPE_2D_ARRAY,
        ImageType::Tex3d => vk::IMAGE_VIEW_TYPE_3D,
        ImageType::Cube => vk::IMAGE_VIEW_TYPE_CUBE,
        ImageType::CubeArray => vk::IMAGE_VIEW_TYPE_CUBE_ARRAY,
    }
}

/// The `VkImageViewType` that matches an image type.
pub fn image_type_to_view_type(image_type: ImageType) -> (view_type: i32)
    ensures
        view_type == spec_view_type(image_type),
{
    match image_type {
        ImageType::Tex1d => vk::IMAGE_VIEW_TYPE_1D,
        ImageType::Tex1dArray => vk::IMAGE_VIEW_TYPE_1D_ARRAY,
        ImageType::Tex2d => vk::IMAGE_VIEW_TYPE_2D,
        ImageType::Tex2dArray => vk::IMAGE_VIEW_TYPE_2D_ARRAY,
        ImageType::Tex3d => vk::IMAGE_VIEW_TYPE_3D,
        ImageType::Cube => vk::IMAGE_VIEW_TYPE_CUBE,
        ImageType::CubeArray => vk::IMAGE_VIEW_TYPE_CUBE_ARRAY,
    }
}

/// A GPU image: its raw Vulkan handle and its description.
#[derive(Debug)]
pub struct Image {
    /// Raw `VkImage` handle.
    pub raw: u64,
    pub desc: ImageDesc,
}

/// Description of an image: everything needed to create it.
#[derive(Clone, Copy, Debug, Hash)]
pub struct ImageDesc {
    pub extent: [u32; 3],
    pub image_type: ImageType,
    /// `VkImageUsageFlags` bits.
    pub usage: u32,
    /// `VkImageCreateFlags` bits.
    pub flags: u32,
    /// `VkFormat` value.
    pub format: i32,
    /// `VkSampleCountFlags` bits.
    pub sample: u32,
    /// `VkImageTiling` value.
    pub tiling: i32,
    pub array_elements: u32,
    pub mip_levels: u16,
}

impl PartialEq for ImageDesc {
    fn eq(&self, other: &Self) -> (res: bool) {
        let res = self.extent[0] == other.extent[0] && self.extent[1] == other.extent[1]
            && self.extent[2] == other.extent[2] && self.image_type == other.image_type
            && self.usage == other.usage && self.flags == other.flags && self.format == other.format
            && self.sample == other.sample && self.tiling == other.tiling
            && self.array_elements == other.array_elements && self.mip_levels == other.mip_levels;
        proof {
            if res {
                assert(self.extent =~= other.extent);
            }
        }
        res
    }
}

impl vstd::std_specs::cmp::PartialEqSpecImpl for ImageDesc {
    open spec fn obeys_eq_spec() -> bool {
        true
    }

    open spec fn eq_spec(&self, other: &Self) -> bool {
        *self == *other
    }
}

impl Eq for ImageDesc {
}

/// The description every constructor starts from: an empty 2D image of one sample,
/// one array element and one mip level, with no usage and no format.
pub open spec fn spec_default_image_desc() -> ImageDesc {
    ImageDesc {
        extent: [0, 0, 0],
        image_type: ImageType::Tex2d,
        usage: 0,
        flags: 0,
        format: vk::FORMAT_UNDEFINED,
        sample: vk::SAMPLE_COUNT_1,
        tiling: vk::IMAGE_TILING_OPTIMAL,
        array_elements: 1,
        mip_levels: 1,
    }
}

impl Default for ImageDesc {
    fn default() -> (desc: Self)
        ensures
            desc == spec_default_image_desc(),
    {
        ImageDesc {
            extent: [0, 0, 0],
            image_type: ImageType::Tex2d,
            usage: 0,
            flags: 0,
            format: vk::FORMAT_UNDEFINED,
            sample: vk::SAMPLE_COUNT_1,
            tiling: vk::IMAGE_TILING_OPTIMAL,
            array_elements: 1,
            mip_levels: 1,
        }
    }
}

/// `extent / division` rounded up, and at least one.
pub open spec fn spec_div_up_at_least_one(extent: u32, division: u32) -> u32 {
    let q = (extent + division - 1) / (division as int);
    if q < 1 { 1 } else { q as u32 }
}

/// `extent / division` rounded down, and at least one.
pub open spec fn spec_div_at_least_one(extent: u32, division: u32) -> u32 {
    let q = extent / division;
    if q < 1 { 1 } else { q }
}

fn div_up_at_least_one(extent: u32, division: u32) -> (res: u32)
    requires
        division > 0,
        extent + division - 1 <= u32::MAX,
    ensures
        res == spec_div_up_at_least_one(extent, division),
{
    let q = (extent + (division - 1)) / division;
    if q < 1 { 1 } else { q }
}

fn div_at_least_one(extent: u32, division: u32) -> (res: u32)
    requires
        division > 0,
    ensures
        res == spec_div_at_least_one(extent, division),
{
    let q = extent / division;
    if q < 1 { 1 } else { q }
}

/// Number of binary digits of `x`: zero for zero, `floor(log2(x)) + 1` otherwise.
pub open spec fn spec_bit_length(x: nat) -> nat
    decreases x,
{
    if x == 0 {
        0
    } else {
        1 + spec_bit_length(x / 2)
    }
}

/// Largest of the three extents.
pub open spec fn spec_max3(a: u32, b: u32, c: u32) -> u32 {
    let ab = if a >= b { a } else { b };
    if ab >= c { ab } else { c }
}

proof fn lemma_bit_length_bounded(x: nat, bound: nat)
    requires
        x < pow2(bound),
    ensures
        spec_bit_length(x) <= bound,
    decreases x,
{
    if x > 0 {
        if bound == 0 {
            lemma2_to64();
            assert(false);
        } else {
            lemma_pow2_unfold(bound);
            assert(x / 2 < pow2((bound - 1) as nat));
            lemma_bit_length_bounded(x / 2, (bound - 1) as nat);
        }
    }
}

/// The number of mip levels of a full mip chain for an image of the given extent:
/// the bit length of its largest side.
pub fn max_mipmap_level_3d(width: u32, height: u32, depth: u32) -> (levels: u16)
    ensures
        levels as nat == spec_bit_length(spec_max3(width, height, depth) as nat),
{
    let mut m: u32 = if width >= height { width } else { height };
    if depth > m {
        m = depth;
    }
    let ghost full = m;
    proof {
        lemma2_to64();
        lemma_bit_length_bounded(m as nat, 32);
    }
    let mut levels: u16 = 0;
    while m > 0
        invariant
            levels as nat + spec_bit_length(m as nat) == spec_bit_length(full as nat),
            spec_bit_length(full as nat) <= 32,
        decreases m,
    {
        m = m / 2;
        levels = levels + 1;
    }
    levels
}

impl ImageDesc {
    /// A one-dimensional image of `extent` texels.
    pub fn new_1d(extent: u32, format: i32) -> (desc: Self)
        ensures
            desc == (ImageDesc {
                extent: [extent, 1, 1],
                format,
                image_type: ImageType::Tex1d,
                ..spec_default_image_desc()
            }),
    {
        ImageDesc { extent: [extent, 1, 1], format, image_type: ImageType::Tex1d, ..Default::default() }
    }

    /// An array of `array_elements` one-dimensional images.
    pub fn new_1d_array(extent: u32, format: i32, array_elements: u32) -> (desc: Self)
        ensures
            desc == (ImageDesc {
                extent: [extent, 1, 1],
                format,
                image_type: ImageType::Tex1dArray,
                array_elements,
                ..spec_default_image_desc()
            }),
    {
        Self::new_1d(extent, format).array_elements(array_elements).image_type(ImageType::Tex1dArray)
    }

    /// A two-dimensional image.
    pub fn new_2d(extent: [u32; 2], format: i32) -> (desc: Self)
        ensures
            desc == (ImageDesc {
                extent: [extent[0], extent[1], 1],
                format,
                image_type: ImageType::Tex2d,
                ..spec_default_image_desc()
            }),
    {
        ImageDesc {
            extent: [extent[0], extent[1], 1],
            format,
            image_type: ImageType::Tex2d,
            ..Default::default()
        }
    }

    /// An array of `array_elements` two-dimensional images.
    pub fn new_2d_array(extent: [u32; 2], format: i32, array_elements: u32) -> (desc: Self)
        ensures
            desc == (ImageDesc {
                extent: [extent[0], extent[1], 1],
                format,
                image_type: ImageType::Tex2dArray,
                array_elements,
                ..spec_default_image_desc()
            }),
    {
        Self::new_2d(extent, format).array_elements(array_elements).image_type(ImageType::Tex2dArray)
    }

    /// A three-dimensional image.
    pub fn new_3d(extent: [u32; 3], format: i32) -> (desc: Self)
        ensures
            desc == (ImageDesc {
                extent,
                format,
                image_type: ImageType::Tex3d,
                ..spec_default_image_desc()
            }),
    {
        ImageDesc { extent, format, image_type: ImageType::Tex3d, ..Default::default() }
    }

    /// A cube map: six square faces that can be viewed as a cube.
    pub fn new_cube(extent: u32, format: i32) -> (desc: Self)
        ensures
            desc == (ImageDesc {
                extent: [extent, extent, 1],
                format,
                image_type: ImageType::Cube,
                array_elements: 6,
                flags: vk::IMAGE_CREATE_CUBE_COMPATIBLE,
                ..spec_default_image_desc()
            }),
    {
        ImageDesc {
            extent: [extent, extent, 1],
            format,
            image_type: ImageType::Cube,
            ..Default::default()
        }.array_elements(6).create_flags(vk::IMAGE_CREATE_CUBE_COMPATIBLE)
    }

    /// Divides each side by the matching divisor, rounding up, keeping every side at least one.
    pub fn divide_up_extent(self, division: [u32; 3]) -> (desc: Self)
        requires
            forall|i: int| 0 <= i < 3 ==> division[i] > 0,
            forall|i: int| 0 <= i < 3 ==> self.extent[i] + division[i] - 1 <= u32::MAX,
        ensures
            desc == (ImageDesc {
                extent: [
                    spec_div_up_at_least_one(self.extent[0], division[0]),
                    spec_div_up_at_least_one(self.extent[1], division[1]),
                    spec_div_up_at_least_one(self.extent[2], division[2]),
                ],
                ..self
            }),
    {
        let mut desc = self;
        desc.extent = [
            div_up_at_least_one(self.extent[0], division[0]),
            div_up_at_least_one(self.extent[1], division[1]),
            div_up_at_least_one(self.extent[2], division[2]),
        ];
        proof {
            assert(desc.extent =~= [
                spec_div_up_at_least_one(self.extent[0], division[0]),
                spec_div_up_at_least_one(self.extent[1], division[1]),
                spec_div_up_at_least_one(self.extent[2], division[2]),
            ]);
        }
        desc
    }

    /// Divides each side by the matching divisor, rounding down, keeping every side at least one.
    pub fn divide_extent(self, division: [u32; 3]) -> (desc: Self)
        requires
            forall|i: int| 0 <= i < 3 ==> division[i] > 0,
        ensures
            desc == (ImageDesc {
                extent: [
                    spec_div_at_least_one(self.extent[0], division[0]),
                    spec_div_at_least_one(self.extent[1], division[1]),
                    spec_div_at_least_one(self.extent[2], division[2]),
                ],
                ..self
            }),
    {
        let mut desc = self;
        desc.extent = [
            div_at_least_one(self.extent[0], division[0]),
            div_at_least_one(self.extent[1], division[1]),
            div_at_least_one(self.extent[2], division[2]),
        ];
        proof {
            assert(desc.extent =~= [
                spec_div_at_least_one(self.extent[0], division[0]),
                spec_div_at_least_one(self.extent[1], division[1]),
                spec_div_at_least_one(self.extent[2], division[2]),
            ]);
        }
        desc
    }

    /// Half of every side, rounded up.
    pub fn half_resolution(self) -> (desc: Self)
        requires
            forall|i: int| 0 <= i < 3 ==> self.extent[i] < u32::MAX,
        ensures
            desc == (ImageDesc {
                extent: [
                    spec_div_up_at_least_one(self.extent[0], 2),
                    spec_div_up_at_least_one(self.extent[1], 2),
                    spec_div_up_at_least_one(self.extent[2], 2),
                ],
                ..self
            }),
    {
        self.divide_up_extent([2, 2, 2])
    }

    /// Sets the mip level count to that of a full mip chain.
    pub fn full_mipmap_levels(self) -> (desc: Self)
        ensures
            desc == (ImageDesc {
                mip_levels: spec_bit_length(
                    spec_max3(self.extent[0], self.extent[1], self.extent[2]) as nat,
                ) as u16,
                ..self
            }),
    {
        let mut desc = self;
        desc.mip_levels = max_mipmap_level_3d(self.extent[0], self.extent[1], self.extent[2]);
        desc
    }

    /// Sets the number of array elements.
    pub fn array_elements(self, num: u32) -> (desc: Self)
        ensures
            desc == (ImageDesc { array_elements: num, ..self }),
    {
        let mut desc = self;
        desc.array_elements = num;
        desc
    }

    /// Sets the format.
    pub fn format(self, format: i32) -> (desc: Self)
        ensures
            desc == (ImageDesc { format, ..self }),
    {
        let mut desc = self;
        desc.format = format;
        desc
    }

    /// Sets the create flags.
    pub fn create_flags(self, flags: u32) -> (desc: Self)
        ensures
            desc == (ImageDesc { flags, ..self }),
    {
        let mut desc = self;
        desc.flags = flags;
        desc
    }

    /// Sets the usage flags.
    pub fn usage_flags(self, flags: u32) -> (desc: Self)
        ensures
            desc == (ImageDesc { usage: flags, ..self }),
    {
        let mut desc = self;
        desc.usage = flags;
        desc
    }

    /// Sets the image type.
    pub fn image_type(self, image_type: ImageType) -> (desc: Self)
        ensures
            desc == (ImageDesc { image_type, ..self }),
    {
        let mut desc = self;
        desc.image_type = image_type;
        desc
    }

    /// Sets the number of mip levels.
    pub fn mipmap_level(self, level: u16) -> (desc: Self)
        ensures
            desc == (ImageDesc { mip_levels: level, ..self }),
    {
        let mut desc = self;
        desc.mip_levels = level;
        desc
    }
}

/// Description of a view of an image; what is unset follows the image.
#[derive(Clone, Copy, Debug, Hash, PartialEq, Eq, Structural)]
pub struct ImageViewDesc {
    /// `VkImageViewType`; when unset, the type that matches the image's.
    pub view_type: Option<i32>,
    /// `VkFormat`; when unset, the image's format.
    pub format: Option<i32>,
    /// `VkImageAspectFlags` bits.
    pub aspect_mask: u32,
    pub base_mip_level: u32,
    /// When unset, every mip level from the base one on.
    pub level_count: Option<u32>,
}

/// The default view: of the color aspect, from mip level 0, everything else as the image.
pub open spec fn spec_default_view_desc() -> ImageViewDesc {
    ImageViewDesc {
        view_type: None,
        format: None,
        aspect_mask: vk::ASPECT_COLOR,
        base_mip_level: 0,
        level_count: None,
    }
}

impl Default for ImageViewDesc {
    fn default() -> (desc: Self)
        ensures
            desc == spec_default_view_desc(),
    {
        ImageViewDesc {
            view_type: None,
            format: None,
            aspect_mask: vk::ASPECT_COLOR,
            base_mip_level: 0,
            level_count: None,
        }
    }
}

/// A `VkExtent3D`.
#[derive(Clone, Copy, Debug, PartialEq, Eq, Structural)]
pub struct Extent3D {
    pub width: u32,
    pub height: u32,
    pub depth: u32,
}

/// The fields of a `VkImageCreateInfo` an image is created with.
#[derive(Clone, Copy, Debug, PartialEq, Eq, Structural)]
pub struct ImageCreateInfo {
    pub flags: u32,
    pub image_type: i32,
    pub format: i32,
    pub extent: Extent3D,
    pub mip_levels: u32,
    pub array_layers: u32,
    pub samples: u32,
    pub tiling: i32,
    pub usage: u32,
    pub sharing_mode: i32,
    pub initial_layout: i32,
}

/// The Vulkan image type, extent and layer count of an image of this description.
pub open spec fn spec_image_shape(desc: ImageDesc) -> (i32, Extent3D, int) {
    let e = desc.extent;
    match desc.image_type {
        ImageType::Tex1d => (vk::IMAGE_TYPE_1D, Extent3D { width: e[0], height: 1, depth: 1 }, 1),
        ImageType::Tex1dArray => (
            vk::IMAGE_TYPE_1D,
            Extent3D { width: e[0], height: 1, depth: 1 },
            desc.array_elements as int,
        ),
        ImageType::Tex2d => (vk::IMAGE_TYPE_2D, Extent3D { width: e[0], height: e[1], depth: 1 }, 1),
        ImageType::Tex2dArray => (
            vk::IMAGE_TYPE_2D,
            Extent3D { width: e[0], height: e[1], depth: 1 },
            desc.array_elements as int,
        ),
        ImageType::Tex3d => (vk::IMAGE_TYPE_3D, Extent3D { width: e[0], height: e[1], depth: e[2] }, 1),
        ImageType::Cube => (vk::IMAGE_TYPE_2D, Extent3D { width: e[0], height: e[1], depth: 1 }, 6),
        ImageType::CubeArray => (
            vk::IMAGE_TYPE_2D,
            Extent3D { width: e[0], height: e[1], depth: 1 },
            6 * desc.array_elements,
        ),
    }
}

/// How an image of this description is created; with initial data it can also be copied to,
/// and starts preinitialized.
pub fn get_image_create_info(desc: &ImageDesc, with_initial_data: bool) -> (info: ImageCreateInfo)
    requires
        desc.image_type == ImageType::CubeArray ==> 6 * desc.array_elements <= u32::MAX,
    ensures
        info.image_type == spec_image_shape(*desc).0,
        info.extent == spec_image_shape(*desc).1,
        info.array_layers == spec_image_shape(*desc).2,
        info.flags == desc.flags,
        info.format == desc.format,
        info.mip_levels == desc.mip_levels,
        info.samples == desc.sample,
        info.tiling == desc.tiling,
        info.usage == (if with_initial_data {
            desc.usage | vk::IMAGE_USAGE_TRANSFER_DST
        } else {
            desc.usage
        }),
        info.sharing_mode == vk::SHARING_MODE_EXCLUSIVE,
        info.initial_layout == (if with_initial_data {
            vk::IMAGE_LAYOUT_PREINITIALIZED
        } else {
            vk::IMAGE_LAYOUT_UNDEFINED
        }),
{
    let e = desc.extent;
    let (image_type, extent, layers) = match desc.image_type {
        ImageType::Tex1d => (vk::IMAGE_TYPE_1D, Extent3D { width: e[0], height: 1, depth: 1 }, 1u32),
        ImageType::Tex1dArray => (
            vk::IMAGE_TYPE_1D,
            Extent3D { width: e[0], height: 1, depth: 1 },
            desc.array_elements,
        ),
        ImageType::Tex2d => (vk::IMAGE_TYPE_2D, Extent3D { width: e[0], height: e[1], depth: 1 }, 1u32),
        ImageType::Tex2dArray => (
            vk::IMAGE_TYPE_2D,
            Extent3D { width: e[0], height: e[1], depth: 1 },
            desc.array_elements,
        ),
        ImageType::Tex3d => (
            vk::IMAGE_TYPE_3D,
            Extent3D { width: e[0], height: e[1], depth: e[2] },
            1u32,
        ),
        ImageType::Cube => (vk::IMAGE_TYPE_2D, Extent3D { width: e[0], height: e[1], depth: 1 }, 6u32),
        ImageType::CubeArray => (
            vk::IMAGE_TYPE_2D,
            Extent3D { width: e[0], height: e[1], depth: 1 },
            6 * desc.array_elements,
        ),
    };
    let usage = if with_initial_data {
        desc.usage | vk::IMAGE_USAGE_TRANSFER_DST
    } else {
        desc.usage
    };
    ImageCreateInfo {
        flags: desc.flags,
        image_type,
        format: desc.format,
        extent,
        mip_levels: desc.mip_levels as u32,
        array_layers: layers,
        samples: desc.sample,
        tiling: desc.tiling,
        usage,
        sharing_mode: vk::SHARING_MODE_EXCLUSIVE,
        initial_layout: if with_initial_data {
            vk::IMAGE_LAYOUT_PREINITIALIZED
        } else {
            vk::IMAGE_LAYOUT_UNDEFINED
        },
    }
}

/// The fields of a `VkImageViewCreateInfo` a view is created with; components are not
/// swizzled and the view starts at array layer 0.
#[derive(Clone, Copy, Debug, PartialEq, Eq, Structural)]
pub struct ImageViewCreateInfo {
    pub format: i32,
    pub view_type: i32,
    pub aspect_mask: u32,
    pub base_mip_level: u32,
    pub level_count: u32,
    pub base_array_layer: u32,
    pub layer_count: u32,
}

impl Image {
    /// How a view of an image of this description is created: what the view leaves unset
    /// follows the image, and a cube view covers its six faces.
    pub fn populate_view_create_info(image_desc: &ImageDesc, view_desc: &ImageViewDesc) -> (info:
        ImageViewCreateInfo)
        requires
            view_desc.level_count is None ==> view_desc.base_mip_level <= image_desc.mip_levels,
        ensures
            info.format == (match view_desc.format {
                Some(f) => f,
                None => image_desc.format,
            }),
            info.view_type == (match view_desc.view_type {
                Some(t) => t,
                None => spec_view_type(image_desc.image_type),
            }),
            info.aspect_mask == view_desc.aspect_mask,
            info.base_mip_level == view_desc.base_mip_level,
            info.level_count == (match view_desc.level_count {
                Some(c) => c as int,
                None => image_desc.mip_levels - view_desc.base_mip_level,
            }),
            info.base_array_layer == 0,
            info.layer_count == (if image_desc.image_type == ImageType::Cube || image_desc.image_type
                == ImageType::CubeArray {
                6u32
            } else {
                1u32
            }),
    {
        let format = match view_desc.format {
            Some(f) => f,
            None => image_desc.format,
        };
        let view_type = match view_desc.view_type {
            Some(t) => t,
            None => image_type_to_view_type(image_desc.image_type),
        };
        let level_count = match view_desc.level_count {
            Some(c) => c,
            None => image_desc.mip_levels as u32 - view_desc.base_mip_level,
        };
        let layer_count = match image_desc.image_type {
            ImageType::Cube | ImageType::CubeArray => 6u32,
            _ => 1u32,
        };
        ImageViewCreateInfo {
            format,
            view_type,
            aspect_mask: view_desc.aspect_mask,
            base_mip_level: view_desc.base_mip_level,
            level_count,
            base_array_layer: 0,
            layer_count,
        }
    }

    /// How a view of this image is created.
    pub fn view_create_info(&self, view_desc: &ImageViewDesc) -> (info: ImageViewCreateInfo)
        requires
            view_desc.level_count is None ==> view_desc.base_mip_level <= self.desc.mip_levels,
        ensures
            info == Self::spec_view_create_info(self.desc, *view_desc),
    {
        Self::populate_view_create_info(&self.desc, view_desc)
    }

    /// See `populate_view_create_info`.
    pub open spec fn spec_view_create_info(image_desc: ImageDesc, view_desc: ImageViewDesc) -> ImageViewCreateInfo {
        ImageViewCreateInfo {
            format: match view_desc.format {
                Some(f) => f,
                None => image_desc.format,
            },
            view_type: match view_desc.view_type {
                Some(t) => t,
                None => spec_view_type(image_desc.image_type),
            },
            aspect_mask: view_desc.aspect_mask,
            base_mip_level: view_desc.base_mip_level,
            level_count: match view_desc.level_count {
                Some(c) => c,
                None => (image_desc.mip_levels - view_desc.base_mip_level) as u32,
            },
            base_array_layer: 0,
            layer_count: if image_desc.image_type == ImageType::Cube || image_desc.image_type
                == ImageType::CubeArray {
                6
            } else {
                1
            },
        }
    }
}

/// Whether a `VkImageViewType` is one Vulkan defines.
pub open spec fn spec_is_view_type(view_type: i32) -> bool {
    vk::IMAGE_VIEW_TYPE_1D <= view_type <= vk::IMAGE_VIEW_TYPE_CUBE_ARRAY
}

/// Whether a view of this type sees cube faces.
pub open spec fn spec_view_sees_cube(view_type: i32) -> bool {
    view_type == vk::IMAGE_VIEW_TYPE_CUBE || view_type == vk::IMAGE_VIEW_TYPE_CUBE_ARRAY
}

/// Whether a view of this type is an array of layers (or of cubes).
pub open spec fn spec_view_is_array(view_type: i32) -> bool {
    view_type == vk::IMAGE_VIEW_TYPE_1D_ARRAY || view_type == vk::IMAGE_VIEW_TYPE_2D_ARRAY || view_type
        == vk::IMAGE_VIEW_TYPE_CUBE_ARRAY
}

/// The `VkImageType` of the images a view of this type can see: one-dimensional for the 1D
/// views, three-dimensional for the 3D view, two-dimensional for the 2D and cube views.
pub open spec fn spec_viewed_image_type(view_type: i32) -> i32 {
    if view_type == vk::IMAGE_VIEW_TYPE_1D || view_type == vk::IMAGE_VIEW_TYPE_1D_ARRAY {
        vk::IMAGE_TYPE_1D
    } else if view_type == vk::IMAGE_VIEW_TYPE_3D {
        vk::IMAGE_TYPE_3D
    } else {
        vk::IMAGE_TYPE_2D
    }
}

/// The view an image gets when the view leaves its type unset fits the image: it is a view
/// type Vulkan defines, of the image's own Vulkan image type; it sees cube faces exactly when it
/// covers six layers, as cube images are viewed; and it is an array view exactly when the image
/// is an array. Each image type thus gets its own view type: a cube map a cube view, a 2D array
/// a 2D array view, and so on.
pub proof fn lemma_default_view_fits_image(image_desc: ImageDesc, view_desc: ImageViewDesc)
    requires
        view_desc.view_type is None,
    ensures
        ({
            let info = Image::spec_view_create_info(image_desc, view_desc);
            &&& spec_is_view_type(info.view_type)
            &&& spec_viewed_image_type(info.view_type) == spec_image_shape(image_desc).0
            &&& spec_view_sees_cube(info.view_type) == (info.layer_count == 6)
            &&& spec_view_is_array(info.view_type) == (image_desc.image_type == ImageType::Tex1dArray
                || image_desc.image_type == ImageType::Tex2dArray || image_desc.image_type
                == ImageType::CubeArray)
        }),
{
}

/// The bytes of one mip level of one array layer of an image.
pub struct ImageSubResource<'a> {
    pub data: &'a [u8],
    pub row_pitch_in_bytes: u32,
    pub base_layer: u32,
}

/// A copy from the staging buffer into one mip level of an image (`VkBufferImageCopy` of the
/// color aspect, one layer).
#[derive(Clone, Copy, Debug, PartialEq, Eq, Structural)]
pub struct BufferImageCopy {
    pub buffer_offset: u64,
    pub mip_level: u32,
    pub base_array_layer: u32,
    pub image_extent: Extent3D,
}

/// The larger of `x >> level` and 1: a dimension of mip level `level`.
pub open spec fn spec_mip_dim(x: u32, level: int) -> u32 {
    let d = (x >> (level as u32)) as u32;
    if d >= 1 {
        d
    } else {
        1
    }
}

/// Bytes per texel of the formats initial data can be given in.
pub open spec fn spec_format_bytes(format: i32) -> int {
    if format == vk::FORMAT_R8G8B8A8_UNORM || format == vk::FORMAT_R8G8B8A8_SRGB {
        4
    } else {
        0
    }
}

/// The copies that put the mip levels of one array layer, given in order from level 0, into
/// an image: each level's bytes follow the previous level's in the staging buffer.
pub open spec fn spec_mip_copies(desc: ImageDesc, subs: Seq<ImageSubResource>) -> Seq<BufferImageCopy>
    decreases subs.len(),
{
    if subs.len() == 0 {
        Seq::empty()
    } else {
        let prev = spec_mip_copies(desc, subs.drop_last());
        let level = subs.len() - 1;
        prev.push(
            BufferImageCopy {
                buffer_offset: spec_total_len(subs.drop_last()) as u64,
                mip_level: level as u32,
                base_array_layer: subs.last().base_layer,
                image_extent: Extent3D {
                    width: spec_mip_dim(desc.extent[0], level),
                    height: spec_mip_dim(desc.extent[1], level),
                    depth: spec_mip_dim(desc.extent[2], level),
                },
            },
        )
    }
}

/// Total bytes of the mip levels.
pub open spec fn spec_total_len(subs: Seq<ImageSubResource>) -> int
    decreases subs.len(),
{
    if subs.len() == 0 {
        0
    } else {
        spec_total_len(subs.drop_last()) + subs.last().data@.len()
    }
}

/// Whether every mip level holds exactly the bytes of its texels.
pub open spec fn spec_mips_sized(desc: ImageDesc, subs: Seq<ImageSubResource>) -> bool {
    forall|level: int|
        0 <= level < subs.len() ==> (#[trigger] subs[level]).data@.len() == spec_mip_dim(desc.extent[0], level)
            * spec_mip_dim(desc.extent[1], level) * spec_mip_dim(desc.extent[2], level) * spec_format_bytes(
            desc.format,
        )
}

/// The copies that upload the mip levels of one array layer into an image, and the staging
/// buffer bytes they take. Initial data is given in 8-bit RGBA formats only, each level with
/// exactly the bytes of its texels.
pub fn image_upload_regions(desc: &ImageDesc, subs: &Vec<ImageSubResource>) -> (res: (Vec<BufferImageCopy>, usize))
    requires
        spec_format_bytes(desc.format) != 0,
        subs@.len() <= 32,
        spec_total_len(subs@) <= usize::MAX,
        spec_mips_sized(*desc, subs@),
        forall|level: int|
            0 <= level < subs@.len() ==> spec_mip_dim(desc.extent[0], level) * spec_mip_dim(desc.extent[1], level)
                * spec_mip_dim(desc.extent[2], level) * spec_format_bytes(desc.format) <= u32::MAX,
    ensures
        res.0@ == spec_mip_copies(*desc, subs@),
        res.1 == spec_total_len(subs@),
{
    let mut regions: Vec<BufferImageCopy> = Vec::new();
    let mut curr_offset: usize = 0;
    let mut level: usize = 0;
    proof {
        assert(subs@.take(0) =~= Seq::<ImageSubResource>::empty());
    }
    while level < subs.len()
        invariant
            level <= subs@.len(),
            subs@.len() <= 32,
            spec_total_len(subs@) <= usize::MAX,
            curr_offset == spec_total_len(subs@.take(level as int)),
            regions@ == spec_mip_copies(*desc, subs@.take(level as int)),
        decreases subs@.len() - level,
    {
        let sub = &subs[level];
        let width = mip_dim(desc.extent[0], level as u32);
        let height = mip_dim(desc.extent[1], level as u32);
        let depth = mip_dim(desc.extent[2], level as u32);
        regions.push(
            BufferImageCopy {
                buffer_offset: curr_offset as u64,
                mip_level: level as u32,
                base_array_layer: sub.base_layer,
                image_extent: Extent3D { width, height, depth },
            },
        );
        proof {
            assert(subs@.take(level + 1).drop_last() =~= subs@.take(level as int));
            assert(subs@.take(level + 1).last() == subs@[level as int]);
            lemma_total_len_prefix(subs@, level + 1);
        }
        curr_offset = curr_offset + sub.data.len();
        level = level + 1;
    }
    proof {
        assert(subs@.take(subs@.len() as int) =~= subs@);
    }
    (regions, curr_offset)
}

proof fn lemma_total_len_prefix(subs: Seq<ImageSubResource>, k: int)
    requires
        0 <= k <= subs.len(),
    ensures
        spec_total_len(subs.take(k)) <= spec_total_len(subs),
    decreases subs.len(),
{
    if k < subs.len() {
        assert(subs.drop_last().take(k) =~= subs.take(k));
        lemma_total_len_prefix(subs.drop_last(), k);
    } else {
        assert(subs.take(k) =~= subs);
    }
}

/// A dimension of mip level `level`: `x >> level`, at least 1.
fn mip_dim(x: u32, level: u32) -> (d: u32)
    requires
        level < 32,
    ensures
        d == spec_mip_dim(x, level as int),
{
    let d = x >> level;
    if d >= 1 {
        d
    } else {
        1
    }
}

} // verus!

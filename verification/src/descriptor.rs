//! Descriptor set layouts as the shaders declare them: the Vulkan type of each binding, how
//! many descriptors it holds, which bindings are bindless, the immutable sampler a sampler
//! binding's name asks for, and the descriptor pool a pipeline's sets need.
use vstd::prelude::*;

use crate::pipeline::{BindingCount, CommonPipelineInfo, DescriptorInfo, DescriptorPoolSize};

verus! {

// Descriptor types, as shader reflection reports them; the values are those of
// `VkDescriptorType`.
pub const DESCRIPTOR_TYPE_SAMPLER: u32 = 0;
pub const DESCRIPTOR_TYPE_COMBINED_IMAGE_SAMPLER: u32 = 1;
pub const DESCRIPTOR_TYPE_SAMPLED_IMAGE: u32 = 2;
pub const DESCRIPTOR_TYPE_STORAGE_IMAGE: u32 = 3;
pub const DESCRIPTOR_TYPE_UNIFORM_TEXEL_BUFFER: u32 = 4;
pub const DESCRIPTOR_TYPE_STORAGE_TEXEL_BUFFER: u32 = 5;
pub const DESCRIPTOR_TYPE_UNIFORM_BUFFER: u32 = 6;
pub const DESCRIPTOR_TYPE_STORAGE_BUFFER: u32 = 7;
pub const DESCRIPTOR_TYPE_UNIFORM_BUFFER_DYNAMIC: u32 = 8;
pub const DESCRIPTOR_TYPE_STORAGE_BUFFER_DYNAMIC: u32 = 9;
pub const DESCRIPTOR_TYPE_INPUT_ATTACHMENT: u32 = 10;
pub const DESCRIPTOR_TYPE_INLINE_UNIFORM_BLOCK: u32 = 1000138000;
pub const DESCRIPTOR_TYPE_ACCELERATION_STRUCTURE_KHR: u32 = 1000150000;
pub const DESCRIPTOR_TYPE_ACCELERATION_STRUCTURE_NV: u32 = 1000165000;

/// `VK_SHADER_STAGE_ALL`.
pub const SHADER_STAGE_ALL: u32 = 0x7fffffff;

/// `VK_DESCRIPTOR_BINDING_PARTIALLY_BOUND_BIT`.
pub const DESCRIPTOR_BINDING_PARTIALLY_BOUND: u32 = 0x4;

/// The binding flags of a bindless binding: updatable after bind and while unused,
/// partially bound, and of variable size.
pub const DESCRIPTOR_BINDING_BINDLESS: u32 = 0xf;

/// `VK_DESCRIPTOR_SET_LAYOUT_CREATE_UPDATE_AFTER_BIND_POOL_BIT`.
pub const DESCRIPTOR_SET_LAYOUT_CREATE_UPDATE_AFTER_BIND_POOL: u32 = 0x2;

// `VkFilter` and `VkSamplerMipmapMode` values.
pub const FILTER_NEAREST: i32 = 0;
pub const FILTER_LINEAR: i32 = 1;
pub const SAMPLER_MIPMAP_MODE_NEAREST: i32 = 0;
pub const SAMPLER_MIPMAP_MODE_LINEAR: i32 = 1;

// `VkSamplerAddressMode` values.
pub const SAMPLER_ADDRESS_MODE_REPEAT: i32 = 0;
pub const SAMPLER_ADDRESS_MODE_MIRRORED_REPEAT: i32 = 1;
pub const SAMPLER_ADDRESS_MODE_CLAMP_TO_EDGE: i32 = 2;
pub const SAMPLER_ADDRESS_MODE_CLAMP_TO_BORDER: i32 = 3;
pub const SAMPLER_ADDRESS_MODE_MIRROR_CLAMP_TO_EDGE: i32 = 4;

/// Descriptors a bindless binding holds at most, however many the device allows.
pub const MAX_BINDLESS_DESCRIPTOR_COUNT: u32 = 524288;

/// Sampled image descriptors of each stage kept for other uses than bindless bindings.
pub const RESERVED_DESCRIPTOR_COUNT: u32 = 32;

/// An immutable sampler: its filter, mipmap mode and address mode.
#[derive(Clone, Copy, Hash, Eq, PartialEq, Debug, Structural)]
pub struct SamplerDesc {
    pub filter: i32,
    pub mipmap_mode: i32,
    pub address_mode: i32,
}

/// The filter (or mipmap mode) a letter names: `l` linear, `n` nearest.
pub open spec fn spec_filter_of(c: char) -> Option<i32> {
    if c == 'l' {
        Some(FILTER_LINEAR)
    } else if c == 'n' {
        Some(FILTER_NEAREST)
    } else {
        None
    }
}

/// The address mode a suffix names: `ce` clamp to edge, `cb` clamp to border, `r` repeat,
/// `mr` mirrored repeat, `mce` mirror clamp to edge.
pub open spec fn spec_address_mode_of(s: Seq<char>) -> Option<i32> {
    if s == seq!['c', 'e'] {
        Some(SAMPLER_ADDRESS_MODE_CLAMP_TO_EDGE)
    } else if s == seq!['c', 'b'] {
        Some(SAMPLER_ADDRESS_MODE_CLAMP_TO_BORDER)
    } else if s == seq!['r'] {
        Some(SAMPLER_ADDRESS_MODE_REPEAT)
    } else if s == seq!['m', 'r'] {
        Some(SAMPLER_ADDRESS_MODE_MIRRORED_REPEAT)
    } else if s == seq!['m', 'c', 'e'] {
        Some(SAMPLER_ADDRESS_MODE_MIRROR_CLAMP_TO_EDGE)
    } else {
        None
    }
}

/// `sampler_`, the prefix of the name of a sampler binding.
pub open spec fn spec_sampler_prefix() -> Seq<char> {
    seq!['s', 'a', 'm', 'p', 'l', 'e', 'r', '_']
}

/// The immutable sampler a sampler binding's name asks for: `sampler_`, then the filter
/// letter, the mipmap mode letter and the address mode; `sampler_llr` is a linear, linearly
/// mipmapped, repeating sampler.
pub open spec fn spec_sampler_of_name(name: Seq<char>) -> Option<SamplerDesc> {
    if name.len() >= 10 && name.take(8) == spec_sampler_prefix() && spec_filter_of(name[8]) is Some
        && spec_filter_of(name[9]) is Some && spec_address_mode_of(name.skip(10)) is Some {
        Some(
            SamplerDesc {
                filter: spec_filter_of(name[8])->0,
                mipmap_mode: spec_filter_of(name[9])->0,
                address_mode: spec_address_mode_of(name.skip(10))->0,
            },
        )
    } else {
        None
    }
}

fn filter_of(c: char) -> (f: Option<i32>)
    ensures
        f == spec_filter_of(c),
{
    if c == 'l' {
        Some(FILTER_LINEAR)
    } else if c == 'n' {
        Some(FILTER_NEAREST)
    } else {
        None
    }
}

/// The letter that names a filter (or mipmap mode) in a sampler binding's name: `l` for
/// linear, `n` for nearest.
pub open spec fn spec_filter_letter(filter: i32) -> char {
    if filter == FILTER_LINEAR {
        'l'
    } else {
        'n'
    }
}

/// The suffix that names an address mode in a sampler binding's name: repeat `r`, mirrored
/// repeat `mr`, clamp to edge `ce`, clamp to border `cb`, mirror clamp to edge `mce`.
pub open spec fn spec_address_suffix(mode: i32) -> Seq<char> {
    if mode == SAMPLER_ADDRESS_MODE_REPEAT {
        seq!['r']
    } else if mode == SAMPLER_ADDRESS_MODE_MIRRORED_REPEAT {
        seq!['m', 'r']
    } else if mode == SAMPLER_ADDRESS_MODE_CLAMP_TO_EDGE {
        seq!['c', 'e']
    } else if mode == SAMPLER_ADDRESS_MODE_CLAMP_TO_BORDER {
        seq!['c', 'b']
    } else {
        seq!['m', 'c', 'e']
    }
}

/// The name a sampler binding gives to ask for the sampler `desc`.
pub open spec fn spec_sampler_name(desc: SamplerDesc) -> Seq<char> {
    spec_sampler_prefix() + seq![spec_filter_letter(desc.filter), spec_filter_letter(desc.mipmap_mode)]
        + spec_address_suffix(desc.address_mode)
}

/// Whether a sampler is one a name can ask for: known filters, mipmap modes and address modes.
pub open spec fn spec_nameable_sampler(desc: SamplerDesc) -> bool {
    &&& (desc.filter == FILTER_LINEAR || desc.filter == FILTER_NEAREST)
    &&& (desc.mipmap_mode == SAMPLER_MIPMAP_MODE_LINEAR || desc.mipmap_mode == SAMPLER_MIPMAP_MODE_NEAREST)
    &&& 0 <= desc.address_mode <= SAMPLER_ADDRESS_MODE_MIRROR_CLAMP_TO_EDGE
}

/// Parsing a sampler binding's name undoes naming a sampler: a name that parses is exactly the
/// name of the sampler it gives, and the name of every nameable sampler parses back to it. So
/// each suffix stands for its own mode (`sampler_llmr` is mirrored repeat, `sampler_llr`
/// repeat), and no two names give the same sampler.
pub proof fn lemma_sampler_names_round_trip(name: Seq<char>, desc: SamplerDesc)
    ensures
        spec_sampler_of_name(name) matches Some(d) ==> name == spec_sampler_name(d) && spec_nameable_sampler(d),
        spec_nameable_sampler(desc) ==> spec_sampler_of_name(spec_sampler_name(desc)) == Some(desc),
{
    if spec_sampler_of_name(name) is Some {
        let d = spec_sampler_of_name(name)->0;
        let tail = name.skip(10);
        assert(spec_address_suffix(d.address_mode) =~= tail);
        assert(name =~= spec_sampler_prefix() + seq![name[8], name[9]] + tail) by {
            assert(name.take(8) =~= spec_sampler_prefix());
        }
        assert(seq![name[8], name[9]] =~= seq![spec_filter_letter(d.filter), spec_filter_letter(d.mipmap_mode)]);
    }
    if spec_nameable_sampler(desc) {
        let n = spec_sampler_name(desc);
        let suffix = spec_address_suffix(desc.address_mode);
        assert(n.take(8) =~= spec_sampler_prefix());
        assert(n.skip(10) =~= suffix);
        assert(n[8] == spec_filter_letter(desc.filter));
        assert(n[9] == spec_filter_letter(desc.mipmap_mode));
        if desc.address_mode == SAMPLER_ADDRESS_MODE_REPEAT {
            assert(suffix != seq!['c', 'e'] && suffix != seq!['c', 'b']) by {
                assert(suffix.len() == 1);
            }
        } else if desc.address_mode == SAMPLER_ADDRESS_MODE_MIRRORED_REPEAT {
            assert(suffix != seq!['c', 'e'] && suffix != seq!['c', 'b'] && suffix != seq!['r']) by {
                assert(suffix[0] == 'm');
            }
        } else if desc.address_mode == SAMPLER_ADDRESS_MODE_CLAMP_TO_BORDER {
            assert(suffix != seq!['c', 'e']) by {
                assert(suffix[1] == 'b');
            }
        } else if desc.address_mode == SAMPLER_ADDRESS_MODE_MIRROR_CLAMP_TO_EDGE {
            assert(suffix != seq!['c', 'e'] && suffix != seq!['c', 'b'] && suffix != seq!['r'] && suffix
                != seq!['m', 'r']) by {
                assert(suffix.len() == 3);
            }
        }
    }
}

/// The number of immutable samplers the device makes: one for each filter, mipmap mode and
/// address mode.
pub const IMMUTABLE_SAMPLER_COUNT: usize = 20;

/// The address mode of the `k`-th immutable sampler of a filter and mipmap mode.
pub open spec fn spec_address_mode_at(k: int) -> i32 {
    if k == 0 {
        SAMPLER_ADDRESS_MODE_CLAMP_TO_BORDER
    } else if k == 1 {
        SAMPLER_ADDRESS_MODE_CLAMP_TO_EDGE
    } else if k == 2 {
        SAMPLER_ADDRESS_MODE_REPEAT
    } else if k == 3 {
        SAMPLER_ADDRESS_MODE_MIRRORED_REPEAT
    } else {
        SAMPLER_ADDRESS_MODE_MIRROR_CLAMP_TO_EDGE
    }
}

/// The `i`-th immutable sampler: linear filters before nearest ones, then linear mipmaps
/// before nearest ones, then the address modes clamp to border, clamp to edge, repeat,
/// mirrored repeat and mirror clamp to edge.
pub open spec fn spec_immutable_sampler_at(i: int) -> SamplerDesc {
    SamplerDesc {
        filter: if i < 10 { FILTER_LINEAR } else { FILTER_NEAREST },
        mipmap_mode: if (i / 5) % 2 == 0 { SAMPLER_MIPMAP_MODE_LINEAR } else { SAMPLER_MIPMAP_MODE_NEAREST },
        address_mode: spec_address_mode_at(i % 5),
    }
}

fn address_mode_at(k: usize) -> (mode: i32)
    requires
        k < 5,
    ensures
        mode == spec_address_mode_at(k as int),
{
    if k == 0 {
        SAMPLER_ADDRESS_MODE_CLAMP_TO_BORDER
    } else if k == 1 {
        SAMPLER_ADDRESS_MODE_CLAMP_TO_EDGE
    } else if k == 2 {
        SAMPLER_ADDRESS_MODE_REPEAT
    } else if k == 3 {
        SAMPLER_ADDRESS_MODE_MIRRORED_REPEAT
    } else {
        SAMPLER_ADDRESS_MODE_MIRROR_CLAMP_TO_EDGE
    }
}

/// The samplers the device creates once and binds by name, in order.
pub fn immutable_sampler_descs() -> (descs: Vec<SamplerDesc>)
    ensures
        descs@.len() == IMMUTABLE_SAMPLER_COUNT,
        forall|i: int| 0 <= i < IMMUTABLE_SAMPLER_COUNT ==> #[trigger] descs@[i] == spec_immutable_sampler_at(i),
{
    let mut descs: Vec<SamplerDesc> = Vec::new();
    let mut i: usize = 0;
    while i < IMMUTABLE_SAMPLER_COUNT
        invariant
            i <= IMMUTABLE_SAMPLER_COUNT,
            descs@.len() == i,
            forall|j: int| 0 <= j < i ==> #[trigger] descs@[j] == spec_immutable_sampler_at(j),
        decreases IMMUTABLE_SAMPLER_COUNT - i,
    {
        let filter = if i < 10 {
            FILTER_LINEAR
        } else {
            FILTER_NEAREST
        };
        let mipmap_mode = if (i / 5) % 2 == 0 {
            SAMPLER_MIPMAP_MODE_LINEAR
        } else {
            SAMPLER_MIPMAP_MODE_NEAREST
        };
        descs.push(SamplerDesc { filter, mipmap_mode, address_mode: address_mode_at(i % 5) });
        i = i + 1;
    }
    descs
}

/// Whether a sampler's filter is anisotropic: linear ones are.
pub fn sampler_anisotropy_enabled(desc: SamplerDesc) -> (enabled: bool)
    ensures
        enabled == (desc.filter == FILTER_LINEAR),
{
    desc.filter == FILTER_LINEAR
}

/// Every sampler that a binding's name can ask for is one the device made: binding by name
/// always finds its immutable sampler.
pub proof fn lemma_named_samplers_are_immutable(name: Seq<char>)
    requires
        spec_sampler_of_name(name) is Some,
    ensures
        exists|i: int|
            0 <= i < IMMUTABLE_SAMPLER_COUNT && #[trigger] spec_immutable_sampler_at(i) == spec_sampler_of_name(name)->0,
{
    let d = spec_sampler_of_name(name)->0;
    let f: int = if d.filter == FILTER_LINEAR { 0 } else { 10 };
    let m: int = if d.mipmap_mode == SAMPLER_MIPMAP_MODE_LINEAR { 0 } else { 5 };
    let a: int = if d.address_mode == SAMPLER_ADDRESS_MODE_CLAMP_TO_BORDER {
        0
    } else if d.address_mode == SAMPLER_ADDRESS_MODE_CLAMP_TO_EDGE {
        1
    } else if d.address_mode == SAMPLER_ADDRESS_MODE_REPEAT {
        2
    } else if d.address_mode == SAMPLER_ADDRESS_MODE_MIRRORED_REPEAT {
        3
    } else {
        4
    };
    let i = f + m + a;
    assert(i % 5 == a);
    assert((i / 5) % 2 == m / 5);
    assert(spec_immutable_sampler_at(i) == d);
}

/// The immutable sampler a sampler binding's name asks for; `None` when the name does not
/// follow the convention.
pub fn parse_sampler_name(name: &str) -> (desc: Option<SamplerDesc>)
    ensures
        desc == spec_sampler_of_name(name@),
{
    let n = name.unicode_len();
    if n < 10 {
        return None;
    }
    let prefix = ['s', 'a', 'm', 'p', 'l', 'e', 'r', '_'];
    let mut i: usize = 0;
    while i < 8
        invariant
            n == name@.len(),
            n >= 10,
            i <= 8,
            prefix@ == spec_sampler_prefix(),
            forall|k: int| 0 <= k < i ==> name@[k] == spec_sampler_prefix()[k],
        decreases 8 - i,
    {
        if name.get_char(i) != prefix[i] {
            proof {
                assert(name@.take(8)[i as int] != spec_sampler_prefix()[i as int]);
            }
            return None;
        }
        i = i + 1;
    }
    proof {
        assert(name@.take(8) =~= spec_sampler_prefix());
    }
    let filter = match filter_of(name.get_char(8)) {
        Some(f) => f,
        None => {
            return None;
        },
    };
    let mipmap_mode = match filter_of(name.get_char(9)) {
        Some(f) => f,
        None => {
            return None;
        },
    };
    let rest = n - 10;
    let c0 = if n > 10 {
        name.get_char(10)
    } else {
        ' '
    };
    let ghost tail = name@.skip(10);
    let address_mode = if rest == 1 && c0 == 'r' {
        proof {
            assert(tail =~= seq!['r']);
        }
        SAMPLER_ADDRESS_MODE_REPEAT
    } else if rest == 2 && c0 == 'c' && name.get_char(11) == 'e' {
        proof {
            assert(tail =~= seq!['c', 'e']);
        }
        SAMPLER_ADDRESS_MODE_CLAMP_TO_EDGE
    } else if rest == 2 && c0 == 'c' && name.get_char(11) == 'b' {
        proof {
            assert(tail =~= seq!['c', 'b']);
        }
        SAMPLER_ADDRESS_MODE_CLAMP_TO_BORDER
    } else if rest == 2 && c0 == 'm' && name.get_char(11) == 'r' {
        proof {
            assert(tail =~= seq!['m', 'r']);
        }
        SAMPLER_ADDRESS_MODE_MIRRORED_REPEAT
    } else if rest == 3 && c0 == 'm' && name.get_char(11) == 'c' && name.get_char(12) == 'e' {
        proof {
            assert(tail =~= seq!['m', 'c', 'e']);
        }
        SAMPLER_ADDRESS_MODE_MIRROR_CLAMP_TO_EDGE
    } else {
        proof {
            if rest >= 1 {
                assert(tail[0] == c0);
            }
            if tail == seq!['r'] || tail == seq!['c', 'e'] || tail == seq!['c', 'b'] || tail == seq!['m', 'r']
                || tail == seq!['m', 'c', 'e'] {
                assert(tail.len() >= 1 && tail[0] == c0);
                if tail.len() >= 2 {
                    assert(tail[1] == name@[11]);
                }
                if tail.len() >= 3 {
                    assert(tail[2] == name@[12]);
                }
            }
        }
        return None;
    };
    Some(SamplerDesc { filter, mipmap_mode, address_mode })
}

/// Whether a name ends with `_dyn`: the binding is a dynamic buffer.
pub open spec fn spec_ends_with_dyn(name: Seq<char>) -> bool {
    name.len() >= 4 && name.skip(name.len() - 4) == seq!['_', 'd', 'y', 'n']
}

/// Whether a name ends with `_dyn`.
pub fn ends_with_dyn(name: &str) -> (r: bool)
    ensures
        r == spec_ends_with_dyn(name@),
{
    let n = name.unicode_len();
    if n < 4 {
        return false;
    }
    let r = name.get_char(n - 4) == '_' && name.get_char(n - 3) == 'd' && name.get_char(n - 2) == 'y'
        && name.get_char(n - 1) == 'n';
    proof {
        let t = name@.skip(n - 4);
        if r {
            assert(t =~= seq!['_', 'd', 'y', 'n']);
        } else if t == seq!['_', 'd', 'y', 'n'] {
            assert(t[0] == name@[n - 4] && t[1] == name@[n - 3] && t[2] == name@[n - 2] && t[3] == name@[n
                - 1]);
        }
    }
    r
}

/// Whether reflection can report this descriptor type.
pub open spec fn spec_known_descriptor_type(ty: u32) -> bool {
    ty <= DESCRIPTOR_TYPE_INPUT_ATTACHMENT || ty == DESCRIPTOR_TYPE_INLINE_UNIFORM_BLOCK || ty
        == DESCRIPTOR_TYPE_ACCELERATION_STRUCTURE_KHR || ty == DESCRIPTOR_TYPE_ACCELERATION_STRUCTURE_NV
}

/// The Vulkan descriptor type of a reflected binding: a uniform or storage buffer whose name
/// ends with `_dyn` is dynamic; every other type is itself.
pub open spec fn spec_descriptor_type_to_vk(ty: u32, name: Seq<char>) -> i32 {
    if ty == DESCRIPTOR_TYPE_UNIFORM_BUFFER && spec_ends_with_dyn(name) {
        DESCRIPTOR_TYPE_UNIFORM_BUFFER_DYNAMIC as i32
    } else if ty == DESCRIPTOR_TYPE_STORAGE_BUFFER && spec_ends_with_dyn(name) {
        DESCRIPTOR_TYPE_STORAGE_BUFFER_DYNAMIC as i32
    } else {
        ty as i32
    }
}

/// The Vulkan descriptor type of a reflected binding.
pub fn refl_descriptor_type_to_vk(ty: u32, name: &str) -> (vk_ty: i32)
    requires
        spec_known_descriptor_type(ty),
    ensures
        vk_ty == spec_descriptor_type_to_vk(ty, name@),
{
    let is_dynamic = ends_with_dyn(name);
    if ty == DESCRIPTOR_TYPE_UNIFORM_BUFFER && is_dynamic {
        DESCRIPTOR_TYPE_UNIFORM_BUFFER_DYNAMIC as i32
    } else if ty == DESCRIPTOR_TYPE_STORAGE_BUFFER && is_dynamic {
        DESCRIPTOR_TYPE_STORAGE_BUFFER_DYNAMIC as i32
    } else {
        ty as i32
    }
}

/// Whether descriptors of this Vulkan type are buffers.
pub fn is_buffer_descriptor_type(ty: i32) -> (r: bool)
    ensures
        r == (ty == DESCRIPTOR_TYPE_UNIFORM_TEXEL_BUFFER as i32 || ty == DESCRIPTOR_TYPE_STORAGE_TEXEL_BUFFER as i32
            || ty == DESCRIPTOR_TYPE_UNIFORM_BUFFER as i32 || ty == DESCRIPTOR_TYPE_STORAGE_BUFFER as i32 || ty
            == DESCRIPTOR_TYPE_UNIFORM_BUFFER_DYNAMIC as i32 || ty == DESCRIPTOR_TYPE_STORAGE_BUFFER_DYNAMIC as i32),
{
    ty == 4 || ty == 5 || ty == 6 || ty == 7 || ty == 8 || ty == 9
}

/// Whether descriptors of this Vulkan type are images or samplers.
pub fn is_image_descriptor_type(ty: i32) -> (r: bool)
    ensures
        r == (ty == DESCRIPTOR_TYPE_SAMPLER as i32 || ty == DESCRIPTOR_TYPE_COMBINED_IMAGE_SAMPLER as i32 || ty
            == DESCRIPTOR_TYPE_SAMPLED_IMAGE as i32 || ty == DESCRIPTOR_TYPE_STORAGE_IMAGE as i32),
{
    ty == 0 || ty == 1 || ty == 2 || ty == 3
}

/// The most descriptors a bindless binding holds on a device that allows
/// `max_per_stage_descriptor_sampled_images` sampled images per stage.
pub fn max_bindless_descriptor_count(max_per_stage_descriptor_sampled_images: u32) -> (count: u32)
    requires
        max_per_stage_descriptor_sampled_images >= RESERVED_DESCRIPTOR_COUNT,
    ensures
        count == (if max_per_stage_descriptor_sampled_images - RESERVED_DESCRIPTOR_COUNT
            < MAX_BINDLESS_DESCRIPTOR_COUNT {
            max_per_stage_descriptor_sampled_images - RESERVED_DESCRIPTOR_COUNT
        } else {
            MAX_BINDLESS_DESCRIPTOR_COUNT as int
        }),
{
    let avail = max_per_stage_descriptor_sampled_images - RESERVED_DESCRIPTOR_COUNT;
    if avail < MAX_BINDLESS_DESCRIPTOR_COUNT {
        avail
    } else {
        MAX_BINDLESS_DESCRIPTOR_COUNT
    }
}

/// The shader stages a set's bindings are visible to: every stage for the engine's global
/// sets 1 and 2, the pipeline's stages otherwise.
pub fn set_stage_flags(set_index: u32, stage_flag: u32) -> (flags: u32)
    ensures
        flags == (if set_index == 1 || set_index == 2 {
            SHADER_STAGE_ALL
        } else {
            stage_flag
        }),
{
    if set_index == 1 || set_index == 2 {
        SHADER_STAGE_ALL
    } else {
        stage_flag
    }
}

/// A binding of a descriptor set layout (`VkDescriptorSetLayoutBinding`), with the immutable
/// sampler of a sampler binding.
#[derive(Clone, Copy, Debug, PartialEq, Eq, Structural)]
pub struct LayoutBinding {
    pub binding: u32,
    pub descriptor_count: u32,
    pub descriptor_type: i32,
    pub stage_flags: u32,
    pub immutable_sampler: Option<SamplerDesc>,
}

/// How a descriptor set layout is created: its bindings and their flags, the layout's flags,
/// and the Vulkan descriptor type of each binding.
pub struct DescriptorSetLayoutPlan {
    pub bindings: Vec<LayoutBinding>,
    pub binding_flags: Vec<u32>,
    pub create_flags: u32,
    pub binding_types: Vec<(u32, i32)>,
}

/// Whether a reflected binding can be laid out: a uniform or storage buffer, uniform texel
/// buffer or storage image of known size; a sampled image; a sampler named by the convention;
/// an acceleration structure.
pub open spec fn spec_binding_supported(info: DescriptorInfo) -> bool {
    let ty = info.ty;
    ||| (ty == DESCRIPTOR_TYPE_UNIFORM_BUFFER || ty == DESCRIPTOR_TYPE_UNIFORM_TEXEL_BUFFER || ty
        == DESCRIPTOR_TYPE_STORAGE_IMAGE || ty == DESCRIPTOR_TYPE_STORAGE_BUFFER || ty
        == DESCRIPTOR_TYPE_STORAGE_BUFFER_DYNAMIC) && !(info.binding_count is Unbounded)
    ||| ty == DESCRIPTOR_TYPE_SAMPLED_IMAGE
    ||| ty == DESCRIPTOR_TYPE_SAMPLER && spec_sampler_of_name(info.name@) is Some
    ||| ty == DESCRIPTOR_TYPE_ACCELERATION_STRUCTURE_KHR
}

/// Whether a reflected binding can be laid out.
pub fn is_binding_supported(info: &DescriptorInfo) -> (r: bool)
    ensures
        r == spec_binding_supported(*info),
{
    let ty = info.ty;
    let unbounded = match info.binding_count {
        BindingCount::Unbounded => true,
        _ => false,
    };
    if (ty == DESCRIPTOR_TYPE_UNIFORM_BUFFER || ty == DESCRIPTOR_TYPE_UNIFORM_TEXEL_BUFFER || ty
        == DESCRIPTOR_TYPE_STORAGE_IMAGE || ty == DESCRIPTOR_TYPE_STORAGE_BUFFER || ty
        == DESCRIPTOR_TYPE_STORAGE_BUFFER_DYNAMIC) && !unbounded {
        true
    } else if ty == DESCRIPTOR_TYPE_SAMPLED_IMAGE || ty == DESCRIPTOR_TYPE_ACCELERATION_STRUCTURE_KHR {
        true
    } else if ty == DESCRIPTOR_TYPE_SAMPLER {
        parse_sampler_name(info.name.as_str()).is_some()
    } else {
        false
    }
}

/// Whether a reflected binding is a bindless array of sampled images.
pub open spec fn spec_is_bindless(info: DescriptorInfo) -> bool {
    info.ty == DESCRIPTOR_TYPE_SAMPLED_IMAGE && info.binding_count is Unbounded
}

/// The descriptors a binding of this size holds; unbounded is bindless.
pub open spec fn spec_descriptor_count(count: BindingCount, max_bindless: u32) -> u32 {
    match count {
        BindingCount::One => 1,
        BindingCount::StaticSized(n) => n as u32,
        BindingCount::Unbounded => max_bindless,
    }
}

/// The layout binding of reflected binding `index`.
pub open spec fn spec_layout_binding(index: u32, info: DescriptorInfo, stage_flag: u32, max_bindless: u32) -> LayoutBinding {
    if info.ty == DESCRIPTOR_TYPE_SAMPLER {
        LayoutBinding {
            binding: index,
            descriptor_count: 1,
            descriptor_type: DESCRIPTOR_TYPE_SAMPLER as i32,
            stage_flags: stage_flag,
            immutable_sampler: spec_sampler_of_name(info.name@),
        }
    } else if info.ty == DESCRIPTOR_TYPE_ACCELERATION_STRUCTURE_KHR {
        LayoutBinding {
            binding: index,
            descriptor_count: 1,
            descriptor_type: DESCRIPTOR_TYPE_ACCELERATION_STRUCTURE_KHR as i32,
            stage_flags: stage_flag,
            immutable_sampler: None,
        }
    } else {
        LayoutBinding {
            binding: index,
            descriptor_count: spec_descriptor_count(info.binding_count, max_bindless),
            descriptor_type: spec_descriptor_type_to_vk(info.ty, info.name@),
            stage_flags: stage_flag,
            immutable_sampler: None,
        }
    }
}

/// The binding flags of a reflected binding: bindless, or partially bound.
pub open spec fn spec_binding_flags(info: DescriptorInfo) -> u32 {
    if spec_is_bindless(info) {
        DESCRIPTOR_BINDING_BINDLESS
    } else {
        DESCRIPTOR_BINDING_PARTIALLY_BOUND
    }
}

/// Whether `plan` lays out one descriptor set: one layout binding per reflected binding, in
/// binding order, all visible to `stage_flag`; a bindless binding makes the layout
/// update-after-bind.
pub open spec fn spec_is_layout_plan(
    plan: DescriptorSetLayoutPlan,
    set_bindings: Seq<(u32, DescriptorInfo)>,
    stage_flag: u32,
    max_bindless: u32,
) -> bool {
    &&& plan.bindings@.len() == set_bindings.len()
    &&& plan.binding_flags@.len() == set_bindings.len()
    &&& plan.binding_types@.len() == set_bindings.len()
    &&& forall|i: int|
        0 <= i < set_bindings.len() ==> #[trigger] plan.bindings@[i] == spec_layout_binding(
            set_bindings[i].0,
            set_bindings[i].1,
            stage_flag,
            max_bindless,
        )
    &&& forall|i: int|
        0 <= i < set_bindings.len() ==> #[trigger] plan.binding_flags@[i] == spec_binding_flags(set_bindings[i].1)
    &&& forall|i: int|
        0 <= i < set_bindings.len() ==> #[trigger] plan.binding_types@[i] == (
            set_bindings[i].0,
            spec_descriptor_type_to_vk(set_bindings[i].1.ty, set_bindings[i].1.name@),
        )
    &&& plan.create_flags == (if exists|i: int|
        0 <= i < set_bindings.len() && spec_is_bindless(#[trigger] set_bindings[i].1) {
        DESCRIPTOR_SET_LAYOUT_CREATE_UPDATE_AFTER_BIND_POOL
    } else {
        0
    })
}

/// The layout of one descriptor set: one layout binding per reflected binding, in binding
/// order, all visible to `stage_flag`; a bindless binding makes the layout update-after-bind.
pub fn plan_descriptor_set_layout(
    set_bindings: &Vec<(u32, DescriptorInfo)>,
    stage_flag: u32,
    max_bindless: u32,
) -> (plan: DescriptorSetLayoutPlan)
    requires
        forall|i: int| 0 <= i < set_bindings@.len() ==> spec_binding_supported(#[trigger] set_bindings@[i].1),
    ensures
        spec_is_layout_plan(plan, set_bindings@, stage_flag, max_bindless),
{
    let mut bindings: Vec<LayoutBinding> = Vec::new();
    let mut binding_flags: Vec<u32> = Vec::new();
    let mut binding_types: Vec<(u32, i32)> = Vec::new();
    let mut create_flags: u32 = 0;
    let mut i: usize = 0;
    while i < set_bindings.len()
        invariant
            i <= set_bindings@.len(),
            forall|k: int| 0 <= k < set_bindings@.len() ==> spec_binding_supported(#[trigger] set_bindings@[k].1),
            bindings@.len() == i,
            binding_flags@.len() == i,
            binding_types@.len() == i,
            forall|k: int|
                0 <= k < i ==> #[trigger] bindings@[k] == spec_layout_binding(
                    set_bindings@[k].0,
                    set_bindings@[k].1,
                    stage_flag,
                    max_bindless,
                ),
            forall|k: int| 0 <= k < i ==> #[trigger] binding_flags@[k] == spec_binding_flags(set_bindings@[k].1),
            forall|k: int|
                0 <= k < i ==> #[trigger] binding_types@[k] == (
                    set_bindings@[k].0,
                    spec_descriptor_type_to_vk(set_bindings@[k].1.ty, set_bindings@[k].1.name@),
                ),
            create_flags == (if exists|k: int| 0 <= k < i && spec_is_bindless(#[trigger] set_bindings@[k].1) {
                DESCRIPTOR_SET_LAYOUT_CREATE_UPDATE_AFTER_BIND_POOL
            } else {
                0
            }),
        decreases set_bindings@.len() - i,
    {
        let (index, info) = &set_bindings[i];
        let ty = info.ty;
        assert(spec_binding_supported(set_bindings@[i as int].1));
        let vk_ty = refl_descriptor_type_to_vk(ty, info.name.as_str());
        let bindless = ty == DESCRIPTOR_TYPE_SAMPLED_IMAGE && match info.binding_count {
            BindingCount::Unbounded => true,
            _ => false,
        };
        let binding = if ty == DESCRIPTOR_TYPE_SAMPLER {
            let sampler = parse_sampler_name(info.name.as_str());
            LayoutBinding {
                binding: *index,
                descriptor_count: 1,
                descriptor_type: DESCRIPTOR_TYPE_SAMPLER as i32,
                stage_flags: stage_flag,
                immutable_sampler: sampler,
            }
        } else if ty == DESCRIPTOR_TYPE_ACCELERATION_STRUCTURE_KHR {
            LayoutBinding {
                binding: *index,
                descriptor_count: 1,
                descriptor_type: DESCRIPTOR_TYPE_ACCELERATION_STRUCTURE_KHR as i32,
                stage_flags: stage_flag,
                immutable_sampler: None,
            }
        } else {
            let count = match info.binding_count {
                BindingCount::One => 1u32,
                BindingCount::StaticSized(n) => n as u32,
                BindingCount::Unbounded => max_bindless,
            };
            LayoutBinding {
                binding: *index,
                descriptor_count: count,
                descriptor_type: vk_ty,
                stage_flags: stage_flag,
                immutable_sampler: None,
            }
        };
        bindings.push(binding);
        binding_flags.push(
            if bindless {
                DESCRIPTOR_BINDING_BINDLESS
            } else {
                DESCRIPTOR_BINDING_PARTIALLY_BOUND
            },
        );
        binding_types.push((*index, vk_ty));
        if bindless {
            create_flags = DESCRIPTOR_SET_LAYOUT_CREATE_UPDATE_AFTER_BIND_POOL;
        }
        proof {
            if bindless {
                assert(spec_is_bindless(set_bindings@[i as int].1));
            }
        }
        i = i + 1;
    }
    DescriptorSetLayoutPlan { bindings, binding_flags, create_flags, binding_types }
}

/// The descriptor pool sizes: for each descriptor type, in the order types first occur in the
/// flattened types, how many descriptors have it.
pub open spec fn spec_pool_sizes(types: Seq<i32>) -> Seq<DescriptorPoolSize>
    decreases types.len(),
{
    if types.len() == 0 {
        Seq::empty()
    } else {
        let prev = spec_pool_sizes(types.drop_last());
        let t = types.last();
        if exists|i: int| 0 <= i < prev.len() && (#[trigger] prev[i]).ty == t {
            let i = choose|i: int| 0 <= i < prev.len() && (#[trigger] prev[i]).ty == t;
            prev.update(i, DescriptorPoolSize { ty: t, descriptor_count: (prev[i].descriptor_count + 1) as u32 })
        } else {
            prev.push(DescriptorPoolSize { ty: t, descriptor_count: 1 })
        }
    }
}

/// The descriptor types of the sets' bindings, set after set.
pub open spec fn spec_flat_types(infos: Seq<Vec<(u32, i32)>>) -> Seq<i32>
    decreases infos.len(),
{
    if infos.len() == 0 {
        Seq::empty()
    } else {
        spec_flat_types(infos.drop_last()) + infos.last()@.map_values(|b: (u32, i32)| b.1)
    }
}

/// Whether the pool sizes have distinct types, and each count is that of its type in `types`.
pub open spec fn spec_counts_types(sizes: Seq<DescriptorPoolSize>, types: Seq<i32>) -> bool {
    &&& forall|i: int, j: int| 0 <= i < j < sizes.len() ==> (#[trigger] sizes[i]).ty != (#[trigger] sizes[j]).ty
    &&& forall|i: int|
        0 <= i < sizes.len() ==> (#[trigger] sizes[i]).descriptor_count == types.filter(|t: i32| t == sizes[i].ty).len()
    &&& forall|k: int| 0 <= k < types.len() ==> exists|i: int| 0 <= i < sizes.len() && (#[trigger] sizes[i]).ty == #[trigger] types[k]
}

fn add_type(sizes: &mut Vec<DescriptorPoolSize>, t: i32)
    requires
        forall|i: int| 0 <= i < old(sizes)@.len() ==> (#[trigger] old(sizes)@[i]).descriptor_count < u32::MAX,
        forall|i: int, j: int|
            0 <= i < j < old(sizes)@.len() ==> (#[trigger] old(sizes)@[i]).ty != (#[trigger] old(sizes)@[j]).ty,
    ensures
        final(sizes)@ == (if exists|i: int| 0 <= i < old(sizes)@.len() && (#[trigger] old(sizes)@[i]).ty == t {
            let i = choose|i: int| 0 <= i < old(sizes)@.len() && (#[trigger] old(sizes)@[i]).ty == t;
            old(sizes)@.update(
                i,
                DescriptorPoolSize { ty: t, descriptor_count: (old(sizes)@[i].descriptor_count + 1) as u32 },
            )
        } else {
            old(sizes)@.push(DescriptorPoolSize { ty: t, descriptor_count: 1 })
        }),
{
    let mut i: usize = 0;
    while i < sizes.len()
        invariant
            *sizes == *old(sizes),
            i <= sizes@.len(),
            forall|k: int| 0 <= k < i ==> (#[trigger] sizes@[k]).ty != t,
            forall|k: int| 0 <= k < sizes@.len() ==> (#[trigger] sizes@[k]).descriptor_count < u32::MAX,
            forall|a: int, b: int| 0 <= a < b < sizes@.len() ==> (#[trigger] sizes@[a]).ty != (#[trigger] sizes@[b]).ty,
        decreases sizes@.len() - i,
    {
        if sizes[i].ty == t {
            proof {
                let c = choose|k: int| 0 <= k < sizes@.len() && (#[trigger] sizes@[k]).ty == t;
                assert(sizes@[c].ty == t);
                if c != i {
                    if c < i {
                    } else {
                        assert(sizes@[i as int].ty != sizes@[c].ty);
                    }
                }
            }
            let count = sizes[i].descriptor_count;
            sizes.set(i, DescriptorPoolSize { ty: t, descriptor_count: count + 1 });
            return;
        }
        i = i + 1;
    }
    sizes.push(DescriptorPoolSize { ty: t, descriptor_count: 1 });
}

/// The pool sizes a pipeline's descriptor sets need: for each descriptor type, in the order
/// types first occur set after set and binding after binding, one descriptor per binding of
/// that type.
pub fn descriptor_pool_sizes(set_layout_infos: &Vec<Vec<(u32, i32)>>) -> (sizes: Vec<DescriptorPoolSize>)
    requires
        spec_flat_types(set_layout_infos@).len() < u32::MAX,
    ensures
        sizes@ == spec_pool_sizes(spec_flat_types(set_layout_infos@)),
{
    let mut sizes: Vec<DescriptorPoolSize> = Vec::new();
    let ghost all = spec_flat_types(set_layout_infos@);
    let mut s: usize = 0;
    proof {
        assert(set_layout_infos@.take(0) =~= Seq::<Vec<(u32, i32)>>::empty());
        lemma_flat_types_prefix(set_layout_infos@, set_layout_infos@.len() as int);
    }
    while s < set_layout_infos.len()
        invariant
            s <= set_layout_infos@.len(),
            all == spec_flat_types(set_layout_infos@),
            all.len() < u32::MAX,
            sizes@ == spec_pool_sizes(spec_flat_types(set_layout_infos@.take(s as int))),
            spec_flat_types(set_layout_infos@.take(s as int)).len() <= all.len(),
        decreases set_layout_infos@.len() - s,
    {
        let bindings = &set_layout_infos[s];
        let ghost before = spec_flat_types(set_layout_infos@.take(s as int));
        proof {
            assert(set_layout_infos@.take(s + 1).drop_last() =~= set_layout_infos@.take(s as int));
            assert(set_layout_infos@.take(s + 1).last() == set_layout_infos@[s as int]);
            lemma_flat_types_prefix(set_layout_infos@, s + 1);
        }
        let mut b: usize = 0;
        proof {
            assert(before + bindings@.take(0).map_values(|x: (u32, i32)| x.1) =~= before);
        }
        while b < bindings.len()
            invariant
                b <= bindings@.len(),
                before.len() + bindings@.len() < u32::MAX,
                sizes@ == spec_pool_sizes(before + bindings@.take(b as int).map_values(|x: (u32, i32)| x.1)),
            decreases bindings@.len() - b,
        {
            let t = bindings[b].1;
            let ghost cur = before + bindings@.take(b as int).map_values(|x: (u32, i32)| x.1);
            proof {
                lemma_pool_sizes_bounded(cur);
            }
            add_type(&mut sizes, t);
            proof {
                let next = before + bindings@.take(b + 1).map_values(|x: (u32, i32)| x.1);
                assert(next.drop_last() =~= cur);
                assert(next.last() == t);
            }
            b = b + 1;
        }
        proof {
            assert(bindings@.take(bindings@.len() as int) =~= bindings@);
        }
        s = s + 1;
    }
    proof {
        assert(set_layout_infos@.take(set_layout_infos@.len() as int) =~= set_layout_infos@);
    }
    sizes
}

proof fn lemma_flat_types_prefix(infos: Seq<Vec<(u32, i32)>>, k: int)
    requires
        0 <= k <= infos.len(),
    ensures
        spec_flat_types(infos.take(k)).len() <= spec_flat_types(infos).len(),
    decreases infos.len(),
{
    if k < infos.len() {
        assert(infos.drop_last().take(k) =~= infos.take(k));
        lemma_flat_types_prefix(infos.drop_last(), k);
    } else {
        assert(infos.take(k) =~= infos);
    }
}

proof fn lemma_pool_sizes_bounded(types: Seq<i32>)
    ensures
        forall|i: int| 0 <= i < spec_pool_sizes(types).len() ==> (#[trigger] spec_pool_sizes(types)[i]).descriptor_count
            <= types.len(),
        forall|i: int, j: int|
            0 <= i < j < spec_pool_sizes(types).len() ==> (#[trigger] spec_pool_sizes(types)[i]).ty != (
            #[trigger] spec_pool_sizes(types)[j]).ty,
    decreases types.len(),
{
    if types.len() > 0 {
        let d = types.drop_last();
        lemma_pool_sizes_bounded(d);
        let prev = spec_pool_sizes(d);
        let t = types.last();
        let cur = spec_pool_sizes(types);
        if exists|i: int| 0 <= i < prev.len() && (#[trigger] prev[i]).ty == t {
            let i = choose|i: int| 0 <= i < prev.len() && (#[trigger] prev[i]).ty == t;
            assert(cur == prev.update(i, DescriptorPoolSize { ty: t, descriptor_count: (prev[i].descriptor_count + 1) as u32 }));
            assert forall|a: int, b: int| 0 <= a < b < cur.len() implies (#[trigger] cur[a]).ty != (#[trigger] cur[b]).ty by {
                assert(prev[a].ty != prev[b].ty);
            }
        } else {
            assert(cur == prev.push(DescriptorPoolSize { ty: t, descriptor_count: 1 }));
            assert forall|a: int, b: int| 0 <= a < b < cur.len() implies (#[trigger] cur[a]).ty != (#[trigger] cur[b]).ty by {
                if b < prev.len() {
                    assert(prev[a].ty != prev[b].ty);
                }
            }
        }
    }
}

/// The pool sizes count every descriptor once: their types are distinct, each type that
/// occurs has a pool size, and each pool size counts the descriptors of its type.
pub proof fn lemma_pool_sizes_count_types(types: Seq<i32>)
    requires
        types.len() < u32::MAX,
    ensures
        spec_counts_types(spec_pool_sizes(types), types),
    decreases types.len(),
{
    lemma_pool_sizes_bounded(types);
    if types.len() > 0 {
        let d = types.drop_last();
        lemma_pool_sizes_count_types(d);
        let prev = spec_pool_sizes(d);
        let t = types.last();
        let cur = spec_pool_sizes(types);
        assert(types =~= d.push(t));
        if exists|i: int| 0 <= i < prev.len() && (#[trigger] prev[i]).ty == t {
            let c = choose|i: int| 0 <= i < prev.len() && (#[trigger] prev[i]).ty == t;
            assert forall|i: int| 0 <= i < cur.len() implies (#[trigger] cur[i]).descriptor_count == types.filter(
                |x: i32| x == cur[i].ty,
            ).len() by {
                let ty = cur[i].ty;
                assert(ty == prev[i].ty);
                d.lemma_filter_len_push(|x: i32| x == ty, t);
                d.filter_lemma(|x: i32| x == ty);
                assert(d.filter(|x: i32| x == ty).len() <= d.len());
                if i != c {
                    assert(prev[i].ty != prev[c].ty);
                    assert(cur[i] == prev[i]);
                }
            }
            assert forall|k: int| 0 <= k < types.len() implies exists|i: int|
                0 <= i < cur.len() && (#[trigger] cur[i]).ty == #[trigger] types[k] by {
                if k < d.len() {
                    assert(types[k] == d[k]);
                    let i = choose|i: int| 0 <= i < prev.len() && (#[trigger] prev[i]).ty == d[k];
                    assert(cur[i].ty == prev[i].ty);
                } else {
                    assert(cur[c].ty == t);
                }
            }
        } else {
            assert forall|i: int| 0 <= i < cur.len() implies (#[trigger] cur[i]).descriptor_count == types.filter(
                |x: i32| x == cur[i].ty,
            ).len() by {
                let ty = cur[i].ty;
                d.lemma_filter_len_push(|x: i32| x == ty, t);
                if i == prev.len() {
                    assert(ty == t);
                    assert forall|k: int| 0 <= k < d.len() implies !((|x: i32| x == ty)(#[trigger] d[k])) by {
                        let q = choose|q: int| 0 <= q < prev.len() && (#[trigger] prev[q]).ty == d[k];
                        assert(prev[q].ty == d[k]);
                    }
                    d.lemma_all_neg_filter_empty(|x: i32| x == ty);
                } else {
                    assert(cur[i] == prev[i]);
                }
            }
            assert forall|k: int| 0 <= k < types.len() implies exists|i: int|
                0 <= i < cur.len() && (#[trigger] cur[i]).ty == #[trigger] types[k] by {
                if k < d.len() {
                    assert(types[k] == d[k]);
                    let i = choose|i: int| 0 <= i < prev.len() && (#[trigger] prev[i]).ty == d[k];
                    assert(cur[i] == prev[i]);
                } else {
                    assert(cur[prev.len() as int].ty == t);
                }
            }
        }
    }
}

/// The bindings of the engine's global constants set (set 2): the frame constants, a dynamic
/// uniform buffer at binding 0.
pub fn engine_global_constant_descriptor_layout() -> (layout: Vec<(u32, DescriptorInfo)>)
    ensures
        layout@.len() == 1,
        layout@[0].0 == 0,
        layout@[0].1.ty == DESCRIPTOR_TYPE_UNIFORM_BUFFER_DYNAMIC,
        layout@[0].1.binding_count == BindingCount::One,
        layout@[0].1.name@ == Seq::<char>::empty(),
{
    let mut layout: Vec<(u32, DescriptorInfo)> = Vec::new();
    layout.push(
        (0, DescriptorInfo { ty: DESCRIPTOR_TYPE_UNIFORM_BUFFER_DYNAMIC, binding_count: BindingCount::One, name: String::new() }),
    );
    layout
}

/// The layout bindings of the engine's global constants set: each binding of its layout,
/// visible to every stage, as many descriptors as it declares (a bindless one holds
/// `max_bindless`), of its Vulkan type.
pub fn engine_global_constants_layout_bindings(max_bindless: u32) -> (bindings: Vec<LayoutBinding>)
    ensures
        bindings@ == seq![
            LayoutBinding {
                binding: 0,
                descriptor_count: 1,
                descriptor_type: DESCRIPTOR_TYPE_UNIFORM_BUFFER_DYNAMIC as i32,
                stage_flags: SHADER_STAGE_ALL,
                immutable_sampler: None,
            },
        ],
{
    let layout = engine_global_constant_descriptor_layout();
    let mut bindings: Vec<LayoutBinding> = Vec::new();
    let mut i: usize = 0;
    while i < layout.len()
        invariant
            i <= layout@.len(),
            layout@.len() == 1,
            layout@[0].0 == 0,
            layout@[0].1.ty == DESCRIPTOR_TYPE_UNIFORM_BUFFER_DYNAMIC,
            layout@[0].1.binding_count == BindingCount::One,
            layout@[0].1.name@ == Seq::<char>::empty(),
            bindings@.len() == i,
            i == 1 ==> bindings@[0] == (LayoutBinding {
                binding: 0,
                descriptor_count: 1,
                descriptor_type: DESCRIPTOR_TYPE_UNIFORM_BUFFER_DYNAMIC as i32,
                stage_flags: SHADER_STAGE_ALL,
                immutable_sampler: None,
            }),
        decreases layout@.len() - i,
    {
        let (index, info) = &layout[i];
        let count = match info.binding_count {
            BindingCount::One => 1u32,
            BindingCount::StaticSized(n) => n as u32,
            BindingCount::Unbounded => max_bindless,
        };
        let ty = refl_descriptor_type_to_vk(info.ty, info.name.as_str());
        bindings.push(
            LayoutBinding {
                binding: *index,
                descriptor_count: count,
                descriptor_type: ty,
                stage_flags: SHADER_STAGE_ALL,
                immutable_sampler: None,
            },
        );
        i = i + 1;
    }
    proof {
        assert(bindings@ =~= seq![
            LayoutBinding {
                binding: 0,
                descriptor_count: 1,
                descriptor_type: DESCRIPTOR_TYPE_UNIFORM_BUFFER_DYNAMIC as i32,
                stage_flags: SHADER_STAGE_ALL,
                immutable_sampler: None,
            },
        ]);
    }
    bindings
}


/// How many bindings the plans have in all.
pub open spec fn spec_total_bindings(plans: Seq<DescriptorSetLayoutPlan>) -> int
    decreases plans.len(),
{
    if plans.len() == 0 {
        0
    } else {
        spec_total_bindings(plans.drop_last()) + plans.last().binding_types@.len()
    }
}

proof fn lemma_flat_types_len(infos: Seq<Vec<(u32, i32)>>, plans: Seq<DescriptorSetLayoutPlan>)
    requires
        infos.len() == plans.len(),
        forall|i: int| 0 <= i < plans.len() ==> (#[trigger] infos[i])@ == plans[i].binding_types@,
    ensures
        spec_flat_types(infos).len() == spec_total_bindings(plans),
    decreases plans.len(),
{
    if plans.len() > 0 {
        let a = infos.drop_last();
        let b = plans.drop_last();
        assert forall|i: int| 0 <= i < b.len() implies (#[trigger] a[i])@ == b[i].binding_types@ by {
            assert(infos[i]@ == plans[i].binding_types@);
        }
        lemma_flat_types_len(a, b);
        assert(infos[infos.len() - 1]@ == plans[plans.len() - 1].binding_types@);
    }
}

/// The descriptor side of a pipeline made from these set layout plans, whose Vulkan set layouts
/// are `descriptor_set_layouts` (one per plan): the binding types of each set, the pool sizes
/// they need, the set layouts, and the bind point.
pub fn pipeline_descriptor_info(
    plans: &Vec<DescriptorSetLayoutPlan>,
    descriptor_set_layouts: Vec<u64>,
    pipeline_bind_point: i32,
) -> (info: CommonPipelineInfo)
    requires
        spec_total_bindings(plans@) < u32::MAX,
    ensures
        info.set_layout_infos@.len() == plans@.len(),
        forall|i: int|
            0 <= i < plans@.len() ==> (#[trigger] info.set_layout_infos@[i])@ == plans@[i].binding_types@,
        info.descriptor_pool_sizes@ == spec_pool_sizes(spec_flat_types(info.set_layout_infos@)),
        info.descriptor_set_layouts == descriptor_set_layouts,
        info.pipeline_bind_point == pipeline_bind_point,
{
    let mut set_layout_infos: Vec<Vec<(u32, i32)>> = Vec::new();
    let mut i: usize = 0;
    while i < plans.len()
        invariant
            i <= plans@.len(),
            set_layout_infos@.len() == i,
            forall|j: int| 0 <= j < i ==> (#[trigger] set_layout_infos@[j])@ == plans@[j].binding_types@,
        decreases plans@.len() - i,
    {
        let mut types: Vec<(u32, i32)> = Vec::new();
        let mut k: usize = 0;
        while k < plans[i].binding_types.len()
            invariant
                i < plans@.len(),
                k <= plans@[i as int].binding_types@.len(),
                types@ == plans@[i as int].binding_types@.take(k as int),
            decreases plans@[i as int].binding_types@.len() - k,
        {
            types.push(plans[i].binding_types[k]);
            proof {
                assert(plans@[i as int].binding_types@.take(k as int + 1) =~= plans@[i as int].binding_types@.take(
                    k as int,
                ).push(plans@[i as int].binding_types@[k as int]));
            }
            k = k + 1;
        }
        proof {
            assert(plans@[i as int].binding_types@.take(k as int) =~= plans@[i as int].binding_types@);
        }
        set_layout_infos.push(types);
        i = i + 1;
    }
    proof {
        lemma_flat_types_len(set_layout_infos@, plans@);
    }
    let descriptor_pool_sizes = descriptor_pool_sizes(&set_layout_infos);
    CommonPipelineInfo { set_layout_infos, descriptor_pool_sizes, descriptor_set_layouts, pipeline_bind_point }
}

} // verus!

//! What a shader stage declares, read from its SPIR-V: its descriptor sets, its push constant
//! range and, for a compute shader, its workgroup size. Reading the descriptor sets and the push
//! constant range can panic inside the reflection library on malformed modules, on conditions
//! that only its own type walk decides; the caller reads them where such a panic can be caught
//! and hands the outcome in.
use vstd::prelude::*;

use rspirv_reflect::{ReflectError, Reflection};

use crate::pipeline::{DescriptorInfo, PushConstantInfo};

verus! {

#[verifier::external_type_specification]
#[verifier::external_body]
pub struct ExReflection(Reflection);

#[verifier::external_type_specification]
#[verifier::external_body]
pub struct ExReflectError(ReflectError);

/// The word count of the instruction whose first word starts at byte `pos`: the high half of a
/// little-endian word.
pub open spec fn spec_word_count(spirv: Seq<u8>, pos: int) -> int {
    spirv[pos + 2] + 256 * spirv[pos + 3]
}

/// Whether, from byte `pos` on, each instruction lies within the bytes: walking from one
/// instruction to the next by their word counts until the words run out or a word count is 0
/// (where decoding stops with an error), no instruction runs past the end.
pub open spec fn spec_framed_from(spirv: Seq<u8>, pos: int) -> bool
    decreases spirv.len() - pos,
{
    if pos < 0 || pos + 4 > spirv.len() {
        true
    } else {
        let wc = spec_word_count(spirv, pos);
        if wc == 0 {
            true
        } else {
            pos + 4 * wc <= spirv.len() && spec_framed_from(spirv, pos + 4 * wc)
        }
    }
}

/// Whether every instruction after the five-word header lies within the bytes. The decoder
/// cuts a string operand at the end of its instruction without checking the stream's end, so
/// it is only given framed modules.
pub open spec fn spec_spirv_framed(spirv: Seq<u8>) -> bool {
    spec_framed_from(spirv, 20)
}

/// Whether every instruction after the header lies within the bytes.
pub fn spirv_framed(spirv: &[u8]) -> (framed: bool)
    ensures
        framed == spec_spirv_framed(spirv@),
{
    let len = spirv.len();
    let mut pos: usize = 20;
    while pos <= len && len - pos >= 4
        invariant
            len == spirv@.len(),
            20 <= pos,
            spec_spirv_framed(spirv@) == spec_framed_from(spirv@, pos as int),
        decreases len - pos,
    {
        let wc: usize = spirv[pos + 2] as usize + 256 * (spirv[pos + 3] as usize);
        if wc == 0 {
            return true;
        }
        if len - pos < 4 * wc {
            return false;
        }
        pos = pos + 4 * wc;
    }
    true
}

/// Whether a framed SPIR-V module parses.
pub uninterp spec fn spirv_parses(spirv: Seq<u8>) -> bool;

/// The workgroup size the entry point of a framed SPIR-V module declares, if it declares one.
pub uninterp spec fn spirv_compute_group_size(spirv: Seq<u8>) -> Option<[u32; 3]>;

/// A parsed SPIR-V module, and the bytes it was parsed from.
pub struct SpirvModule {
    reflection: Reflection,
    bytes: Ghost<Seq<u8>>,
}

impl View for SpirvModule {
    type V = Seq<u8>;

    /// The bytes the module was parsed from.
    closed spec fn view(&self) -> Seq<u8> {
        self.bytes@
    }
}

/// `rspirv_reflect::Reflection::new_from_spirv`: parses a SPIR-V module. Whether it parses
/// depends on the bytes alone. It is given framed modules only: on a module whose last
/// instruction runs past the end, the decoder's string reading slices out of bounds.
#[verifier::external_body]
fn parse_spirv(spirv: &[u8]) -> (res: Result<SpirvModule, ReflectError>)
    requires
        spec_spirv_framed(spirv@),
    ensures
        res is Ok <==> spirv_parses(spirv@),
        res matches Ok(m) ==> m@ == spirv@,
{
    Reflection::new_from_spirv(spirv).map(|reflection| SpirvModule { reflection, bytes: Ghost(spirv@) })
}

/// Whether the keys of a sequence of entries strictly increase.
pub open spec fn spec_keys_increasing<V>(s: Seq<(u32, V)>) -> bool {
    forall|i: int, j: int| 0 <= i < j < s.len() ==> s[i].0 < s[j].0
}

/// Whether descriptor sets, and the bindings of each set, come by strictly increasing index.
pub open spec fn spec_sets_sorted(sets: Seq<(u32, Vec<(u32, DescriptorInfo)>)>) -> bool {
    &&& spec_keys_increasing(sets)
    &&& forall|i: int| 0 <= i < sets.len() ==> spec_keys_increasing(#[trigger] sets[i].1@)
}

/// `rspirv_reflect::Reflection::get_compute_group_size`: the workgroup size that the first
/// `LocalSize` or `LocalSizeHint` execution mode of the module declares, if one does. It
/// depends on the module's bytes alone.
#[verifier::external_body]
fn reflected_compute_group_size(module: &SpirvModule) -> (size: Option<[u32; 3]>)
    ensures
        size == spirv_compute_group_size(module@),
{
    module.reflection.get_compute_group_size().map(|(x, y, z)| [x, y, z])
}

/// What a shader stage declares.
pub struct ShaderStageReflection {
    /// The bindings of each descriptor set, sets and bindings by increasing index.
    pub descriptor_sets: Vec<(u32, Vec<(u32, DescriptorInfo)>)>,
    pub push_constants: Option<PushConstantInfo>,
    /// The workgroup size of a compute shader.
    pub compute_group_size: Option<[u32; 3]>,
}

/// Why a shader stage could not be read.
#[derive(Clone, Copy, Debug, PartialEq, Eq, Structural)]
pub enum ShaderReflectionError {
    /// The bytes are not a SPIR-V module.
    InvalidSpirv,
    /// Its descriptor sets could not be read.
    DescriptorSets,
    /// Its push constant block could not be read.
    PushConstants,
}

/// Reads what a shader stage declares from its SPIR-V. The module must parse; its descriptor
/// sets and its push constant range are what reading them from the module gave (`None` where
/// reading failed), and its workgroup size is read here.
pub fn reflect_shader_stage(
    spirv: &[u8],
    descriptor_sets: Option<Vec<(u32, Vec<(u32, DescriptorInfo)>)>>,
    push_constants: Option<Option<PushConstantInfo>>,
) -> (res: Result<ShaderStageReflection, ShaderReflectionError>)
    requires
        spec_spirv_framed(spirv@),
        descriptor_sets matches Some(s) ==> spec_sets_sorted(s@),
    ensures
        !spirv_parses(spirv@) ==> res == Err::<ShaderStageReflection, ShaderReflectionError>(
            ShaderReflectionError::InvalidSpirv,
        ),
        spirv_parses(spirv@) && descriptor_sets is None ==> res == Err::<
            ShaderStageReflection,
            ShaderReflectionError,
        >(ShaderReflectionError::DescriptorSets),
        spirv_parses(spirv@) && descriptor_sets is Some && push_constants is None ==> res == Err::<
            ShaderStageReflection,
            ShaderReflectionError,
        >(ShaderReflectionError::PushConstants),
        res is Ok <==> (spirv_parses(spirv@) && descriptor_sets is Some && push_constants is Some),
        res matches Ok(r) ==> {
            &&& r.descriptor_sets == descriptor_sets->0
            &&& r.push_constants == push_constants->0
            &&& r.compute_group_size == spirv_compute_group_size(spirv@)
            &&& spec_sets_sorted(r.descriptor_sets@)
        },
{
    let module = match parse_spirv(spirv) {
        Ok(m) => m,
        Err(_) => {
            return Err(ShaderReflectionError::InvalidSpirv);
        },
    };
    let descriptor_sets = match descriptor_sets {
        Some(sets) => sets,
        None => {
            return Err(ShaderReflectionError::DescriptorSets);
        },
    };
    let push_constants = match push_constants {
        Some(range) => range,
        None => {
            return Err(ShaderReflectionError::PushConstants);
        },
    };
    let compute_group_size = reflected_compute_group_size(&module);
    Ok(ShaderStageReflection { descriptor_sets, push_constants, compute_group_size })
}

} // verus!

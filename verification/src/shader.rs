//! Shader sources and the description of a pipeline's shader stages.
use vstd::prelude::*;

verus! {

/// Where the source of a shader lives, relative to the shader source folder.
#[derive(Debug, Hash, PartialEq, Eq, Clone)]
pub enum ShaderSource {
    Hlsl { path: String },
    Glsl { path: String },
}

/// The stage of a pipeline a shader runs in.
#[derive(Clone, Copy, Hash, Eq, PartialEq, Debug, Structural)]
pub enum PipelineShaderStage {
    Vertex,
    Pixel,
    RayGen,
    RayMiss,
    RayClosestHit,
    RayAnyHit,
    RayCallable,
}

/// One shader stage of a pipeline.
#[derive(Clone, Hash, Eq, PartialEq, Debug)]
pub struct PipelineShaderDesc {
    pub stage: PipelineShaderStage,
    /// Size of the push constants of this stage.
    pub push_constants_bytes: usize,
    pub entry: String,
    pub source: ShaderSource,
}

/// What tells shader sources apart: the language (true for HLSL) and the path.
pub open spec fn spec_source_view(source: ShaderSource) -> (bool, Seq<char>) {
    match source {
        ShaderSource::Hlsl { path } => (true, path@),
        ShaderSource::Glsl { path } => (false, path@),
    }
}

/// Whether two shader sources are the same.
pub fn same_source(a: &ShaderSource, b: &ShaderSource) -> (same: bool)
    ensures
        same == (spec_source_view(*a) == spec_source_view(*b)),
{
    match (a, b) {
        (ShaderSource::Hlsl { path: x }, ShaderSource::Hlsl { path: y }) => *x == *y,
        (ShaderSource::Glsl { path: x }, ShaderSource::Glsl { path: y }) => *x == *y,
        _ => false,
    }
}

/// What tells shader stages apart: every field, strings by their text.
pub open spec fn spec_shader_view(desc: PipelineShaderDesc) -> (PipelineShaderStage, usize, Seq<char>, (bool, Seq<char>)) {
    (desc.stage, desc.push_constants_bytes, desc.entry@, spec_source_view(desc.source))
}

/// The views of a list of shader stages.
pub open spec fn spec_shader_views(descs: Seq<PipelineShaderDesc>) -> Seq<(PipelineShaderStage, usize, Seq<char>, (bool, Seq<char>))> {
    descs.map_values(|d: PipelineShaderDesc| spec_shader_view(d))
}

/// Whether two shader stages are the same.
pub fn same_shader_desc(a: &PipelineShaderDesc, b: &PipelineShaderDesc) -> (same: bool)
    ensures
        same == (spec_shader_view(*a) == spec_shader_view(*b)),
{
    a.stage == b.stage && a.push_constants_bytes == b.push_constants_bytes && a.entry == b.entry
        && same_source(&a.source, &b.source)
}

/// Whether two lists of shader stages are the same, stage by stage.
pub fn same_shaders(a: &Vec<PipelineShaderDesc>, b: &Vec<PipelineShaderDesc>) -> (same: bool)
    ensures
        same == (spec_shader_views(a@) == spec_shader_views(b@)),
{
    if a.len() != b.len() {
        proof {
            assert(spec_shader_views(a@).len() != spec_shader_views(b@).len());
        }
        return false;
    }
    let mut i: usize = 0;
    while i < a.len()
        invariant
            a@.len() == b@.len(),
            i <= a@.len(),
            forall|j: int| 0 <= j < i ==> spec_shader_view(#[trigger] a@[j]) == spec_shader_view(b@[j]),
        decreases a@.len() - i,
    {
        if !same_shader_desc(&a[i], &b[i]) {
            proof {
                assert(spec_shader_views(a@)[i as int] != spec_shader_views(b@)[i as int]);
            }
            return false;
        }
        i = i + 1;
    }
    proof {
        assert(spec_shader_views(a@) =~= spec_shader_views(b@));
    }
    true
}

/// A copy of a shader source.
pub fn clone_source(source: &ShaderSource) -> (res: ShaderSource)
    ensures
        spec_source_view(res) == spec_source_view(*source),
{
    match source {
        ShaderSource::Hlsl { path } => ShaderSource::Hlsl { path: path.clone() },
        ShaderSource::Glsl { path } => ShaderSource::Glsl { path: path.clone() },
    }
}

/// A copy of a list of shader stages.
pub fn clone_shader_descs(descs: &Vec<PipelineShaderDesc>) -> (res: Vec<PipelineShaderDesc>)
    ensures
        spec_shader_views(res@) == spec_shader_views(descs@),
{
    let mut res: Vec<PipelineShaderDesc> = Vec::new();
    let mut i: usize = 0;
    while i < descs.len()
        invariant
            i <= descs@.len(),
            res@.len() == i,
            forall|j: int| 0 <= j < i ==> spec_shader_view(#[trigger] res@[j]) == spec_shader_view(descs@[j]),
        decreases descs@.len() - i,
    {
        let d = &descs[i];
        res.push(
            PipelineShaderDesc {
                stage: d.stage,
                push_constants_bytes: d.push_constants_bytes,
                entry: d.entry.clone(),
                source: clone_source(&d.source),
            },
        );
        i = i + 1;
    }
    proof {
        assert(spec_shader_views(res@) =~= spec_shader_views(descs@));
    }
    res
}

/// Builds a `PipelineShaderDesc`; the stage and the source must be given, the push constant
/// size defaults to 0 and the entry point to `main`.
#[derive(Clone, Default)]
pub struct PipelineShaderDescBuilder {
    pub stage: Option<PipelineShaderStage>,
    pub push_constants_bytes: Option<usize>,
    pub entry: Option<String>,
    pub source: Option<ShaderSource>,
}

/// Why a shader stage description could not be built: the field left unset.
#[derive(Clone, Copy, Debug, PartialEq, Eq)]
pub enum PipelineShaderDescBuilderError {
    UninitializedField(&'static str),
}

impl PipelineShaderDesc {
    /// A builder with nothing set.
    pub fn builder() -> (builder: PipelineShaderDescBuilder)
        ensures
            builder.stage is None,
            builder.push_constants_bytes is None,
            builder.entry is None,
            builder.source is None,
    {
        PipelineShaderDescBuilder { stage: None, push_constants_bytes: None, entry: None, source: None }
    }
}

impl PipelineShaderDescBuilder {
    /// Sets the stage.
    pub fn stage(self, stage: PipelineShaderStage) -> (builder: Self)
        ensures
            builder == (Self { stage: Some(stage), ..self }),
    {
        Self { stage: Some(stage), ..self }
    }

    /// Sets the push constant size.
    pub fn push_constants_bytes(self, push_constants_bytes: usize) -> (builder: Self)
        ensures
            builder == (Self { push_constants_bytes: Some(push_constants_bytes), ..self }),
    {
        Self { push_constants_bytes: Some(push_constants_bytes), ..self }
    }

    /// Sets the entry point.
    pub fn entry(self, entry: String) -> (builder: Self)
        ensures
            builder == (Self { entry: Some(entry), ..self }),
    {
        Self { entry: Some(entry), ..self }
    }

    /// Sets the shader source.
    pub fn source(self, source: ShaderSource) -> (builder: Self)
        ensures
            builder == (Self { source: Some(source), ..self }),
    {
        Self { source: Some(source), ..self }
    }

    /// The description, once the stage and the source are set.
    pub fn build(self) -> (res: Result<PipelineShaderDesc, PipelineShaderDescBuilderError>)
        ensures
            self.stage is None ==> res == Err::<PipelineShaderDesc, PipelineShaderDescBuilderError>(
                PipelineShaderDescBuilderError::UninitializedField("stage"),
            ),
            (self.stage is Some && self.source is None) ==> res == Err::<
                PipelineShaderDesc,
                PipelineShaderDescBuilderError,
            >(PipelineShaderDescBuilderError::UninitializedField("source")),
            (self.stage is Some && self.source is Some) ==> (res matches Ok(desc) && desc.stage == self.stage->0
                && desc.push_constants_bytes == (if self.push_constants_bytes is Some {
                self.push_constants_bytes->0
            } else {
                0
            }) && desc.entry@ == (if self.entry is Some {
                self.entry->0@
            } else {
                "main"@
            }) && desc.source == self.source->0),
    {
        let stage = match self.stage {
            Some(stage) => stage,
            None => {
                return Err(PipelineShaderDescBuilderError::UninitializedField("stage"));
            },
        };
        let push_constants_bytes = match self.push_constants_bytes {
            Some(b) => b,
            None => 0,
        };
        let entry = match self.entry {
            Some(e) => e,
            None => "main".to_owned(),
        };
        match self.source {
            Some(source) => Ok(PipelineShaderDesc { stage, push_constants_bytes, entry, source }),
            None => Err(PipelineShaderDescBuilderError::UninitializedField("source")),
        }
    }
}

impl From<String> for ShaderSource {
    /// An HLSL source; HLSL is the default shader language.
    fn from(path: String) -> (source: Self) {
        ShaderSource::Hlsl { path }
    }
}

impl vstd::std_specs::convert::FromSpecImpl<String> for ShaderSource {
    open spec fn obeys_from_spec() -> bool {
        true
    }

    open spec fn from_spec(v: String) -> Self {
        ShaderSource::Hlsl { path: v }
    }
}

} // verus!

use vstd::prelude::*;

verus! {

/// One stage of a pipeline.
#[derive(Clone, Copy, Debug, PartialEq, Eq, Structural)]
pub enum ShaderType {
    Vertex,
    Pixel,
    Geometry,
    Hull,
    Domain,
    Compute,
    Amplification,
    Mesh,
    RayGen,
    RayMiss,
    RayClosestHit,
    RayAnyHit,
    RayIntersection,
    Callable,
    Tile,
}

/// How often the resource bound to a variable may change.
#[derive(Clone, Copy, Debug, PartialEq, Eq, Structural)]
pub enum ShaderResourceVariableType {
    /// Bound once, in the signature.
    Static,
    /// Bound once per binding object.
    Mutable,
    /// Bound any number of times.
    Dynamic,
}

/// The resource layout that a binding object was created from.
#[derive(Clone, Debug)]
pub struct PipelineResourceSignature {
    pub name: String,
    pub binding_index: u8,
}

/// A resource slot that a shader stage reads, by name.
#[derive(Clone, Debug)]
pub struct ShaderResourceVariable {
    pub name: String,
    pub variable_type: ShaderResourceVariableType,
    pub index: u32,
}

/// The variables of one shader stage, in the engine's order.
pub struct ShaderStageVariables {
    pub shader_type: ShaderType,
    pub variables: Vec<ShaderResourceVariable>,
}

/// `i` is the first entry of `stages` for stage `t`.
pub open spec fn is_first_stage(stages: Seq<ShaderStageVariables>, t: ShaderType, i: int) -> bool {
    &&& 0 <= i < stages.len()
    &&& stages[i].shader_type == t
    &&& forall|j: int| 0 <= j < i ==> (#[trigger] stages[j]).shader_type != t
}

pub open spec fn has_stage(stages: Seq<ShaderStageVariables>, t: ShaderType) -> bool {
    exists|j: int| 0 <= j < stages.len() && (#[trigger] stages[j]).shader_type == t
}

/// The resources bound to a pipeline's slots: the signature it was created
/// from, the variables of each shader stage, and whether the static resources
/// have been initialized.
pub struct ShaderResourceBinding {
    signature: Option<PipelineResourceSignature>,
    stages: Vec<ShaderStageVariables>,
    static_resources_initialized: bool,
}

impl ShaderResourceBinding {
    pub closed spec fn spec_signature(&self) -> Option<PipelineResourceSignature> {
        self.signature
    }

    pub closed spec fn spec_stages(&self) -> Seq<ShaderStageVariables> {
        self.stages@
    }

    pub closed spec fn spec_static_resources_initialized(&self) -> bool {
        self.static_resources_initialized
    }

    pub fn new(
        signature: Option<PipelineResourceSignature>,
        stages: Vec<ShaderStageVariables>,
        static_resources_initialized: bool,
    ) -> (r: ShaderResourceBinding)
        ensures
            r.spec_signature() == signature,
            r.spec_stages() == stages@,
            r.spec_static_resources_initialized() == static_resources_initialized,
    {
        ShaderResourceBinding { signature, stages, static_resources_initialized }
    }

    /// The signature that this binding object was created from, if any.
    pub fn get_pipeline_resource_signature(&self) -> (r: Option<&PipelineResourceSignature>)
        ensures
            match r {
                Some(s) => self.spec_signature() == Some(*s),
                None => self.spec_signature() is None,
            },
    {
        self.signature.as_ref()
    }

    /// The variables of shader stage `shader_type`; `None` where the binding
    /// object has no entry for that stage. Where it has more than one, the
    /// first counts.
    pub fn get_variables(&self, shader_type: ShaderType) -> (r: Option<&[ShaderResourceVariable]>)
        ensures
            match r {
                Some(v) => exists|i: int|
                    is_first_stage(self.spec_stages(), shader_type, i) && v@
                        == (#[trigger] self.spec_stages()[i]).variables@,
                None => !has_stage(self.spec_stages(), shader_type),
            },
    {
        let mut i: usize = 0;
        while i < self.stages.len()
            invariant
                i <= self.stages@.len(),
                forall|j: int| 0 <= j < i ==> (#[trigger] self.stages@[j]).shader_type != shader_type,
            decreases self.stages@.len() - i,
        {
            if self.stages[i].shader_type == shader_type {
                let v = self.stages[i].variables.as_slice();
                assert(is_first_stage(self.spec_stages(), shader_type, i as int));
                return Some(v);
            }
            i = i + 1;
        }
        None
    }

    /// Whether the static resources of this binding object have been
    /// initialized.
    pub fn static_resources_initialized(&self) -> (r: bool)
        ensures
            r == self.spec_static_resources_initialized(),
    {
        self.static_resources_initialized
    }
}

} // verus!

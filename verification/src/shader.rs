use vstd::prelude::*;

verus! {

/// What a compute shader's resource parameter is bound to.
pub enum ParamKind {
    /// A `RWStructuredBuffer<float>` the viewer fills with random floats.
    RandomFloats,
    /// The texture the shader paints and the viewer shows.
    OutputTexture,
    /// Anything the viewer cannot supply; the text says what it is.
    Unsupported(String),
}

/// A resource parameter of a compute entry point.
pub struct Parameter {
    pub name: String,
    pub kind: ParamKind,
}

/// How a compiled shader module is rendered.
pub enum RenderMode {
    /// Vertex and fragment entry points drawn through a render pass.
    Graphics { vertex_entry: String, fragment_entry: String },
    /// A playground-style compute kernel that paints an offscreen image,
    /// which is then blitted to the swapchain.
    Compute { entry: String, group_size: [u32; 3], parameters: Vec<Parameter> },
}

/// The kind of Vulkan pipeline a render mode is drawn with.
#[derive(Clone, Copy, Debug, PartialEq, Eq, Structural)]
pub enum PipelineKind {
    Graphics,
    Compute,
}

/// `VK_PIPELINE_STAGE_COLOR_ATTACHMENT_OUTPUT_BIT`.
pub const STAGE_COLOR_ATTACHMENT_OUTPUT: u32 = 0x400;

/// `VK_PIPELINE_STAGE_TRANSFER_BIT`.
pub const STAGE_TRANSFER: u32 = 0x1000;

pub open spec fn is_unsupported(parameter: Parameter) -> bool {
    parameter.kind is Unsupported
}

impl RenderMode {
    pub open spec fn spec_pipeline_kind(&self) -> PipelineKind {
        match self {
            RenderMode::Graphics { .. } => PipelineKind::Graphics,
            RenderMode::Compute { .. } => PipelineKind::Compute,
        }
    }

    /// The pipeline this mode is drawn with.
    pub fn pipeline_kind(&self) -> (kind: PipelineKind)
        ensures
            kind == self.spec_pipeline_kind(),
            self is Compute ==> kind == PipelineKind::Compute,
            self is Graphics ==> kind == PipelineKind::Graphics,
    {
        match self {
            RenderMode::Graphics { .. } => PipelineKind::Graphics,
            RenderMode::Compute { .. } => PipelineKind::Compute,
        }
    }

    /// The first parameter the viewer cannot supply, by index into the
    /// compute entry point's parameters; `None` when everything can be
    /// supplied (always so for vertex and fragment shaders, which take no
    /// resources).
    pub fn first_unsupported_parameter(&self) -> (found: Option<usize>)
        ensures
            match self {
                RenderMode::Graphics { .. } => found is None,
                RenderMode::Compute { parameters, .. } => match found {
                    None => forall|i: int|
                        0 <= i < parameters@.len() ==> !is_unsupported(#[trigger] parameters@[i]),
                    Some(index) => index < parameters@.len() && is_unsupported(
                        parameters@[index as int],
                    ) && forall|i: int|
                        0 <= i < index ==> !is_unsupported(#[trigger] parameters@[i]),
                },
            },
    {
        match self {
            RenderMode::Graphics { .. } => None,
            RenderMode::Compute { parameters, .. } => {
                let mut i: usize = 0;
                while i < parameters.len()
                    invariant
                        self is Compute,
                        self->parameters@ == parameters@,
                        i <= parameters@.len(),
                        forall|j: int| 0 <= j < i ==> !is_unsupported(#[trigger] parameters@[j]),
                    decreases parameters@.len() - i,
                {
                    if let ParamKind::Unsupported(_) = &parameters[i].kind {
                        return Some(i);
                    }
                    i = i + 1;
                }
                None
            },
        }
    }
}

impl PipelineKind {
    pub open spec fn spec_wait_stage(self) -> u32 {
        match self {
            PipelineKind::Graphics => STAGE_COLOR_ATTACHMENT_OUTPUT,
            PipelineKind::Compute => STAGE_TRANSFER,
        }
    }

    /// Stage at which a frame's submission waits for the acquired image:
    /// graphics before the render pass writes the color attachment,
    /// compute only by the blit into the swapchain image.
    pub fn wait_stage(&self) -> (stage: u32)
        ensures
            stage == self.spec_wait_stage(),
            *self == PipelineKind::Graphics ==> stage == STAGE_COLOR_ATTACHMENT_OUTPUT,
            *self == PipelineKind::Compute ==> stage == STAGE_TRANSFER,
    {
        match self {
            PipelineKind::Graphics => STAGE_COLOR_ATTACHMENT_OUTPUT,
            PipelineKind::Compute => STAGE_TRANSFER,
        }
    }
}

/// Every compute mode, whatever its entry, group size and parameters, is
/// drawn with a compute pipeline whose frames wait at the transfer stage
/// (the blit); every graphics mode with a graphics pipeline whose frames
/// wait before the color attachment is written.
pub proof fn pipeline_follows_render_mode(mode: RenderMode)
    ensures
        mode is Compute ==> mode.spec_pipeline_kind() == PipelineKind::Compute
            && mode.spec_pipeline_kind().spec_wait_stage() == STAGE_TRANSFER,
        mode is Graphics ==> mode.spec_pipeline_kind() == PipelineKind::Graphics
            && mode.spec_pipeline_kind().spec_wait_stage() == STAGE_COLOR_ATTACHMENT_OUTPUT,
{
}

} // verus!

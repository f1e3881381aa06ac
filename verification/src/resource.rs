//! Resource handles and the descriptions of the resources they refer to.

use vstd::prelude::*;

verus! {

/// What a handle refers to.
#[derive(Clone, Copy, Debug, PartialEq, Eq, Structural)]
pub enum HandleKind {
    RenderTarget,
    Buffer,
    CulledObjectList,
    Uniforms,
}

/// An untyped reference into a graph's resource table, as nodes list it among
/// their reads and writes.
#[derive(Clone, Copy, Debug, PartialEq, Eq, Structural)]
pub struct GraphResource {
    pub kind: HandleKind,
    pub index: usize,
}

/// Handle of a render target.
#[derive(Clone, Copy, Debug, PartialEq, Eq, Structural)]
pub struct TargetHandle {
    pub index: usize,
}

/// Handle of a plain buffer.
#[derive(Clone, Copy, Debug, PartialEq, Eq, Structural)]
pub struct BufferHandle {
    pub index: usize,
}

/// Handle of a list of objects that survived culling.
#[derive(Clone, Copy, Debug, PartialEq, Eq, Structural)]
pub struct CulledObjectListHandle {
    pub index: usize,
}

/// Handle of the per-frame uniform data.
#[derive(Clone, Copy, Debug, PartialEq, Eq, Structural)]
pub struct UniformsHandle {
    pub index: usize,
}

impl TargetHandle {
    /// The handle with its kind attached.
    pub open spec fn spec_resource(self) -> GraphResource {
        GraphResource { kind: HandleKind::RenderTarget, index: self.index }
    }

    /// The handle as a node lists it.
    #[verifier::when_used_as_spec(spec_resource)]
    pub fn resource(self) -> (r: GraphResource)
        ensures
            r == self.spec_resource(),
    {
        GraphResource { kind: HandleKind::RenderTarget, index: self.index }
    }
}

impl BufferHandle {
    /// The handle with its kind attached.
    pub open spec fn spec_resource(self) -> GraphResource {
        GraphResource { kind: HandleKind::Buffer, index: self.index }
    }

    /// The handle as a node lists it.
    #[verifier::when_used_as_spec(spec_resource)]
    pub fn resource(self) -> (r: GraphResource)
        ensures
            r == self.spec_resource(),
    {
        GraphResource { kind: HandleKind::Buffer, index: self.index }
    }
}

impl CulledObjectListHandle {
    /// The handle with its kind attached.
    pub open spec fn spec_resource(self) -> GraphResource {
        GraphResource { kind: HandleKind::CulledObjectList, index: self.index }
    }

    /// The handle as a node lists it.
    #[verifier::when_used_as_spec(spec_resource)]
    pub fn resource(self) -> (r: GraphResource)
        ensures
            r == self.spec_resource(),
    {
        GraphResource { kind: HandleKind::CulledObjectList, index: self.index }
    }
}

impl UniformsHandle {
    /// The handle with its kind attached.
    pub open spec fn spec_resource(self) -> GraphResource {
        GraphResource { kind: HandleKind::Uniforms, index: self.index }
    }

    /// The handle as a node lists it.
    #[verifier::when_used_as_spec(spec_resource)]
    pub fn resource(self) -> (r: GraphResource)
        ensures
            r == self.spec_resource(),
    {
        GraphResource { kind: HandleKind::Uniforms, index: self.index }
    }
}

/// Width and height of a target, in pixels.
#[derive(Clone, Copy, Debug, PartialEq, Eq, Structural)]
pub struct Resolution {
    pub width: u32,
    pub height: u32,
}

impl Resolution {
    /// Both components are positive.
    pub open spec fn spec_is_valid(self) -> bool {
        self.width > 0 && self.height > 0
    }

    /// Whether a target of this size can be allocated.
    #[verifier::when_used_as_spec(spec_is_valid)]
    pub fn is_valid(self) -> (ok: bool)
        ensures
            ok == self.spec_is_valid(),
    {
        self.width > 0 && self.height > 0
    }
}

/// The sample counts a target may have.
#[derive(Clone, Copy, Debug, PartialEq, Eq, Structural)]
pub enum SampleCount {
    One,
    Four,
}

impl SampleCount {
    /// The number of samples per pixel.
    pub open spec fn spec_count(self) -> u8 {
        match self {
            SampleCount::One => 1u8,
            SampleCount::Four => 4u8,
        }
    }

    /// The number of samples per pixel.
    #[verifier::when_used_as_spec(spec_count)]
    pub fn count(self) -> (n: u8)
        ensures
            n == self.spec_count(),
    {
        match self {
            SampleCount::One => 1u8,
            SampleCount::Four => 4u8,
        }
    }

    /// The sample count with `n` samples per pixel, if the backend has targets
    /// with that many.
    pub fn from_count(n: u8) -> (r: Result<SampleCount, ConfigError>)
        ensures
            r == match supported_sample_count(n) {
                Some(samples) => Ok::<SampleCount, ConfigError>(samples),
                None => Err::<SampleCount, ConfigError>(ConfigError::UnsupportedSampleCount),
            },
    {
        if n == 1 {
            Ok(SampleCount::One)
        } else if n == 4 {
            Ok(SampleCount::Four)
        } else {
            Err(ConfigError::UnsupportedSampleCount)
        }
    }
}

/// The sample count that `n` stands for: targets have one sample per pixel or
/// four.
pub open spec fn supported_sample_count(n: u8) -> Option<SampleCount> {
    if n == 1 {
        Some(SampleCount::One)
    } else if n == 4 {
        Some(SampleCount::Four)
    } else {
        None
    }
}

/// Why a frame configuration is rejected.
#[derive(Clone, Copy, Debug, PartialEq, Eq, Structural)]
pub enum ConfigError {
    /// A component of the resolution is zero.
    InvalidResolution,
    /// The backend has no targets with that many samples.
    UnsupportedSampleCount,
}

/// Texel formats of the targets the pipeline allocates.
#[derive(Clone, Copy, Debug, PartialEq, Eq, Structural)]
pub enum TextureFormat {
    Bgra8UnormSrgb,
    Rgba16Float,
    Depth32Float,
}

/// What a target may be used for.
#[derive(Clone, Copy, Debug, PartialEq, Eq, Structural)]
pub struct TextureUsages {
    pub render_attachment: bool,
    pub texture_binding: bool,
}

/// Names of the targets the pipeline allocates.
#[derive(Clone, Copy, Debug, PartialEq, Eq, Structural)]
pub enum TargetLabel {
    Depth,
    Color,
    Resolve,
    ViewportOutput,
}

impl TargetLabel {
    /// The text of a label.
    pub open spec fn text(self) -> Seq<char> {
        match self {
            TargetLabel::Depth => "hdr depth"@,
            TargetLabel::Color => "hdr color"@,
            TargetLabel::Resolve => "hdr resolve"@,
            TargetLabel::ViewportOutput => "Blackjack Viewport Output"@,
        }
    }

    /// The name under which the target is shown to whoever inspects a frame.
    pub fn name(self) -> (text: &'static str)
        ensures
            text@ == self.text(),
    {
        match self {
            TargetLabel::Depth => "hdr depth",
            TargetLabel::Color => "hdr color",
            TargetLabel::Resolve => "hdr resolve",
            TargetLabel::ViewportOutput => "Blackjack Viewport Output",
        }
    }
}

/// Everything the graph records about a render target.
#[derive(Clone, Copy, Debug, PartialEq, Eq, Structural)]
pub struct RenderTargetDescriptor {
    pub label: TargetLabel,
    pub resolution: Resolution,
    pub samples: SampleCount,
    pub format: TextureFormat,
    pub usage: TextureUsages,
}

/// Ambient light as the bit patterns of four IEEE-754 single-precision
/// components (red, green, blue, alpha).
#[derive(Clone, Copy, Debug, PartialEq, Eq, Structural)]
pub struct AmbientLight {
    pub r: u32,
    pub g: u32,
    pub b: u32,
    pub a: u32,
}

/// What the per-frame uniform data is built from.
#[derive(Clone, Copy, Debug, PartialEq, Eq, Structural)]
pub struct FrameUniforms {
    pub ambient: AmbientLight,
    pub resolution: Resolution,
}

/// An entry of a graph's resource table.
#[derive(Clone, Copy, Debug, PartialEq, Eq, Structural)]
pub enum ResourceDesc {
    RenderTarget(RenderTargetDescriptor),
    Buffer,
    CulledObjectList,
    Uniforms(FrameUniforms),
}

impl ResourceDesc {
    /// The kind of handle that refers to such an entry.
    pub open spec fn kind(self) -> HandleKind {
        match self {
            ResourceDesc::RenderTarget(_) => HandleKind::RenderTarget,
            ResourceDesc::Buffer => HandleKind::Buffer,
            ResourceDesc::CulledObjectList => HandleKind::CulledObjectList,
            ResourceDesc::Uniforms(_) => HandleKind::Uniforms,
        }
    }
}

/// The part of the scene snapshot that shapes the graph: how many lights cast
/// shadows, each of which gets a culled list of its own.
#[derive(Clone, Copy, Debug, PartialEq, Eq, Structural)]
pub struct ReadySnapshot {
    pub directional_lights: usize,
}

} // verus!

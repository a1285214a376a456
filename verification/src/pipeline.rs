//! The values that describe the fixed stages of a graphics pipeline.

use vstd::prelude::*;
use vstd::string::StringExecFns;
use crate::bits::{bit_at, lemma_clear, lemma_empty, lemma_set, spec_bit_at, spec_has_bit};
use crate::format::Format;
use crate::shaders::ShaderModule;

verus! {

/// A mask of the samples of a pixel.
pub type SampleMask = u32;

/// Which winding of a triangle faces the viewer.
#[derive(Debug, Clone, Copy, PartialEq, Eq, Structural)]
pub enum FrontFace {
    CounterClockwise,
    Clockwise,
}

/// Whether vertex data advances with each vertex or with each instance.
#[derive(Debug, Clone, Copy, PartialEq, Eq, Structural)]
pub enum VertexInputRate {
    Vertex,
    Instance,
}

/// How consecutive vertices are organized into primitives.
#[derive(Debug, Clone, Copy, PartialEq, Eq, Structural)]
pub enum PrimitiveTopology {
    PointList,
    LineList,
    LineStrip,
    TriangleList,
    TriangleStrip,
    TriangleFan,
    LineListWithAdjacency,
    LineStripWithAdjacency,
    TriangleListWithAdjacency,
    TriangleStripWithAdjacency,
    PatchList,
}

/// How the inside of a polygon is drawn.
#[derive(Debug, Clone, Copy, PartialEq, Eq, Structural)]
pub enum PolygonMode {
    Fill,
    Line,
    Point,
    FillRectangleNv,
}

/// A logical operation between a fragment and the color already there.
#[derive(Debug, Clone, Copy, PartialEq, Eq, Structural)]
pub enum LogicOp {
    Clear,
    And,
    AndReverse,
    Copy,
    AndInverted,
    NoOp,
    Xor,
    Or,
    Nor,
    Equivalent,
    Invert,
    OrReverse,
    CopyInverted,
    OrInverted,
    Nand,
    SetOnes,
}

/// A stage of the pipeline that a shader runs in.
#[derive(Debug, Clone, Copy, PartialEq, Eq, Structural)]
pub enum ShaderStage {
    Vertex,
    TessellationControl,
    TessellationEvaluation,
    Geometry,
    Fragment,
    Compute,
    AllGraphics,
    All,
    RaygenKhr,
    AnyHitKhr,
    ClosestHitKhr,
    MissKhr,
    IntersectionKhr,
    CallableKhr,
    TaskNv,
    MeshNv,
    SubpassShadingHuawei,
}

/// Which triangles are left out by the side they show.
#[derive(Debug, Clone, Copy, PartialEq, Eq, Structural)]
pub enum CullMode {
    Neither,
    Front,
    Back,
    FrondAndBack,
}

/// How many samples a pixel has.
#[derive(Debug, Clone, Copy, PartialEq, Eq, Structural)]
pub enum SampleCount {
    OneBit,
    TwoBit,
    FourBit,
    EightBit,
    SixteenBit,
    ThirtytwoBit,
    SixtyfourBit,
}

/// What a color is scaled by before it is blended.
#[derive(Debug, Clone, Copy, PartialEq, Eq, Structural)]
pub enum BlendFactor {
    Zero,
    One,
    SrcColor,
    OneMinusSrcColor,
    DstColor,
    OneMinusDstColor,
    SrcAlpha,
    OneMinusSrcAlpha,
    DstAlpha,
    OneMinusDstAlpha,
    ConstantColor,
    OneMinusConstantColor,
    ConstantAlpha,
    OneMinusConstantAlpha,
    SrcAlphaSaturate,
    Src1Color,
    OneMinusSrc1Color,
    Src1Alpha,
    OneMinusSrc1Alpha,
}

/// How two scaled colors are combined.
#[derive(Debug, Clone, Copy, PartialEq, Eq, Structural)]
pub enum BlendOp {
    Add,
    Subtract,
    ReverseSubtract,
    Min,
    Max,
    ZeroExt,
    SrcExt,
    DstExt,
    SrcOverExt,
    DstOverExt,
    SrcInExt,
    DstInExt,
    SrcOutExt,
    DstOutExt,
    SrcAtopExt,
    DstAtopExt,
    XorExt,
    MultiplyExt,
    ScreenExt,
    OverlayExt,
    DarkenExt,
    LightenExt,
    ColordodgeExt,
    ColorburnExt,
    HardlightExt,
    SoftlightExt,
    DifferenceExt,
    ExclusionExt,
    InvertExt,
    InvertRgbExt,
    LineardodgeExt,
    LinearburnExt,
    VividlightExt,
    LinearlightExt,
    PinlightExt,
    HardmixExt,
    HslHueExt,
    HslSaturationExt,
    HslColorExt,
    HslLuminosityExt,
    PlusExt,
    PlusClampedExt,
    PlusClampedAlphaExt,
    PlusDarkerExt,
    MinusExt,
    MinusClampedExt,
    ContrastExt,
    InvertOvgExt,
    RedExt,
    GreenExt,
    BlueExt,
}

impl Default for FrontFace {
    fn default() -> (r: Self)
        ensures
            r == FrontFace::CounterClockwise,
    {
        FrontFace::CounterClockwise
    }
}

impl Default for PrimitiveTopology {
    fn default() -> (r: Self)
        ensures
            r == PrimitiveTopology::PointList,
    {
        PrimitiveTopology::PointList
    }
}

impl Default for PolygonMode {
    fn default() -> (r: Self)
        ensures
            r == PolygonMode::Fill,
    {
        PolygonMode::Fill
    }
}

impl Default for LogicOp {
    fn default() -> (r: Self)
        ensures
            r == LogicOp::Clear,
    {
        LogicOp::Clear
    }
}

impl Default for ShaderStage {
    fn default() -> (r: Self)
        ensures
            r == ShaderStage::Vertex,
    {
        ShaderStage::Vertex
    }
}

impl Default for CullMode {
    fn default() -> (r: Self)
        ensures
            r == CullMode::Neither,
    {
        CullMode::Neither
    }
}

impl Default for SampleCount {
    fn default() -> (r: Self)
        ensures
            r == SampleCount::OneBit,
    {
        SampleCount::OneBit
    }
}

impl Default for BlendFactor {
    fn default() -> (r: Self)
        ensures
            r == BlendFactor::Zero,
    {
        BlendFactor::Zero
    }
}

impl Default for BlendOp {
    fn default() -> (r: Self)
        ensures
            r == BlendOp::Add,
    {
        BlendOp::Add
    }
}

/// A color component that a write can reach.
#[derive(Debug, Clone, Copy, PartialEq, Eq, Structural)]
pub enum ColorComponent {
    Red,
    Green,
    Blue,
    Alpha,
}

impl ColorComponent {
    /// The position of the bit that stands for this component.
    pub open spec fn spec_position(self) -> u32 {
        match self {
            ColorComponent::Red => 0,
            ColorComponent::Green => 1,
            ColorComponent::Blue => 2,
            ColorComponent::Alpha => 3,
        }
    }

    /// The mask that has only this component's bit set.
    pub open spec fn spec_bit(self) -> u32 {
        spec_bit_at(self.spec_position())
    }

    pub fn position(&self) -> (r: u32)
        ensures
            r == self.spec_position(),
            r < 32,
    {
        match self {
            ColorComponent::Red => 0,
            ColorComponent::Green => 1,
            ColorComponent::Blue => 2,
            ColorComponent::Alpha => 3,
        }
    }

    pub fn bit(&self) -> (r: u32)
        ensures
            r == self.spec_bit(),
            r != 0,
    {
        bit_at(self.position())
    }
}

/// The set of color components that a write reaches.
#[derive(Debug, Default, Clone, Copy, PartialEq, Eq, Structural)]
pub struct ColorComponentFlags(u32);

/// A list of names with one more name at its end, if `on`: names are
/// parted by a bar between two spaces.
pub open spec fn spec_append_name(text: Seq<char>, on: bool, name: Seq<char>) -> Seq<char> {
    if !on {
        text
    } else if text.len() == 0 {
        name
    } else {
        text + " | "@ + name
    }
}

/// Writes `name` at the end of the list `text`, if `on`. `empty` says
/// whether the list holds no name yet.
fn append_name(text: &mut String, empty: &mut bool, on: bool, name: &str)
    requires
        *old(empty) == (old(text)@.len() == 0),
        name@.len() > 0,
    ensures
        final(text)@ == spec_append_name(old(text)@, on, name@),
        *final(empty) == (final(text)@.len() == 0),
{
    if on {
        if !*empty {
            text.append(" | ");
        }
        text.append(name);
        *empty = false;
    }
}

/// How a set of flags without named flags is shown.
pub open spec fn spec_flags_text(bits: u32) -> Seq<char> {
    if bits == 0 {
        "()"@
    } else {
        "non-empty"@
    }
}

fn flags_text(bits: u32) -> (r: String)
    ensures
        r@ == spec_flags_text(bits),
{
    if bits == 0 {
        "()".to_owned()
    } else {
        "non-empty".to_owned()
    }
}

impl ColorComponentFlags {
    /// The mask the native layer reads.
    pub closed spec fn spec_bits(self) -> u32 {
        self.0
    }

    /// Whether the component is in the set.
    pub open spec fn spec_contains(self, component: ColorComponent) -> bool {
        spec_has_bit(self.spec_bits(), component.spec_position())
    }

    /// What putting `component` in, or taking it out, makes of a set: the
    /// component is in afterwards exactly if `on`, and every other
    /// component is in or out as before.
    pub open spec fn spec_with(self, component: ColorComponent, on: bool, after: Self) -> bool {
        &&& after.spec_bits() == (if on {
            self.spec_bits() | component.spec_bit()
        } else {
            self.spec_bits() & !component.spec_bit()
        })
        &&& forall|c: ColorComponent|
            #[trigger] after.spec_contains(c) == (if c == component {
                on
            } else {
                self.spec_contains(c)
            })
    }

    /// The empty set.
    pub fn new() -> (r: Self)
        ensures
            r.spec_bits() == 0,
            forall|c: ColorComponent| !r.spec_contains(c),
    {
        proof {
            assert forall|c: ColorComponent| !spec_has_bit(0, c.spec_position()) by {
                lemma_empty(c.spec_position());
            }
        }
        Self(0)
    }

    pub fn bits(&self) -> (r: u32)
        ensures
            r == self.spec_bits(),
    {
        self.0
    }

    pub fn contains(&self, component: ColorComponent) -> (r: bool)
        ensures
            r == self.spec_contains(component),
    {
        self.0 & component.bit() != 0
    }

    fn with(self, component: ColorComponent, on: bool) -> (r: Self)
        ensures
            self.spec_with(component, on, r),
    {
        let bit: u32 = component.bit();
        proof {
            assert forall|c: ColorComponent|
                spec_has_bit(self.0 | component.spec_bit(), c.spec_position()) == (c == component
                    || spec_has_bit(self.0, c.spec_position())) by {
                lemma_set(self.0, component.spec_position(), c.spec_position());
            }
            assert forall|c: ColorComponent|
                spec_has_bit(self.0 & !component.spec_bit(), c.spec_position()) == (c != component
                    && spec_has_bit(self.0, c.spec_position())) by {
                lemma_clear(self.0, component.spec_position(), c.spec_position());
            }
        }
        if on {
            Self(self.0 | bit)
        } else {
            Self(self.0 & !bit)
        }
    }

    /// How the set is shown: `()` for the empty set, otherwise the names of
    /// its components in the order red, blue, green, alpha.
    pub open spec fn spec_text(self) -> Seq<char> {
        if self.spec_bits() == 0 {
            "()"@
        } else {
            spec_append_name(
                spec_append_name(
                    spec_append_name(
                        spec_append_name(
                            Seq::empty(),
                            self.spec_contains(ColorComponent::Red),
                            "RED"@,
                        ),
                        self.spec_contains(ColorComponent::Blue),
                        "BLUE"@,
                    ),
                    self.spec_contains(ColorComponent::Green),
                    "GREEN"@,
                ),
                self.spec_contains(ColorComponent::Alpha),
                "ALPHA"@,
            )
        }
    }

    pub fn text(&self) -> (r: String)
        ensures
            r@ == self.spec_text(),
    {
        if self.0 == 0 {
            return "()".to_owned();
        }
        proof {
            reveal_strlit("RED");
            reveal_strlit("BLUE");
            reveal_strlit("GREEN");
            reveal_strlit("ALPHA");
        }
        let mut r = String::new();
        let mut empty = true;
        append_name(&mut r, &mut empty, self.contains(ColorComponent::Red), "RED");
        append_name(&mut r, &mut empty, self.contains(ColorComponent::Blue), "BLUE");
        append_name(&mut r, &mut empty, self.contains(ColorComponent::Green), "GREEN");
        append_name(&mut r, &mut empty, self.contains(ColorComponent::Alpha), "ALPHA");
        r
    }

    pub fn with_red(self, red: bool) -> (r: Self)
        ensures
            self.spec_with(ColorComponent::Red, red, r),
    {
        self.with(ColorComponent::Red, red)
    }

    pub fn with_green(self, green: bool) -> (r: Self)
        ensures
            self.spec_with(ColorComponent::Green, green, r),
    {
        self.with(ColorComponent::Green, green)
    }

    pub fn with_blue(self, blue: bool) -> (r: Self)
        ensures
            self.spec_with(ColorComponent::Blue, blue, r),
    {
        self.with(ColorComponent::Blue, blue)
    }

    pub fn with_alpha(self, alpha: bool) -> (r: Self)
        ensures
            self.spec_with(ColorComponent::Alpha, alpha, r),
    {
        self.with(ColorComponent::Alpha, alpha)
    }
}

#[derive(Debug, Default, Clone, Copy, PartialEq, Eq, Structural)]
pub struct PipelineShaderStageCreateFlags(pub u32);

#[derive(Debug, Default, Clone, Copy, PartialEq, Eq, Structural)]
pub struct PipelineVertexInputStateCreateFlags(pub u32);

#[derive(Debug, Default, Clone, Copy, PartialEq, Eq, Structural)]
pub struct PipelineInputAssemblyStateCreateFlags(pub u32);

#[derive(Debug, Default, Clone, Copy, PartialEq, Eq, Structural)]
pub struct PipelineViewportStateCreateFlags(pub u32);

#[derive(Debug, Default, Clone, Copy, PartialEq, Eq, Structural)]
pub struct PipelineRasterizationStateCreateFlags(pub u32);

#[derive(Debug, Default, Clone, Copy, PartialEq, Eq, Structural)]
pub struct PipelineMultisampleStateCreateFlags(pub u32);

#[derive(Debug, Default, Clone, Copy, PartialEq, Eq, Structural)]
pub struct PipelineColorBlendStateCreateFlags(pub u32);

impl PipelineShaderStageCreateFlags {
    /// How the flags are shown: `()` where none is set, `non-empty`
    /// otherwise.
    pub fn text(&self) -> (r: String)
        ensures
            r@ == spec_flags_text(self.0),
    {
        flags_text(self.0)
    }
}

impl PipelineVertexInputStateCreateFlags {
    /// How the flags are shown: `()` where none is set, `non-empty`
    /// otherwise.
    pub fn text(&self) -> (r: String)
        ensures
            r@ == spec_flags_text(self.0),
    {
        flags_text(self.0)
    }
}

impl PipelineInputAssemblyStateCreateFlags {
    /// How the flags are shown: `()` where none is set, `non-empty`
    /// otherwise.
    pub fn text(&self) -> (r: String)
        ensures
            r@ == spec_flags_text(self.0),
    {
        flags_text(self.0)
    }
}

impl PipelineViewportStateCreateFlags {
    /// How the flags are shown: `()` where none is set, `non-empty`
    /// otherwise.
    pub fn text(&self) -> (r: String)
        ensures
            r@ == spec_flags_text(self.0),
    {
        flags_text(self.0)
    }
}

impl PipelineRasterizationStateCreateFlags {
    /// How the flags are shown: `()` where none is set, `non-empty`
    /// otherwise.
    pub fn text(&self) -> (r: String)
        ensures
            r@ == spec_flags_text(self.0),
    {
        flags_text(self.0)
    }
}

impl PipelineMultisampleStateCreateFlags {
    /// How the flags are shown: always as the empty set, since none is
    /// defined.
    pub fn text(&self) -> (r: String)
        ensures
            r@ == "()"@,
    {
        "()".to_owned()
    }
}

impl PipelineColorBlendStateCreateFlags {
    /// How the flags are shown: always as the empty set, since none is
    /// defined.
    pub fn text(&self) -> (r: String)
        ensures
            r@ == "()"@,
    {
        "()".to_owned()
    }
}

/// Where the vertex data of one binding lies and how it advances.
#[derive(Debug, Clone, Copy, PartialEq, Eq, Structural)]
pub struct VertexInputBindingDescription {
    pub binding: u32,
    pub stride: u32,
    pub input_rate: VertexInputRate,
}

/// Where one vertex attribute lies within its binding.
#[derive(Debug, Clone, Copy, PartialEq, Eq, Structural)]
pub struct VertexInputAttributeDescription {
    pub location: u32,
    pub binding: u32,
    pub format: Format,
    pub offset: u32,
}

/// One shader stage of a pipeline.
#[derive(Debug)]
pub struct PipelineShaderStageCreateInfo<'a> {
    pub flags: PipelineShaderStageCreateFlags,
    pub stage: ShaderStage,
    pub module: &'a ShaderModule<'a>,
    pub name: &'a str,
}

/// The vertex data a pipeline reads.
#[derive(Debug, Clone, Copy)]
pub struct PipelineVertexInputStateCreateInfo<'a> {
    pub flags: PipelineVertexInputStateCreateFlags,
    pub vertex_binding_descriptions: Option<&'a [VertexInputBindingDescription]>,
    pub vertex_attribute_descriptions: Option<&'a [VertexInputAttributeDescription]>,
}

/// How a pipeline assembles vertices into primitives.
#[derive(Debug, Clone, Copy, PartialEq, Eq, Structural)]
pub struct PipelineInputAssemblyStateCreateInfo {
    pub flags: PipelineInputAssemblyStateCreateFlags,
    pub topology: PrimitiveTopology,
    pub primitive_restart_enable: bool,
}

/// How one color attachment blends what is written to it.
#[derive(Debug, Clone, Copy, PartialEq, Eq, Structural)]
pub struct PipelineColorBlendAttachmentState {
    pub blend_enable: bool,
    pub src_color_blend_factor: BlendFactor,
    pub dst_color_blend_factor: BlendFactor,
    pub color_blend_op: BlendOp,
    pub src_alpha_blend_factor: BlendFactor,
    pub dst_alpha_blend_factor: BlendFactor,
    pub alpha_blend_op: BlendOp,
    pub color_write_mask: ColorComponentFlags,
}

impl<'a> PipelineShaderStageCreateInfo<'a> {
    /// The vertex stage of `module`, entered at `main`.
    pub fn new(module: &'a ShaderModule<'a>) -> (r: Self)
        ensures
            r.flags == PipelineShaderStageCreateFlags(0),
            r.stage == ShaderStage::Vertex,
            r.module == module,
            r.name@ == "main"@,
    {
        Self {
            flags: PipelineShaderStageCreateFlags(0),
            stage: ShaderStage::Vertex,
            module,
            name: "main",
        }
    }

    pub fn with_flags(self, flags: PipelineShaderStageCreateFlags) -> (r: Self)
        ensures
            r == (PipelineShaderStageCreateInfo { flags, ..self }),
    {
        PipelineShaderStageCreateInfo { flags, ..self }
    }

    pub fn with_stage(self, stage: ShaderStage) -> (r: Self)
        ensures
            r == (PipelineShaderStageCreateInfo { stage, ..self }),
    {
        PipelineShaderStageCreateInfo { stage, ..self }
    }

    pub fn with_name(self, name: &'a str) -> (r: Self)
        ensures
            r == (PipelineShaderStageCreateInfo { name, ..self }),
    {
        PipelineShaderStageCreateInfo { name, ..self }
    }
}

impl<'a> PipelineVertexInputStateCreateInfo<'a> {
    /// No vertex data at all.
    pub fn new() -> (r: Self)
        ensures
            r.flags == PipelineVertexInputStateCreateFlags(0),
            r.vertex_binding_descriptions is None,
            r.vertex_attribute_descriptions is None,
    {
        Self {
            flags: PipelineVertexInputStateCreateFlags(0),
            vertex_binding_descriptions: None,
            vertex_attribute_descriptions: None,
        }
    }

    pub fn with_vertex_binding_descriptions(
        self,
        vertex_binding_descriptions: &'a [VertexInputBindingDescription],
    ) -> (r: Self)
        ensures
            r == (PipelineVertexInputStateCreateInfo {
                vertex_binding_descriptions: Some(vertex_binding_descriptions),
                ..self
            }),
    {
        PipelineVertexInputStateCreateInfo {
            vertex_binding_descriptions: Some(vertex_binding_descriptions),
            ..self
        }
    }

    pub fn with_vertex_attribute_descriptions(
        self,
        vertex_attribute_descriptions: &'a [VertexInputAttributeDescription],
    ) -> (r: Self)
        ensures
            r == (PipelineVertexInputStateCreateInfo {
                vertex_attribute_descriptions: Some(vertex_attribute_descriptions),
                ..self
            }),
    {
        PipelineVertexInputStateCreateInfo {
            vertex_attribute_descriptions: Some(vertex_attribute_descriptions),
            ..self
        }
    }
}

impl PipelineInputAssemblyStateCreateInfo {
    /// The state in which every field has its default.
    pub open spec fn spec_new() -> Self {
        PipelineInputAssemblyStateCreateInfo {
            flags: PipelineInputAssemblyStateCreateFlags(0),
            topology: PrimitiveTopology::PointList,
            primitive_restart_enable: false,
        }
    }

    pub fn new() -> (r: Self)
        ensures
            r == Self::spec_new(),
    {
        Self {
            flags: PipelineInputAssemblyStateCreateFlags(0),
            topology: PrimitiveTopology::PointList,
            primitive_restart_enable: false,
        }
    }

    pub fn with_topology(self, topology: PrimitiveTopology) -> (r: Self)
        ensures
            r == (PipelineInputAssemblyStateCreateInfo { topology, ..self }),
    {
        PipelineInputAssemblyStateCreateInfo { topology, ..self }
    }

    pub fn with_primitive_restart_enable(self, primitive_restart_enable: bool) -> (r: Self)
        ensures
            r == (PipelineInputAssemblyStateCreateInfo { primitive_restart_enable, ..self }),
    {
        PipelineInputAssemblyStateCreateInfo { primitive_restart_enable, ..self }
    }
}

impl Default for PipelineInputAssemblyStateCreateInfo {
    fn default() -> (r: Self)
        ensures
            r == PipelineInputAssemblyStateCreateInfo::spec_new(),
    {
        PipelineInputAssemblyStateCreateInfo::new()
    }
}

impl PipelineColorBlendAttachmentState {
    /// A state that blends nothing and writes no component: every field
    /// has its default.
    pub fn new() -> (r: Self)
        ensures
            !r.blend_enable,
            r.src_color_blend_factor == BlendFactor::Zero,
            r.dst_color_blend_factor == BlendFactor::Zero,
            r.color_blend_op == BlendOp::Add,
            r.src_alpha_blend_factor == BlendFactor::Zero,
            r.dst_alpha_blend_factor == BlendFactor::Zero,
            r.alpha_blend_op == BlendOp::Add,
            r.color_write_mask.spec_bits() == 0,
    {
        Self {
            blend_enable: false,
            src_color_blend_factor: BlendFactor::Zero,
            dst_color_blend_factor: BlendFactor::Zero,
            color_blend_op: BlendOp::Add,
            src_alpha_blend_factor: BlendFactor::Zero,
            dst_alpha_blend_factor: BlendFactor::Zero,
            alpha_blend_op: BlendOp::Add,
            color_write_mask: ColorComponentFlags::new(),
        }
    }

    pub fn with_blend_enable(self, blend_enable: bool) -> (r: Self)
        ensures
            r == (PipelineColorBlendAttachmentState { blend_enable, ..self }),
    {
        PipelineColorBlendAttachmentState { blend_enable, ..self }
    }

    pub fn with_src_color_blend_factor(self, src_color_blend_factor: BlendFactor) -> (r: Self)
        ensures
            r == (PipelineColorBlendAttachmentState { src_color_blend_factor, ..self }),
    {
        PipelineColorBlendAttachmentState { src_color_blend_factor, ..self }
    }

    pub fn with_dst_color_blend_factor(self, dst_color_blend_factor: BlendFactor) -> (r: Self)
        ensures
            r == (PipelineColorBlendAttachmentState { dst_color_blend_factor, ..self }),
    {
        PipelineColorBlendAttachmentState { dst_color_blend_factor, ..self }
    }

    pub fn with_color_blend_op(self, color_blend_op: BlendOp) -> (r: Self)
        ensures
            r == (PipelineColorBlendAttachmentState { color_blend_op, ..self }),
    {
        PipelineColorBlendAttachmentState { color_blend_op, ..self }
    }

    pub fn with_src_alpha_blend_factor(self, src_alpha_blend_factor: BlendFactor) -> (r: Self)
        ensures
            r == (PipelineColorBlendAttachmentState { src_alpha_blend_factor, ..self }),
    {
        PipelineColorBlendAttachmentState { src_alpha_blend_factor, ..self }
    }

    pub fn with_dst_alpha_blend_factor(self, dst_alpha_blend_factor: BlendFactor) -> (r: Self)
        ensures
            r == (PipelineColorBlendAttachmentState { dst_alpha_blend_factor, ..self }),
    {
        PipelineColorBlendAttachmentState { dst_alpha_blend_factor, ..self }
    }

    pub fn with_alpha_blend_op(self, alpha_blend_op: BlendOp) -> (r: Self)
        ensures
            r == (PipelineColorBlendAttachmentState { alpha_blend_op, ..self }),
    {
        PipelineColorBlendAttachmentState { alpha_blend_op, ..self }
    }

    pub fn with_color_write_mask(self, color_write_mask: ColorComponentFlags) -> (r: Self)
        ensures
            r == (PipelineColorBlendAttachmentState { color_write_mask, ..self }),
    {
        PipelineColorBlendAttachmentState { color_write_mask, ..self }
    }
}

impl FrontFace {
    /// The integer the native layer reads for this winding.
    pub open spec fn spec_raw(self) -> i32 {
        match self {
            FrontFace::CounterClockwise => 0,
            FrontFace::Clockwise => 1,
        }
    }

    /// The winding that the native layer writes as `raw`, if there is one.
    pub open spec fn spec_from_raw(raw: i32) -> Option<FrontFace> {
        match raw {
            0 => Some(FrontFace::CounterClockwise),
            1 => Some(FrontFace::Clockwise),
            _ => None,
        }
    }

    pub fn raw(&self) -> (r: i32)
        ensures
            r == self.spec_raw(),
    {
        match self {
            FrontFace::CounterClockwise => 0,
            FrontFace::Clockwise => 1,
        }
    }

    /// Reads a winding the native layer wrote. `None` is returned for an integer
    /// that stands for none.
    pub fn from_raw(raw: i32) -> (r: Option<FrontFace>)
        ensures
            r == FrontFace::spec_from_raw(raw),
    {
        match raw {
            0 => Some(FrontFace::CounterClockwise),
            1 => Some(FrontFace::Clockwise),
            _ => None,
        }
    }

    /// Reading the integer of a winding gives that winding back.
    pub proof fn lemma_raw_round_trip(v: FrontFace)
        ensures
            FrontFace::spec_from_raw(v.spec_raw()) == Some(v),
    {
    }

    /// A winding that is read from an integer has that integer.
    pub proof fn lemma_from_raw_sound(raw: i32)
        ensures
            FrontFace::spec_from_raw(raw) matches Some(v) ==> v.spec_raw() == raw,
    {
    }
}

impl VertexInputRate {
    /// The integer the native layer reads for this input rate.
    pub open spec fn spec_raw(self) -> i32 {
        match self {
            VertexInputRate::Vertex => 0,
            VertexInputRate::Instance => 1,
        }
    }

    /// The input rate that the native layer writes as `raw`, if there is one.
    pub open spec fn spec_from_raw(raw: i32) -> Option<VertexInputRate> {
        match raw {
            0 => Some(VertexInputRate::Vertex),
            1 => Some(VertexInputRate::Instance),
            _ => None,
        }
    }

    pub fn raw(&self) -> (r: i32)
        ensures
            r == self.spec_raw(),
    {
        match self {
            VertexInputRate::Vertex => 0,
            VertexInputRate::Instance => 1,
        }
    }

    /// Reads a input rate the native layer wrote. `None` is returned for an integer
    /// that stands for none.
    pub fn from_raw(raw: i32) -> (r: Option<VertexInputRate>)
        ensures
            r == VertexInputRate::spec_from_raw(raw),
    {
        match raw {
            0 => Some(VertexInputRate::Vertex),
            1 => Some(VertexInputRate::Instance),
            _ => None,
        }
    }

    /// Reading the integer of a input rate gives that input rate back.
    pub proof fn lemma_raw_round_trip(v: VertexInputRate)
        ensures
            VertexInputRate::spec_from_raw(v.spec_raw()) == Some(v),
    {
    }

    /// A input rate that is read from an integer has that integer.
    pub proof fn lemma_from_raw_sound(raw: i32)
        ensures
            VertexInputRate::spec_from_raw(raw) matches Some(v) ==> v.spec_raw() == raw,
    {
    }
}

impl PrimitiveTopology {
    /// The integer the native layer reads for this topology.
    pub open spec fn spec_raw(self) -> i32 {
        match self {
            PrimitiveTopology::PointList => 0,
            PrimitiveTopology::LineList => 1,
            PrimitiveTopology::LineStrip => 2,
            PrimitiveTopology::TriangleList => 3,
            PrimitiveTopology::TriangleStrip => 4,
            PrimitiveTopology::TriangleFan => 5,
            PrimitiveTopology::LineListWithAdjacency => 6,
            PrimitiveTopology::LineStripWithAdjacency => 7,
            PrimitiveTopology::TriangleListWithAdjacency => 8,
            PrimitiveTopology::TriangleStripWithAdjacency => 9,
            PrimitiveTopology::PatchList => 10,
        }
    }

    /// The topology that the native layer writes as `raw`, if there is one.
    pub open spec fn spec_from_raw(raw: i32) -> Option<PrimitiveTopology> {
        match raw {
            0 => Some(PrimitiveTopology::PointList),
            1 => Some(PrimitiveTopology::LineList),
            2 => Some(PrimitiveTopology::LineStrip),
            3 => Some(PrimitiveTopology::TriangleList),
            4 => Some(PrimitiveTopology::TriangleStrip),
            5 => Some(PrimitiveTopology::TriangleFan),
            6 => Some(PrimitiveTopology::LineListWithAdjacency),
            7 => Some(PrimitiveTopology::LineStripWithAdjacency),
            8 => Some(PrimitiveTopology::TriangleListWithAdjacency),
            9 => Some(PrimitiveTopology::TriangleStripWithAdjacency),
            10 => Some(PrimitiveTopology::PatchList),
            _ => None,
        }
    }

    pub fn raw(&self) -> (r: i32)
        ensures
            r == self.spec_raw(),
    {
        match self {
            PrimitiveTopology::PointList => 0,
            PrimitiveTopology::LineList => 1,
            PrimitiveTopology::LineStrip => 2,
            PrimitiveTopology::TriangleList => 3,
            PrimitiveTopology::TriangleStrip => 4,
            PrimitiveTopology::TriangleFan => 5,
            PrimitiveTopology::LineListWithAdjacency => 6,
            PrimitiveTopology::LineStripWithAdjacency => 7,
            PrimitiveTopology::TriangleListWithAdjacency => 8,
            PrimitiveTopology::TriangleStripWithAdjacency => 9,
            PrimitiveTopology::PatchList => 10,
        }
    }

    /// Reads a topology the native layer wrote. `None` is returned for an integer
    /// that stands for none.
    pub fn from_raw(raw: i32) -> (r: Option<PrimitiveTopology>)
        ensures
            r == PrimitiveTopology::spec_from_raw(raw),
    {
        match raw {
            0 => Some(PrimitiveTopology::PointList),
            1 => Some(PrimitiveTopology::LineList),
            2 => Some(PrimitiveTopology::LineStrip),
            3 => Some(PrimitiveTopology::TriangleList),
            4 => Some(PrimitiveTopology::TriangleStrip),
            5 => Some(PrimitiveTopology::TriangleFan),
            6 => Some(PrimitiveTopology::LineListWithAdjacency),
            7 => Some(PrimitiveTopology::LineStripWithAdjacency),
            8 => Some(PrimitiveTopology::TriangleListWithAdjacency),
            9 => Some(PrimitiveTopology::TriangleStripWithAdjacency),
            10 => Some(PrimitiveTopology::PatchList),
            _ => None,
        }
    }

    /// Reading the integer of a topology gives that topology back.
    pub proof fn lemma_raw_round_trip(v: PrimitiveTopology)
        ensures
            PrimitiveTopology::spec_from_raw(v.spec_raw()) == Some(v),
    {
    }

    /// A topology that is read from an integer has that integer.
    pub proof fn lemma_from_raw_sound(raw: i32)
        ensures
            PrimitiveTopology::spec_from_raw(raw) matches Some(v) ==> v.spec_raw() == raw,
    {
    }
}

impl PolygonMode {
    /// The integer the native layer reads for this polygon mode.
    pub open spec fn spec_raw(self) -> i32 {
        match self {
            PolygonMode::Fill => 0,
            PolygonMode::Line => 1,
            PolygonMode::Point => 2,
            PolygonMode::FillRectangleNv => 1000153000,
        }
    }

    /// The polygon mode that the native layer writes as `raw`, if there is one.
    pub open spec fn spec_from_raw(raw: i32) -> Option<PolygonMode> {
        match raw {
            0 => Some(PolygonMode::Fill),
            1 => Some(PolygonMode::Line),
            2 => Some(PolygonMode::Point),
            1000153000 => Some(PolygonMode::FillRectangleNv),
            _ => None,
        }
    }

    pub fn raw(&self) -> (r: i32)
        ensures
            r == self.spec_raw(),
    {
        match self {
            PolygonMode::Fill => 0,
            PolygonMode::Line => 1,
            PolygonMode::Point => 2,
            PolygonMode::FillRectangleNv => 1000153000,
        }
    }

    /// Reads a polygon mode the native layer wrote. `None` is returned for an integer
    /// that stands for none.
    pub fn from_raw(raw: i32) -> (r: Option<PolygonMode>)
        ensures
            r == PolygonMode::spec_from_raw(raw),
    {
        match raw {
            0 => Some(PolygonMode::Fill),
            1 => Some(PolygonMode::Line),
            2 => Some(PolygonMode::Point),
            1000153000 => Some(PolygonMode::FillRectangleNv),
            _ => None,
        }
    }

    /// Reading the integer of a polygon mode gives that polygon mode back.
    pub proof fn lemma_raw_round_trip(v: PolygonMode)
        ensures
            PolygonMode::spec_from_raw(v.spec_raw()) == Some(v),
    {
    }

    /// A polygon mode that is read from an integer has that integer.
    pub proof fn lemma_from_raw_sound(raw: i32)
        ensures
            PolygonMode::spec_from_raw(raw) matches Some(v) ==> v.spec_raw() == raw,
    {
    }
}

impl LogicOp {
    /// The integer the native layer reads for this logical operation.
    pub open spec fn spec_raw(self) -> i32 {
        match self {
            LogicOp::Clear => 0,
            LogicOp::And => 1,
            LogicOp::AndReverse => 2,
            LogicOp::Copy => 3,
            LogicOp::AndInverted => 4,
            LogicOp::NoOp => 5,
            LogicOp::Xor => 6,
            LogicOp::Or => 7,
            LogicOp::Nor => 8,
            LogicOp::Equivalent => 9,
            LogicOp::Invert => 10,
            LogicOp::OrReverse => 11,
            LogicOp::CopyInverted => 12,
            LogicOp::OrInverted => 13,
            LogicOp::Nand => 14,
            LogicOp::SetOnes => 15,
        }
    }

    /// The logical operation that the native layer writes as `raw`, if there is one.
    pub open spec fn spec_from_raw(raw: i32) -> Option<LogicOp> {
        match raw {
            0 => Some(LogicOp::Clear),
            1 => Some(LogicOp::And),
            2 => Some(LogicOp::AndReverse),
            3 => Some(LogicOp::Copy),
            4 => Some(LogicOp::AndInverted),
            5 => Some(LogicOp::NoOp),
            6 => Some(LogicOp::Xor),
            7 => Some(LogicOp::Or),
            8 => Some(LogicOp::Nor),
            9 => Some(LogicOp::Equivalent),
            10 => Some(LogicOp::Invert),
            11 => Some(LogicOp::OrReverse),
            12 => Some(LogicOp::CopyInverted),
            13 => Some(LogicOp::OrInverted),
            14 => Some(LogicOp::Nand),
            15 => Some(LogicOp::SetOnes),
            _ => None,
        }
    }

    pub fn raw(&self) -> (r: i32)
        ensures
            r == self.spec_raw(),
    {
        match self {
            LogicOp::Clear => 0,
            LogicOp::And => 1,
            LogicOp::AndReverse => 2,
            LogicOp::Copy => 3,
            LogicOp::AndInverted => 4,
            LogicOp::NoOp => 5,
            LogicOp::Xor => 6,
            LogicOp::Or => 7,
            LogicOp::Nor => 8,
            LogicOp::Equivalent => 9,
            LogicOp::Invert => 10,
            LogicOp::OrReverse => 11,
            LogicOp::CopyInverted => 12,
            LogicOp::OrInverted => 13,
            LogicOp::Nand => 14,
            LogicOp::SetOnes => 15,
        }
    }

    /// Reads a logical operation the native layer wrote. `None` is returned for an integer
    /// that stands for none.
    pub fn from_raw(raw: i32) -> (r: Option<LogicOp>)
        ensures
            r == LogicOp::spec_from_raw(raw),
    {
        match raw {
            0 => Some(LogicOp::Clear),
            1 => Some(LogicOp::And),
            2 => Some(LogicOp::AndReverse),
            3 => Some(LogicOp::Copy),
            4 => Some(LogicOp::AndInverted),
            5 => Some(LogicOp::NoOp),
            6 => Some(LogicOp::Xor),
            7 => Some(LogicOp::Or),
            8 => Some(LogicOp::Nor),
            9 => Some(LogicOp::Equivalent),
            10 => Some(LogicOp::Invert),
            11 => Some(LogicOp::OrReverse),
            12 => Some(LogicOp::CopyInverted),
            13 => Some(LogicOp::OrInverted),
            14 => Some(LogicOp::Nand),
            15 => Some(LogicOp::SetOnes),
            _ => None,
        }
    }

    /// Reading the integer of a logical operation gives that logical operation back.
    pub proof fn lemma_raw_round_trip(v: LogicOp)
        ensures
            LogicOp::spec_from_raw(v.spec_raw()) == Some(v),
    {
    }

    /// A logical operation that is read from an integer has that integer.
    pub proof fn lemma_from_raw_sound(raw: i32)
        ensures
            LogicOp::spec_from_raw(raw) matches Some(v) ==> v.spec_raw() == raw,
    {
    }
}

impl ShaderStage {
    /// The integer the native layer reads for this shader stage.
    pub open spec fn spec_raw(self) -> u32 {
        match self {
            ShaderStage::Vertex => 0x00000001,
            ShaderStage::TessellationControl => 0x00000002,
            ShaderStage::TessellationEvaluation => 0x00000004,
            ShaderStage::Geometry => 0x00000008,
            ShaderStage::Fragment => 0x00000010,
            ShaderStage::Compute => 0x00000020,
            ShaderStage::AllGraphics => 0x0000001F,
            ShaderStage::All => 0x7FFFFFFF,
            ShaderStage::RaygenKhr => 0x00000100,
            ShaderStage::AnyHitKhr => 0x00000200,
            ShaderStage::ClosestHitKhr => 0x00000400,
            ShaderStage::MissKhr => 0x00000800,
            ShaderStage::IntersectionKhr => 0x00001000,
            ShaderStage::CallableKhr => 0x00002000,
            ShaderStage::TaskNv => 0x00000040,
            ShaderStage::MeshNv => 0x00000080,
            ShaderStage::SubpassShadingHuawei => 0x00004000,
        }
    }

    /// The shader stage that the native layer writes as `raw`, if there is one.
    pub open spec fn spec_from_raw(raw: u32) -> Option<ShaderStage> {
        match raw {
            0x00000001 => Some(ShaderStage::Vertex),
            0x00000002 => Some(ShaderStage::TessellationControl),
            0x00000004 => Some(ShaderStage::TessellationEvaluation),
            0x00000008 => Some(ShaderStage::Geometry),
            0x00000010 => Some(ShaderStage::Fragment),
            0x00000020 => Some(ShaderStage::Compute),
            0x0000001F => Some(ShaderStage::AllGraphics),
            0x7FFFFFFF => Some(ShaderStage::All),
            0x00000100 => Some(ShaderStage::RaygenKhr),
            0x00000200 => Some(ShaderStage::AnyHitKhr),
            0x00000400 => Some(ShaderStage::ClosestHitKhr),
            0x00000800 => Some(ShaderStage::MissKhr),
            0x00001000 => Some(ShaderStage::IntersectionKhr),
            0x00002000 => Some(ShaderStage::CallableKhr),
            0x00000040 => Some(ShaderStage::TaskNv),
            0x00000080 => Some(ShaderStage::MeshNv),
            0x00004000 => Some(ShaderStage::SubpassShadingHuawei),
            _ => None,
        }
    }

    pub fn raw(&self) -> (r: u32)
        ensures
            r == self.spec_raw(),
    {
        match self {
            ShaderStage::Vertex => 0x00000001,
            ShaderStage::TessellationControl => 0x00000002,
            ShaderStage::TessellationEvaluation => 0x00000004,
            ShaderStage::Geometry => 0x00000008,
            ShaderStage::Fragment => 0x00000010,
            ShaderStage::Compute => 0x00000020,
            ShaderStage::AllGraphics => 0x0000001F,
            ShaderStage::All => 0x7FFFFFFF,
            ShaderStage::RaygenKhr => 0x00000100,
            ShaderStage::AnyHitKhr => 0x00000200,
            ShaderStage::ClosestHitKhr => 0x00000400,
            ShaderStage::MissKhr => 0x00000800,
            ShaderStage::IntersectionKhr => 0x00001000,
            ShaderStage::CallableKhr => 0x00002000,
            ShaderStage::TaskNv => 0x00000040,
            ShaderStage::MeshNv => 0x00000080,
            ShaderStage::SubpassShadingHuawei => 0x00004000,
        }
    }

    /// Reads a shader stage the native layer wrote. `None` is returned for an integer
    /// that stands for none.
    pub fn from_raw(raw: u32) -> (r: Option<ShaderStage>)
        ensures
            r == ShaderStage::spec_from_raw(raw),
    {
        match raw {
            0x00000001 => Some(ShaderStage::Vertex),
            0x00000002 => Some(ShaderStage::TessellationControl),
            0x00000004 => Some(ShaderStage::TessellationEvaluation),
            0x00000008 => Some(ShaderStage::Geometry),
            0x00000010 => Some(ShaderStage::Fragment),
            0x00000020 => Some(ShaderStage::Compute),
            0x0000001F => Some(ShaderStage::AllGraphics),
            0x7FFFFFFF => Some(ShaderStage::All),
            0x00000100 => Some(ShaderStage::RaygenKhr),
            0x00000200 => Some(ShaderStage::AnyHitKhr),
            0x00000400 => Some(ShaderStage::ClosestHitKhr),
            0x00000800 => Some(ShaderStage::MissKhr),
            0x00001000 => Some(ShaderStage::IntersectionKhr),
            0x00002000 => Some(ShaderStage::CallableKhr),
            0x00000040 => Some(ShaderStage::TaskNv),
            0x00000080 => Some(ShaderStage::MeshNv),
            0x00004000 => Some(ShaderStage::SubpassShadingHuawei),
            _ => None,
        }
    }

    /// Reading the integer of a shader stage gives that shader stage back.
    pub proof fn lemma_raw_round_trip(v: ShaderStage)
        ensures
            ShaderStage::spec_from_raw(v.spec_raw()) == Some(v),
    {
    }

    /// A shader stage that is read from an integer has that integer.
    pub proof fn lemma_from_raw_sound(raw: u32)
        ensures
            ShaderStage::spec_from_raw(raw) matches Some(v) ==> v.spec_raw() == raw,
    {
    }
}

impl CullMode {
    /// The integer the native layer reads for this cull mode.
    pub open spec fn spec_raw(self) -> u32 {
        match self {
            CullMode::Neither => 0,
            CullMode::Front => 0x00000001,
            CullMode::Back => 0x00000002,
            CullMode::FrondAndBack => 0x00000003,
        }
    }

    /// The cull mode that the native layer writes as `raw`, if there is one.
    pub open spec fn spec_from_raw(raw: u32) -> Option<CullMode> {
        match raw {
            0 => Some(CullMode::Neither),
            0x00000001 => Some(CullMode::Front),
            0x00000002 => Some(CullMode::Back),
            0x00000003 => Some(CullMode::FrondAndBack),
            _ => None,
        }
    }

    pub fn raw(&self) -> (r: u32)
        ensures
            r == self.spec_raw(),
    {
        match self {
            CullMode::Neither => 0,
            CullMode::Front => 0x00000001,
            CullMode::Back => 0x00000002,
            CullMode::FrondAndBack => 0x00000003,
        }
    }

    /// Reads a cull mode the native layer wrote. `None` is returned for an integer
    /// that stands for none.
    pub fn from_raw(raw: u32) -> (r: Option<CullMode>)
        ensures
            r == CullMode::spec_from_raw(raw),
    {
        match raw {
            0 => Some(CullMode::Neither),
            0x00000001 => Some(CullMode::Front),
            0x00000002 => Some(CullMode::Back),
            0x00000003 => Some(CullMode::FrondAndBack),
            _ => None,
        }
    }

    /// Reading the integer of a cull mode gives that cull mode back.
    pub proof fn lemma_raw_round_trip(v: CullMode)
        ensures
            CullMode::spec_from_raw(v.spec_raw()) == Some(v),
    {
    }

    /// A cull mode that is read from an integer has that integer.
    pub proof fn lemma_from_raw_sound(raw: u32)
        ensures
            CullMode::spec_from_raw(raw) matches Some(v) ==> v.spec_raw() == raw,
    {
    }
}

impl SampleCount {
    /// The integer the native layer reads for this sample count.
    pub open spec fn spec_raw(self) -> u32 {
        match self {
            SampleCount::OneBit => 0x00000001,
            SampleCount::TwoBit => 0x00000002,
            SampleCount::FourBit => 0x00000004,
            SampleCount::EightBit => 0x00000008,
            SampleCount::SixteenBit => 0x00000010,
            SampleCount::ThirtytwoBit => 0x00000020,
            SampleCount::SixtyfourBit => 0x00000040,
        }
    }

    /// The sample count that the native layer writes as `raw`, if there is one.
    pub open spec fn spec_from_raw(raw: u32) -> Option<SampleCount> {
        match raw {
            0x00000001 => Some(SampleCount::OneBit),
            0x00000002 => Some(SampleCount::TwoBit),
            0x00000004 => Some(SampleCount::FourBit),
            0x00000008 => Some(SampleCount::EightBit),
            0x00000010 => Some(SampleCount::SixteenBit),
            0x00000020 => Some(SampleCount::ThirtytwoBit),
            0x00000040 => Some(SampleCount::SixtyfourBit),
            _ => None,
        }
    }

    pub fn raw(&self) -> (r: u32)
        ensures
            r == self.spec_raw(),
    {
        match self {
            SampleCount::OneBit => 0x00000001,
            SampleCount::TwoBit => 0x00000002,
            SampleCount::FourBit => 0x00000004,
            SampleCount::EightBit => 0x00000008,
            SampleCount::SixteenBit => 0x00000010,
            SampleCount::ThirtytwoBit => 0x00000020,
            SampleCount::SixtyfourBit => 0x00000040,
        }
    }

    /// Reads a sample count the native layer wrote. `None` is returned for an integer
    /// that stands for none.
    pub fn from_raw(raw: u32) -> (r: Option<SampleCount>)
        ensures
            r == SampleCount::spec_from_raw(raw),
    {
        match raw {
            0x00000001 => Some(SampleCount::OneBit),
            0x00000002 => Some(SampleCount::TwoBit),
            0x00000004 => Some(SampleCount::FourBit),
            0x00000008 => Some(SampleCount::EightBit),
            0x00000010 => Some(SampleCount::SixteenBit),
            0x00000020 => Some(SampleCount::ThirtytwoBit),
            0x00000040 => Some(SampleCount::SixtyfourBit),
            _ => None,
        }
    }

    /// Reading the integer of a sample count gives that sample count back.
    pub proof fn lemma_raw_round_trip(v: SampleCount)
        ensures
            SampleCount::spec_from_raw(v.spec_raw()) == Some(v),
    {
    }

    /// A sample count that is read from an integer has that integer.
    pub proof fn lemma_from_raw_sound(raw: u32)
        ensures
            SampleCount::spec_from_raw(raw) matches Some(v) ==> v.spec_raw() == raw,
    {
    }
}

impl BlendFactor {
    /// The integer the native layer reads for this blend factor.
    pub open spec fn spec_raw(self) -> i32 {
        match self {
            BlendFactor::Zero => 0,
            BlendFactor::One => 1,
            BlendFactor::SrcColor => 2,
            BlendFactor::OneMinusSrcColor => 3,
            BlendFactor::DstColor => 4,
            BlendFactor::OneMinusDstColor => 5,
            BlendFactor::SrcAlpha => 6,
            BlendFactor::OneMinusSrcAlpha => 7,
            BlendFactor::DstAlpha => 8,
            BlendFactor::OneMinusDstAlpha => 9,
            BlendFactor::ConstantColor => 10,
            BlendFactor::OneMinusConstantColor => 11,
            BlendFactor::ConstantAlpha => 12,
            BlendFactor::OneMinusConstantAlpha => 13,
            BlendFactor::SrcAlphaSaturate => 14,
            BlendFactor::Src1Color => 15,
            BlendFactor::OneMinusSrc1Color => 16,
            BlendFactor::Src1Alpha => 17,
            BlendFactor::OneMinusSrc1Alpha => 18,
        }
    }

    /// The blend factor that the native layer writes as `raw`, if there is one.
    pub open spec fn spec_from_raw(raw: i32) -> Option<BlendFactor> {
        match raw {
            0 => Some(BlendFactor::Zero),
            1 => Some(BlendFactor::One),
            2 => Some(BlendFactor::SrcColor),
            3 => Some(BlendFactor::OneMinusSrcColor),
            4 => Some(BlendFactor::DstColor),
            5 => Some(BlendFactor::OneMinusDstColor),
            6 => Some(BlendFactor::SrcAlpha),
            7 => Some(BlendFactor::OneMinusSrcAlpha),
            8 => Some(BlendFactor::DstAlpha),
            9 => Some(BlendFactor::OneMinusDstAlpha),
            10 => Some(BlendFactor::ConstantColor),
            11 => Some(BlendFactor::OneMinusConstantColor),
            12 => Some(BlendFactor::ConstantAlpha),
            13 => Some(BlendFactor::OneMinusConstantAlpha),
            14 => Some(BlendFactor::SrcAlphaSaturate),
            15 => Some(BlendFactor::Src1Color),
            16 => Some(BlendFactor::OneMinusSrc1Color),
            17 => Some(BlendFactor::Src1Alpha),
            18 => Some(BlendFactor::OneMinusSrc1Alpha),
            _ => None,
        }
    }

    pub fn raw(&self) -> (r: i32)
        ensures
            r == self.spec_raw(),
    {
        match self {
            BlendFactor::Zero => 0,
            BlendFactor::One => 1,
            BlendFactor::SrcColor => 2,
            BlendFactor::OneMinusSrcColor => 3,
            BlendFactor::DstColor => 4,
            BlendFactor::OneMinusDstColor => 5,
            BlendFactor::SrcAlpha => 6,
            BlendFactor::OneMinusSrcAlpha => 7,
            BlendFactor::DstAlpha => 8,
            BlendFactor::OneMinusDstAlpha => 9,
            BlendFactor::ConstantColor => 10,
            BlendFactor::OneMinusConstantColor => 11,
            BlendFactor::ConstantAlpha => 12,
            BlendFactor::OneMinusConstantAlpha => 13,
            BlendFactor::SrcAlphaSaturate => 14,
            BlendFactor::Src1Color => 15,
            BlendFactor::OneMinusSrc1Color => 16,
            BlendFactor::Src1Alpha => 17,
            BlendFactor::OneMinusSrc1Alpha => 18,
        }
    }

    /// Reads a blend factor the native layer wrote. `None` is returned for an integer
    /// that stands for none.
    pub fn from_raw(raw: i32) -> (r: Option<BlendFactor>)
        ensures
            r == BlendFactor::spec_from_raw(raw),
    {
        match raw {
            0 => Some(BlendFactor::Zero),
            1 => Some(BlendFactor::One),
            2 => Some(BlendFactor::SrcColor),
            3 => Some(BlendFactor::OneMinusSrcColor),
            4 => Some(BlendFactor::DstColor),
            5 => Some(BlendFactor::OneMinusDstColor),
            6 => Some(BlendFactor::SrcAlpha),
            7 => Some(BlendFactor::OneMinusSrcAlpha),
            8 => Some(BlendFactor::DstAlpha),
            9 => Some(BlendFactor::OneMinusDstAlpha),
            10 => Some(BlendFactor::ConstantColor),
            11 => Some(BlendFactor::OneMinusConstantColor),
            12 => Some(BlendFactor::ConstantAlpha),
            13 => Some(BlendFactor::OneMinusConstantAlpha),
            14 => Some(BlendFactor::SrcAlphaSaturate),
            15 => Some(BlendFactor::Src1Color),
            16 => Some(BlendFactor::OneMinusSrc1Color),
            17 => Some(BlendFactor::Src1Alpha),
            18 => Some(BlendFactor::OneMinusSrc1Alpha),
            _ => None,
        }
    }

    /// Reading the integer of a blend factor gives that blend factor back.
    pub proof fn lemma_raw_round_trip(v: BlendFactor)
        ensures
            BlendFactor::spec_from_raw(v.spec_raw()) == Some(v),
    {
    }

    /// A blend factor that is read from an integer has that integer.
    pub proof fn lemma_from_raw_sound(raw: i32)
        ensures
            BlendFactor::spec_from_raw(raw) matches Some(v) ==> v.spec_raw() == raw,
    {
    }
}

impl BlendOp {
    /// The integer the native layer reads for this blend operation.
    pub open spec fn spec_raw(self) -> i32 {
        match self {
            BlendOp::Add => 0,
            BlendOp::Subtract => 1,
            BlendOp::ReverseSubtract => 2,
            BlendOp::Min => 3,
            BlendOp::Max => 4,
            BlendOp::ZeroExt => 1000148000,
            BlendOp::SrcExt => 1000148001,
            BlendOp::DstExt => 1000148002,
            BlendOp::SrcOverExt => 1000148003,
            BlendOp::DstOverExt => 1000148004,
            BlendOp::SrcInExt => 1000148005,
            BlendOp::DstInExt => 1000148006,
            BlendOp::SrcOutExt => 1000148007,
            BlendOp::DstOutExt => 1000148008,
            BlendOp::SrcAtopExt => 1000148009,
            BlendOp::DstAtopExt => 1000148010,
            BlendOp::XorExt => 1000148011,
            BlendOp::MultiplyExt => 1000148012,
            BlendOp::ScreenExt => 1000148013,
            BlendOp::OverlayExt => 1000148014,
            BlendOp::DarkenExt => 1000148015,
            BlendOp::LightenExt => 1000148016,
            BlendOp::ColordodgeExt => 1000148017,
            BlendOp::ColorburnExt => 1000148018,
            BlendOp::HardlightExt => 1000148019,
            BlendOp::SoftlightExt => 1000148020,
            BlendOp::DifferenceExt => 1000148021,
            BlendOp::ExclusionExt => 1000148022,
            BlendOp::InvertExt => 1000148023,
            BlendOp::InvertRgbExt => 1000148024,
            BlendOp::LineardodgeExt => 1000148025,
            BlendOp::LinearburnExt => 1000148026,
            BlendOp::VividlightExt => 1000148027,
            BlendOp::LinearlightExt => 1000148028,
            BlendOp::PinlightExt => 1000148029,
            BlendOp::HardmixExt => 1000148030,
            BlendOp::HslHueExt => 1000148031,
            BlendOp::HslSaturationExt => 1000148032,
            BlendOp::HslColorExt => 1000148033,
            BlendOp::HslLuminosityExt => 1000148034,
            BlendOp::PlusExt => 1000148035,
            BlendOp::PlusClampedExt => 1000148036,
            BlendOp::PlusClampedAlphaExt => 1000148037,
            BlendOp::PlusDarkerExt => 1000148038,
            BlendOp::MinusExt => 1000148039,
            BlendOp::MinusClampedExt => 1000148040,
            BlendOp::ContrastExt => 1000148041,
            BlendOp::InvertOvgExt => 1000148042,
            BlendOp::RedExt => 1000148043,
            BlendOp::GreenExt => 1000148044,
            BlendOp::BlueExt => 1000148045,
        }
    }

    /// The blend operation that the native layer writes as `raw`, if there is one.
    pub open spec fn spec_from_raw(raw: i32) -> Option<BlendOp> {
        match raw {
            0 => Some(BlendOp::Add),
            1 => Some(BlendOp::Subtract),
            2 => Some(BlendOp::ReverseSubtract),
            3 => Some(BlendOp::Min),
            4 => Some(BlendOp::Max),
            1000148000 => Some(BlendOp::ZeroExt),
            1000148001 => Some(BlendOp::SrcExt),
            1000148002 => Some(BlendOp::DstExt),
            1000148003 => Some(BlendOp::SrcOverExt),
            1000148004 => Some(BlendOp::DstOverExt),
            1000148005 => Some(BlendOp::SrcInExt),
            1000148006 => Some(BlendOp::DstInExt),
            1000148007 => Some(BlendOp::SrcOutExt),
            1000148008 => Some(BlendOp::DstOutExt),
            1000148009 => Some(BlendOp::SrcAtopExt),
            1000148010 => Some(BlendOp::DstAtopExt),
            1000148011 => Some(BlendOp::XorExt),
            1000148012 => Some(BlendOp::MultiplyExt),
            1000148013 => Some(BlendOp::ScreenExt),
            1000148014 => Some(BlendOp::OverlayExt),
            1000148015 => Some(BlendOp::DarkenExt),
            1000148016 => Some(BlendOp::LightenExt),
            1000148017 => Some(BlendOp::ColordodgeExt),
            1000148018 => Some(BlendOp::ColorburnExt),
            1000148019 => Some(BlendOp::HardlightExt),
            1000148020 => Some(BlendOp::SoftlightExt),
            1000148021 => Some(BlendOp::DifferenceExt),
            1000148022 => Some(BlendOp::ExclusionExt),
            1000148023 => Some(BlendOp::InvertExt),
            1000148024 => Some(BlendOp::InvertRgbExt),
            1000148025 => Some(BlendOp::LineardodgeExt),
            1000148026 => Some(BlendOp::LinearburnExt),
            1000148027 => Some(BlendOp::VividlightExt),
            1000148028 => Some(BlendOp::LinearlightExt),
            1000148029 => Some(BlendOp::PinlightExt),
            1000148030 => Some(BlendOp::HardmixExt),
            1000148031 => Some(BlendOp::HslHueExt),
            1000148032 => Some(BlendOp::HslSaturationExt),
            1000148033 => Some(BlendOp::HslColorExt),
            1000148034 => Some(BlendOp::HslLuminosityExt),
            1000148035 => Some(BlendOp::PlusExt),
            1000148036 => Some(BlendOp::PlusClampedExt),
            1000148037 => Some(BlendOp::PlusClampedAlphaExt),
            1000148038 => Some(BlendOp::PlusDarkerExt),
            1000148039 => Some(BlendOp::MinusExt),
            1000148040 => Some(BlendOp::MinusClampedExt),
            1000148041 => Some(BlendOp::ContrastExt),
            1000148042 => Some(BlendOp::InvertOvgExt),
            1000148043 => Some(BlendOp::RedExt),
            1000148044 => Some(BlendOp::GreenExt),
            1000148045 => Some(BlendOp::BlueExt),
            _ => None,
        }
    }

    pub fn raw(&self) -> (r: i32)
        ensures
            r == self.spec_raw(),
    {
        match self {
            BlendOp::Add => 0,
            BlendOp::Subtract => 1,
            BlendOp::ReverseSubtract => 2,
            BlendOp::Min => 3,
            BlendOp::Max => 4,
            BlendOp::ZeroExt => 1000148000,
            BlendOp::SrcExt => 1000148001,
            BlendOp::DstExt => 1000148002,
            BlendOp::SrcOverExt => 1000148003,
            BlendOp::DstOverExt => 1000148004,
            BlendOp::SrcInExt => 1000148005,
            BlendOp::DstInExt => 1000148006,
            BlendOp::SrcOutExt => 1000148007,
            BlendOp::DstOutExt => 1000148008,
            BlendOp::SrcAtopExt => 1000148009,
            BlendOp::DstAtopExt => 1000148010,
            BlendOp::XorExt => 1000148011,
            BlendOp::MultiplyExt => 1000148012,
            BlendOp::ScreenExt => 1000148013,
            BlendOp::OverlayExt => 1000148014,
            BlendOp::DarkenExt => 1000148015,
            BlendOp::LightenExt => 1000148016,
            BlendOp::ColordodgeExt => 1000148017,
            BlendOp::ColorburnExt => 1000148018,
            BlendOp::HardlightExt => 1000148019,
            BlendOp::SoftlightExt => 1000148020,
            BlendOp::DifferenceExt => 1000148021,
            BlendOp::ExclusionExt => 1000148022,
            BlendOp::InvertExt => 1000148023,
            BlendOp::InvertRgbExt => 1000148024,
            BlendOp::LineardodgeExt => 1000148025,
            BlendOp::LinearburnExt => 1000148026,
            BlendOp::VividlightExt => 1000148027,
            BlendOp::LinearlightExt => 1000148028,
            BlendOp::PinlightExt => 1000148029,
            BlendOp::HardmixExt => 1000148030,
            BlendOp::HslHueExt => 1000148031,
            BlendOp::HslSaturationExt => 1000148032,
            BlendOp::HslColorExt => 1000148033,
            BlendOp::HslLuminosityExt => 1000148034,
            BlendOp::PlusExt => 1000148035,
            BlendOp::PlusClampedExt => 1000148036,
            BlendOp::PlusClampedAlphaExt => 1000148037,
            BlendOp::PlusDarkerExt => 1000148038,
            BlendOp::MinusExt => 1000148039,
            BlendOp::MinusClampedExt => 1000148040,
            BlendOp::ContrastExt => 1000148041,
            BlendOp::InvertOvgExt => 1000148042,
            BlendOp::RedExt => 1000148043,
            BlendOp::GreenExt => 1000148044,
            BlendOp::BlueExt => 1000148045,
        }
    }

    /// Reads a blend operation the native layer wrote. `None` is returned for an integer
    /// that stands for none.
    pub fn from_raw(raw: i32) -> (r: Option<BlendOp>)
        ensures
            r == BlendOp::spec_from_raw(raw),
    {
        match raw {
            0 => Some(BlendOp::Add),
            1 => Some(BlendOp::Subtract),
            2 => Some(BlendOp::ReverseSubtract),
            3 => Some(BlendOp::Min),
            4 => Some(BlendOp::Max),
            1000148000 => Some(BlendOp::ZeroExt),
            1000148001 => Some(BlendOp::SrcExt),
            1000148002 => Some(BlendOp::DstExt),
            1000148003 => Some(BlendOp::SrcOverExt),
            1000148004 => Some(BlendOp::DstOverExt),
            1000148005 => Some(BlendOp::SrcInExt),
            1000148006 => Some(BlendOp::DstInExt),
            1000148007 => Some(BlendOp::SrcOutExt),
            1000148008 => Some(BlendOp::DstOutExt),
            1000148009 => Some(BlendOp::SrcAtopExt),
            1000148010 => Some(BlendOp::DstAtopExt),
            1000148011 => Some(BlendOp::XorExt),
            1000148012 => Some(BlendOp::MultiplyExt),
            1000148013 => Some(BlendOp::ScreenExt),
            1000148014 => Some(BlendOp::OverlayExt),
            1000148015 => Some(BlendOp::DarkenExt),
            1000148016 => Some(BlendOp::LightenExt),
            1000148017 => Some(BlendOp::ColordodgeExt),
            1000148018 => Some(BlendOp::ColorburnExt),
            1000148019 => Some(BlendOp::HardlightExt),
            1000148020 => Some(BlendOp::SoftlightExt),
            1000148021 => Some(BlendOp::DifferenceExt),
            1000148022 => Some(BlendOp::ExclusionExt),
            1000148023 => Some(BlendOp::InvertExt),
            1000148024 => Some(BlendOp::InvertRgbExt),
            1000148025 => Some(BlendOp::LineardodgeExt),
            1000148026 => Some(BlendOp::LinearburnExt),
            1000148027 => Some(BlendOp::VividlightExt),
            1000148028 => Some(BlendOp::LinearlightExt),
            1000148029 => Some(BlendOp::PinlightExt),
            1000148030 => Some(BlendOp::HardmixExt),
            1000148031 => Some(BlendOp::HslHueExt),
            1000148032 => Some(BlendOp::HslSaturationExt),
            1000148033 => Some(BlendOp::HslColorExt),
            1000148034 => Some(BlendOp::HslLuminosityExt),
            1000148035 => Some(BlendOp::PlusExt),
            1000148036 => Some(BlendOp::PlusClampedExt),
            1000148037 => Some(BlendOp::PlusClampedAlphaExt),
            1000148038 => Some(BlendOp::PlusDarkerExt),
            1000148039 => Some(BlendOp::MinusExt),
            1000148040 => Some(BlendOp::MinusClampedExt),
            1000148041 => Some(BlendOp::ContrastExt),
            1000148042 => Some(BlendOp::InvertOvgExt),
            1000148043 => Some(BlendOp::RedExt),
            1000148044 => Some(BlendOp::GreenExt),
            1000148045 => Some(BlendOp::BlueExt),
            _ => None,
        }
    }

    /// Reading the integer of a blend operation gives that blend operation back.
    pub proof fn lemma_raw_round_trip(v: BlendOp)
        ensures
            BlendOp::spec_from_raw(v.spec_raw()) == Some(v),
    {
    }

    /// A blend operation that is read from an integer has that integer.
    pub proof fn lemma_from_raw_sound(raw: i32)
        ensures
            BlendOp::spec_from_raw(raw) matches Some(v) ==> v.spec_raw() == raw,
    {
    }
}

/// How two values are compared in a depth or stencil test.
#[derive(Debug, Clone, Copy, PartialEq, Eq, Structural)]
pub enum CompareOp {
    Never,
    Less,
    Equal,
    LessOrEqual,
    Greater,
    NotEqual,
    GreaterOrEqual,
    Always,
}

impl CompareOp {
    /// The integer the native layer reads for this comparison.
    pub open spec fn spec_raw(self) -> i32 {
        match self {
            CompareOp::Never => 0,
            CompareOp::Less => 1,
            CompareOp::Equal => 2,
            CompareOp::LessOrEqual => 3,
            CompareOp::Greater => 4,
            CompareOp::NotEqual => 5,
            CompareOp::GreaterOrEqual => 6,
            CompareOp::Always => 7,
        }
    }

    /// The comparison that the native layer writes as `raw`, if there is one.
    pub open spec fn spec_from_raw(raw: i32) -> Option<CompareOp> {
        match raw {
            0 => Some(CompareOp::Never),
            1 => Some(CompareOp::Less),
            2 => Some(CompareOp::Equal),
            3 => Some(CompareOp::LessOrEqual),
            4 => Some(CompareOp::Greater),
            5 => Some(CompareOp::NotEqual),
            6 => Some(CompareOp::GreaterOrEqual),
            7 => Some(CompareOp::Always),
            _ => None,
        }
    }

    pub fn raw(&self) -> (r: i32)
        ensures
            r == self.spec_raw(),
    {
        match self {
            CompareOp::Never => 0,
            CompareOp::Less => 1,
            CompareOp::Equal => 2,
            CompareOp::LessOrEqual => 3,
            CompareOp::Greater => 4,
            CompareOp::NotEqual => 5,
            CompareOp::GreaterOrEqual => 6,
            CompareOp::Always => 7,
        }
    }

    /// Reads a comparison the native layer wrote. `None` is returned for an integer
    /// that stands for none.
    pub fn from_raw(raw: i32) -> (r: Option<CompareOp>)
        ensures
            r == CompareOp::spec_from_raw(raw),
    {
        match raw {
            0 => Some(CompareOp::Never),
            1 => Some(CompareOp::Less),
            2 => Some(CompareOp::Equal),
            3 => Some(CompareOp::LessOrEqual),
            4 => Some(CompareOp::Greater),
            5 => Some(CompareOp::NotEqual),
            6 => Some(CompareOp::GreaterOrEqual),
            7 => Some(CompareOp::Always),
            _ => None,
        }
    }

    /// Reading the integer of a comparison gives that comparison back.
    pub proof fn lemma_raw_round_trip(v: CompareOp)
        ensures
            CompareOp::spec_from_raw(v.spec_raw()) == Some(v),
    {
    }

    /// A comparison that is read from an integer has that integer.
    pub proof fn lemma_from_raw_sound(raw: i32)
        ensures
            CompareOp::spec_from_raw(raw) matches Some(v) ==> v.spec_raw() == raw,
    {
    }
}

/// What is done to a stencil value after a test.
#[derive(Debug, Clone, Copy, PartialEq, Eq, Structural)]
pub enum StencilOp {
    Keep,
    Zero,
    Replace,
    IncrementAndClamp,
    DecrementAndClamp,
    Invert,
    IncrementAndWrap,
    DecrementAndWrap,
}

impl StencilOp {
    /// The integer the native layer reads for this stencil operation.
    pub open spec fn spec_raw(self) -> i32 {
        match self {
            StencilOp::Keep => 0,
            StencilOp::Zero => 1,
            StencilOp::Replace => 2,
            StencilOp::IncrementAndClamp => 3,
            StencilOp::DecrementAndClamp => 4,
            StencilOp::Invert => 5,
            StencilOp::IncrementAndWrap => 6,
            StencilOp::DecrementAndWrap => 7,
        }
    }

    /// The stencil operation that the native layer writes as `raw`, if there is one.
    pub open spec fn spec_from_raw(raw: i32) -> Option<StencilOp> {
        match raw {
            0 => Some(StencilOp::Keep),
            1 => Some(StencilOp::Zero),
            2 => Some(StencilOp::Replace),
            3 => Some(StencilOp::IncrementAndClamp),
            4 => Some(StencilOp::DecrementAndClamp),
            5 => Some(StencilOp::Invert),
            6 => Some(StencilOp::IncrementAndWrap),
            7 => Some(StencilOp::DecrementAndWrap),
            _ => None,
        }
    }

    pub fn raw(&self) -> (r: i32)
        ensures
            r == self.spec_raw(),
    {
        match self {
            StencilOp::Keep => 0,
            StencilOp::Zero => 1,
            StencilOp::Replace => 2,
            StencilOp::IncrementAndClamp => 3,
            StencilOp::DecrementAndClamp => 4,
            StencilOp::Invert => 5,
            StencilOp::IncrementAndWrap => 6,
            StencilOp::DecrementAndWrap => 7,
        }
    }

    /// Reads a stencil operation the native layer wrote. `None` is returned for an integer
    /// that stands for none.
    pub fn from_raw(raw: i32) -> (r: Option<StencilOp>)
        ensures
            r == StencilOp::spec_from_raw(raw),
    {
        match raw {
            0 => Some(StencilOp::Keep),
            1 => Some(StencilOp::Zero),
            2 => Some(StencilOp::Replace),
            3 => Some(StencilOp::IncrementAndClamp),
            4 => Some(StencilOp::DecrementAndClamp),
            5 => Some(StencilOp::Invert),
            6 => Some(StencilOp::IncrementAndWrap),
            7 => Some(StencilOp::DecrementAndWrap),
            _ => None,
        }
    }

    /// Reading the integer of a stencil operation gives that stencil operation back.
    pub proof fn lemma_raw_round_trip(v: StencilOp)
        ensures
            StencilOp::spec_from_raw(v.spec_raw()) == Some(v),
    {
    }

    /// A stencil operation that is read from an integer has that integer.
    pub proof fn lemma_from_raw_sound(raw: i32)
        ensures
            StencilOp::spec_from_raw(raw) matches Some(v) ==> v.spec_raw() == raw,
    {
    }
}

/// A part of the pipeline state that is set while commands are recorded.
#[derive(Debug, Clone, Copy, PartialEq, Eq, Structural)]
pub enum DynamicState {
    Viewport,
    Scissor,
    LineWidth,
    DepthBias,
    BlendConstants,
    DepthBounds,
    StencilCompareMask,
    StencilWriteMask,
    StencilReference,
    ViewportWScalingNv,
    DiscardRectangleExt,
    SampleLocationsExt,
    RayTracingPipelineStackSizeKhr,
    ViewportShadingRatePaletteNv,
    ViewportCoarseSampleOrderNv,
    ExclusiveScissorNv,
    FragmentShadingRateKhr,
    LineStippleExt,
    CullModeExt,
    FrontFaceExt,
    PrimitiveTopologyExt,
    ViewportWithCountExt,
    ScissorWithCountExt,
    VertexInputBindingStrideExt,
    DepthTestEnableExt,
    DepthWriteEnableExt,
    DepthCompareOpExt,
    DepthBoundsTestEnableExt,
    StencilTestEnableExt,
    StencilOpExt,
    VertexInputExt,
    PatchControlPointsExt,
    RasterizerDiscardEnableExt,
    DepthBiasEnableExt,
    LogicOpExt,
    PrimitiveRestartEnableExt,
    ColorWriteEnableExt,
}

impl DynamicState {
    /// The integer the native layer reads for this dynamic state.
    pub open spec fn spec_raw(self) -> i32 {
        match self {
            DynamicState::Viewport => 0,
            DynamicState::Scissor => 1,
            DynamicState::LineWidth => 2,
            DynamicState::DepthBias => 3,
            DynamicState::BlendConstants => 4,
            DynamicState::DepthBounds => 5,
            DynamicState::StencilCompareMask => 6,
            DynamicState::StencilWriteMask => 7,
            DynamicState::StencilReference => 8,
            DynamicState::ViewportWScalingNv => 1000087000,
            DynamicState::DiscardRectangleExt => 1000099000,
            DynamicState::SampleLocationsExt => 1000143000,
            DynamicState::RayTracingPipelineStackSizeKhr => 1000347000,
            DynamicState::ViewportShadingRatePaletteNv => 1000164004,
            DynamicState::ViewportCoarseSampleOrderNv => 1000164006,
            DynamicState::ExclusiveScissorNv => 1000205001,
            DynamicState::FragmentShadingRateKhr => 1000226000,
            DynamicState::LineStippleExt => 1000259000,
            DynamicState::CullModeExt => 1000267000,
            DynamicState::FrontFaceExt => 1000267001,
            DynamicState::PrimitiveTopologyExt => 1000267002,
            DynamicState::ViewportWithCountExt => 1000267003,
            DynamicState::ScissorWithCountExt => 1000267004,
            DynamicState::VertexInputBindingStrideExt => 1000267005,
            DynamicState::DepthTestEnableExt => 1000267006,
            DynamicState::DepthWriteEnableExt => 1000267007,
            DynamicState::DepthCompareOpExt => 1000267008,
            DynamicState::DepthBoundsTestEnableExt => 1000267009,
            DynamicState::StencilTestEnableExt => 1000267010,
            DynamicState::StencilOpExt => 1000267011,
            DynamicState::VertexInputExt => 1000352000,
            DynamicState::PatchControlPointsExt => 1000377000,
            DynamicState::RasterizerDiscardEnableExt => 1000377001,
            DynamicState::DepthBiasEnableExt => 1000377002,
            DynamicState::LogicOpExt => 1000377003,
            DynamicState::PrimitiveRestartEnableExt => 1000377004,
            DynamicState::ColorWriteEnableExt => 1000381000,
        }
    }

    /// The dynamic state that the native layer writes as `raw`, if there is one.
    pub open spec fn spec_from_raw(raw: i32) -> Option<DynamicState> {
        match raw {
            0 => Some(DynamicState::Viewport),
            1 => Some(DynamicState::Scissor),
            2 => Some(DynamicState::LineWidth),
            3 => Some(DynamicState::DepthBias),
            4 => Some(DynamicState::BlendConstants),
            5 => Some(DynamicState::DepthBounds),
            6 => Some(DynamicState::StencilCompareMask),
            7 => Some(DynamicState::StencilWriteMask),
            8 => Some(DynamicState::StencilReference),
            1000087000 => Some(DynamicState::ViewportWScalingNv),
            1000099000 => Some(DynamicState::DiscardRectangleExt),
            1000143000 => Some(DynamicState::SampleLocationsExt),
            1000347000 => Some(DynamicState::RayTracingPipelineStackSizeKhr),
            1000164004 => Some(DynamicState::ViewportShadingRatePaletteNv),
            1000164006 => Some(DynamicState::ViewportCoarseSampleOrderNv),
            1000205001 => Some(DynamicState::ExclusiveScissorNv),
            1000226000 => Some(DynamicState::FragmentShadingRateKhr),
            1000259000 => Some(DynamicState::LineStippleExt),
            1000267000 => Some(DynamicState::CullModeExt),
            1000267001 => Some(DynamicState::FrontFaceExt),
            1000267002 => Some(DynamicState::PrimitiveTopologyExt),
            1000267003 => Some(DynamicState::ViewportWithCountExt),
            1000267004 => Some(DynamicState::ScissorWithCountExt),
            1000267005 => Some(DynamicState::VertexInputBindingStrideExt),
            1000267006 => Some(DynamicState::DepthTestEnableExt),
            1000267007 => Some(DynamicState::DepthWriteEnableExt),
            1000267008 => Some(DynamicState::DepthCompareOpExt),
            1000267009 => Some(DynamicState::DepthBoundsTestEnableExt),
            1000267010 => Some(DynamicState::StencilTestEnableExt),
            1000267011 => Some(DynamicState::StencilOpExt),
            1000352000 => Some(DynamicState::VertexInputExt),
            1000377000 => Some(DynamicState::PatchControlPointsExt),
            1000377001 => Some(DynamicState::RasterizerDiscardEnableExt),
            1000377002 => Some(DynamicState::DepthBiasEnableExt),
            1000377003 => Some(DynamicState::LogicOpExt),
            1000377004 => Some(DynamicState::PrimitiveRestartEnableExt),
            1000381000 => Some(DynamicState::ColorWriteEnableExt),
            _ => None,
        }
    }

    pub fn raw(&self) -> (r: i32)
        ensures
            r == self.spec_raw(),
    {
        match self {
            DynamicState::Viewport => 0,
            DynamicState::Scissor => 1,
            DynamicState::LineWidth => 2,
            DynamicState::DepthBias => 3,
            DynamicState::BlendConstants => 4,
            DynamicState::DepthBounds => 5,
            DynamicState::StencilCompareMask => 6,
            DynamicState::StencilWriteMask => 7,
            DynamicState::StencilReference => 8,
            DynamicState::ViewportWScalingNv => 1000087000,
            DynamicState::DiscardRectangleExt => 1000099000,
            DynamicState::SampleLocationsExt => 1000143000,
            DynamicState::RayTracingPipelineStackSizeKhr => 1000347000,
            DynamicState::ViewportShadingRatePaletteNv => 1000164004,
            DynamicState::ViewportCoarseSampleOrderNv => 1000164006,
            DynamicState::ExclusiveScissorNv => 1000205001,
            DynamicState::FragmentShadingRateKhr => 1000226000,
            DynamicState::LineStippleExt => 1000259000,
            DynamicState::CullModeExt => 1000267000,
            DynamicState::FrontFaceExt => 1000267001,
            DynamicState::PrimitiveTopologyExt => 1000267002,
            DynamicState::ViewportWithCountExt => 1000267003,
            DynamicState::ScissorWithCountExt => 1000267004,
            DynamicState::VertexInputBindingStrideExt => 1000267005,
            DynamicState::DepthTestEnableExt => 1000267006,
            DynamicState::DepthWriteEnableExt => 1000267007,
            DynamicState::DepthCompareOpExt => 1000267008,
            DynamicState::DepthBoundsTestEnableExt => 1000267009,
            DynamicState::StencilTestEnableExt => 1000267010,
            DynamicState::StencilOpExt => 1000267011,
            DynamicState::VertexInputExt => 1000352000,
            DynamicState::PatchControlPointsExt => 1000377000,
            DynamicState::RasterizerDiscardEnableExt => 1000377001,
            DynamicState::DepthBiasEnableExt => 1000377002,
            DynamicState::LogicOpExt => 1000377003,
            DynamicState::PrimitiveRestartEnableExt => 1000377004,
            DynamicState::ColorWriteEnableExt => 1000381000,
        }
    }

    /// Reads a dynamic state the native layer wrote. `None` is returned for an integer
    /// that stands for none.
    pub fn from_raw(raw: i32) -> (r: Option<DynamicState>)
        ensures
            r == DynamicState::spec_from_raw(raw),
    {
        match raw {
            0 => Some(DynamicState::Viewport),
            1 => Some(DynamicState::Scissor),
            2 => Some(DynamicState::LineWidth),
            3 => Some(DynamicState::DepthBias),
            4 => Some(DynamicState::BlendConstants),
            5 => Some(DynamicState::DepthBounds),
            6 => Some(DynamicState::StencilCompareMask),
            7 => Some(DynamicState::StencilWriteMask),
            8 => Some(DynamicState::StencilReference),
            1000087000 => Some(DynamicState::ViewportWScalingNv),
            1000099000 => Some(DynamicState::DiscardRectangleExt),
            1000143000 => Some(DynamicState::SampleLocationsExt),
            1000347000 => Some(DynamicState::RayTracingPipelineStackSizeKhr),
            1000164004 => Some(DynamicState::ViewportShadingRatePaletteNv),
            1000164006 => Some(DynamicState::ViewportCoarseSampleOrderNv),
            1000205001 => Some(DynamicState::ExclusiveScissorNv),
            1000226000 => Some(DynamicState::FragmentShadingRateKhr),
            1000259000 => Some(DynamicState::LineStippleExt),
            1000267000 => Some(DynamicState::CullModeExt),
            1000267001 => Some(DynamicState::FrontFaceExt),
            1000267002 => Some(DynamicState::PrimitiveTopologyExt),
            1000267003 => Some(DynamicState::ViewportWithCountExt),
            1000267004 => Some(DynamicState::ScissorWithCountExt),
            1000267005 => Some(DynamicState::VertexInputBindingStrideExt),
            1000267006 => Some(DynamicState::DepthTestEnableExt),
            1000267007 => Some(DynamicState::DepthWriteEnableExt),
            1000267008 => Some(DynamicState::DepthCompareOpExt),
            1000267009 => Some(DynamicState::DepthBoundsTestEnableExt),
            1000267010 => Some(DynamicState::StencilTestEnableExt),
            1000267011 => Some(DynamicState::StencilOpExt),
            1000352000 => Some(DynamicState::VertexInputExt),
            1000377000 => Some(DynamicState::PatchControlPointsExt),
            1000377001 => Some(DynamicState::RasterizerDiscardEnableExt),
            1000377002 => Some(DynamicState::DepthBiasEnableExt),
            1000377003 => Some(DynamicState::LogicOpExt),
            1000377004 => Some(DynamicState::PrimitiveRestartEnableExt),
            1000381000 => Some(DynamicState::ColorWriteEnableExt),
            _ => None,
        }
    }

    /// Reading the integer of a dynamic state gives that dynamic state back.
    pub proof fn lemma_raw_round_trip(v: DynamicState)
        ensures
            DynamicState::spec_from_raw(v.spec_raw()) == Some(v),
    {
    }

    /// A dynamic state that is read from an integer has that integer.
    pub proof fn lemma_from_raw_sound(raw: i32)
        ensures
            DynamicState::spec_from_raw(raw) matches Some(v) ==> v.spec_raw() == raw,
    {
    }
}

} // verus!

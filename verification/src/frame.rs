//! Pieces shared by every lesson: the surface configuration that is chosen
//! from a surface's capabilities, the window events the lessons react to,
//! the errors a frame can fail with, and the commands handed back to the
//! event loop.

use vstd::prelude::*;

verus! {

/// The part of a surface's capabilities that the lessons read: for each
/// texture format the surface supports (in the order the adapter lists
/// them) whether it is an sRGB format, and how many present modes and alpha
/// modes it offers.
pub struct SurfaceCaps {
    pub format_is_srgb: Vec<bool>,
    pub present_mode_count: usize,
    pub alpha_mode_count: usize,
}

/// How the textures of a surface are used.
#[derive(Debug, Clone, Copy, PartialEq, Eq)]
pub enum TextureUsage {
    /// As the colour target of a render pass.
    RenderAttachment,
}

/// A surface configuration in plain values: how its textures are used, the
/// size in pixels, the chosen format, present mode and alpha mode as
/// indices into the lists of the capabilities it was planned from, the
/// number of extra view formats requested, and the desired frame latency.
#[derive(Debug, Clone, Copy, PartialEq, Eq)]
pub struct SurfaceConfig {
    pub usage: TextureUsage,
    pub width: u32,
    pub height: u32,
    pub format_index: usize,
    pub present_mode_index: usize,
    pub alpha_mode_index: usize,
    pub view_format_count: usize,
    pub desired_maximum_frame_latency: u32,
}

/// Index of the format a lesson picks, scanning from `i` on: the first
/// sRGB format, or else the first format of the list.
pub open spec fn preferred_from(flags: Seq<bool>, i: int) -> int
    decreases flags.len() - i,
{
    if i < 0 || i >= flags.len() {
        0
    } else if flags[i] {
        i
    } else {
        preferred_from(flags, i + 1)
    }
}

/// Index of the format a lesson picks from the whole list.
pub open spec fn preferred_format(flags: Seq<bool>) -> int {
    preferred_from(flags, 0)
}

/// Every format before `i` is not sRGB.
pub open spec fn none_srgb_before(flags: Seq<bool>, i: int) -> bool {
    forall|j: int| 0 <= j < i ==> !flags[j]
}

proof fn lemma_preferred_from(flags: Seq<bool>, i: int)
    requires
        0 <= i <= flags.len(),
    ensures
        (exists|k: int| i <= k < flags.len() && flags[k]) ==> {
            let p: int = preferred_from(flags, i);
            &&& i <= p < flags.len()
            &&& flags[p]
            &&& forall|j: int| i <= j < p ==> !flags[j]
        },
        !(exists|k: int| i <= k < flags.len() && flags[k]) ==> preferred_from(flags, i) == 0,
    decreases flags.len() - i,
{
    if i < flags.len() {
        lemma_preferred_from(flags, i + 1);
        if !flags[i] {
            if exists|k: int| i <= k < flags.len() && flags[k] {
                let k: int = choose|k: int| i <= k < flags.len() && flags[k];
                assert(i + 1 <= k);
            }
        }
    }
}

/// The format a lesson picks is the first sRGB format of the list when
/// there is one, and the first format of the list otherwise.
pub proof fn lemma_preferred_format(flags: Seq<bool>)
    requires
        flags.len() > 0,
    ensures
        0 <= preferred_format(flags) < flags.len(),
        none_srgb_before(flags, preferred_format(flags)),
        (exists|k: int| 0 <= k < flags.len() && flags[k]) <==> flags[preferred_format(flags)],
        !flags[preferred_format(flags)] ==> preferred_format(flags) == 0,
{
    lemma_preferred_from(flags, 0);
}

/// The configuration a lesson plans for a new surface of the given size:
/// textures used as render attachments, the preferred format, the first
/// present mode and alpha mode, no extra view formats, and a desired frame
/// latency of two frames.
pub open spec fn planned_config(flags: Seq<bool>, width: u32, height: u32) -> SurfaceConfig {
    SurfaceConfig {
        usage: TextureUsage::RenderAttachment,
        width,
        height,
        format_index: preferred_format(flags) as usize,
        present_mode_index: 0,
        alpha_mode_index: 0,
        view_format_count: 0,
        desired_maximum_frame_latency: 2,
    }
}

/// The capabilities offer at least one format, present mode and alpha mode.
pub open spec fn caps_usable(caps: &SurfaceCaps) -> bool {
    &&& caps.format_is_srgb@.len() > 0
    &&& caps.present_mode_count > 0
    &&& caps.alpha_mode_count > 0
}

/// Picks the index of the surface format: the first sRGB format when the
/// list has one, else the first format.
pub fn preferred_format_index(format_is_srgb: &Vec<bool>) -> (r: usize)
    requires
        format_is_srgb@.len() > 0,
    ensures
        r == preferred_format(format_is_srgb@),
        r < format_is_srgb@.len(),
        none_srgb_before(format_is_srgb@, r as int),
        format_is_srgb@[r as int] || r == 0,
        (exists|k: int| 0 <= k < format_is_srgb@.len() && format_is_srgb@[k]) <==> format_is_srgb@[r as int],
{
    proof {
        lemma_preferred_format(format_is_srgb@);
    }
    let mut i: usize = 0;
    while i < format_is_srgb.len()
        invariant
            0 <= i <= format_is_srgb@.len(),
            none_srgb_before(format_is_srgb@, i as int),
            preferred_from(format_is_srgb@, i as int) == preferred_from(format_is_srgb@, 0)
                || i == format_is_srgb@.len(),
            i == format_is_srgb@.len() ==> !(exists|k: int|
                0 <= k < format_is_srgb@.len() && format_is_srgb@[k]),
        decreases format_is_srgb@.len() - i,
    {
        if format_is_srgb[i] {
            return i;
        }
        i = i + 1;
    }
    0
}

/// Plans the configuration of a freshly created surface of the given size:
/// textures used as render attachments, the preferred format, the first
/// present mode and the first alpha mode offered, no extra view formats,
/// and a desired frame latency of two frames.
pub fn plan_surface_config(caps: &SurfaceCaps, width: u32, height: u32) -> (r: SurfaceConfig)
    requires
        caps_usable(caps),
    ensures
        r == planned_config(caps.format_is_srgb@, width, height),
        r.format_index < caps.format_is_srgb@.len(),
        r.present_mode_index < caps.present_mode_count,
        r.alpha_mode_index < caps.alpha_mode_count,
{
    let format_index: usize = preferred_format_index(&caps.format_is_srgb);
    SurfaceConfig {
        usage: TextureUsage::RenderAttachment,
        width,
        height,
        format_index,
        present_mode_index: 0,
        alpha_mode_index: 0,
        view_format_count: 0,
        desired_maximum_frame_latency: 2,
    }
}

/// A surface configuration with the same format, modes and latency, and
/// the given size.
pub open spec fn with_size(cfg: SurfaceConfig, width: u32, height: u32) -> SurfaceConfig {
    SurfaceConfig {
        usage: cfg.usage,
        width,
        height,
        format_index: cfg.format_index,
        present_mode_index: cfg.present_mode_index,
        alpha_mode_index: cfg.alpha_mode_index,
        view_format_count: cfg.view_format_count,
        desired_maximum_frame_latency: cfg.desired_maximum_frame_latency,
    }
}

/// Changes the size of a surface configuration and keeps the rest.
pub fn set_size(cfg: &mut SurfaceConfig, width: u32, height: u32)
    ensures
        *final(cfg) == with_size(*old(cfg), width, height),
{
    cfg.width = width;
    cfg.height = height;
}

/// The window events a lesson reacts to; every other event is `Other`.
#[derive(Debug, Clone, Copy, PartialEq, Eq)]
pub enum AppEvent {
    Resized { width: u32, height: u32 },
    RedrawRequested,
    CloseRequested,
    Other,
}

/// Why acquiring the next frame of a surface failed.
#[derive(Debug, Clone, Copy, PartialEq, Eq)]
pub enum FrameError {
    Timeout,
    Outdated,
    Lost,
    OutOfMemory,
    Other,
}

/// After a failed frame, the lessons resize the surface to the window's
/// current inner size exactly when the surface was lost or is outdated; any
/// other failure is ignored.
pub fn needs_reconfigure(err: &FrameError) -> (r: bool)
    ensures
        r == (*err is Lost || *err is Outdated),
{
    match err {
        FrameError::Lost => true,
        FrameError::Outdated => true,
        _ => false,
    }
}

/// One draw call of a render pass: the half-open vertex and instance
/// ranges, and the slot the vertex buffer is bound to, if one is bound.
#[derive(Debug, Clone, Copy, PartialEq, Eq)]
pub struct DrawCall {
    pub vertex_start: u32,
    pub vertex_end: u32,
    pub instance_start: u32,
    pub instance_end: u32,
    pub vertex_buffer_slot: Option<u32>,
}

/// What a redraw does: nothing; only ask the window for another redraw;
/// or ask for another redraw and render one frame, which clears the
/// surface and performs the draw call when there is one.
#[derive(Debug, Clone, Copy, PartialEq, Eq)]
pub enum RenderStep {
    Skip,
    RequestRedraw,
    Frame(Option<DrawCall>),
}

/// What the event loop must do after a lesson has handled a window event:
/// leave the loop, configure the surface anew with the lesson's current
/// configuration, redraw as the render step says, or nothing.
#[derive(Debug, Clone, Copy, PartialEq, Eq)]
pub enum Command {
    Exit,
    Configure,
    Render(RenderStep),
    Nothing,
}


/// How the vertices of a draw are assembled into primitives.
#[derive(Debug, Clone, Copy, PartialEq, Eq)]
pub enum PrimitiveTopology {
    /// Every three vertices form one triangle.
    TriangleList,
}

/// Which winding makes a triangle face the viewer.
#[derive(Debug, Clone, Copy, PartialEq, Eq)]
pub enum FrontFace {
    /// Counter-clockwise.
    Ccw,
    /// Clockwise.
    Cw,
}

/// A side of a triangle.
#[derive(Debug, Clone, Copy, PartialEq, Eq)]
pub enum Face {
    Front,
    Back,
}

/// How the inside of a triangle is rasterised.
#[derive(Debug, Clone, Copy, PartialEq, Eq)]
pub enum PolygonMode {
    /// The whole triangle is filled.
    Fill,
}

/// How a fragment's colour is combined with the target's.
#[derive(Debug, Clone, Copy, PartialEq, Eq)]
pub enum BlendState {
    /// The fragment's colour replaces the target's.
    Replace,
}

/// Which channels of the colour target are written.
#[derive(Debug, Clone, Copy, PartialEq, Eq)]
pub enum ColorWrites {
    /// Red, green, blue and alpha.
    All,
}

/// The settings of a lesson's render pipeline: the shader entry points, a
/// pipeline layout with no bind groups and no immediate data, how
/// primitives are assembled and culled, multisampling, and how the single
/// colour target (in the surface's format) is written. The pipeline has no
/// depth or stencil state, no multiview and no pipeline cache, and its
/// shader entry points are compiled with no overridden constants and
/// without zero-initialising workgroup memory.
#[derive(Debug, Clone, Copy, PartialEq, Eq)]
pub struct PipelinePlan {
    pub vertex_entry_point: &'static str,
    pub fragment_entry_point: &'static str,
    pub immediate_size: u32,
    pub topology: PrimitiveTopology,
    pub front_face: FrontFace,
    pub cull_mode: Option<Face>,
    pub polygon_mode: PolygonMode,
    pub unclipped_depth: bool,
    pub conservative: bool,
    pub sample_count: u32,
    pub sample_mask: u64,
    pub alpha_to_coverage_enabled: bool,
    pub blend: BlendState,
    pub write_mask: ColorWrites,
}

/// The settings the lessons draw their triangle with: a triangle list,
/// counter-clockwise triangles facing the viewer and back faces culled,
/// filled, clipped in depth, not conservatively rasterised, one sample per
/// pixel with every sample enabled and no alpha to coverage, and the
/// fragment colour replacing the target's in all channels.
pub open spec fn is_triangle_pipeline(p: PipelinePlan, vertex: Seq<char>, fragment: Seq<char>) -> bool {
    &&& p.vertex_entry_point@ == vertex
    &&& p.fragment_entry_point@ == fragment
    &&& p.immediate_size == 0
    &&& p.topology == PrimitiveTopology::TriangleList
    &&& p.front_face == FrontFace::Ccw
    &&& p.cull_mode == Some(Face::Back)
    &&& p.polygon_mode == PolygonMode::Fill
    &&& !p.unclipped_depth
    &&& !p.conservative
    &&& p.sample_count == 1
    &&& p.sample_mask == u64::MAX
    &&& !p.alpha_to_coverage_enabled
    &&& p.blend == BlendState::Replace
    &&& p.write_mask == ColorWrites::All
}

/// The settings of a triangle pipeline with the given shader entry points
/// (see `is_triangle_pipeline`).
pub fn triangle_pipeline(vertex_entry_point: &'static str, fragment_entry_point: &'static str) -> (r: PipelinePlan)
    ensures
        is_triangle_pipeline(r, vertex_entry_point@, fragment_entry_point@),
{
    PipelinePlan {
        vertex_entry_point,
        fragment_entry_point,
        immediate_size: 0,
        topology: PrimitiveTopology::TriangleList,
        front_face: FrontFace::Ccw,
        cull_mode: Some(Face::Back),
        polygon_mode: PolygonMode::Fill,
        unclipped_depth: false,
        conservative: false,
        sample_count: 1,
        sample_mask: 0xffff_ffff_ffff_ffff,
        alpha_to_coverage_enabled: false,
        blend: BlendState::Replace,
        write_mask: ColorWrites::All,
    }
}

} // verus!

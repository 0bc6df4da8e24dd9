//! The deferred render-pass structure.
//!
//! The deferred pipeline renders in three subpasses — geometry, lighting,
//! composition — over five attachments. Each subpass reads the outputs of
//! earlier subpasses as input attachments, which is what lets the driver
//! order the subpasses without explicit barriers: a well-formed pass never
//! reads an attachment no earlier subpass has written.

use vstd::prelude::*;

verus! {

/// Attachment index of the presented swapchain image.
pub const ATTACHMENT_FINAL_COLOR: usize = 0;

/// Attachment index of the diffuse G-buffer.
pub const ATTACHMENT_DIFFUSE: usize = 1;

/// Attachment index of the normals G-buffer.
pub const ATTACHMENT_NORMALS: usize = 2;

/// Attachment index of the light accumulation buffer.
pub const ATTACHMENT_LIGHT: usize = 3;

/// Attachment index of the depth buffer.
pub const ATTACHMENT_DEPTH: usize = 4;

/// Format code of the G-buffer and light attachments
/// (`VK_FORMAT_A2B10G10R10_UNORM_PACK32`).
pub const FORMAT_A2B10G10R10_UNORM: u32 = 64;

/// Format code of the depth attachment (`VK_FORMAT_D32_SFLOAT`).
pub const FORMAT_D32_SFLOAT: u32 = 126;

/// One subpass: the attachments it writes as color outputs, the depth
/// attachment it writes if any, and the attachments it reads as input
/// attachments.
#[derive(Clone, Debug)]
pub struct SubpassDesc {
    pub color: Vec<usize>,
    pub depth_stencil: Option<usize>,
    pub input: Vec<usize>,
}

/// A render pass: how many attachments it binds and its subpasses in
/// execution order.
#[derive(Clone, Debug)]
pub struct RenderPassDesc {
    pub attachment_count: usize,
    pub subpasses: Vec<SubpassDesc>,
}

/// The subpass writes attachment `a`, as a color or depth output.
pub open spec fn subpass_writes(s: SubpassDesc, a: int) -> bool {
    s.color@.contains(a as usize) || s.depth_stencil == Some(a as usize)
}

/// Every attachment index of the subpass is in range.
pub open spec fn subpass_indices_in_range(s: SubpassDesc, attachment_count: int) -> bool {
    &&& forall|k: int| 0 <= k < s.color@.len() ==> #[trigger] s.color@[k] < attachment_count
    &&& (s.depth_stencil matches Some(d) ==> d < attachment_count)
    &&& forall|k: int| 0 <= k < s.input@.len() ==> #[trigger] s.input@[k] < attachment_count
}

/// Well-formedness of a render pass: all indices are in range, and every
/// input attachment of a subpass was written by an earlier subpass — the
/// dependency structure the driver turns into an execution ordering.
pub open spec fn render_pass_wf(rp: RenderPassDesc) -> bool {
    &&& forall|i: int|
        0 <= i < rp.subpasses@.len() ==> subpass_indices_in_range(
            #[trigger] rp.subpasses@[i],
            rp.attachment_count as int,
        )
    &&& forall|i: int, k: int|
        0 <= i < rp.subpasses@.len() && 0 <= k < rp.subpasses@[i].input@.len() ==> exists|j: int|
            0 <= j < i && subpass_writes(
                #[trigger] rp.subpasses@[j],
                #[trigger] rp.subpasses@[i].input@[k] as int,
            )
}

/// Builds the deferred three-subpass render pass: the geometry subpass
/// writes diffuse, normals and depth; the lighting subpass accumulates
/// into the light buffer reading diffuse and normals; the composition
/// subpass writes the swapchain image reading diffuse, light and depth.
pub fn deferred_render_pass_desc() -> (r: RenderPassDesc)
    ensures
        render_pass_wf(r),
        r.attachment_count == 5,
        r.subpasses@.len() == 3,
        r.subpasses@[0].color@ =~= seq![ATTACHMENT_DIFFUSE, ATTACHMENT_NORMALS],
        r.subpasses@[0].depth_stencil == Some(ATTACHMENT_DEPTH),
        r.subpasses@[0].input@ =~= Seq::<usize>::empty(),
        r.subpasses@[1].color@ =~= seq![ATTACHMENT_LIGHT],
        r.subpasses@[1].depth_stencil is None,
        r.subpasses@[1].input@ =~= seq![ATTACHMENT_DIFFUSE, ATTACHMENT_NORMALS],
        r.subpasses@[2].color@ =~= seq![ATTACHMENT_FINAL_COLOR],
        r.subpasses@[2].depth_stencil is None,
        r.subpasses@[2].input@ =~= seq![ATTACHMENT_DIFFUSE, ATTACHMENT_LIGHT, ATTACHMENT_DEPTH],
{
    let mut geometry_color: Vec<usize> = Vec::new();
    geometry_color.push(ATTACHMENT_DIFFUSE);
    geometry_color.push(ATTACHMENT_NORMALS);
    let geometry = SubpassDesc {
        color: geometry_color,
        depth_stencil: Some(ATTACHMENT_DEPTH),
        input: Vec::new(),
    };

    let mut lighting_color: Vec<usize> = Vec::new();
    lighting_color.push(ATTACHMENT_LIGHT);
    let mut lighting_input: Vec<usize> = Vec::new();
    lighting_input.push(ATTACHMENT_DIFFUSE);
    lighting_input.push(ATTACHMENT_NORMALS);
    let lighting = SubpassDesc {
        color: lighting_color,
        depth_stencil: None,
        input: lighting_input,
    };

    let mut composition_color: Vec<usize> = Vec::new();
    composition_color.push(ATTACHMENT_FINAL_COLOR);
    let mut composition_input: Vec<usize> = Vec::new();
    composition_input.push(ATTACHMENT_DIFFUSE);
    composition_input.push(ATTACHMENT_LIGHT);
    composition_input.push(ATTACHMENT_DEPTH);
    let composition = SubpassDesc {
        color: composition_color,
        depth_stencil: None,
        input: composition_input,
    };

    let mut subpasses: Vec<SubpassDesc> = Vec::new();
    subpasses.push(geometry);
    subpasses.push(lighting);
    subpasses.push(composition);

    let r = RenderPassDesc { attachment_count: 5, subpasses };
    proof {
        assert(r.subpasses@[0].color@[0] == ATTACHMENT_DIFFUSE);
        assert(r.subpasses@[0].color@.contains(ATTACHMENT_DIFFUSE));
        assert(r.subpasses@[0].color@[1] == ATTACHMENT_NORMALS);
        assert(r.subpasses@[0].color@.contains(ATTACHMENT_NORMALS));
        assert(r.subpasses@[1].color@[0] == ATTACHMENT_LIGHT);
        assert(r.subpasses@[1].color@.contains(ATTACHMENT_LIGHT));
        assert(subpass_writes(r.subpasses@[0], ATTACHMENT_DIFFUSE as int));
        assert(subpass_writes(r.subpasses@[0], ATTACHMENT_NORMALS as int));
        assert(subpass_writes(r.subpasses@[0], ATTACHMENT_DEPTH as int));
        assert(subpass_writes(r.subpasses@[1], ATTACHMENT_LIGHT as int));
        assert forall|i: int, k: int|
            0 <= i < r.subpasses@.len() && 0 <= k < r.subpasses@[i].input@.len() implies exists|
            j: int,
        |
            0 <= j < i && subpass_writes(
                #[trigger] r.subpasses@[j],
                #[trigger] r.subpasses@[i].input@[k] as int,
            ) by {
            if i == 1 {
                assert(subpass_writes(r.subpasses@[0], r.subpasses@[i].input@[k] as int));
            } else if i == 2 {
                if k == 1 {
                    assert(subpass_writes(r.subpasses@[1], r.subpasses@[i].input@[k] as int));
                } else {
                    assert(subpass_writes(r.subpasses@[0], r.subpasses@[i].input@[k] as int));
                }
            }
        }
    }
    r
}

/// The G-buffer attachment set, one image per role, recreated together
/// whenever the swapchain extent changes. Values are the shell's opaque
/// image handles.
#[derive(Clone, Copy, Debug, PartialEq, Eq, Structural)]
pub struct Attachments {
    pub diffuse: u64,
    pub normals: u64,
    pub light: u64,
    pub depth: u64,
}

/// The input attachments the directional lighting pipeline samples. Must
/// be rebuilt from the current attachments after every recreation.
#[derive(Clone, Copy, Debug, PartialEq, Eq, Structural)]
pub struct DirectionalLightingSystemInput {
    pub diffuse: u64,
    pub normals: u64,
}

/// The input attachments the composition pipeline samples. Must be rebuilt
/// from the current attachments after every recreation.
#[derive(Clone, Copy, Debug, PartialEq, Eq, Structural)]
pub struct ComposingSystemInput {
    pub diffuse: u64,
    pub light: u64,
    pub depth: u64,
}

impl From<Attachments> for DirectionalLightingSystemInput {
    fn from(attachments: Attachments) -> (r: Self) {
        DirectionalLightingSystemInput {
            diffuse: attachments.diffuse,
            normals: attachments.normals,
        }
    }
}

impl vstd::std_specs::convert::FromSpecImpl<Attachments> for DirectionalLightingSystemInput {
    open spec fn obeys_from_spec() -> bool {
        true
    }

    open spec fn from_spec(attachments: Attachments) -> Self {
        DirectionalLightingSystemInput {
            diffuse: attachments.diffuse,
            normals: attachments.normals,
        }
    }
}

impl From<Attachments> for ComposingSystemInput {
    fn from(attachments: Attachments) -> (r: Self) {
        ComposingSystemInput {
            diffuse: attachments.diffuse,
            light: attachments.light,
            depth: attachments.depth,
        }
    }
}

impl vstd::std_specs::convert::FromSpecImpl<Attachments> for ComposingSystemInput {
    open spec fn obeys_from_spec() -> bool {
        true
    }

    open spec fn from_spec(attachments: Attachments) -> Self {
        ComposingSystemInput {
            diffuse: attachments.diffuse,
            light: attachments.light,
            depth: attachments.depth,
        }
    }
}

/// The work of one stage of a deferred frame, in recording order.
#[derive(Clone, Copy, Debug, PartialEq, Eq, Structural)]
pub enum DeferredPass {
    /// Record the geometry draws into the G-buffer.
    Draw,
    /// Record the light-accumulation draws.
    Lighting,
    /// Record the composition draw.
    Compose,
}

/// The stage that follows `passes_recorded` completed stages of one
/// deferred frame: geometry, then lighting, then composition, then nothing
/// — the same order the render pass's subpass dependencies enforce.
pub fn next_pass(passes_recorded: u8) -> (r: Option<DeferredPass>)
    ensures
        passes_recorded == 0 ==> r == Some(DeferredPass::Draw),
        passes_recorded == 1 ==> r == Some(DeferredPass::Lighting),
        passes_recorded == 2 ==> r == Some(DeferredPass::Compose),
        passes_recorded >= 3 ==> r is None,
{
    match passes_recorded {
        0 => Some(DeferredPass::Draw),
        1 => Some(DeferredPass::Lighting),
        2 => Some(DeferredPass::Compose),
        _ => None,
    }
}

} // verus!

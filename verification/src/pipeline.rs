//! Fixed-function pipeline state per subpass role.
//!
//! One graphics pipeline is compiled per subpass role. The states that
//! decide rendering behavior — depth testing and color blending — are
//! fixed here per role: geometry draws depth-tested and unblended, light
//! draws accumulate additively with max alpha, and composition overwrites.

use vstd::prelude::*;

verus! {

/// Compare-op code "passes when less or equal"
/// (`VK_COMPARE_OP_LESS_OR_EQUAL`).
pub const COMPARE_OP_LESS_OR_EQUAL: u32 = 3;

/// Blend-factor code for a factor of one (`VK_BLEND_FACTOR_ONE`).
pub const BLEND_FACTOR_ONE: u32 = 1;

/// Blend-factor code for a factor of zero (`VK_BLEND_FACTOR_ZERO`).
pub const BLEND_FACTOR_ZERO: u32 = 0;

/// Blend-op code for addition (`VK_BLEND_OP_ADD`).
pub const BLEND_OP_ADD: u32 = 0;

/// Blend-op code for the component-wise maximum (`VK_BLEND_OP_MAX`).
pub const BLEND_OP_MAX: u32 = 4;

/// The role a graphics pipeline plays: one per subpass, with the lighting
/// subpass compiling one pipeline per light kind.
#[derive(Clone, Copy, Debug, PartialEq, Eq, Structural)]
pub enum SubpassRole {
    /// Draws the mesh list into the G-buffer.
    Geometry,
    /// Accumulates the ambient light contribution.
    AmbientLight,
    /// Accumulates one directional light's contribution.
    DirectionalLight,
    /// Combines diffuse, light and depth into the swapchain image.
    Composition,
}

/// Depth-stencil state of a pipeline: whether fragments are depth-tested,
/// whether they write depth, and the compare operation.
#[derive(Clone, Copy, Debug, PartialEq, Eq, Structural)]
pub struct DepthState {
    pub test_enable: bool,
    pub write_enable: bool,
    pub compare_op: u32,
}

/// Color-blend state of a pipeline's one color attachment.
#[derive(Clone, Copy, Debug, PartialEq, Eq, Structural)]
pub struct BlendState {
    pub enable: bool,
    pub color_op: u32,
    pub src_color_factor: u32,
    pub dst_color_factor: u32,
    pub alpha_op: u32,
    pub src_alpha_factor: u32,
    pub dst_alpha_factor: u32,
}

/// The accumulating blend of the lighting subpass: color adds with factors
/// one/one, alpha takes the maximum — the arithmetic modeled by
/// [`crate::lighting::spec_blend`].
pub open spec fn spec_additive_blend() -> BlendState {
    BlendState {
        enable: true,
        color_op: BLEND_OP_ADD,
        src_color_factor: BLEND_FACTOR_ONE,
        dst_color_factor: BLEND_FACTOR_ONE,
        alpha_op: BLEND_OP_MAX,
        src_alpha_factor: BLEND_FACTOR_ONE,
        dst_alpha_factor: BLEND_FACTOR_ONE,
    }
}

/// The overwriting non-blend of the geometry and composition subpasses.
pub open spec fn spec_opaque_blend() -> BlendState {
    BlendState {
        enable: false,
        color_op: BLEND_OP_ADD,
        src_color_factor: BLEND_FACTOR_ONE,
        dst_color_factor: BLEND_FACTOR_ZERO,
        alpha_op: BLEND_OP_ADD,
        src_alpha_factor: BLEND_FACTOR_ONE,
        dst_alpha_factor: BLEND_FACTOR_ZERO,
    }
}

/// The blend state a role's pipeline is compiled with: the light
/// accumulation draws blend additively, everything else overwrites.
pub fn blend_state_for(role: SubpassRole) -> (r: BlendState)
    ensures
        (role is AmbientLight || role is DirectionalLight) ==> r == spec_additive_blend(),
        (role is Geometry || role is Composition) ==> r == spec_opaque_blend(),
{
    match role {
        SubpassRole::AmbientLight | SubpassRole::DirectionalLight => BlendState {
            enable: true,
            color_op: BLEND_OP_ADD,
            src_color_factor: BLEND_FACTOR_ONE,
            dst_color_factor: BLEND_FACTOR_ONE,
            alpha_op: BLEND_OP_MAX,
            src_alpha_factor: BLEND_FACTOR_ONE,
            dst_alpha_factor: BLEND_FACTOR_ONE,
        },
        SubpassRole::Geometry | SubpassRole::Composition => BlendState {
            enable: false,
            color_op: BLEND_OP_ADD,
            src_color_factor: BLEND_FACTOR_ONE,
            dst_color_factor: BLEND_FACTOR_ZERO,
            alpha_op: BLEND_OP_ADD,
            src_alpha_factor: BLEND_FACTOR_ONE,
            dst_alpha_factor: BLEND_FACTOR_ZERO,
        },
    }
}

/// The depth state a role's pipeline is compiled with: only the geometry
/// pass tests and writes depth, comparing less-or-equal; the screen-quad
/// passes ignore depth.
pub fn depth_state_for(role: SubpassRole) -> (r: DepthState)
    ensures
        role is Geometry ==> r == (DepthState {
            test_enable: true,
            write_enable: true,
            compare_op: COMPARE_OP_LESS_OR_EQUAL,
        }),
        !(role is Geometry) ==> !r.test_enable && !r.write_enable,
{
    match role {
        SubpassRole::Geometry => DepthState {
            test_enable: true,
            write_enable: true,
            compare_op: COMPARE_OP_LESS_OR_EQUAL,
        },
        _ => DepthState {
            test_enable: false,
            write_enable: false,
            compare_op: COMPARE_OP_LESS_OR_EQUAL,
        },
    }
}

/// Byte size of the per-slot uniform buffer: two column-major 4×4 matrices
/// of 32-bit floats — the view and projection.
pub const WORLD_DATA_BUFFER_SIZE: u64 = 128;

/// The little-endian bytes of one 32-bit word.
pub open spec fn spec_le_bytes(w: u32) -> Seq<u8> {
    seq![
        (w & 0xff) as u8,
        ((w >> 8) & 0xff) as u8,
        ((w >> 16) & 0xff) as u8,
        ((w >> 24) & 0xff) as u8,
    ]
}

/// Lays out the per-slot uniform buffer: the sixteen words of the view
/// matrix followed by the sixteen words of the projection matrix, each
/// written little-endian. Matrix entries are carried as 32-bit bit
/// patterns; their numeric reading belongs to the shader.
pub fn world_data_bytes(view: &[u32; 16], projection: &[u32; 16]) -> (r: Vec<u8>)
    ensures
        r@.len() == WORLD_DATA_BUFFER_SIZE,
        forall|i: int|
            0 <= i < 16 ==> r@.subrange(4 * i, 4 * i + 4) =~= spec_le_bytes(#[trigger] view@[i]),
        forall|i: int|
            0 <= i < 16 ==> r@.subrange(64 + 4 * i, 64 + 4 * i + 4) =~= spec_le_bytes(
                #[trigger] projection@[i],
            ),
{
    let mut r: Vec<u8> = Vec::new();
    let mut m: usize = 0;
    while m < 2
        invariant
            0 <= m <= 2,
            r@.len() == 64 * m,
            forall|i: int|
                0 <= i < 16 && m >= 1 ==> r@.subrange(4 * i, 4 * i + 4) =~= spec_le_bytes(
                    #[trigger] view@[i],
                ),
            forall|i: int|
                0 <= i < 16 && m >= 2 ==> r@.subrange(64 + 4 * i, 64 + 4 * i + 4) =~= spec_le_bytes(
                    #[trigger] projection@[i],
                ),
        decreases 2 - m,
    {
        let matrix: &[u32; 16] = if m == 0 {
            view
        } else {
            projection
        };
        let ghost base = 64 * m;
        let mut i: usize = 0;
        while i < 16
            invariant
                0 <= i <= 16,
                0 <= m < 2,
                base == 64 * m,
                matrix@ == if m == 0 { view@ } else { projection@ },
                r@.len() == base + 4 * i,
                forall|j: int|
                    0 <= j < 16 && m >= 1 ==> r@.subrange(4 * j, 4 * j + 4) =~= spec_le_bytes(
                        #[trigger] view@[j],
                    ),
                forall|j: int|
                    0 <= j < i ==> r@.subrange(base + 4 * j, base + 4 * j + 4) =~= spec_le_bytes(
                        #[trigger] matrix@[j],
                    ),
            decreases 16 - i,
        {
            let w = matrix[i];
            let ghost prev = r@;
            r.push((w & 0xff) as u8);
            r.push(((w >> 8) & 0xff) as u8);
            r.push(((w >> 16) & 0xff) as u8);
            r.push(((w >> 24) & 0xff) as u8);
            proof {
                assert(r@ =~= prev + spec_le_bytes(w));
                assert forall|j: int|
                    0 <= j < i + 1 implies r@.subrange(base + 4 * j, base + 4 * j + 4)
                    =~= spec_le_bytes(#[trigger] matrix@[j]) by {
                    if j < i {
                        assert(r@.subrange(base + 4 * j, base + 4 * j + 4) =~= prev.subrange(
                            base + 4 * j,
                            base + 4 * j + 4,
                        ));
                    } else {
                        assert(r@.subrange(base + 4 * j, base + 4 * j + 4) =~= spec_le_bytes(w));
                    }
                }
                assert forall|j: int|
                    0 <= j < 16 && m >= 1 implies r@.subrange(4 * j, 4 * j + 4) =~= spec_le_bytes(
                        #[trigger] view@[j],
                    ) by {
                    assert(r@.subrange(4 * j, 4 * j + 4) =~= prev.subrange(4 * j, 4 * j + 4));
                }
            }
            i = i + 1;
        }
        m = m + 1;
    }
    r
}

} // verus!

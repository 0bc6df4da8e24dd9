//! The recorded command stream of one frame's command buffer.
//!
//! Command buffers are pre-recorded once per swapchain image and re-used
//! every frame; they are re-recorded only when the swapchain, the mesh
//! list or the light list changes. One buffer records the whole deferred
//! frame: the geometry stage draws every mesh into the G-buffer, the
//! lighting stage accumulates the ambient and each directional light with
//! one full-screen draw apiece, and the composition stage combines the
//! results — the same stage order [`crate::render_graph::next_pass`]
//! gives. What a buffer must contain is decided here as plain data; the
//! shell replays the stream through the driver verbatim.

use vstd::prelude::*;

use crate::mesh::MeshDraw;
use crate::swapchain::Extent2D;

verus! {

/// One recorded command.
#[derive(Clone, Copy, Debug, PartialEq, Eq, Structural)]
pub enum RenderCommand {
    /// Begin the deferred render pass over the full render area, clearing
    /// every attachment.
    BeginRenderPass { extent: Extent2D },
    /// Set the dynamic viewport to the full extent.
    SetViewport { extent: Extent2D },
    /// Set the dynamic scissor to the full extent.
    SetScissor { extent: Extent2D },
    /// Bind the geometry graphics pipeline.
    BindGeometryPipeline,
    /// Bind one vertex buffer at a byte offset.
    BindVertexBuffer { buffer: u64, offset: u64 },
    /// Bind one 16-bit index buffer.
    BindIndexBuffer { buffer: u64 },
    /// Bind the uniform descriptor set recorded for this swapchain image.
    BindDescriptorSet { image_index: usize },
    /// Draw one mesh by its index count.
    DrawIndexed { index_count: u32 },
    /// Advance to the next subpass of the deferred render pass.
    NextSubpass,
    /// One full-screen draw accumulating the ambient light contribution.
    DrawAmbientLight,
    /// One full-screen draw accumulating directional light `light_index`'s
    /// contribution, additively blended over the earlier light draws.
    DrawDirectionalLight { light_index: usize },
    /// The one full-screen draw combining diffuse, light and depth into
    /// the swapchain image.
    DrawComposition,
    /// End the render pass.
    EndRenderPass,
}

/// Number of commands recorded per mesh draw: bind vertex buffer, bind
/// index buffer, bind descriptor set, draw.
pub const COMMANDS_PER_DRAW: usize = 4;

/// Number of commands before the first mesh draw: begin render pass,
/// viewport, scissor, bind the geometry pipeline.
pub const COMMANDS_BEFORE_DRAWS: usize = 4;

/// Position of the first lighting-stage command: directly after the
/// geometry stage's header and mesh draws.
pub open spec fn lighting_start(n_draws: int) -> int {
    COMMANDS_BEFORE_DRAWS + COMMANDS_PER_DRAW * n_draws
}

/// The four commands recorded for mesh draw `k` of the stream, starting at
/// position `COMMANDS_BEFORE_DRAWS + 4k`.
pub open spec fn draw_commands_at(
    r: Seq<RenderCommand>,
    draws: Seq<MeshDraw>,
    image_index: usize,
    k: int,
) -> bool {
    let base = COMMANDS_BEFORE_DRAWS + COMMANDS_PER_DRAW * k;
    &&& r[base] == (RenderCommand::BindVertexBuffer {
        buffer: draws[k].vertex_buffer,
        offset: draws[k].vertex_offset,
    })
    &&& r[base + 1] == (RenderCommand::BindIndexBuffer { buffer: draws[k].index_buffer })
    &&& r[base + 2] == (RenderCommand::BindDescriptorSet { image_index })
    &&& r[base + 3] == (RenderCommand::DrawIndexed { index_count: draws[k].index_count })
}

/// A command sequence extended at the end keeps every recorded mesh draw.
proof fn lemma_extension_keeps_draws(
    prev: Seq<RenderCommand>,
    cur: Seq<RenderCommand>,
    draws: Seq<MeshDraw>,
    image_index: usize,
)
    requires
        lighting_start(draws.len() as int) <= prev.len(),
        forall|k: int| 0 <= k < draws.len() ==> draw_commands_at(prev, draws, image_index, k),
        prev.len() <= cur.len(),
        forall|i: int| 0 <= i < prev.len() ==> cur[i] == prev[i],
    ensures
        forall|k: int| 0 <= k < draws.len() ==> draw_commands_at(cur, draws, image_index, k),
{
    assert forall|k: int| 0 <= k < draws.len() implies draw_commands_at(
        cur,
        draws,
        image_index,
        k,
    ) by {
        let base = COMMANDS_BEFORE_DRAWS + COMMANDS_PER_DRAW * k;
        assert(draw_commands_at(prev, draws, image_index, k));
        assert(base + 3 < prev.len());
        assert(cur[base] == prev[base]);
        assert(cur[base + 1] == prev[base + 1]);
        assert(cur[base + 2] == prev[base + 2]);
        assert(cur[base + 3] == prev[base + 3]);
    }
}

/// Records the command buffer of one swapchain image for the whole
/// deferred frame: the render pass is opened once over the full extent;
/// the geometry stage binds its pipeline and draws every mesh of the draw
/// list with its own buffers and this image's descriptor set; the lighting
/// stage accumulates the ambient light and then each directional light in
/// order, one full-screen draw each; the composition stage makes its one
/// full-screen draw; and the pass is closed.
#[verifier::rlimit(60)]
pub fn record_frame_commands(
    extent: Extent2D,
    image_index: usize,
    draws: &Vec<MeshDraw>,
    directional_light_count: usize,
) -> (r: Vec<RenderCommand>)
    requires
        draws@.len() <= 1000_000_000,
        directional_light_count <= 1000_000_000,
    ensures
        r@.len() == lighting_start(draws@.len() as int) + 5 + directional_light_count,
        r@[0] == (RenderCommand::BeginRenderPass { extent }),
        r@[1] == (RenderCommand::SetViewport { extent }),
        r@[2] == (RenderCommand::SetScissor { extent }),
        r@[3] == RenderCommand::BindGeometryPipeline,
        forall|k: int| 0 <= k < draws@.len() ==> draw_commands_at(r@, draws@, image_index, k),
        r@[lighting_start(draws@.len() as int)] == RenderCommand::NextSubpass,
        r@[lighting_start(draws@.len() as int) + 1] == RenderCommand::DrawAmbientLight,
        forall|l: int|
            0 <= l < directional_light_count ==> #[trigger] r@[lighting_start(
                draws@.len() as int,
            ) + 2 + l] == (RenderCommand::DrawDirectionalLight { light_index: l as usize }),
        r@[lighting_start(draws@.len() as int) + 2 + directional_light_count]
            == RenderCommand::NextSubpass,
        r@[lighting_start(draws@.len() as int) + 3 + directional_light_count]
            == RenderCommand::DrawComposition,
        r@.last() == RenderCommand::EndRenderPass,
{
    let n: usize = draws.len();
    let mut r: Vec<RenderCommand> = Vec::new();
    r.push(RenderCommand::BeginRenderPass { extent });
    r.push(RenderCommand::SetViewport { extent });
    r.push(RenderCommand::SetScissor { extent });
    r.push(RenderCommand::BindGeometryPipeline);
    let mut k: usize = 0;
    while k < n
        invariant
            n == draws@.len(),
            n <= 1000_000_000,
            0 <= k <= n,
            r@.len() == COMMANDS_BEFORE_DRAWS + COMMANDS_PER_DRAW * k,
            r@[0] == (RenderCommand::BeginRenderPass { extent }),
            r@[1] == (RenderCommand::SetViewport { extent }),
            r@[2] == (RenderCommand::SetScissor { extent }),
            r@[3] == RenderCommand::BindGeometryPipeline,
            forall|j: int| 0 <= j < k ==> draw_commands_at(r@, draws@, image_index, j),
        decreases n - k,
    {
        let draw = draws[k];
        let ghost prev = r@;
        let ghost appended = seq![
            RenderCommand::BindVertexBuffer {
                buffer: draw.vertex_buffer,
                offset: draw.vertex_offset,
            },
            RenderCommand::BindIndexBuffer { buffer: draw.index_buffer },
            RenderCommand::BindDescriptorSet { image_index },
            RenderCommand::DrawIndexed { index_count: draw.index_count },
        ];
        r.push(RenderCommand::BindVertexBuffer {
            buffer: draw.vertex_buffer,
            offset: draw.vertex_offset,
        });
        r.push(RenderCommand::BindIndexBuffer { buffer: draw.index_buffer });
        r.push(RenderCommand::BindDescriptorSet { image_index });
        r.push(RenderCommand::DrawIndexed { index_count: draw.index_count });
        proof {
            assert(r@ =~= prev + appended);
            assert forall|j: int| 0 <= j < k + 1 implies draw_commands_at(
                r@,
                draws@,
                image_index,
                j,
            ) by {
                let base = COMMANDS_BEFORE_DRAWS + COMMANDS_PER_DRAW * j;
                if j < k {
                    assert(draw_commands_at(prev, draws@, image_index, j));
                    assert(base + 3 < prev.len());
                    assert(r@[base] == prev[base]);
                    assert(r@[base + 1] == prev[base + 1]);
                    assert(r@[base + 2] == prev[base + 2]);
                    assert(r@[base + 3] == prev[base + 3]);
                } else {
                    assert(base == prev.len());
                    assert(r@[base] == appended[0]);
                    assert(r@[base + 1] == appended[1]);
                    assert(r@[base + 2] == appended[2]);
                    assert(r@[base + 3] == appended[3]);
                }
            }
        }
        k = k + 1;
    }
    let ghost ls = lighting_start(n as int);

    // Lighting stage: one accumulating draw per light.
    let ghost geometry = r@;
    r.push(RenderCommand::NextSubpass);
    r.push(RenderCommand::DrawAmbientLight);
    proof {
        assert(r@ =~= geometry + seq![RenderCommand::NextSubpass, RenderCommand::DrawAmbientLight]);
        assert forall|i: int| 0 <= i < geometry.len() implies r@[i] == geometry[i] by {}
        lemma_extension_keeps_draws(geometry, r@, draws@, image_index);
    }
    let mut l: usize = 0;
    while l < directional_light_count
        invariant
            n == draws@.len(),
            n <= 1000_000_000,
            directional_light_count <= 1000_000_000,
            ls == lighting_start(n as int),
            0 <= l <= directional_light_count,
            r@.len() == ls + 2 + l,
            r@[0] == (RenderCommand::BeginRenderPass { extent }),
            r@[1] == (RenderCommand::SetViewport { extent }),
            r@[2] == (RenderCommand::SetScissor { extent }),
            r@[3] == RenderCommand::BindGeometryPipeline,
            forall|j: int| 0 <= j < n ==> draw_commands_at(r@, draws@, image_index, j),
            r@[ls] == RenderCommand::NextSubpass,
            r@[ls + 1] == RenderCommand::DrawAmbientLight,
            forall|j: int|
                0 <= j < l ==> #[trigger] r@[ls + 2 + j] == (RenderCommand::DrawDirectionalLight {
                    light_index: j as usize,
                }),
        decreases directional_light_count - l,
    {
        let ghost prev = r@;
        r.push(RenderCommand::DrawDirectionalLight { light_index: l });
        proof {
            assert(r@ =~= prev + seq![RenderCommand::DrawDirectionalLight { light_index: l }]);
            assert forall|i: int| 0 <= i < prev.len() implies r@[i] == prev[i] by {}
            lemma_extension_keeps_draws(prev, r@, draws@, image_index);
            assert forall|j: int|
                0 <= j < l + 1 implies #[trigger] r@[ls + 2 + j]
                == (RenderCommand::DrawDirectionalLight { light_index: j as usize }) by {
                if j < l {
                    assert(r@[ls + 2 + j] == prev[ls + 2 + j]);
                } else {
                    assert(ls + 2 + j == prev.len());
                }
            }
        }
        l = l + 1;
    }

    // Composition stage, then close the pass.
    let ghost lit = r@;
    r.push(RenderCommand::NextSubpass);
    r.push(RenderCommand::DrawComposition);
    r.push(RenderCommand::EndRenderPass);
    proof {
        assert(r@ =~= lit + seq![
            RenderCommand::NextSubpass,
            RenderCommand::DrawComposition,
            RenderCommand::EndRenderPass,
        ]);
        assert forall|i: int| 0 <= i < lit.len() implies r@[i] == lit[i] by {}
        lemma_extension_keeps_draws(lit, r@, draws@, image_index);
        assert(r@[lit.len() as int] == RenderCommand::NextSubpass);
        assert(r@[lit.len() as int + 1] == RenderCommand::DrawComposition);
        assert(r@[lit.len() as int + 2] == RenderCommand::EndRenderPass);
    }
    r
}

} // verus!

use vstd::prelude::*;

verus! {

/// Sizing and scheduling arithmetic for one render: the extents of the two
/// render targets, the staging buffer size, the copy row pitch, the 2D
/// dispatch grids of the two compute passes, and the strict order of the
/// command batch.

/// Edge of one square workgroup tile, in texels: both kernels shade 8 x 8
/// blocks per workgroup invocation.
pub const TILE_EDGE: u32 = 8;

/// Bytes of one packed RGBA8 texel in the staging buffer.
pub const BYTES_PER_TEXEL: u32 = 4;

/// Linear supersampling factor per axis of the offscreen target.
pub const SUPERSAMPLE_FACTOR: u32 = 2;

/// Workgroups needed along one axis to cover `extent` texels with tiles of
/// TILE_EDGE texels: the last tile may hang over the edge, none may be
/// missing.
pub open spec fn tiles_to_cover(extent: u32) -> int {
    (extent + TILE_EDGE - 1) / (TILE_EDGE as int)
}

/// Workgroup count along one axis: enough tiles to cover the extent, and no
/// spare whole tile beyond it.
pub fn workgroups_along(extent: u32) -> (n: u32)
    ensures
        n == tiles_to_cover(extent),
        n * TILE_EDGE >= extent,
        extent > 0 ==> (n - 1) * TILE_EDGE < extent,
{
    if extent % TILE_EDGE == 0 {
        extent / TILE_EDGE
    } else {
        extent / TILE_EDGE + 1
    }
}

/// Every size a render of one final resolution needs, computed once before
/// any device resource is created.
pub struct RenderPlan {
    /// Final target width in texels.
    pub width: u32,
    /// Final target height in texels.
    pub height: u32,
    /// Supersampled target width: SUPERSAMPLE_FACTOR times the final width.
    pub super_width: u32,
    /// Supersampled target height.
    pub super_height: u32,
    /// Exact size in bytes of the host-visible staging buffer.
    pub staging_size: u64,
    /// Row pitch of the final-target-to-staging copy, in bytes.
    pub bytes_per_row: u32,
    /// Row count of that copy.
    pub rows: u32,
    /// Trace dispatch grid, sized to cover the supersampled target.
    pub trace_groups_x: u32,
    pub trace_groups_y: u32,
    /// Downsample dispatch grid, sized to cover the final target.
    pub filter_groups_x: u32,
    pub filter_groups_y: u32,
}

impl RenderPlan {
    /// The arithmetic contract of one render's resources: target extents,
    /// tightly packed staging rows, and dispatch grids covering each target.
    pub open spec fn wf(self) -> bool {
        &&& self.super_width == SUPERSAMPLE_FACTOR * self.width
        &&& self.super_height == SUPERSAMPLE_FACTOR * self.height
        &&& self.staging_size == BYTES_PER_TEXEL * self.width * self.height
        &&& self.bytes_per_row == BYTES_PER_TEXEL * self.width
        &&& self.rows == self.height
        &&& self.trace_groups_x == tiles_to_cover(self.super_width)
        &&& self.trace_groups_y == tiles_to_cover(self.super_height)
        &&& self.filter_groups_x == tiles_to_cover(self.width)
        &&& self.filter_groups_y == tiles_to_cover(self.height)
    }
}

/// Plan one render at the requested final resolution. The bounds on the
/// arguments are machine limits only: the doubled extents and the row pitch
/// must fit the device's 32-bit size fields.
pub fn plan_render(width: u32, height: u32) -> (plan: RenderPlan)
    requires
        width <= u32::MAX / 4,
        height <= u32::MAX / 2,
    ensures
        plan.width == width,
        plan.height == height,
        plan.wf(),
{
    let super_width = SUPERSAMPLE_FACTOR * width;
    let super_height = SUPERSAMPLE_FACTOR * height;
    proof {
        assert(4 * (width as int) * (height as int) <= u64::MAX as int) by (nonlinear_arith)
            requires
                width <= u32::MAX / 4,
                height <= u32::MAX / 2,
        ;
    }
    let staging_size = (BYTES_PER_TEXEL as u64) * (width as u64) * (height as u64);
    let bytes_per_row = BYTES_PER_TEXEL * width;
    let trace_groups_x = workgroups_along(super_width);
    let trace_groups_y = workgroups_along(super_height);
    let filter_groups_x = workgroups_along(width);
    let filter_groups_y = workgroups_along(height);
    RenderPlan {
        width,
        height,
        super_width,
        super_height,
        staging_size,
        bytes_per_row,
        rows: height,
        trace_groups_x,
        trace_groups_y,
        filter_groups_x,
        filter_groups_y,
    }
}

/// The staging buffer of a well-formed plan holds exactly one final image:
/// its size is the size the result adapter demands of a width x height
/// RGBA8 pixel rectangle, so a complete copy fills it with no slack.
pub proof fn lemma_staging_holds_exactly_one_image(plan: RenderPlan)
    requires
        plan.wf(),
    ensures
        crate::adapter::pixel_buffer_sized(
            plan.staging_size as int,
            plan.width as int,
            plan.height as int,
        ),
{
    assert(BYTES_PER_TEXEL * (plan.width as int) * (plan.height as int) == 4 * ((plan.width
        as int) * (plan.height as int))) by (nonlinear_arith);
}

/// One step of the single command batch a render submits.
pub enum RenderCommand {
    /// Clear the final target to the zero color, so every texel has a
    /// deterministic value before any data-dependent write.
    ClearFinalTarget,
    /// Run the trace kernel over the supersampled target.
    DispatchTrace { groups_x: u32, groups_y: u32 },
    /// Run the downsample kernel over the final target; must observe the
    /// trace pass's writes.
    DispatchDownsample { groups_x: u32, groups_y: u32 },
    /// Copy the final target into the staging buffer with an explicit row
    /// pitch, bridging any driver-imposed row padding.
    CopyFinalToStaging { bytes_per_row: u32, rows: u32 },
}

/// The command batch of one render, in its strict dependency order: clear,
/// trace, downsample, copy out. All four steps are encoded into one batch
/// and submitted once.
pub fn encode_commands(plan: &RenderPlan) -> (cmds: Vec<RenderCommand>)
    ensures
        cmds@.len() == 4,
        cmds@[0] is ClearFinalTarget,
        cmds@[1] == (RenderCommand::DispatchTrace {
            groups_x: plan.trace_groups_x,
            groups_y: plan.trace_groups_y,
        }),
        cmds@[2] == (RenderCommand::DispatchDownsample {
            groups_x: plan.filter_groups_x,
            groups_y: plan.filter_groups_y,
        }),
        cmds@[3] == (RenderCommand::CopyFinalToStaging {
            bytes_per_row: plan.bytes_per_row,
            rows: plan.rows,
        }),
{
    let mut cmds: Vec<RenderCommand> = Vec::new();
    cmds.push(RenderCommand::ClearFinalTarget);
    cmds.push(RenderCommand::DispatchTrace {
        groups_x: plan.trace_groups_x,
        groups_y: plan.trace_groups_y,
    });
    cmds.push(RenderCommand::DispatchDownsample {
        groups_x: plan.filter_groups_x,
        groups_y: plan.filter_groups_y,
    });
    cmds.push(RenderCommand::CopyFinalToStaging {
        bytes_per_row: plan.bytes_per_row,
        rows: plan.rows,
    });
    cmds
}

} // verus!

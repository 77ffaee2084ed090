use raytrace_pipeline::dispatch::{encode_commands, plan_render, workgroups_along, RenderCommand};

#[test]
fn plan_at_the_reference_resolution() {
    let plan = plan_render(256, 256);
    assert_eq!(plan.super_width, 512);
    assert_eq!(plan.super_height, 512);
    assert_eq!(plan.staging_size, 256 * 256 * 4);
    assert_eq!(plan.bytes_per_row, 1024);
    assert_eq!(plan.rows, 256);
    assert_eq!(plan.trace_groups_x, 64);
    assert_eq!(plan.trace_groups_y, 64);
    assert_eq!(plan.filter_groups_x, 32);
    assert_eq!(plan.filter_groups_y, 32);
}

#[test]
fn workgroups_round_up_to_cover_the_edge() {
    assert_eq!(workgroups_along(0), 0);
    assert_eq!(workgroups_along(1), 1);
    assert_eq!(workgroups_along(8), 1);
    assert_eq!(workgroups_along(9), 2);
    assert_eq!(workgroups_along(500), 63);
}

#[test]
fn plan_of_an_uneven_resolution() {
    let plan = plan_render(250, 100);
    assert_eq!(plan.super_width, 500);
    assert_eq!(plan.trace_groups_x, 63);
    assert_eq!(plan.filter_groups_x, 32);
    assert_eq!(plan.bytes_per_row, 1000);
    assert_eq!(plan.staging_size, 250 * 100 * 4);
}

#[test]
fn staging_buffer_holds_exactly_the_final_image() {
    let plan = plan_render(256, 256);
    assert!(raytrace_pipeline::adapter::pixel_buffer_matches(
        plan.staging_size as usize,
        plan.width,
        plan.height
    ));
    let odd = plan_render(250, 100);
    assert!(raytrace_pipeline::adapter::pixel_buffer_matches(
        odd.staging_size as usize,
        odd.width,
        odd.height
    ));
}

#[test]
fn command_batch_has_the_strict_order() {
    let plan = plan_render(256, 256);
    let cmds = encode_commands(&plan);
    assert_eq!(cmds.len(), 4);
    assert!(matches!(cmds[0], RenderCommand::ClearFinalTarget));
    match cmds[1] {
        RenderCommand::DispatchTrace { groups_x, groups_y } => {
            assert_eq!((groups_x, groups_y), (64, 64));
        }
        _ => panic!("second command must be the trace dispatch"),
    }
    match cmds[2] {
        RenderCommand::DispatchDownsample { groups_x, groups_y } => {
            assert_eq!((groups_x, groups_y), (32, 32));
        }
        _ => panic!("third command must be the downsample dispatch"),
    }
    match cmds[3] {
        RenderCommand::CopyFinalToStaging { bytes_per_row, rows } => {
            assert_eq!((bytes_per_row, rows), (1024, 256));
        }
        _ => panic!("fourth command must be the copy out"),
    }
}

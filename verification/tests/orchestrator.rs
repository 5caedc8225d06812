//! The constructed pipeline instance: configuration validation, the
//! pyramid geometry, the stage schedule, and the recorded command batch.

use orb_core::commands::Command;
use orb_core::error::ConfigError;
use orb_core::geometry::{ceil_log2, chunk_count, dispatch_groups, level_dim};
use orb_core::orb::{OrbConfig, OrbFeatureExtractorConfig, OrbParams, OrbProgram};
use orb_core::schedule::{
    compaction_rounds, next_stage, schedule, CompactionStrategy, PyramidStrategy, Stage,
};

fn config(width: u32, height: u32, depth: u32, chunked: bool) -> OrbConfig {
    OrbConfig {
        image_width: width,
        image_height: height,
        max_features: 16,
        pyramid_depth: depth,
        corner_threshold: 40,
        pyramid_strategy: PyramidStrategy::BlitBlur,
        compaction_strategy: if chunked {
            CompactionStrategy::ChunkedScan
        } else {
            CompactionStrategy::SingleAtomic
        },
    }
}

#[test]
fn pyramid_level_dims_halve_with_floor() {
    // Level i measures floor(base / 2^i) in each axis, for every valid
    // depth.
    assert_eq!(level_dim(64, 0), 64);
    assert_eq!(level_dim(64, 3), 8);
    assert_eq!(level_dim(65, 1), 32);
    assert_eq!(level_dim(47, 3), 5);
    assert_eq!(level_dim(1, 9), 0);
    for depth in 1..=10u32 {
        for i in 0..depth {
            assert_eq!(level_dim(1024, i) as u64, 1024 / 2u64.pow(i));
        }
    }
}

#[test]
fn dispatch_geometry_rounds_up() {
    assert_eq!(dispatch_groups(0), 0);
    assert_eq!(dispatch_groups(1), 1);
    assert_eq!(dispatch_groups(8), 1);
    assert_eq!(dispatch_groups(9), 2);
    assert_eq!(chunk_count(64, 64), 64);
    assert_eq!(chunk_count(65, 17), 27);
}

#[test]
fn ceil_log2_counts_doubling_rounds() {
    assert_eq!(ceil_log2(1), 0);
    assert_eq!(ceil_log2(2), 1);
    assert_eq!(ceil_log2(3), 2);
    assert_eq!(ceil_log2(64), 6);
    assert_eq!(ceil_log2(65), 7);
    assert_eq!(compaction_rounds(CompactionStrategy::ChunkedScan, 64), 6);
    assert_eq!(compaction_rounds(CompactionStrategy::SingleAtomic, 64), 0);
}

#[test]
fn schedule_walks_the_stage_sequence() {
    let s = schedule(2, 2, true);
    assert_eq!(
        s,
        vec![
            Stage::GrayscaleConvert,
            Stage::PyramidLevel { level: 0 },
            Stage::PyramidLevel { level: 1 },
            Stage::CornerDetect,
            Stage::CompactionRound { round: 0 },
            Stage::CompactionRound { round: 1 },
            Stage::Scatter,
            Stage::Readback,
            Stage::Done,
        ]
    );
    let atomic = schedule(1, 0, false);
    assert_eq!(
        atomic,
        vec![
            Stage::GrayscaleConvert,
            Stage::PyramidLevel { level: 0 },
            Stage::CornerDetect,
            Stage::Readback,
            Stage::Done,
        ]
    );
}

#[test]
fn next_stage_matches_schedule_transitions() {
    let s = schedule(3, 2, true);
    for i in 0..s.len() - 1 {
        assert_eq!(next_stage(s[i], 3, 2, true), s[i + 1]);
    }
    assert_eq!(next_stage(Stage::Done, 3, 2, true), Stage::Done);
}

#[test]
fn init_rejects_out_of_range_configurations() {
    let mut c = config(64, 64, 1, true);
    c.image_width = 0;
    assert_eq!(
        OrbProgram::init(c).map(|_| ()).unwrap_err(),
        ConfigError::InvalidConfig
    );
    let mut c = config(64, 64, 1, true);
    c.pyramid_depth = 11;
    assert_eq!(
        OrbProgram::init(c).map(|_| ()).unwrap_err(),
        ConfigError::InvalidConfig
    );
    assert!(OrbProgram::init(config(64, 64, 10, true)).is_ok());
}

#[test]
fn constructed_catalogue_has_level_views() {
    let p = OrbProgram::init(config(64, 48, 3, true)).unwrap();
    assert_eq!(p.registry.images.len(), 4);
    assert_eq!(p.registry.image_views.len(), 2 + 3 * 3);
    // One view per level over mip levels that halve with floor.
    for i in 0..3usize {
        let v = &p.registry.image_views[2 + i].1;
        assert_eq!(v.image, 1);
        assert_eq!(v.base_level, i as u32);
        assert_eq!(v.level_count, 1);
    }
    assert_eq!(p.registry.images[1].1.mip_levels, 3);
    assert_eq!(p.registry.buffers[1].0, String::from("counter"));
    assert_eq!(p.registry.buffers[1].1.size, 4);
    assert_eq!(p.registry.buffers[5].1.size, p.num_chunks * 4);
    assert_eq!(p.registry.pipelines.len(), 10);
}

#[test]
fn recorded_batch_resets_counters_first() {
    // Determinism rests on the counter-reset copies standing before any
    // dispatch of the batch.
    let p = OrbProgram::init(config(64, 64, 1, true)).unwrap();
    let cmds = p.record_run(&OrbParams { compute_matches: false });
    assert_eq!(cmds[0], Command::ClearBuffer { buffer: 1 });
    assert_eq!(
        cmds[1],
        Command::CopyBuffer { src: 6, dst: 5, size: p.num_chunks * 4 }
    );
    assert_eq!(cmds[cmds.len() - 1], Command::MapStaging { staging: 2 });
    assert_eq!(cmds[cmds.len() - 2], Command::CopyBuffer { src: 1, dst: 2, size: 4 });
}

#[test]
fn recorded_batch_sizes_detection_from_halved_dims() {
    let p = OrbProgram::init(config(64, 64, 2, true)).unwrap();
    let cmds = p.record_run(&OrbParams { compute_matches: false });
    let detect: Vec<&Command> = cmds
        .iter()
        .filter(|c| matches!(c, Command::Dispatch { pipeline: 4, .. }))
        .collect();
    assert_eq!(detect.len(), 2);
    match detect[0] {
        Command::Dispatch { groups_x, groups_y, param, threshold, .. } => {
            assert_eq!((*groups_x, *groups_y), (8, 8));
            assert_eq!(*param, Some(0));
            assert_eq!(*threshold, Some(40));
        },
        _ => panic!("expected a dispatch"),
    }
    match detect[1] {
        Command::Dispatch { groups_x, groups_y, param, .. } => {
            // Level 1 is 32x32: its dispatch is sized from the halved
            // dimensions, not the base dimensions.
            assert_eq!((*groups_x, *groups_y), (4, 4));
            assert_eq!(*param, Some(1));
        },
        _ => panic!("expected a dispatch"),
    }
}

#[test]
fn recorded_batch_runs_log2_scan_rounds() {
    // 64x64 pixels tile into 64 chunks, so the chunked scan needs 6
    // rounds; the offset table is copied from the raw counters first.
    let p = OrbProgram::init(config(64, 64, 1, true)).unwrap();
    assert_eq!(p.num_chunks, 64);
    assert_eq!(p.rounds, 6);
    let cmds = p.record_run(&OrbParams { compute_matches: false });
    let scans: Vec<&Command> = cmds
        .iter()
        .filter(|c| matches!(c, Command::Dispatch { pipeline: 6, .. }))
        .collect();
    assert_eq!(scans.len(), 6);
    for (r, cmd) in scans.iter().enumerate() {
        match cmd {
            Command::Dispatch { param, .. } => assert_eq!(*param, Some(r as u32)),
            _ => panic!("expected a dispatch"),
        }
    }
    assert!(cmds.contains(&Command::CopyBuffer { src: 5, dst: 7, size: 64 * 4 }));
    // Exactly one scatter dispatch.
    let scatters = cmds
        .iter()
        .filter(|c| matches!(c, Command::Dispatch { pipeline: 7, .. }))
        .count();
    assert_eq!(scatters, 1);
}

#[test]
fn atomic_strategy_records_no_scan() {
    let p = OrbProgram::init(config(64, 64, 1, false)).unwrap();
    let cmds = p.record_run(&OrbParams { compute_matches: false });
    assert!(!cmds
        .iter()
        .any(|c| matches!(c, Command::Dispatch { pipeline: 6, .. } | Command::Dispatch { pipeline: 7, .. })));
}

#[test]
fn identical_configuration_records_identical_batches() {
    let p1 = OrbProgram::init(config(640, 480, 4, true)).unwrap();
    let p2 = OrbProgram::init(config(640, 480, 4, true)).unwrap();
    let params = OrbParams { compute_matches: true };
    assert_eq!(p1.record_run(&params), p2.record_run(&params));
    // The per-run options do not change the batch.
    assert_eq!(
        p1.record_run(&OrbParams { compute_matches: false }),
        p1.record_run(&OrbParams { compute_matches: true })
    );
}

#[test]
fn input_image_upload_is_validated() {
    let p = OrbProgram::init(config(64, 64, 1, true)).unwrap();
    let bytes = vec![0u8; 64 * 64 * 4];
    let up = p.write_input_image(&bytes, 256).unwrap();
    assert_eq!(up.image, 0);
    assert_eq!(up.row_stride, 256);
    let short = vec![0u8; 64 * 64 * 4 - 1];
    assert_eq!(
        p.write_input_image(&short, 256).unwrap_err(),
        ConfigError::SizeMismatch
    );
    assert_eq!(
        p.write_input_image(&bytes, 128).unwrap_err(),
        ConfigError::SizeMismatch
    );
}

#[test]
fn extractor_config_bridges_to_single_scale() {
    let c = OrbFeatureExtractorConfig { image_width: 64, image_height: 64, max_features: 16 };
    let full = c.to_orb_config(30).unwrap();
    assert_eq!(full.pyramid_depth, 1);
    assert_eq!(full.compaction_strategy, CompactionStrategy::SingleAtomic);
    assert!(OrbProgram::init(full).is_ok());
    let bad = OrbFeatureExtractorConfig { image_width: 0, image_height: 64, max_features: 16 };
    assert_eq!(bad.to_orb_config(30).unwrap_err(), ConfigError::InvalidConfig);
}

#[test]
fn label_getters_reach_the_catalogue() {
    let p = OrbProgram::init(config(64, 64, 2, true)).unwrap();
    assert!(p.texture(&String::from("image_hierarchy")).is_ok());
    assert!(p.buffer(&String::from("chunk_counters")).is_ok());
    assert!(p.bind_group(&String::from("fast_bind")).is_ok());
    assert!(p.compute_pipeline(&String::from("fast_pipe")).is_ok());
    assert!(p.render_pipeline(&String::from("grayscale_pipe")).is_ok());
    // Kind mismatches and unknown labels fail.
    assert_eq!(
        p.compute_pipeline(&String::from("grayscale_pipe")).unwrap_err(),
        ConfigError::LabelNotFound
    );
    assert_eq!(
        p.texture(&String::from("nowhere")).unwrap_err(),
        ConfigError::LabelNotFound
    );
}

#[test]
fn instance_schedule_starts_and_terminates() {
    let p = OrbProgram::init(config(64, 64, 2, true)).unwrap();
    let s = p.stage_schedule();
    assert_eq!(s[0], Stage::GrayscaleConvert);
    assert_eq!(s[s.len() - 1], Stage::Done);
    assert_eq!(
        s,
        schedule(
            2,
            p.rounds,
            true,
        )
    );
}

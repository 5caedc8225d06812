//! The feature-extraction pipeline instance: configuration, construction of
//! every device resource, and the recording of one run's command batch.
//!
//! Construction is where every label lookup happens; afterwards the
//! orchestrator works through typed handles (here: fixed catalogue indices)
//! only. All configuration errors surface before any device work; a
//! constructed instance records the same command batch for the same
//! configuration on every run.

use vstd::prelude::*;

use crate::error::ConfigError;
use crate::registry::Registry;
use crate::resources::{
    BufferDesc, BufferUsage, FilterMode, ImageDesc, ImageFormat, ImageUsage, ImageViewDesc,
};
use crate::binding::{build_binding_set, item_found, item_size_ok, layout_label_of};
use crate::pipeline::{build_compute_pipeline, build_draw_pipeline};
use crate::binding_types::{BindingItem, PipelineKind};
use crate::labels::{lemma_numbered_distinct, lemma_suffix_keeps_distinct, numbered, numbered_label};
use crate::pipeline::has_entry;
use crate::registry::lemma_label_index_unique;
use crate::schedule::{compaction_rounds, CompactionStrategy, PyramidStrategy};
use crate::commands::Command;
use crate::geometry::{ceil_log2, chunk_count, dispatch_groups, is_ceil_log2, level_dim, mip_dim};
use vstd::arithmetic::power2::pow2;

verus! {

/// Bytes per corner-candidate record in the candidate tables.
pub const CORNER_BYTES: u64 = 48;

/// Bytes per descriptor record.
pub const DESCRIPTOR_BYTES: u64 = 32;

/// Fixed per-chunk candidate capacity of the chunked-scan tables: a hard
/// ceiling, sized generously; excess detections in one chunk are dropped.
pub const CHUNK_CAPACITY: u64 = 64;

/// Pipeline configuration. Dimensions are pixels; `corner_threshold` is
/// handed to the detection program through its per-dispatch parameter
/// block; the strategies pick how pyramid levels are built and how results
/// are compacted.
#[derive(Clone, Copy, Debug, PartialEq, Eq, Structural)]
pub struct OrbConfig {
    pub image_width: u32,
    pub image_height: u32,
    pub max_features: u32,
    pub pyramid_depth: u32,
    pub corner_threshold: u32,
    pub pyramid_strategy: PyramidStrategy,
    pub compaction_strategy: CompactionStrategy,
}

/// The configurations the pipeline accepts: positive dimensions within the
/// device's maximum resource dimension, a pyramid depth within the
/// compiled maximum, a bounded output capacity, and — since the
/// integral-image strategy works at a single scale — depth 1 for that
/// strategy.
pub open spec fn config_valid(c: OrbConfig) -> bool {
    &&& 1 <= c.image_width <= 16384
    &&& 1 <= c.image_height <= 16384
    &&& 1 <= c.pyramid_depth <= 10
    &&& 1 <= c.max_features <= 1048576
    &&& c.pyramid_strategy == PyramidStrategy::IntegralImage ==> c.pyramid_depth == 1
}

/// Checks a configuration against `config_valid`.
pub fn validate_config(c: &OrbConfig) -> (r: bool)
    ensures
        r == config_valid(*c),
{
    1 <= c.image_width && c.image_width <= 16384 && 1 <= c.image_height && c.image_height <= 16384
        && 1 <= c.pyramid_depth && c.pyramid_depth <= 10 && 1 <= c.max_features && c.max_features
        <= 1048576 && (!(c.pyramid_strategy == PyramidStrategy::IntegralImage) || c.pyramid_depth
        == 1)
}

/// Usage flags of a device-local storage buffer, with the given transfer
/// directions.
pub open spec fn storage_usage(copy_src: bool, copy_dst: bool, vertex: bool) -> BufferUsage {
    BufferUsage {
        storage: true,
        uniform: false,
        copy_src,
        copy_dst,
        map_read: false,
        map_write: false,
        vertex,
    }
}

/// Usage flags of the host-readable staging buffer.
pub open spec fn staging_usage() -> BufferUsage {
    BufferUsage {
        storage: false,
        uniform: false,
        copy_src: false,
        copy_dst: true,
        map_read: true,
        map_write: false,
        vertex: false,
    }
}

/// Where every resource of a constructed pipeline stands in the catalogue,
/// and what it was created with. Handle indices are fixed by construction
/// order: the per-frame path needs no label lookup.
pub open spec fn resources_laid_out(reg: Registry, c: OrbConfig, num_chunks: u64) -> bool {
    let depth = c.pyramid_depth as int;
    &&& reg.programs@.len() == 7
    &&& reg.images@.len() == 4
    &&& reg.samplers@.len() == 1
    &&& reg.image_views@.len() == 2 + 3 * depth
    &&& reg.buffers@.len() == 10
    // programs
    &&& reg.programs@[0].0@ == "color_to_grayscale"@
    &&& reg.programs@[1].0@ == "blit"@
    &&& reg.programs@[2].0@ == "gaussian_blur_x"@
    &&& reg.programs@[3].0@ == "gaussian_blur_y"@
    &&& reg.programs@[4].0@ == "fast"@
    &&& reg.programs@[5].0@ == "brief"@
    &&& reg.programs@[6].0@ == "compact"@
    // images
    &&& reg.images@[0].0@ == "input_image"@
    &&& reg.images@[0].1 == (ImageDesc {
        width: c.image_width,
        height: c.image_height,
        mip_levels: 1,
        format: ImageFormat::Rgba8,
        usage: ImageUsage {
            texture_binding: true,
            storage_binding: false,
            render_attachment: false,
            copy_src: true,
            copy_dst: true,
        },
    })
    &&& reg.images@[1].0@ == "image_hierarchy"@
    &&& reg.images@[1].1 == (ImageDesc {
        width: c.image_width,
        height: c.image_height,
        mip_levels: c.pyramid_depth,
        format: ImageFormat::Gray16,
        usage: ImageUsage {
            texture_binding: true,
            storage_binding: false,
            render_attachment: true,
            copy_src: false,
            copy_dst: true,
        },
    })
    &&& reg.images@[2].0@ == "blur_tmp_hierarchy"@
    &&& reg.images@[2].1 == (ImageDesc {
        width: c.image_width,
        height: c.image_height,
        mip_levels: c.pyramid_depth,
        format: ImageFormat::Gray16,
        usage: ImageUsage {
            texture_binding: true,
            storage_binding: false,
            render_attachment: true,
            copy_src: false,
            copy_dst: false,
        },
    })
    &&& reg.images@[3].0@ == "blur_hierarchy"@
    &&& reg.images@[3].1 == (ImageDesc {
        width: c.image_width,
        height: c.image_height,
        mip_levels: c.pyramid_depth,
        format: ImageFormat::Gray16,
        usage: ImageUsage {
            texture_binding: true,
            storage_binding: false,
            render_attachment: true,
            copy_src: false,
            copy_dst: false,
        },
    })
    // sampler
    &&& reg.samplers@[0].0@ == "linear_sampler"@
    &&& reg.has_sampler("linear_sampler"@)
    // aggregate views
    &&& reg.image_views@[0].0@ == "image_hierarchy_all"@
    &&& reg.image_views@[0].1 == (ImageViewDesc {
        image: 1,
        base_level: 0,
        level_count: c.pyramid_depth,
    })
    &&& reg.image_views@[1].0@ == "blur_hierarchy_all"@
    &&& reg.image_views@[1].1 == (ImageViewDesc {
        image: 3,
        base_level: 0,
        level_count: c.pyramid_depth,
    })
    &&& reg.has_image_view("image_hierarchy_all"@)
    &&& reg.has_image_view("blur_hierarchy_all"@)
    // per-level views: one view per mip level of each hierarchy image
    &&& (forall|j: int|
        2 <= j < 2 + depth ==> (#[trigger] reg.image_views@[j]).0@ == numbered(
            "level_view_"@,
            j - 2,
        ) && reg.image_views@[j].1 == (ImageViewDesc {
            image: 1,
            base_level: (j - 2) as u32,
            level_count: 1,
        }))
    &&& (forall|j: int|
        2 + depth <= j < 2 + 2 * depth ==> (#[trigger] reg.image_views@[j]).0@ == numbered(
            "blur_tmp_view_"@,
            j - 2 - depth,
        ) && reg.image_views@[j].1 == (ImageViewDesc {
            image: 2,
            base_level: (j - 2 - depth) as u32,
            level_count: 1,
        }))
    &&& (forall|j: int|
        2 + 2 * depth <= j < 2 + 3 * depth ==> (#[trigger] reg.image_views@[j]).0@ == numbered(
            "blur_view_"@,
            j - 2 - 2 * depth,
        ) && reg.image_views@[j].1 == (ImageViewDesc {
            image: 3,
            base_level: (j - 2 - 2 * depth) as u32,
            level_count: 1,
        }))
    &&& (forall|d: int|
        0 <= d < depth ==> reg.has_image_view(numbered("level_view_"@, d)))
    &&& (forall|d: int|
        0 <= d < depth ==> reg.has_image_view(numbered("blur_tmp_view_"@, d)))
    // buffers
    &&& reg.buffers@[0].0@ == "corners"@
    &&& reg.buffers@[0].1 == (BufferDesc {
        size: (c.max_features * CORNER_BYTES) as u64,
        usage: storage_usage(true, false, true),
    })
    &&& reg.buffers@[1].0@ == "counter"@
    &&& reg.buffers@[1].1 == (BufferDesc { size: 4, usage: storage_usage(true, true, false) })
    &&& reg.buffers@[2].0@ == "counter_staging"@
    &&& reg.buffers@[2].1 == (BufferDesc { size: 4, usage: staging_usage() })
    &&& reg.buffers@[3].0@ == "descriptors"@
    &&& reg.buffers@[3].1 == (BufferDesc {
        size: (c.max_features * DESCRIPTOR_BYTES) as u64,
        usage: storage_usage(false, false, false),
    })
    &&& reg.buffers@[4].0@ == "chunk_corners"@
    &&& reg.buffers@[4].1 == (BufferDesc {
        size: (num_chunks * CHUNK_CAPACITY * CORNER_BYTES) as u64,
        usage: storage_usage(true, false, false),
    })
    &&& reg.buffers@[5].0@ == "chunk_counters"@
    &&& reg.buffers@[5].1 == (BufferDesc {
        size: (num_chunks * 4) as u64,
        usage: storage_usage(true, true, false),
    })
    &&& reg.buffers@[6].0@ == "chunk_counters_reset"@
    &&& reg.buffers@[6].1 == (BufferDesc {
        size: (num_chunks * 4) as u64,
        usage: storage_usage(true, false, false),
    })
    &&& reg.buffers@[7].0@ == "chunk_counters_global"@
    &&& reg.buffers@[7].1 == (BufferDesc {
        size: (num_chunks * 4) as u64,
        usage: storage_usage(true, true, false),
    })
    &&& reg.buffers@[8].0@ == "integral_in"@
    &&& reg.buffers@[8].1 == (BufferDesc {
        size: (c.image_width * c.image_height * 4) as u64,
        usage: storage_usage(false, true, false),
    })
    &&& reg.buffers@[9].0@ == "integral_out"@
    &&& reg.buffers@[9].1 == (BufferDesc {
        size: (c.image_width * c.image_height * 4) as u64,
        usage: storage_usage(true, false, false),
    })
    // label-based lookup agrees with the positional layout
    &&& reg.has_buffer("corners"@) && reg.buffer("corners"@) == reg.buffers@[0].1
    &&& reg.has_buffer("counter"@) && reg.buffer("counter"@) == reg.buffers@[1].1
    &&& reg.has_buffer("counter_staging"@) && reg.buffer("counter_staging"@) == reg.buffers@[2].1
    &&& reg.has_buffer("descriptors"@) && reg.buffer("descriptors"@) == reg.buffers@[3].1
    &&& reg.has_buffer("chunk_corners"@) && reg.buffer("chunk_corners"@) == reg.buffers@[4].1
    &&& reg.has_buffer("chunk_counters"@) && reg.buffer("chunk_counters"@) == reg.buffers@[5].1
    &&& reg.has_buffer("chunk_counters_reset"@) && reg.buffer("chunk_counters_reset"@)
        == reg.buffers@[6].1
    &&& reg.has_buffer("chunk_counters_global"@) && reg.buffer("chunk_counters_global"@)
        == reg.buffers@[7].1
    &&& reg.has_buffer("integral_in"@) && reg.buffer("integral_in"@) == reg.buffers@[8].1
    &&& reg.has_buffer("integral_out"@) && reg.buffer("integral_out"@) == reg.buffers@[9].1
    &&& reg.has_image("input_image"@) && reg.image("input_image"@) == reg.images@[0].1
    &&& reg.has_image("image_hierarchy"@) && reg.image("image_hierarchy"@) == reg.images@[1].1
    &&& reg.has_image("blur_tmp_hierarchy"@) && reg.image("blur_tmp_hierarchy"@)
        == reg.images@[2].1
    &&& reg.has_image("blur_hierarchy"@) && reg.image("blur_hierarchy"@) == reg.images@[3].1
    &&& reg.has_program("color_to_grayscale"@)
    &&& reg.has_program("blit"@)
    &&& reg.has_program("gaussian_blur_x"@)
    &&& reg.has_program("gaussian_blur_y"@)
    &&& reg.has_program("fast"@)
    &&& reg.has_program("brief"@)
    &&& reg.has_program("compact"@)
    // the entry points each program declares, told out-of-band at load time
    &&& has_entry(reg.program("color_to_grayscale"@), "vs_main"@)
    &&& has_entry(reg.program("color_to_grayscale"@), "fs_main"@)
    &&& has_entry(reg.program("blit"@), "vs_main"@)
    &&& has_entry(reg.program("blit"@), "fs_main"@)
    &&& has_entry(reg.program("gaussian_blur_x"@), "vs_main"@)
    &&& has_entry(reg.program("gaussian_blur_x"@), "fs_main"@)
    &&& has_entry(reg.program("gaussian_blur_y"@), "vs_main"@)
    &&& has_entry(reg.program("gaussian_blur_y"@), "fs_main"@)
    &&& has_entry(reg.program("fast"@), "compute_fast"@)
    &&& has_entry(reg.program("brief"@), "brief"@)
    &&& has_entry(reg.program("compact"@), "scan"@)
    &&& has_entry(reg.program("compact"@), "scatter"@)
    &&& has_entry(reg.program("compact"@), "integral_x"@)
    &&& has_entry(reg.program("compact"@), "integral_y"@)
}

/// The two entry points every full-screen render program declares.
fn render_entries() -> (v: Vec<String>)
    ensures
        v@.len() == 2,
        v@[0]@ == "vs_main"@,
        v@[1]@ == "fs_main"@,
{
    let mut v: Vec<String> = Vec::new();
    v.push(String::from_str("vs_main"));
    v.push(String::from_str("fs_main"));
    v
}

/// Creates every device resource of one pipeline instance in a fresh
/// catalogue: the programs with their declared entry points, the input
/// image, the three pyramid images with one view per level plus the
/// aggregate views, the sampler, and every buffer of both compaction
/// strategies. Construction allocates immediately and cannot collide: the
/// catalogue is fresh and the labels are fixed, so it always succeeds.
#[verifier::rlimit(100)]
#[verifier::loop_isolation(false)]
fn init_resources(reg: &mut Registry, c: &OrbConfig, num_chunks: u64) -> (r: Result<
    (),
    ConfigError,
>)
    requires
        old(reg).wf(),
        old(reg).programs@.len() == 0,
        old(reg).images@.len() == 0,
        old(reg).image_views@.len() == 0,
        old(reg).samplers@.len() == 0,
        old(reg).buffers@.len() == 0,
        config_valid(*c),
        num_chunks == ((c.image_width + 7) / 8) * ((c.image_height + 7) / 8),
    ensures
        final(reg).wf(),
        r is Ok,
        resources_laid_out(*final(reg), *c, num_chunks),
        final(reg).layouts@ == old(reg).layouts@,
        final(reg).binding_sets@ == old(reg).binding_sets@,
        final(reg).pipelines@ == old(reg).pipelines@,
{
    proof {
        reveal_strlit("color_to_grayscale");
        reveal_strlit("blit");
        reveal_strlit("gaussian_blur_x");
        reveal_strlit("gaussian_blur_y");
        reveal_strlit("fast");
        reveal_strlit("brief");
        reveal_strlit("compact");
        reveal_strlit("input_image");
        reveal_strlit("image_hierarchy");
        reveal_strlit("blur_tmp_hierarchy");
        reveal_strlit("blur_hierarchy");
        reveal_strlit("linear_sampler");
        reveal_strlit("image_hierarchy_all");
        reveal_strlit("blur_hierarchy_all");
        reveal_strlit("level_view_");
        reveal_strlit("blur_tmp_view_");
        reveal_strlit("blur_view_");
        reveal_strlit("corners");
        reveal_strlit("counter");
        reveal_strlit("counter_staging");
        reveal_strlit("descriptors");
        reveal_strlit("chunk_corners");
        reveal_strlit("chunk_counters");
        reveal_strlit("chunk_counters_reset");
        reveal_strlit("chunk_counters_global");
        reveal_strlit("integral_in");
        reveal_strlit("integral_out");
        reveal_strlit("scan");
        reveal_strlit("scatter");
        reveal_strlit("integral_x");
        reveal_strlit("integral_y");
        reveal_strlit("vs_main");
        reveal_strlit("fs_main");
        reveal_strlit("compute_fast");
        reveal_strlit("brief");
        assert("color_to_grayscale"@.len() == 18);
        assert("blit"@.len() == 4);
        assert("gaussian_blur_x"@.len() == 15);
        assert("gaussian_blur_y"@.len() == 15);
        assert("fast"@.len() == 4);
        assert("brief"@.len() == 5);
        assert("compact"@.len() == 7);
        assert("input_image"@.len() == 11);
        assert("image_hierarchy"@.len() == 15);
        assert("blur_tmp_hierarchy"@.len() == 18);
        assert("blur_hierarchy"@.len() == 14);
        assert("linear_sampler"@.len() == 14);
        assert("image_hierarchy_all"@.len() == 19);
        assert("blur_hierarchy_all"@.len() == 18);
        assert("level_view_"@.len() == 11);
        assert("blur_tmp_view_"@.len() == 14);
        assert("blur_view_"@.len() == 10);
        assert("corners"@.len() == 7);
        assert("counter"@.len() == 7);
        assert("counter_staging"@.len() == 15);
        assert("descriptors"@.len() == 11);
        assert("chunk_corners"@.len() == 13);
        assert("chunk_counters"@.len() == 14);
        assert("chunk_counters_reset"@.len() == 20);
        assert("chunk_counters_global"@.len() == 21);
        assert("integral_in"@.len() == 11);
        assert("integral_out"@.len() == 12);
        assert("blit"@[0] == 'b' && "fast"@[0] == 'f');
        assert("gaussian_blur_x"@[14] == 'x' && "gaussian_blur_y"@[14] == 'y');
        assert("corners"@[2] == 'r' && "counter"@[2] == 'u');
        assert("descriptors"@[0] == 'd' && "integral_in"@[0] == 'i');
    }
    reg.load_program(&String::from_str("color_to_grayscale"), render_entries())?;
    proof {
        assert(!reg.has_program("blit"@));
    }
    reg.load_program(&String::from_str("blit"), render_entries())?;
    proof {
        assert(!reg.has_program("gaussian_blur_x"@));
    }
    reg.load_program(&String::from_str("gaussian_blur_x"), render_entries())?;
    proof {
        assert(!reg.has_program("gaussian_blur_y"@));
    }
    reg.load_program(&String::from_str("gaussian_blur_y"), render_entries())?;
    let mut fast_entries: Vec<String> = Vec::new();
    fast_entries.push(String::from_str("compute_fast"));
    proof {
        assert(!reg.has_program("fast"@));
    }
    reg.load_program(&String::from_str("fast"), fast_entries)?;
    let mut brief_entries: Vec<String> = Vec::new();
    brief_entries.push(String::from_str("brief"));
    proof {
        assert(!reg.has_program("brief"@));
    }
    reg.load_program(&String::from_str("brief"), brief_entries)?;
    let mut compact_entries: Vec<String> = Vec::new();
    compact_entries.push(String::from_str("scan"));
    compact_entries.push(String::from_str("scatter"));
    compact_entries.push(String::from_str("integral_x"));
    compact_entries.push(String::from_str("integral_y"));
    proof {
        assert(!reg.has_program("compact"@));
    }
    reg.load_program(&String::from_str("compact"), compact_entries)?;

    reg.create_image(
        &String::from_str("input_image"),
        c.image_width,
        c.image_height,
        1,
        ImageFormat::Rgba8,
        ImageUsage {
            texture_binding: true,
            storage_binding: false,
            render_attachment: false,
            copy_src: true,
            copy_dst: true,
        },
    )?;
    proof {
        assert(!reg.has_image("image_hierarchy"@));
    }
    reg.create_image(
        &String::from_str("image_hierarchy"),
        c.image_width,
        c.image_height,
        c.pyramid_depth,
        ImageFormat::Gray16,
        ImageUsage {
            texture_binding: true,
            storage_binding: false,
            render_attachment: true,
            copy_src: false,
            copy_dst: true,
        },
    )?;
    proof {
        assert(!reg.has_image("blur_tmp_hierarchy"@));
    }
    reg.create_image(
        &String::from_str("blur_tmp_hierarchy"),
        c.image_width,
        c.image_height,
        c.pyramid_depth,
        ImageFormat::Gray16,
        ImageUsage {
            texture_binding: true,
            storage_binding: false,
            render_attachment: true,
            copy_src: false,
            copy_dst: false,
        },
    )?;
    proof {
        assert(!reg.has_image("blur_hierarchy"@));
    }
    reg.create_image(
        &String::from_str("blur_hierarchy"),
        c.image_width,
        c.image_height,
        c.pyramid_depth,
        ImageFormat::Gray16,
        ImageUsage {
            texture_binding: true,
            storage_binding: false,
            render_attachment: true,
            copy_src: false,
            copy_dst: false,
        },
    )?;

    reg.create_sampler(&String::from_str("linear_sampler"), FilterMode::Linear)?;

    let hierarchy_label = String::from_str("image_hierarchy");
    let blur_tmp_label = String::from_str("blur_tmp_hierarchy");
    let blur_label = String::from_str("blur_hierarchy");
    proof {
        assert(reg.images@[1].0@ == "image_hierarchy"@);
        assert(reg.images@[2].0@ == "blur_tmp_hierarchy"@);
        assert(reg.images@[3].0@ == "blur_hierarchy"@);
        assert(reg.has_image("image_hierarchy"@));
        assert(reg.has_image("blur_tmp_hierarchy"@));
        assert(reg.has_image("blur_hierarchy"@));
        lemma_label_index_unique(reg.images@, "image_hierarchy"@, 1);
        lemma_label_index_unique(reg.images@, "blur_tmp_hierarchy"@, 2);
        lemma_label_index_unique(reg.images@, "blur_hierarchy"@, 3);
    }
    reg.create_image_view(
        &String::from_str("image_hierarchy_all"),
        &hierarchy_label,
        0,
        c.pyramid_depth,
    )?;
    proof {
        assert(!reg.has_image_view("blur_hierarchy_all"@));
    }
    reg.create_image_view(
        &String::from_str("blur_hierarchy_all"),
        &blur_label,
        0,
        c.pyramid_depth,
    )?;

    let depth = c.pyramid_depth;
    let ghost reg_v0 = *reg;
    let mut d: u32 = 0;
    while d < depth
        invariant
            d <= depth,
            config_valid(*c),
            depth == c.pyramid_depth,
            (*reg).wf(),
            reg.programs@ == reg_v0.programs@,
            reg.images@ == reg_v0.images@,
            reg.samplers@ == reg_v0.samplers@,
            reg.buffers@ == reg_v0.buffers@,
            reg.layouts@ == reg_v0.layouts@,
            reg.binding_sets@ == reg_v0.binding_sets@,
            reg.pipelines@ == reg_v0.pipelines@,
            reg_v0.image_views@.len() == 2,
            reg.image_views@.len() == 2 + d,
            reg.image_views@[0] == reg_v0.image_views@[0],
            reg.image_views@[1] == reg_v0.image_views@[1],
            reg_v0.image_views@[0].0@ == "image_hierarchy_all"@,
            reg_v0.image_views@[1].0@ == "blur_hierarchy_all"@,
            reg.has_image("image_hierarchy"@),
            reg.image("image_hierarchy"@) == reg.images@[1].1,
            reg.images@[1].1.mip_levels == depth,
            forall|j: int|
                2 <= j < 2 + d ==> (#[trigger] reg.image_views@[j]).0@ == numbered(
                    "level_view_"@,
                    j - 2,
                ) && reg.image_views@[j].1 == (ImageViewDesc {
                    image: 1,
                    base_level: (j - 2) as u32,
                    level_count: 1,
                }),
        decreases depth - d,
    {
        let label = numbered_label("level_view_", d);
        proof {
            assert forall|j: int| 0 <= j < reg.image_views@.len() implies (
            #[trigger] reg.image_views@[j]).0@ != label@ by {
                if j >= 2 {
                    lemma_numbered_distinct("level_view_"@, j - 2, d as int);
                }
            }
        }
        proof {
            lemma_label_index_unique(reg.images@, "image_hierarchy"@, 1);
        }
        if let Err(e) = reg.create_image_view(&label, &hierarchy_label, d, 1) {
            return Err(e);
        }
        d = d + 1;
    }

    let ghost reg_v1 = *reg;
    let mut d: u32 = 0;
    while d < depth
        invariant
            d <= depth,
            config_valid(*c),
            depth == c.pyramid_depth,
            (*reg).wf(),
            reg.programs@ == reg_v1.programs@,
            reg.images@ == reg_v1.images@,
            reg.samplers@ == reg_v1.samplers@,
            reg.buffers@ == reg_v1.buffers@,
            reg.layouts@ == reg_v1.layouts@,
            reg.binding_sets@ == reg_v1.binding_sets@,
            reg.pipelines@ == reg_v1.pipelines@,
            reg_v1.image_views@.len() == 2 + depth,
            reg.image_views@.len() == 2 + depth + d,
            forall|j: int|
                0 <= j < 2 + depth ==> #[trigger] reg.image_views@[j] == reg_v1.image_views@[j],
            reg_v1.image_views@[0].0@ == "image_hierarchy_all"@,
            reg_v1.image_views@[1].0@ == "blur_hierarchy_all"@,
            forall|j: int|
                2 <= j < 2 + depth ==> (#[trigger] reg_v1.image_views@[j]).0@ == numbered(
                    "level_view_"@,
                    j - 2,
                ),
            reg.has_image("blur_tmp_hierarchy"@),
            reg.image("blur_tmp_hierarchy"@) == reg.images@[2].1,
            reg.images@[2].1.mip_levels == depth,
            forall|j: int|
                2 + depth <= j < 2 + depth + d ==> (#[trigger] reg.image_views@[j]).0@ == numbered(
                    "blur_tmp_view_"@,
                    j - 2 - depth,
                ) && reg.image_views@[j].1 == (ImageViewDesc {
                    image: 2,
                    base_level: (j - 2 - depth) as u32,
                    level_count: 1,
                }),
        decreases depth - d,
    {
        let label = numbered_label("blur_tmp_view_", d);
        proof {
            assert forall|j: int| 0 <= j < reg.image_views@.len() implies (
            #[trigger] reg.image_views@[j]).0@ != label@ by {
                if 2 <= j < 2 + depth {
                    assert(reg.image_views@[j].0@ == numbered("level_view_"@, j - 2));
                } else if j >= 2 + depth {
                    lemma_numbered_distinct("blur_tmp_view_"@, j - 2 - depth, d as int);
                }
            }
        }
        proof {
            lemma_label_index_unique(reg.images@, "blur_tmp_hierarchy"@, 2);
        }
        if let Err(e) = reg.create_image_view(&label, &blur_tmp_label, d, 1) {
            return Err(e);
        }
        d = d + 1;
    }

    let ghost reg_v2 = *reg;
    let mut d: u32 = 0;
    while d < depth
        invariant
            d <= depth,
            config_valid(*c),
            depth == c.pyramid_depth,
            (*reg).wf(),
            reg.programs@ == reg_v2.programs@,
            reg.images@ == reg_v2.images@,
            reg.samplers@ == reg_v2.samplers@,
            reg.buffers@ == reg_v2.buffers@,
            reg.layouts@ == reg_v2.layouts@,
            reg.binding_sets@ == reg_v2.binding_sets@,
            reg.pipelines@ == reg_v2.pipelines@,
            reg_v2.image_views@.len() == 2 + 2 * depth,
            reg.image_views@.len() == 2 + 2 * depth + d,
            forall|j: int|
                0 <= j < 2 + 2 * depth ==> #[trigger] reg.image_views@[j]
                    == reg_v2.image_views@[j],
            reg_v2.image_views@[0].0@ == "image_hierarchy_all"@,
            reg_v2.image_views@[1].0@ == "blur_hierarchy_all"@,
            forall|j: int|
                2 <= j < 2 + depth ==> (#[trigger] reg_v2.image_views@[j]).0@ == numbered(
                    "level_view_"@,
                    j - 2,
                ),
            forall|j: int|
                2 + depth <= j < 2 + 2 * depth ==> (#[trigger] reg_v2.image_views@[j]).0@
                    == numbered("blur_tmp_view_"@, j - 2 - depth),
            reg.has_image("blur_hierarchy"@),
            reg.image("blur_hierarchy"@) == reg.images@[3].1,
            reg.images@[3].1.mip_levels == depth,
            forall|j: int|
                2 + 2 * depth <= j < 2 + 2 * depth + d ==> (#[trigger] reg.image_views@[j]).0@
                    == numbered("blur_view_"@, j - 2 - 2 * depth) && reg.image_views@[j].1 == (
                ImageViewDesc {
                    image: 3,
                    base_level: (j - 2 - 2 * depth) as u32,
                    level_count: 1,
                }),
        decreases depth - d,
    {
        let label = numbered_label("blur_view_", d);
        proof {
            assert forall|j: int| 0 <= j < reg.image_views@.len() implies (
            #[trigger] reg.image_views@[j]).0@ != label@ by {
                if 2 <= j < 2 + depth {
                    assert(reg.image_views@[j].0@ == numbered("level_view_"@, j - 2));
                } else if 2 + depth <= j < 2 + 2 * depth {
                    assert(reg.image_views@[j].0@ == numbered("blur_tmp_view_"@, j - 2 - depth));
                } else if j >= 2 + 2 * depth {
                    lemma_numbered_distinct("blur_view_"@, j - 2 - 2 * depth, d as int);
                }
            }
        }
        proof {
            lemma_label_index_unique(reg.images@, "blur_hierarchy"@, 3);
        }
        if let Err(e) = reg.create_image_view(&label, &blur_label, d, 1) {
            return Err(e);
        }
        d = d + 1;
    }

    proof {
        let cx = (c.image_width + 7) as int / 8;
        let cy = (c.image_height + 7) as int / 8;
        assert(cx <= 2048 && cy <= 2048);
        assert(cx * cy <= 2048 * 2048) by (nonlinear_arith)
            requires
                0 <= cx <= 2048 && 0 <= cy <= 2048,
        ;
        assert(c.image_width as int * c.image_height as int <= 16384 * 16384) by (nonlinear_arith)
            requires
                0 <= c.image_width as int <= 16384 && 0 <= c.image_height as int <= 16384,
        ;
    }
    let mf = c.max_features as u64;
    let img_bytes = c.image_width as u64 * c.image_height as u64 * 4;
    reg.create_buffer(
        &String::from_str("corners"),
        mf * CORNER_BYTES,
        BufferUsage {
            storage: true,
            uniform: false,
            copy_src: true,
            copy_dst: false,
            map_read: false,
            map_write: false,
            vertex: true,
        },
    )?;
    proof {
        assert(!reg.has_buffer("counter"@));
    }
    reg.create_buffer(
        &String::from_str("counter"),
        4,
        BufferUsage {
            storage: true,
            uniform: false,
            copy_src: true,
            copy_dst: true,
            map_read: false,
            map_write: false,
            vertex: false,
        },
    )?;
    proof {
        assert(!reg.has_buffer("counter_staging"@));
    }
    reg.create_buffer(
        &String::from_str("counter_staging"),
        4,
        BufferUsage {
            storage: false,
            uniform: false,
            copy_src: false,
            copy_dst: true,
            map_read: true,
            map_write: false,
            vertex: false,
        },
    )?;
    proof {
        assert(!reg.has_buffer("descriptors"@));
    }
    reg.create_buffer(
        &String::from_str("descriptors"),
        mf * DESCRIPTOR_BYTES,
        BufferUsage {
            storage: true,
            uniform: false,
            copy_src: false,
            copy_dst: false,
            map_read: false,
            map_write: false,
            vertex: false,
        },
    )?;
    proof {
        assert(!reg.has_buffer("chunk_corners"@));
    }
    reg.create_buffer(
        &String::from_str("chunk_corners"),
        num_chunks * CHUNK_CAPACITY * CORNER_BYTES,
        BufferUsage {
            storage: true,
            uniform: false,
            copy_src: true,
            copy_dst: false,
            map_read: false,
            map_write: false,
            vertex: false,
        },
    )?;
    proof {
        assert(!reg.has_buffer("chunk_counters"@));
    }
    reg.create_buffer(
        &String::from_str("chunk_counters"),
        num_chunks * 4,
        BufferUsage {
            storage: true,
            uniform: false,
            copy_src: true,
            copy_dst: true,
            map_read: false,
            map_write: false,
            vertex: false,
        },
    )?;
    proof {
        assert(!reg.has_buffer("chunk_counters_reset"@));
    }
    reg.create_buffer(
        &String::from_str("chunk_counters_reset"),
        num_chunks * 4,
        BufferUsage {
            storage: true,
            uniform: false,
            copy_src: true,
            copy_dst: false,
            map_read: false,
            map_write: false,
            vertex: false,
        },
    )?;
    proof {
        assert(!reg.has_buffer("chunk_counters_global"@));
    }
    reg.create_buffer(
        &String::from_str("chunk_counters_global"),
        num_chunks * 4,
        BufferUsage {
            storage: true,
            uniform: false,
            copy_src: true,
            copy_dst: true,
            map_read: false,
            map_write: false,
            vertex: false,
        },
    )?;
    proof {
        assert(!reg.has_buffer("integral_in"@));
    }
    reg.create_buffer(
        &String::from_str("integral_in"),
        img_bytes,
        BufferUsage {
            storage: true,
            uniform: false,
            copy_src: false,
            copy_dst: true,
            map_read: false,
            map_write: false,
            vertex: false,
        },
    )?;
    proof {
        assert(!reg.has_buffer("integral_out"@));
    }
    reg.create_buffer(
        &String::from_str("integral_out"),
        img_bytes,
        BufferUsage {
            storage: true,
            uniform: false,
            copy_src: true,
            copy_dst: false,
            map_read: false,
            map_write: false,
            vertex: false,
        },
    )?;

    proof {
        lemma_label_index_unique(reg.buffers@, "corners"@, 0);
        lemma_label_index_unique(reg.buffers@, "counter"@, 1);
        lemma_label_index_unique(reg.buffers@, "counter_staging"@, 2);
        lemma_label_index_unique(reg.buffers@, "descriptors"@, 3);
        lemma_label_index_unique(reg.buffers@, "chunk_corners"@, 4);
        lemma_label_index_unique(reg.buffers@, "chunk_counters"@, 5);
        lemma_label_index_unique(reg.buffers@, "chunk_counters_reset"@, 6);
        lemma_label_index_unique(reg.buffers@, "chunk_counters_global"@, 7);
        lemma_label_index_unique(reg.buffers@, "integral_in"@, 8);
        lemma_label_index_unique(reg.buffers@, "integral_out"@, 9);
        lemma_label_index_unique(reg.images@, "input_image"@, 0);
        lemma_label_index_unique(reg.images@, "image_hierarchy"@, 1);
        lemma_label_index_unique(reg.images@, "blur_tmp_hierarchy"@, 2);
        lemma_label_index_unique(reg.images@, "blur_hierarchy"@, 3);
        lemma_label_index_unique(reg.programs@, "color_to_grayscale"@, 0);
        lemma_label_index_unique(reg.programs@, "blit"@, 1);
        lemma_label_index_unique(reg.programs@, "gaussian_blur_x"@, 2);
        lemma_label_index_unique(reg.programs@, "gaussian_blur_y"@, 3);
        lemma_label_index_unique(reg.programs@, "fast"@, 4);
        lemma_label_index_unique(reg.programs@, "brief"@, 5);
        lemma_label_index_unique(reg.programs@, "compact"@, 6);
        assert(reg.programs@[4].1.entry_points@[0]@ == "compute_fast"@);
        assert(has_entry(reg.program("fast"@), "compute_fast"@));
        assert(reg.programs@[5].1.entry_points@[0]@ == "brief"@);
        assert(has_entry(reg.program("brief"@), "brief"@));
        assert(reg.programs@[6].1.entry_points@[0]@ == "scan"@);
        assert(reg.programs@[6].1.entry_points@[1]@ == "scatter"@);
        assert(reg.programs@[6].1.entry_points@[2]@ == "integral_x"@);
        assert(reg.programs@[6].1.entry_points@[3]@ == "integral_y"@);
        assert(has_entry(reg.program("compact"@), "scan"@));
        assert(has_entry(reg.program("compact"@), "scatter"@));
        assert(has_entry(reg.program("compact"@), "integral_x"@));
        assert(has_entry(reg.program("compact"@), "integral_y"@));
        assert(reg.programs@[0].1.entry_points@[0]@ == "vs_main"@);
        assert(reg.programs@[0].1.entry_points@[1]@ == "fs_main"@);
        assert(has_entry(reg.program("color_to_grayscale"@), "vs_main"@));
        assert(has_entry(reg.program("color_to_grayscale"@), "fs_main"@));
        assert(reg.programs@[1].1.entry_points@[0]@ == "vs_main"@);
        assert(has_entry(reg.program("blit"@), "vs_main"@));
        assert(has_entry(reg.program("blit"@), "fs_main"@));
        assert(reg.programs@[2].1.entry_points@[0]@ == "vs_main"@);
        assert(has_entry(reg.program("gaussian_blur_x"@), "vs_main"@));
        assert(has_entry(reg.program("gaussian_blur_x"@), "fs_main"@));
        assert(reg.programs@[3].1.entry_points@[0]@ == "vs_main"@);
        assert(has_entry(reg.program("gaussian_blur_y"@), "vs_main"@));
        assert(has_entry(reg.program("gaussian_blur_y"@), "fs_main"@));
        let dd = c.pyramid_depth as int;
        assert(forall|j: int|
            2 <= j < 2 + dd ==> (#[trigger] reg.image_views@[j]).0@ == numbered(
                "level_view_"@,
                j - 2,
            ));
        assert(forall|j: int|
            2 <= j < 2 + dd ==> (#[trigger] reg.image_views@[j]).1 == (ImageViewDesc {
                image: 1,
                base_level: (j - 2) as u32,
                level_count: 1,
            }));
        assert(forall|j: int|
            2 + dd <= j < 2 + 2 * dd ==> (#[trigger] reg.image_views@[j]).0@ == numbered(
                "blur_tmp_view_"@,
                j - 2 - dd,
            ));
        assert(forall|j: int|
            2 + dd <= j < 2 + 2 * dd ==> (#[trigger] reg.image_views@[j]).1 == (ImageViewDesc {
                image: 2,
                base_level: (j - 2 - dd) as u32,
                level_count: 1,
            }));
        assert(forall|j: int|
            2 + 2 * dd <= j < 2 + 3 * dd ==> (#[trigger] reg.image_views@[j]).0@ == numbered(
                "blur_view_"@,
                j - 2 - 2 * dd,
            ));
        assert(forall|j: int|
            2 + 2 * dd <= j < 2 + 3 * dd ==> (#[trigger] reg.image_views@[j]).1 == (ImageViewDesc {
                image: 3,
                base_level: (j - 2 - 2 * dd) as u32,
                level_count: 1,
            }));
        assert(reg.buffers@[0].0@ == "corners"@);
        assert(reg.buffers@[0].1 == (BufferDesc {
            size: (c.max_features * CORNER_BYTES) as u64,
            usage: storage_usage(true, false, true),
        }));
        assert(reg.buffers@[4].1 == (BufferDesc {
            size: (num_chunks * CHUNK_CAPACITY * CORNER_BYTES) as u64,
            usage: storage_usage(true, false, false),
        }));
        assert(reg.buffers@[8].1 == (BufferDesc {
            size: (c.image_width * c.image_height * 4) as u64,
            usage: storage_usage(false, true, false),
        }));
        assert forall|d2: int| 0 <= d2 < dd implies reg.has_image_view(
            numbered("level_view_"@, d2),
        ) by {
            assert(reg.image_views@[2 + d2].0@ == numbered("level_view_"@, d2));
        }
        assert forall|d2: int| 0 <= d2 < dd implies reg.has_image_view(
            numbered("blur_tmp_view_"@, d2),
        ) by {
            assert(reg.image_views@[2 + dd + d2].0@ == numbered("blur_tmp_view_"@, d2));
        }
    }
    Ok(())
}

/// Where every binding set of a constructed pipeline stands in the
/// catalogue. The per-level families follow the four fixed sets; the mip
/// family has one member per level after the first (each samples the level
/// above its target).
pub open spec fn binding_sets_laid_out(reg: Registry, c: OrbConfig) -> bool {
    let depth = c.pyramid_depth as int;
    &&& reg.binding_sets@.len() == 3 * depth + 3
    &&& reg.layouts@.len() == 3 * depth + 3
    &&& reg.binding_sets@[0].0@ == "grayscale_bind"@
    &&& reg.binding_sets@[1].0@ == "fast_bind"@
    &&& reg.binding_sets@[2].0@ == "descriptors_bind"@
    &&& reg.binding_sets@[3].0@ == "compact_bind"@
    &&& (forall|j: int|
        4 <= j < 3 + depth ==> (#[trigger] reg.binding_sets@[j]).0@ == numbered(
            "mip_bind_"@,
            j - 4,
        ))
    &&& (forall|j: int|
        3 + depth <= j < 3 + 2 * depth ==> (#[trigger] reg.binding_sets@[j]).0@ == numbered(
            "blur_tmp_bind_"@,
            j - 3 - depth,
        ))
    &&& (forall|j: int|
        3 + 2 * depth <= j < 3 + 3 * depth ==> (#[trigger] reg.binding_sets@[j]).0@ == numbered(
            "blur_bind_"@,
            j - 3 - 2 * depth,
        ))
    &&& reg.has_binding_set("grayscale_bind"@)
    &&& reg.has_binding_set("fast_bind"@)
    &&& reg.has_binding_set("descriptors_bind"@)
    &&& reg.has_binding_set("compact_bind"@)
    &&& reg.has_binding_set(numbered("blur_tmp_bind_"@, 0))
    &&& reg.has_binding_set(numbered("blur_bind_"@, 0))
}

/// Builds and registers every binding set: the grayscale, detection,
/// descriptor and compaction sets, then one set per pyramid level for the
/// mip blit and for each blur direction. Always succeeds: every referenced
/// resource was just created large enough, and the labels are fresh.
#[verifier::rlimit(100)]
#[verifier::loop_isolation(false)]
fn init_binding_sets(reg: &mut Registry, c: &OrbConfig, num_chunks: u64) -> (r: Result<
    (),
    ConfigError,
>)
    requires
        old(reg).wf(),
        config_valid(*c),
        num_chunks == ((c.image_width + 7) / 8) * ((c.image_height + 7) / 8),
        resources_laid_out(*old(reg), *c, num_chunks),
        old(reg).binding_sets@.len() == 0,
        old(reg).layouts@.len() == 0,
    ensures
        final(reg).wf(),
        r is Ok,
        resources_laid_out(*final(reg), *c, num_chunks),
        binding_sets_laid_out(*final(reg), *c),
        final(reg).pipelines@ == old(reg).pipelines@,
{
    proof {
        reveal_strlit("linear_sampler");
        reveal_strlit("input_image");
        reveal_strlit("image_hierarchy_all");
        reveal_strlit("blur_hierarchy_all");
        reveal_strlit("level_view_");
        reveal_strlit("blur_tmp_view_");
        reveal_strlit("corners");
        reveal_strlit("counter");
        reveal_strlit("descriptors");
        reveal_strlit("chunk_corners");
        reveal_strlit("chunk_counters");
        reveal_strlit("chunk_counters_global");
        reveal_strlit("integral_in");
        reveal_strlit("integral_out");
        reveal_strlit("grayscale_bind");
        reveal_strlit("fast_bind");
        reveal_strlit("descriptors_bind");
        reveal_strlit("compact_bind");
        reveal_strlit("mip_bind_");
        reveal_strlit("blur_tmp_bind_");
        reveal_strlit("blur_bind_");
        reveal_strlit("_layout");
        assert("grayscale_bind"@.len() == 14);
        assert("fast_bind"@.len() == 9);
        assert("descriptors_bind"@.len() == 16);
        assert("compact_bind"@.len() == 12);
        assert("mip_bind_"@.len() == 9);
        assert("blur_tmp_bind_"@.len() == 14);
        assert("blur_bind_"@.len() == 10);
        assert("_layout"@.len() == 7);
        let cx = (c.image_width + 7) as int / 8;
        let cy = (c.image_height + 7) as int / 8;
        assert(cx >= 1 && cy >= 1);
        assert(cx * cy >= 1) by (nonlinear_arith)
            requires
                cx >= 1 && cy >= 1,
        ;
        assert(cx <= 2048 && cy <= 2048);
        assert(cx * cy <= 2048 * 2048) by (nonlinear_arith)
            requires
                0 <= cx <= 2048 && 0 <= cy <= 2048,
        ;
        assert(c.max_features as int * CORNER_BYTES >= CORNER_BYTES);
        assert(c.max_features as int * DESCRIPTOR_BYTES >= DESCRIPTOR_BYTES);
        assert(num_chunks * CHUNK_CAPACITY * CORNER_BYTES >= CORNER_BYTES);
        assert(num_chunks * 4 >= 4);
        assert(c.image_width as int * c.image_height as int >= 1) by (nonlinear_arith)
            requires
                c.image_width >= 1 && c.image_height >= 1,
        ;
    }
    let mut gray_items: Vec<BindingItem> = Vec::new();
    gray_items.push(BindingItem::Sampler { label: String::from_str("linear_sampler") });
    gray_items.push(BindingItem::SampledImage { label: String::from_str("input_image") });
    if let Err(e) = build_binding_set(reg, &String::from_str("grayscale_bind"), &gray_items) {
        return Err(e);
    }
    proof {
        assert(reg.binding_sets@.len() == 1 && reg.layouts@.len() == 1);
        assert(reg.binding_sets@[0].0@ == "grayscale_bind"@);
        assert(reg.binding_sets@[0].1.layout == 0);
        assert(reg.layouts@[0].0@ == layout_label_of("grayscale_bind"@));
        assert(layout_label_of("grayscale_bind"@).len() == 21);
    }

    let mut fast_items: Vec<BindingItem> = Vec::new();
    fast_items.push(BindingItem::ImageView { label: String::from_str("image_hierarchy_all") });
    fast_items.push(
        BindingItem::StorageBuffer {
            label: String::from_str("corners"),
            min_size: CORNER_BYTES,
            read_only: false,
        },
    );
    fast_items.push(
        BindingItem::StorageBuffer {
            label: String::from_str("counter"),
            min_size: 4,
            read_only: false,
        },
    );
    fast_items.push(
        BindingItem::StorageBuffer {
            label: String::from_str("chunk_corners"),
            min_size: CORNER_BYTES,
            read_only: false,
        },
    );
    fast_items.push(
        BindingItem::StorageBuffer {
            label: String::from_str("chunk_counters"),
            min_size: 4,
            read_only: false,
        },
    );
    proof {
        assert(fast_items@.len() == 5);
        assert(item_found(*reg, fast_items@[0]));
        assert(item_found(*reg, fast_items@[1]));
        assert(item_found(*reg, fast_items@[2]));
        assert(item_found(*reg, fast_items@[3]));
        assert(item_found(*reg, fast_items@[4]));
        assert(item_size_ok(*reg, fast_items@[1]));
        assert(item_size_ok(*reg, fast_items@[2]));
        assert(item_size_ok(*reg, fast_items@[3]));
        assert(item_size_ok(*reg, fast_items@[4]));
        assert(!reg.has_binding_set("fast_bind"@));
        assert(reg.layouts@.len() == 1);
        assert(reg.binding_sets@[0].1.layout == 0);
        assert(reg.layouts@[0].0@ == layout_label_of("grayscale_bind"@));
        assert(layout_label_of("grayscale_bind"@).len() == 21);
        assert(layout_label_of("fast_bind"@).len() == 16);
        assert(!reg.has_layout(layout_label_of("fast_bind"@)));
    }
    if let Err(e) = build_binding_set(reg, &String::from_str("fast_bind"), &fast_items) {
        return Err(e);
    }
    proof {
        assert(reg.binding_sets@.len() == 2 && reg.layouts@.len() == 2);
        assert(reg.binding_sets@[1].0@ == "fast_bind"@);
        assert(reg.binding_sets@[1].1.layout == 1);
        assert(reg.layouts@[1].0@ == layout_label_of("fast_bind"@));
    }

    let mut desc_items: Vec<BindingItem> = Vec::new();
    desc_items.push(
        BindingItem::StorageBuffer {
            label: String::from_str("corners"),
            min_size: CORNER_BYTES,
            read_only: true,
        },
    );
    desc_items.push(
        BindingItem::StorageBuffer {
            label: String::from_str("counter"),
            min_size: 4,
            read_only: true,
        },
    );
    desc_items.push(
        BindingItem::StorageBuffer {
            label: String::from_str("descriptors"),
            min_size: DESCRIPTOR_BYTES,
            read_only: false,
        },
    );
    desc_items.push(BindingItem::ImageView { label: String::from_str("blur_hierarchy_all") });
    proof {
        assert(!reg.has_binding_set("descriptors_bind"@));
        assert(layout_label_of("descriptors_bind"@).len() == 23);
        assert(!reg.has_layout(layout_label_of("descriptors_bind"@)));
    }
    if let Err(e) = build_binding_set(reg, &String::from_str("descriptors_bind"), &desc_items) {
        return Err(e);
    }
    proof {
        assert(reg.binding_sets@.len() == 3 && reg.layouts@.len() == 3);
        assert(reg.binding_sets@[2].0@ == "descriptors_bind"@);
        assert(reg.binding_sets@[2].1.layout == 2);
        assert(reg.layouts@[2].0@ == layout_label_of("descriptors_bind"@));
    }

    let mut compact_items: Vec<BindingItem> = Vec::new();
    compact_items.push(
        BindingItem::StorageBuffer {
            label: String::from_str("chunk_corners"),
            min_size: CORNER_BYTES,
            read_only: true,
        },
    );
    compact_items.push(
        BindingItem::StorageBuffer {
            label: String::from_str("chunk_counters"),
            min_size: 4,
            read_only: true,
        },
    );
    compact_items.push(
        BindingItem::StorageBuffer {
            label: String::from_str("chunk_counters_global"),
            min_size: 4,
            read_only: false,
        },
    );
    compact_items.push(
        BindingItem::StorageBuffer {
            label: String::from_str("corners"),
            min_size: CORNER_BYTES,
            read_only: false,
        },
    );
    compact_items.push(
        BindingItem::StorageBuffer {
            label: String::from_str("integral_in"),
            min_size: 4,
            read_only: false,
        },
    );
    compact_items.push(
        BindingItem::StorageBuffer {
            label: String::from_str("integral_out"),
            min_size: 4,
            read_only: false,
        },
    );
    proof {
        assert(c.image_width as int * c.image_height as int <= 16384 * 16384) by (nonlinear_arith)
            requires
                0 <= c.image_width as int <= 16384 && 0 <= c.image_height as int <= 16384,
        ;
        assert(!reg.has_binding_set("compact_bind"@));
        assert(layout_label_of("compact_bind"@).len() == 19);
        assert(!reg.has_layout(layout_label_of("compact_bind"@)));
    }
    if let Err(e) = build_binding_set(reg, &String::from_str("compact_bind"), &compact_items) {
        return Err(e);
    }
    proof {
        assert(reg.binding_sets@.len() == 4 && reg.layouts@.len() == 4);
        assert(reg.binding_sets@[3].0@ == "compact_bind"@);
        assert(reg.binding_sets@[3].1.layout == 3);
        assert(reg.layouts@[3].0@ == layout_label_of("compact_bind"@));
    }

    let depth = c.pyramid_depth;
    let ghost reg_b0 = *reg;
    let mut d: u32 = 0;
    while d + 1 < depth
        invariant
            d <= depth - 1 || depth == 1,
            d + 1 <= depth,
            (*reg).wf(),
            reg.buffers@ == reg_b0.buffers@,
            reg.images@ == reg_b0.images@,
            reg.image_views@ == reg_b0.image_views@,
            reg.samplers@ == reg_b0.samplers@,
            reg.programs@ == reg_b0.programs@,
            reg.pipelines@ == reg_b0.pipelines@,
            reg_b0.binding_sets@.len() == 4,
            reg_b0.layouts@.len() == 4,
            reg.binding_sets@.len() == 4 + d,
            reg.layouts@.len() == 4 + d,
            forall|j: int| 0 <= j < 4 ==> #[trigger] reg.binding_sets@[j] == reg_b0.binding_sets@[j],
            forall|j: int| 0 <= j < 4 ==> #[trigger] reg.layouts@[j] == reg_b0.layouts@[j],
            forall|j: int|
                4 <= j < 4 + d ==> (#[trigger] reg.binding_sets@[j]).0@ == numbered(
                    "mip_bind_"@,
                    j - 4,
                ),
            forall|j: int|
                4 <= j < 4 + d ==> (#[trigger] reg.layouts@[j]).0@ == layout_label_of(
                    numbered("mip_bind_"@, j - 4),
                ),
        decreases depth - d,
    {
        let label = numbered_label("mip_bind_", d);
        let mut items: Vec<BindingItem> = Vec::new();
        items.push(BindingItem::Sampler { label: String::from_str("linear_sampler") });
        items.push(BindingItem::ImageView { label: numbered_label("level_view_", d) });
        proof {
            assert forall|j: int| 0 <= j < reg.binding_sets@.len() implies (
            #[trigger] reg.binding_sets@[j]).0@ != label@ by {
                if j >= 4 {
                    lemma_numbered_distinct("mip_bind_"@, j - 4, d as int);
                }
            }
            assert forall|j: int| 0 <= j < reg.layouts@.len() implies (
            #[trigger] reg.layouts@[j]).0@ != layout_label_of(label@) by {
                if j >= 4 {
                    lemma_numbered_distinct("mip_bind_"@, j - 4, d as int);
                    lemma_suffix_keeps_distinct(
                        numbered("mip_bind_"@, j - 4),
                        numbered("mip_bind_"@, d as int),
                        "_layout"@,
                    );
                }
            }
            assert(reg.has_image_view(numbered("level_view_"@, d as int)));
        }
        if let Err(e) = build_binding_set(reg, &label, &items) {
            return Err(e);
        }
        d = d + 1;
    }

    let ghost reg_b1 = *reg;
    let mut d: u32 = 0;
    while d < depth
        invariant
            d <= depth,
            (*reg).wf(),
            reg.buffers@ == reg_b1.buffers@,
            reg.images@ == reg_b1.images@,
            reg.image_views@ == reg_b1.image_views@,
            reg.samplers@ == reg_b1.samplers@,
            reg.programs@ == reg_b1.programs@,
            reg.pipelines@ == reg_b1.pipelines@,
            reg_b1.binding_sets@.len() == 3 + depth,
            reg_b1.layouts@.len() == 3 + depth,
            reg.binding_sets@.len() == 3 + depth + d,
            reg.layouts@.len() == 3 + depth + d,
            forall|j: int|
                0 <= j < 3 + depth ==> #[trigger] reg.binding_sets@[j] == reg_b1.binding_sets@[j],
            forall|j: int| 0 <= j < 3 + depth ==> #[trigger] reg.layouts@[j] == reg_b1.layouts@[j],
            forall|j: int|
                0 <= j < 4 ==> #[trigger] reg_b1.binding_sets@[j] == reg_b0.binding_sets@[j],
            forall|j: int|
                4 <= j < 3 + depth ==> (#[trigger] reg_b1.binding_sets@[j]).0@ == numbered(
                    "mip_bind_"@,
                    j - 4,
                ),
            forall|j: int|
                4 <= j < 3 + depth ==> (#[trigger] reg_b1.layouts@[j]).0@ == layout_label_of(
                    numbered("mip_bind_"@, j - 4),
                ),
            forall|j: int|
                3 + depth <= j < 3 + depth + d ==> (#[trigger] reg.binding_sets@[j]).0@
                    == numbered("blur_tmp_bind_"@, j - 3 - depth),
            forall|j: int|
                3 + depth <= j < 3 + depth + d ==> (#[trigger] reg.layouts@[j]).0@
                    == layout_label_of(numbered("blur_tmp_bind_"@, j - 3 - depth)),
        decreases depth - d,
    {
        let label = numbered_label("blur_tmp_bind_", d);
        let mut items: Vec<BindingItem> = Vec::new();
        items.push(BindingItem::Sampler { label: String::from_str("linear_sampler") });
        items.push(BindingItem::ImageView { label: numbered_label("level_view_", d) });
        proof {
            assert forall|j: int| 0 <= j < reg.binding_sets@.len() implies (
            #[trigger] reg.binding_sets@[j]).0@ != label@ by {
                if 4 <= j < 3 + depth {
                    assert(reg.binding_sets@[j].0@ == numbered("mip_bind_"@, j - 4));
                } else if j >= 3 + depth {
                    lemma_numbered_distinct("blur_tmp_bind_"@, j - 3 - depth, d as int);
                }
            }
            assert forall|j: int| 0 <= j < reg.layouts@.len() implies (
            #[trigger] reg.layouts@[j]).0@ != layout_label_of(label@) by {
                if 4 <= j < 3 + depth {
                    assert(reg.layouts@[j].0@ == layout_label_of(numbered("mip_bind_"@, j - 4)));
                } else if j >= 3 + depth {
                    lemma_numbered_distinct("blur_tmp_bind_"@, j - 3 - depth, d as int);
                    lemma_suffix_keeps_distinct(
                        numbered("blur_tmp_bind_"@, j - 3 - depth),
                        numbered("blur_tmp_bind_"@, d as int),
                        "_layout"@,
                    );
                }
            }
            assert(reg.has_image_view(numbered("level_view_"@, d as int)));
        }
        if let Err(e) = build_binding_set(reg, &label, &items) {
            return Err(e);
        }
        d = d + 1;
    }

    let ghost reg_b2 = *reg;
    let mut d: u32 = 0;
    while d < depth
        invariant
            d <= depth,
            (*reg).wf(),
            reg.buffers@ == reg_b2.buffers@,
            reg.images@ == reg_b2.images@,
            reg.image_views@ == reg_b2.image_views@,
            reg.samplers@ == reg_b2.samplers@,
            reg.programs@ == reg_b2.programs@,
            reg.pipelines@ == reg_b2.pipelines@,
            reg_b2.binding_sets@.len() == 3 + 2 * depth,
            reg_b2.layouts@.len() == 3 + 2 * depth,
            reg.binding_sets@.len() == 3 + 2 * depth + d,
            reg.layouts@.len() == 3 + 2 * depth + d,
            forall|j: int|
                0 <= j < 3 + 2 * depth ==> #[trigger] reg.binding_sets@[j]
                    == reg_b2.binding_sets@[j],
            forall|j: int|
                0 <= j < 3 + 2 * depth ==> #[trigger] reg.layouts@[j] == reg_b2.layouts@[j],
            forall|j: int|
                0 <= j < 4 ==> #[trigger] reg_b2.binding_sets@[j] == reg_b0.binding_sets@[j],
            forall|j: int|
                4 <= j < 3 + depth ==> (#[trigger] reg_b2.binding_sets@[j]).0@ == numbered(
                    "mip_bind_"@,
                    j - 4,
                ),
            forall|j: int|
                3 + depth <= j < 3 + 2 * depth ==> (#[trigger] reg_b2.binding_sets@[j]).0@
                    == numbered("blur_tmp_bind_"@, j - 3 - depth),
            forall|j: int|
                4 <= j < 3 + depth ==> (#[trigger] reg_b2.layouts@[j]).0@ == layout_label_of(
                    numbered("mip_bind_"@, j - 4),
                ),
            forall|j: int|
                3 + depth <= j < 3 + 2 * depth ==> (#[trigger] reg_b2.layouts@[j]).0@
                    == layout_label_of(numbered("blur_tmp_bind_"@, j - 3 - depth)),
            forall|j: int|
                3 + 2 * depth <= j < 3 + 2 * depth + d ==> (#[trigger] reg.binding_sets@[j]).0@
                    == numbered("blur_bind_"@, j - 3 - 2 * depth),
            forall|j: int|
                3 + 2 * depth <= j < 3 + 2 * depth + d ==> (#[trigger] reg.layouts@[j]).0@
                    == layout_label_of(numbered("blur_bind_"@, j - 3 - 2 * depth)),
        decreases depth - d,
    {
        let label = numbered_label("blur_bind_", d);
        let mut items: Vec<BindingItem> = Vec::new();
        items.push(BindingItem::Sampler { label: String::from_str("linear_sampler") });
        items.push(BindingItem::ImageView { label: numbered_label("blur_tmp_view_", d) });
        proof {
            assert forall|j: int| 0 <= j < reg.binding_sets@.len() implies (
            #[trigger] reg.binding_sets@[j]).0@ != label@ by {
                if 4 <= j < 3 + depth {
                    assert(reg.binding_sets@[j].0@ == numbered("mip_bind_"@, j - 4));
                } else if 3 + depth <= j < 3 + 2 * depth {
                    assert(reg.binding_sets@[j].0@ == numbered("blur_tmp_bind_"@, j - 3 - depth));
                } else if j >= 3 + 2 * depth {
                    lemma_numbered_distinct("blur_bind_"@, j - 3 - 2 * depth, d as int);
                }
            }
            assert forall|j: int| 0 <= j < reg.layouts@.len() implies (
            #[trigger] reg.layouts@[j]).0@ != layout_label_of(label@) by {
                if 4 <= j < 3 + depth {
                    assert(reg.layouts@[j].0@ == layout_label_of(numbered("mip_bind_"@, j - 4)));
                } else if 3 + depth <= j < 3 + 2 * depth {
                    assert(reg.layouts@[j].0@ == layout_label_of(
                        numbered("blur_tmp_bind_"@, j - 3 - depth),
                    ));
                } else if j >= 3 + 2 * depth {
                    lemma_numbered_distinct("blur_bind_"@, j - 3 - 2 * depth, d as int);
                    lemma_suffix_keeps_distinct(
                        numbered("blur_bind_"@, j - 3 - 2 * depth),
                        numbered("blur_bind_"@, d as int),
                        "_layout"@,
                    );
                }
            }
            assert(reg.has_image_view(numbered("blur_tmp_view_"@, d as int)));
        }
        if let Err(e) = build_binding_set(reg, &label, &items) {
            return Err(e);
        }
        d = d + 1;
    }

    proof {
        assert(reg.binding_sets@[0].0@ == "grayscale_bind"@);
        assert(reg.binding_sets@[1].0@ == "fast_bind"@);
        assert(reg.binding_sets@[2].0@ == "descriptors_bind"@);
        assert(reg.binding_sets@[3].0@ == "compact_bind"@);
        assert(reg.has_binding_set("grayscale_bind"@));
        assert(reg.has_binding_set("fast_bind"@));
        assert(reg.has_binding_set("descriptors_bind"@));
        assert(reg.has_binding_set("compact_bind"@));
        assert(reg.binding_sets@[3 + c.pyramid_depth as int].0@ == numbered("blur_tmp_bind_"@, 0));
        assert(reg.has_binding_set(numbered("blur_tmp_bind_"@, 0)));
        assert(reg.binding_sets@[3 + 2 * c.pyramid_depth as int].0@ == numbered("blur_bind_"@, 0));
        assert(reg.has_binding_set(numbered("blur_bind_"@, 0)));
    }
    Ok(())
}

/// Where every pipeline of a constructed instance stands in the catalogue.
pub open spec fn pipelines_laid_out(reg: Registry) -> bool {
    &&& reg.pipelines@.len() == 10
    &&& reg.pipelines@[0].0@ == "grayscale_pipe"@
    &&& reg.pipelines@[1].0@ == "mipmap_pipe"@
    &&& reg.pipelines@[2].0@ == "blur_x_pipe"@
    &&& reg.pipelines@[3].0@ == "blur_y_pipe"@
    &&& reg.pipelines@[4].0@ == "fast_pipe"@
    &&& reg.pipelines@[5].0@ == "brief_pipe"@
    &&& reg.pipelines@[6].0@ == "scan_pipe"@
    &&& reg.pipelines@[7].0@ == "scatter_pipe"@
    &&& reg.pipelines@[8].0@ == "integral_x_pipe"@
    &&& reg.pipelines@[9].0@ == "integral_y_pipe"@
    &&& reg.pipelines@[0].1.kind == PipelineKind::Draw
    &&& reg.pipelines@[1].1.kind == PipelineKind::Draw
    &&& reg.pipelines@[2].1.kind == PipelineKind::Draw
    &&& reg.pipelines@[3].1.kind == PipelineKind::Draw
    &&& reg.pipelines@[4].1.kind == PipelineKind::Compute
    &&& reg.pipelines@[5].1.kind == PipelineKind::Compute
    &&& reg.pipelines@[6].1.kind == PipelineKind::Compute
    &&& reg.pipelines@[7].1.kind == PipelineKind::Compute
    &&& reg.pipelines@[8].1.kind == PipelineKind::Compute
    &&& reg.pipelines@[9].1.kind == PipelineKind::Compute
}

/// One-element binding-set label list.
fn one_label(s: String) -> (v: Vec<String>)
    ensures
        v@.len() == 1,
        v@[0]@ == s@,
{
    let mut v: Vec<String> = Vec::new();
    v.push(s);
    v
}

/// One-element color-target list: the single-channel pyramid format every
/// render stage draws into.
fn gray_target() -> (v: Vec<ImageFormat>)
    ensures
        v@.len() == 1,
        v@[0] == ImageFormat::Gray16,
{
    let mut v: Vec<ImageFormat> = Vec::new();
    v.push(ImageFormat::Gray16);
    v
}

/// Compiles every pipeline: the four render stages (grayscale, mip blit,
/// and the two blur directions), detection, descriptors, and the compute
/// stages of both compaction strategies plus the integral-image rounds.
/// The per-level render stages are compiled once against the shared
/// sampler-plus-view layout and rebound per level at dispatch time. Always
/// succeeds: every program, entry point and binding set was just
/// registered.
#[verifier::rlimit(100)]
#[verifier::loop_isolation(false)]
fn init_pipelines(reg: &mut Registry, c: &OrbConfig, num_chunks: u64) -> (r: Result<
    (),
    ConfigError,
>)
    requires
        old(reg).wf(),
        config_valid(*c),
        num_chunks == ((c.image_width + 7) / 8) * ((c.image_height + 7) / 8),
        resources_laid_out(*old(reg), *c, num_chunks),
        binding_sets_laid_out(*old(reg), *c),
        old(reg).pipelines@.len() == 0,
    ensures
        final(reg).wf(),
        r is Ok,
        resources_laid_out(*final(reg), *c, num_chunks),
        binding_sets_laid_out(*final(reg), *c),
        pipelines_laid_out(*final(reg)),
{
    proof {
        reveal_strlit("color_to_grayscale");
        reveal_strlit("blit");
        reveal_strlit("gaussian_blur_x");
        reveal_strlit("gaussian_blur_y");
        reveal_strlit("fast");
        reveal_strlit("brief");
        reveal_strlit("compact");
        reveal_strlit("vs_main");
        reveal_strlit("fs_main");
        reveal_strlit("compute_fast");
        reveal_strlit("scan");
        reveal_strlit("scatter");
        reveal_strlit("integral_x");
        reveal_strlit("integral_y");
        reveal_strlit("grayscale_bind");
        reveal_strlit("fast_bind");
        reveal_strlit("descriptors_bind");
        reveal_strlit("compact_bind");
        reveal_strlit("blur_tmp_bind_");
        reveal_strlit("blur_bind_");
        reveal_strlit("grayscale_pipe");
        reveal_strlit("mipmap_pipe");
        reveal_strlit("blur_x_pipe");
        reveal_strlit("blur_y_pipe");
        reveal_strlit("fast_pipe");
        reveal_strlit("brief_pipe");
        reveal_strlit("scan_pipe");
        reveal_strlit("scatter_pipe");
        reveal_strlit("integral_x_pipe");
        reveal_strlit("integral_y_pipe");
        assert("grayscale_pipe"@.len() == 14);
        assert("mipmap_pipe"@.len() == 11);
        assert("blur_x_pipe"@.len() == 11);
        assert("blur_y_pipe"@.len() == 11);
        assert("fast_pipe"@.len() == 9);
        assert("brief_pipe"@.len() == 10);
        assert("scan_pipe"@.len() == 9);
        assert("scatter_pipe"@.len() == 12);
        assert("integral_x_pipe"@.len() == 15);
        assert("integral_y_pipe"@.len() == 15);
        assert("mipmap_pipe"@[0] == 'm' && "blur_x_pipe"@[0] == 'b');
        assert("blur_x_pipe"@[5] == 'x' && "blur_y_pipe"@[5] == 'y');
        assert("fast_pipe"@[0] == 'f' && "scan_pipe"@[0] == 's');
        assert("integral_x_pipe"@[9] == 'x' && "integral_y_pipe"@[9] == 'y');
    }
    if let Err(e) = build_draw_pipeline(
        reg,
        &String::from_str("grayscale_pipe"),
        &String::from_str("color_to_grayscale"),
        &String::from_str("vs_main"),
        &String::from_str("fs_main"),
        &one_label(String::from_str("grayscale_bind")),
        gray_target(),
        false,
    ) {
        return Err(e);
    }
    proof {
        assert(reg.pipelines@[0].0@ == "grayscale_pipe"@);
        assert(reg.pipelines@[0].1.kind == PipelineKind::Draw);
    }
    if let Err(e) = build_draw_pipeline(
        reg,
        &String::from_str("mipmap_pipe"),
        &String::from_str("blit"),
        &String::from_str("vs_main"),
        &String::from_str("fs_main"),
        &one_label(numbered_label("blur_tmp_bind_", 0)),
        gray_target(),
        false,
    ) {
        return Err(e);
    }
    proof {
        assert(reg.pipelines@[1].0@ == "mipmap_pipe"@);
        assert(reg.pipelines@[1].1.kind == PipelineKind::Draw);
    }
    if let Err(e) = build_draw_pipeline(
        reg,
        &String::from_str("blur_x_pipe"),
        &String::from_str("gaussian_blur_x"),
        &String::from_str("vs_main"),
        &String::from_str("fs_main"),
        &one_label(numbered_label("blur_tmp_bind_", 0)),
        gray_target(),
        false,
    ) {
        return Err(e);
    }
    proof {
        assert(reg.pipelines@[2].0@ == "blur_x_pipe"@);
        assert(reg.pipelines@[2].1.kind == PipelineKind::Draw);
    }
    if let Err(e) = build_draw_pipeline(
        reg,
        &String::from_str("blur_y_pipe"),
        &String::from_str("gaussian_blur_y"),
        &String::from_str("vs_main"),
        &String::from_str("fs_main"),
        &one_label(numbered_label("blur_bind_", 0)),
        gray_target(),
        false,
    ) {
        return Err(e);
    }
    proof {
        assert(reg.pipelines@[3].0@ == "blur_y_pipe"@);
        assert(reg.pipelines@[3].1.kind == PipelineKind::Draw);
    }
    if let Err(e) = build_compute_pipeline(
        reg,
        &String::from_str("fast_pipe"),
        &String::from_str("fast"),
        &String::from_str("compute_fast"),
        &one_label(String::from_str("fast_bind")),
        8,
    ) {
        return Err(e);
    }
    proof {
        assert(reg.pipelines@[4].0@ == "fast_pipe"@);
        assert(reg.pipelines@[4].1.kind == PipelineKind::Compute);
    }
    if let Err(e) = build_compute_pipeline(
        reg,
        &String::from_str("brief_pipe"),
        &String::from_str("brief"),
        &String::from_str("brief"),
        &one_label(String::from_str("descriptors_bind")),
        0,
    ) {
        return Err(e);
    }
    proof {
        assert(reg.pipelines@[5].0@ == "brief_pipe"@);
        assert(reg.pipelines@[5].1.kind == PipelineKind::Compute);
    }
    if let Err(e) = build_compute_pipeline(
        reg,
        &String::from_str("scan_pipe"),
        &String::from_str("compact"),
        &String::from_str("scan"),
        &one_label(String::from_str("compact_bind")),
        4,
    ) {
        return Err(e);
    }
    proof {
        assert(reg.pipelines@[6].0@ == "scan_pipe"@);
        assert(reg.pipelines@[6].1.kind == PipelineKind::Compute);
    }
    if let Err(e) = build_compute_pipeline(
        reg,
        &String::from_str("scatter_pipe"),
        &String::from_str("compact"),
        &String::from_str("scatter"),
        &one_label(String::from_str("compact_bind")),
        0,
    ) {
        return Err(e);
    }
    proof {
        assert(reg.pipelines@[7].0@ == "scatter_pipe"@);
        assert(reg.pipelines@[7].1.kind == PipelineKind::Compute);
    }
    if let Err(e) = build_compute_pipeline(
        reg,
        &String::from_str("integral_x_pipe"),
        &String::from_str("compact"),
        &String::from_str("integral_x"),
        &one_label(String::from_str("compact_bind")),
        4,
    ) {
        return Err(e);
    }
    proof {
        assert(reg.pipelines@[8].0@ == "integral_x_pipe"@);
        assert(reg.pipelines@[8].1.kind == PipelineKind::Compute);
    }
    if let Err(e) = build_compute_pipeline(
        reg,
        &String::from_str("integral_y_pipe"),
        &String::from_str("compact"),
        &String::from_str("integral_y"),
        &one_label(String::from_str("compact_bind")),
        4,
    ) {
        return Err(e);
    }
    proof {
        assert(reg.pipelines@[9].0@ == "integral_y_pipe"@);
        assert(reg.pipelines@[9].1.kind == PipelineKind::Compute);
    }
    Ok(())
}

/// Per-run options: whether the run should also match the new descriptors
/// against the previous frame's. Descriptor matching is outside this
/// core's stage table, so the recorded batch does not depend on the flag.
#[derive(Clone, Copy, Debug, PartialEq, Eq, Structural)]
pub struct OrbParams {
    pub compute_matches: bool,
}

/// The number of valid entries in the compacted output array, as the final
/// readback reports it.
#[derive(Clone, Copy, Debug, PartialEq, Eq, Structural)]
pub struct FeatureSet {
    pub count: u32,
}

/// An upload of raw pixel bytes into level 0 of a registered image,
/// validated against the image's dimensions before any device work.
#[derive(Clone, Copy, Debug, PartialEq, Eq, Structural)]
pub struct ImageUpload {
    /// Handle index of the target image.
    pub image: usize,
    /// Bytes per row of the source data.
    pub row_stride: u64,
}

/// One constructed pipeline instance: its configuration, the catalogue that
/// exclusively owns every device resource, and the run geometry fixed at
/// construction (chunk grid, compaction rounds, integral rounds).
#[derive(Debug)]
pub struct OrbProgram {
    pub config: OrbConfig,
    pub registry: Registry,
    /// Number of 8x8 chunks tiling the base image.
    pub num_chunks: u64,
    /// Hillis–Steele rounds of the chunked scan; 0 for the atomic strategy.
    pub rounds: u32,
    /// Doubling rounds of the integral-image build.
    pub integral_rounds: u32,
}

impl OrbProgram {
    /// A constructed instance: valid configuration, well-formed catalogue
    /// with every resource at its fixed index, and run geometry that
    /// matches the configuration.
    pub open spec fn wf(self) -> bool {
        &&& config_valid(self.config)
        &&& self.registry.wf()
        &&& self.num_chunks == ((self.config.image_width + 7) / 8) * ((self.config.image_height
            + 7) / 8)
        &&& (self.config.compaction_strategy == CompactionStrategy::ChunkedScan
            ==> is_ceil_log2(self.rounds as nat, self.num_chunks as nat))
        &&& (self.config.compaction_strategy == CompactionStrategy::SingleAtomic ==> self.rounds
            == 0)
        &&& is_ceil_log2(
            self.integral_rounds as nat,
            (if self.config.image_width >= self.config.image_height {
                self.config.image_width
            } else {
                self.config.image_height
            }) as nat,
        )
        &&& resources_laid_out(self.registry, self.config, self.num_chunks)
        &&& binding_sets_laid_out(self.registry, self.config)
        &&& pipelines_laid_out(self.registry)
    }

    /// Builds one pipeline instance: validates the configuration, then
    /// creates and wires every resource, binding set and pipeline.
    /// Succeeds exactly on the configurations `config_valid` admits; a
    /// rejected configuration is the only failure.
    pub fn init(config: OrbConfig) -> (r: Result<OrbProgram, ConfigError>)
        ensures
            r is Ok <==> config_valid(config),
            r matches Err(e) ==> e == ConfigError::InvalidConfig,
            r matches Ok(p) ==> p.wf() && p.config == config,
    {
        if !validate_config(&config) {
            return Err(ConfigError::InvalidConfig);
        }
        let num_chunks = chunk_count(config.image_width, config.image_height);
        proof {
            let cx = (config.image_width + 7) as int / 8;
            let cy = (config.image_height + 7) as int / 8;
            assert(1 <= cx <= 2048 && 1 <= cy <= 2048);
            assert(1 <= cx * cy <= 2048 * 2048) by (nonlinear_arith)
                requires
                    1 <= cx <= 2048 && 1 <= cy <= 2048,
            ;
        }
        let rounds = compaction_rounds(config.compaction_strategy, num_chunks);
        let max_dim = if config.image_width >= config.image_height {
            config.image_width
        } else {
            config.image_height
        };
        let integral_rounds = ceil_log2(max_dim as u64);
        let mut registry = Registry::new();
        match init_resources(&mut registry, &config, num_chunks) {
            Ok(()) => {},
            Err(e) => {
                return Err(e);
            },
        }
        match init_binding_sets(&mut registry, &config, num_chunks) {
            Ok(()) => {},
            Err(e) => {
                return Err(e);
            },
        }
        match init_pipelines(&mut registry, &config, num_chunks) {
            Ok(()) => {},
            Err(e) => {
                return Err(e);
            },
        }
        Ok(OrbProgram { config, registry, num_chunks, rounds, integral_rounds })
    }

    /// Validates an upload of raw pixel bytes into the input image's level
    /// 0. The caller guarantees `bytes.len() == row_stride * height` and
    /// `row_stride >= 4 * width` (four bytes per pixel); anything else is a
    /// size mismatch caught before any device work.
    pub fn write_input_image(&self, bytes: &Vec<u8>, row_stride: u64) -> (r: Result<
        ImageUpload,
        ConfigError,
    >)
        requires
            self.wf(),
        ensures
            r is Ok <==> bytes@.len() == row_stride * self.config.image_height && row_stride >= 4
                * self.config.image_width,
            r matches Err(e) ==> e == ConfigError::SizeMismatch,
            r matches Ok(u) ==> u.image == 0 && u.row_stride == row_stride,
    {
        if row_stride < 4 * (self.config.image_width as u64) {
            return Err(ConfigError::SizeMismatch);
        }
        proof {
            assert(row_stride as int * self.config.image_height as int <= 0xffff_ffff_ffff_ffff
                * 0xffff_ffff) by (nonlinear_arith)
                requires
                    0 <= row_stride <= 0xffff_ffff_ffff_ffff && 0 <= self.config.image_height
                        <= 0xffff_ffff,
            ;
        }
        let expected: u128 = row_stride as u128 * (self.config.image_height as u128);
        if bytes.len() as u128 != expected {
            return Err(ConfigError::SizeMismatch);
        }
        Ok(ImageUpload { image: 0, row_stride })
    }
}

/// The batch prelude: reset the single counter, and — for the chunked scan
/// — restore the per-chunk counter table from its zeroed reset copy, so no
/// state leaks from one run into the next.
pub open spec fn prelude_cmds(num_chunks: u64, chunked: bool) -> Seq<Command> {
    let clear = seq![Command::ClearBuffer { buffer: 1 }];
    if chunked {
        clear + seq![
            Command::CopyBuffer { src: 6, dst: 5, size: (num_chunks * 4) as u64 },
        ]
    } else {
        clear
    }
}

/// The grayscale conversion: one full-screen draw into pyramid level 0.
pub open spec fn grayscale_cmd() -> Command {
    Command::Draw { pipeline: 0, binding_set: 0, target: 2 }
}

/// The draws of pyramid level `i` under the blit-and-blur strategy: for
/// every level above the base, a blit that downsamples the level above it,
/// then the two separable blur passes through the temporary image.
pub open spec fn blit_blur_level_cmds(c: OrbConfig, i: int) -> Seq<Command> {
    let depth = c.pyramid_depth as int;
    let blur = seq![
        Command::Draw {
            pipeline: 2,
            binding_set: (3 + depth + i) as usize,
            target: (2 + depth + i) as usize,
        },
        Command::Draw {
            pipeline: 3,
            binding_set: (3 + 2 * depth + i) as usize,
            target: (2 + 2 * depth + i) as usize,
        },
    ];
    if i == 0 {
        blur
    } else {
        seq![
            Command::Draw {
                pipeline: 1,
                binding_set: (3 + i) as usize,
                target: (2 + i) as usize,
            },
        ] + blur
    }
}

/// One doubling round of the integral-image build: a horizontal then a
/// vertical sweep, each told its round through the parameter block.
pub open spec fn integral_round_cmds(c: OrbConfig, r: int) -> Seq<Command> {
    seq![
        Command::Dispatch {
            pipeline: 8,
            binding_set: 3,
            groups_x: ((c.image_width as int / 2 + 7) / 8) as u32,
            groups_y: ((c.image_height + 7) / 8) as u32,
            groups_z: 1,
            param: Some(r as u32),
            threshold: None,
        },
        Command::Dispatch {
            pipeline: 9,
            binding_set: 3,
            groups_x: ((c.image_width + 7) / 8) as u32,
            groups_y: ((c.image_height as int / 2 + 7) / 8) as u32,
            groups_z: 1,
            param: Some(r as u32),
            threshold: None,
        },
    ]
}

/// The first `n` integral-image rounds, in order.
pub open spec fn integral_cmds_upto(c: OrbConfig, n: int) -> Seq<Command>
    decreases n,
{
    if n <= 0 {
        Seq::empty()
    } else {
        integral_cmds_upto(c, n - 1) + integral_round_cmds(c, n - 1)
    }
}

/// The commands of pyramid stage `i`, per the configured strategy. The
/// integral-image strategy works at a single scale, so its one pyramid
/// stage builds the whole integral image in doubling rounds.
pub open spec fn level_cmds(c: OrbConfig, integral_rounds: u32, i: int) -> Seq<Command> {
    if c.pyramid_strategy == PyramidStrategy::BlitBlur {
        blit_blur_level_cmds(c, i)
    } else {
        integral_cmds_upto(c, integral_rounds as int)
    }
}

/// The commands of the first `n` pyramid stages, in level order.
pub open spec fn pyramid_cmds_upto(c: OrbConfig, integral_rounds: u32, n: int) -> Seq<Command>
    decreases n,
{
    if n <= 0 {
        Seq::empty()
    } else {
        pyramid_cmds_upto(c, integral_rounds, n - 1) + level_cmds(c, integral_rounds, n - 1)
    }
}

/// The detection dispatch over pyramid level `i`: work-group counts come
/// from level `i`'s actual halved dimensions, and the parameter block
/// carries the level and the corner threshold.
pub open spec fn detect_cmd(c: OrbConfig, i: int) -> Command {
    Command::Dispatch {
        pipeline: 4,
        binding_set: 1,
        groups_x: ((mip_dim(c.image_width as nat, i as nat) + 7) / 8) as u32,
        groups_y: ((mip_dim(c.image_height as nat, i as nat) + 7) / 8) as u32,
        groups_z: 1,
        param: Some(i as u32),
        threshold: Some(c.corner_threshold),
    }
}

/// The detection dispatches of the first `n` levels, in level order.
pub open spec fn detect_cmds_upto(c: OrbConfig, n: int) -> Seq<Command>
    decreases n,
{
    if n <= 0 {
        Seq::empty()
    } else {
        detect_cmds_upto(c, n - 1) + seq![detect_cmd(c, n - 1)]
    }
}

/// Compaction round `r`: one sweep over every chunk's offset entry, told
/// its round (stride `2^r`) through the parameter block.
pub open spec fn scan_round_cmd(num_chunks: u64, r: int) -> Command {
    Command::Dispatch {
        pipeline: 6,
        binding_set: 3,
        groups_x: ((num_chunks + 63) / 64) as u32,
        groups_y: 1,
        groups_z: 1,
        param: Some(r as u32),
        threshold: None,
    }
}

/// The first `n` compaction rounds, in order.
pub open spec fn scan_cmds_upto(num_chunks: u64, n: int) -> Seq<Command>
    decreases n,
{
    if n <= 0 {
        Seq::empty()
    } else {
        scan_cmds_upto(num_chunks, n - 1) + seq![scan_round_cmd(num_chunks, n - 1)]
    }
}

/// The whole chunked compaction: the byte-for-byte copy of the counter
/// table into the offset table before round 0, the scan rounds, then the
/// scatter over every chunk's fixed-capacity region. The raw counter table
/// stays untouched: the scan overwrites the copy while the scatter still
/// needs the original counts.
pub open spec fn compact_cmds(num_chunks: u64, rounds: u32) -> Seq<Command> {
    seq![
        Command::CopyBuffer { src: 5, dst: 7, size: (num_chunks * 4) as u64 },
    ] + scan_cmds_upto(num_chunks, rounds as int) + seq![
        Command::Dispatch {
            pipeline: 7,
            binding_set: 3,
            groups_x: ((num_chunks + 7) / 8) as u32,
            groups_y: 8,
            groups_z: 1,
            param: None,
            threshold: None,
        },
    ]
}

/// The descriptor dispatch over the compacted candidates.
pub open spec fn brief_cmd(c: OrbConfig) -> Command {
    Command::Dispatch {
        pipeline: 5,
        binding_set: 2,
        groups_x: 1,
        groups_y: ((c.max_features + 7) / 8) as u32,
        groups_z: 1,
        param: None,
        threshold: None,
    }
}

/// The readback tail: copy the final count into the staging buffer inside
/// the same batch, then request its asynchronous map.
pub open spec fn readback_cmds() -> Seq<Command> {
    seq![
        Command::CopyBuffer { src: 1, dst: 2, size: 4 },
        Command::MapStaging { staging: 2 },
    ]
}

/// The complete command batch of one run, a function of the configuration
/// and the run geometry alone: prelude, grayscale, pyramid stages,
/// per-level detection, the chunked compaction (for that strategy),
/// descriptors, readback.
pub open spec fn run_cmds(c: OrbConfig, num_chunks: u64, rounds: u32, integral_rounds: u32) -> Seq<
    Command,
> {
    let chunked = c.compaction_strategy == CompactionStrategy::ChunkedScan;
    prelude_cmds(num_chunks, chunked) + seq![grayscale_cmd()] + pyramid_cmds_upto(
        c,
        integral_rounds,
        c.pyramid_depth as int,
    ) + detect_cmds_upto(c, c.pyramid_depth as int) + (if chunked {
        compact_cmds(num_chunks, rounds)
    } else {
        Seq::empty()
    }) + seq![brief_cmd(c)] + readback_cmds()
}

impl OrbProgram {
    /// Appends the pyramid stages of one run: per level a blit (above the
    /// base) and the two blur draws, or the integral-image rounds for that
    /// strategy.
    #[verifier::rlimit(100)]
    #[verifier::loop_isolation(false)]
    fn emit_pyramid(&self, cmds: &mut Vec<Command>)
        requires
            self.wf(),
        ensures
            final(cmds)@ == old(cmds)@ + pyramid_cmds_upto(
                self.config,
                self.integral_rounds,
                self.config.pyramid_depth as int,
            ),
    {
        let c = &self.config;
        let depth = c.pyramid_depth;
        let ghost pre = cmds@;
        if matches!(c.pyramid_strategy, PyramidStrategy::BlitBlur) {
            let mut i: u32 = 0;
            while i < depth
                invariant
                    i <= depth,
                    cmds@ == pre + pyramid_cmds_upto(*c, self.integral_rounds, i as int),
                decreases depth - i,
            {
                if i > 0 {
                    cmds.push(
                        Command::Draw {
                            pipeline: 1,
                            binding_set: 3 + i as usize,
                            target: 2 + i as usize,
                        },
                    );
                }
                cmds.push(
                    Command::Draw {
                        pipeline: 2,
                        binding_set: 3 + (depth + i) as usize,
                        target: 2 + (depth + i) as usize,
                    },
                );
                cmds.push(
                    Command::Draw {
                        pipeline: 3,
                        binding_set: 3 + (2 * depth + i) as usize,
                        target: 2 + (2 * depth + i) as usize,
                    },
                );
                proof {
                    assert(cmds@ =~= pre + pyramid_cmds_upto(
                        *c,
                        self.integral_rounds,
                        i as int,
                    ) + blit_blur_level_cmds(*c, i as int));
                }
                i = i + 1;
            }
        } else {
            let gx = dispatch_groups(c.image_width / 2);
            let gy_full = dispatch_groups(c.image_height);
            let gx_full = dispatch_groups(c.image_width);
            let gy = dispatch_groups(c.image_height / 2);
            let mut r: u32 = 0;
            while r < self.integral_rounds
                invariant
                    r <= self.integral_rounds,
                    cmds@ == pre + integral_cmds_upto(*c, r as int),
                    gx == ((c.image_width as int / 2 + 7) / 8) as u32,
                    gy_full == ((c.image_height + 7) / 8) as u32,
                    gx_full == ((c.image_width + 7) / 8) as u32,
                    gy == ((c.image_height as int / 2 + 7) / 8) as u32,
                decreases self.integral_rounds - r,
            {
                cmds.push(
                    Command::Dispatch {
                        pipeline: 8,
                        binding_set: 3,
                        groups_x: gx,
                        groups_y: gy_full,
                        groups_z: 1,
                        param: Some(r),
                        threshold: None,
                    },
                );
                cmds.push(
                    Command::Dispatch {
                        pipeline: 9,
                        binding_set: 3,
                        groups_x: gx_full,
                        groups_y: gy,
                        groups_z: 1,
                        param: Some(r),
                        threshold: None,
                    },
                );
                proof {
                    assert(cmds@ =~= pre + integral_cmds_upto(*c, r as int) + integral_round_cmds(
                        *c,
                        r as int,
                    ));
                }
                r = r + 1;
            }
            proof {
                assert(depth == 1);
                assert(level_cmds(*c, self.integral_rounds, 0) == integral_cmds_upto(
                    *c,
                    self.integral_rounds as int,
                ));
                assert(pyramid_cmds_upto(*c, self.integral_rounds, 0) =~= Seq::<Command>::empty());
                assert(pyramid_cmds_upto(*c, self.integral_rounds, 1) =~= pyramid_cmds_upto(
                    *c,
                    self.integral_rounds,
                    0,
                ) + level_cmds(*c, self.integral_rounds, 0));
                assert(cmds@ =~= pre + pyramid_cmds_upto(*c, self.integral_rounds, 1));
            }
        }
    }

    /// Appends the per-level detection dispatches, each sized from its
    /// level's actual halved dimensions.
    #[verifier::rlimit(100)]
    #[verifier::loop_isolation(false)]
    fn emit_detect(&self, cmds: &mut Vec<Command>)
        requires
            self.wf(),
        ensures
            final(cmds)@ == old(cmds)@ + detect_cmds_upto(
                self.config,
                self.config.pyramid_depth as int,
            ),
    {
        let c = &self.config;
        let depth = c.pyramid_depth;
        let ghost pre = cmds@;
        let mut i: u32 = 0;
        while i < depth
            invariant
                i <= depth,
                cmds@ == pre + detect_cmds_upto(*c, i as int),
            decreases depth - i,
        {
            let w = level_dim(c.image_width, i);
            let h = level_dim(c.image_height, i);
            cmds.push(
                Command::Dispatch {
                    pipeline: 4,
                    binding_set: 1,
                    groups_x: dispatch_groups(w),
                    groups_y: dispatch_groups(h),
                    groups_z: 1,
                    param: Some(i),
                    threshold: Some(c.corner_threshold),
                },
            );
            proof {
                assert(cmds@ =~= pre + detect_cmds_upto(*c, i as int) + seq![
                    detect_cmd(*c, i as int),
                ]);
            }
            i = i + 1;
        }
    }

    /// Appends the chunked compaction: the counter-table copy, the scan
    /// rounds, and the scatter.
    #[verifier::rlimit(100)]
    #[verifier::loop_isolation(false)]
    fn emit_compact(&self, cmds: &mut Vec<Command>)
        requires
            self.wf(),
            self.num_chunks <= 0x400000,
        ensures
            final(cmds)@ == old(cmds)@ + compact_cmds(self.num_chunks, self.rounds),
    {
        let ghost pre = cmds@;
        cmds.push(Command::CopyBuffer { src: 5, dst: 7, size: self.num_chunks * 4 });
        let scan_groups = ((self.num_chunks + 63) / 64) as u32;
        let ghost pre_scan = cmds@;
        let mut r: u32 = 0;
        while r < self.rounds
            invariant
                r <= self.rounds,
                scan_groups == ((self.num_chunks + 63) / 64) as u32,
                cmds@ == pre_scan + scan_cmds_upto(self.num_chunks, r as int),
            decreases self.rounds - r,
        {
            cmds.push(
                Command::Dispatch {
                    pipeline: 6,
                    binding_set: 3,
                    groups_x: scan_groups,
                    groups_y: 1,
                    groups_z: 1,
                    param: Some(r),
                    threshold: None,
                },
            );
            proof {
                assert(cmds@ =~= pre_scan + scan_cmds_upto(self.num_chunks, r as int) + seq![
                    scan_round_cmd(self.num_chunks, r as int),
                ]);
            }
            r = r + 1;
        }
        cmds.push(
            Command::Dispatch {
                pipeline: 7,
                binding_set: 3,
                groups_x: ((self.num_chunks + 7) / 8) as u32,
                groups_y: 8,
                groups_z: 1,
                param: None,
                threshold: None,
            },
        );
        proof {
            assert(cmds@ =~= pre + compact_cmds(self.num_chunks, self.rounds));
        }
    }

    /// Records the command batch of one full run, realizing the fixed stage
    /// sequence: counter resets first (no state leaks between runs), then
    /// grayscale, the pyramid stages in level order, one detection dispatch
    /// per level sized from that level's halved dimensions, the compaction
    /// rounds and scatter for the chunked strategy, the descriptor pass,
    /// and the count readback. The batch is a function of the
    /// configuration alone; the per-run options do not change it, exactly
    /// as the accepted configuration surface promises.
    #[verifier::rlimit(100)]
    pub fn record_run(&self, params: &OrbParams) -> (cmds: Vec<Command>)
        requires
            self.wf(),
        ensures
            cmds@ == run_cmds(self.config, self.num_chunks, self.rounds, self.integral_rounds),
            cmds@[0] == (Command::ClearBuffer { buffer: 1 }),
    {
        let c = &self.config;
        let chunked = c.compaction_strategy == CompactionStrategy::ChunkedScan;
        proof {
            let cx = (c.image_width + 7) as int / 8;
            let cy = (c.image_height + 7) as int / 8;
            assert(1 <= cx <= 2048 && 1 <= cy <= 2048);
            assert(1 <= cx * cy <= 2048 * 2048) by (nonlinear_arith)
                requires
                    1 <= cx <= 2048 && 1 <= cy <= 2048,
            ;
        }
        let mut cmds: Vec<Command> = Vec::new();
        cmds.push(Command::ClearBuffer { buffer: 1 });
        if chunked {
            cmds.push(Command::CopyBuffer { src: 6, dst: 5, size: self.num_chunks * 4 });
        }
        proof {
            assert(cmds@ =~= prelude_cmds(self.num_chunks, chunked));
        }
        cmds.push(Command::Draw { pipeline: 0, binding_set: 0, target: 2 });
        proof {
            assert(cmds@ =~= prelude_cmds(self.num_chunks, chunked) + seq![grayscale_cmd()]);
        }
        self.emit_pyramid(&mut cmds);
        self.emit_detect(&mut cmds);
        if chunked {
            self.emit_compact(&mut cmds);
        }
        cmds.push(
            Command::Dispatch {
                pipeline: 5,
                binding_set: 2,
                groups_x: 1,
                groups_y: dispatch_groups(c.max_features),
                groups_z: 1,
                param: None,
                threshold: None,
            },
        );
        cmds.push(Command::CopyBuffer { src: 1, dst: 2, size: 4 });
        cmds.push(Command::MapStaging { staging: 2 });
        proof {
            assert(cmds@ =~= run_cmds(
                self.config,
                self.num_chunks,
                self.rounds,
                self.integral_rounds,
            ));
            assert(cmds@[0] == (Command::ClearBuffer { buffer: 1 }));
        }
        cmds
    }
}

/// Two ceilings of one logarithm agree: the round count is determined by
/// the chunk count.
pub proof fn lemma_ceil_log2_unique(r1: nat, r2: nat, n: nat)
    requires
        is_ceil_log2(r1, n),
        is_ceil_log2(r2, n),
    ensures
        r1 == r2,
{
    if r1 < r2 {
        if r1 < r2 - 1 {
            vstd::arithmetic::power2::lemma_pow2_strictly_increases(r1, (r2 - 1) as nat);
        }
        assert(pow2((r2 - 1) as nat) >= pow2(r1) >= n);
    } else if r2 < r1 {
        if r2 < r1 - 1 {
            vstd::arithmetic::power2::lemma_pow2_strictly_increases(r2, (r1 - 1) as nat);
        }
        assert(pow2((r1 - 1) as nat) >= pow2(r2) >= n);
    }
}

/// Calling `record_run` twice with an unchanged configuration records an
/// identical command batch: the run geometry is determined by the
/// configuration, and the batch is a function of the two. Determinism of
/// the whole pipeline then rests on the device replaying identical batches
/// over identical resource contents, which the counter-reset prelude
/// restores before each run.
pub proof fn lemma_record_run_deterministic(p1: OrbProgram, p2: OrbProgram)
    requires
        p1.wf(),
        p2.wf(),
        p1.config == p2.config,
    ensures
        run_cmds(p1.config, p1.num_chunks, p1.rounds, p1.integral_rounds) == run_cmds(
            p2.config,
            p2.num_chunks,
            p2.rounds,
            p2.integral_rounds,
        ),
{
    assert(p1.num_chunks == p2.num_chunks);
    lemma_ceil_log2_unique(
        p1.integral_rounds as nat,
        p2.integral_rounds as nat,
        (if p1.config.image_width >= p1.config.image_height {
            p1.config.image_width
        } else {
            p1.config.image_height
        }) as nat,
    );
    if p1.config.compaction_strategy == CompactionStrategy::ChunkedScan {
        lemma_ceil_log2_unique(p1.rounds as nat, p2.rounds as nat, p1.num_chunks as nat);
    }
}

/// Pyramid level `i` of a constructed instance really is mip level `i` of
/// the hierarchy image, and its resource dimensions are the base
/// dimensions floor-divided by `2^i` in each axis — for every depth the
/// configuration surface admits.
pub proof fn lemma_pyramid_level_dims(p: OrbProgram, i: int)
    requires
        p.wf(),
        0 <= i < p.config.pyramid_depth,
    ensures
        p.registry.image_views@[2 + i].1 == (ImageViewDesc {
            image: 1,
            base_level: i as u32,
            level_count: 1,
        }),
        p.registry.images@[1].1.width == p.config.image_width,
        p.registry.images@[1].1.height == p.config.image_height,
        mip_dim(p.config.image_width as nat, i as nat) == p.config.image_width as nat / pow2(
            i as nat,
        ),
        mip_dim(p.config.image_height as nat, i as nat) == p.config.image_height as nat / pow2(
            i as nat,
        ),
{
    crate::geometry::lemma_mip_dim_closed_form(p.config.image_width as nat, i as nat);
    crate::geometry::lemma_mip_dim_closed_form(p.config.image_height as nat, i as nat);
}

impl OrbProgram {
    /// Looks a registered image up by label; construction-time only.
    pub fn texture(&self, name: &String) -> (r: Result<crate::resources::ImageHandle, ConfigError>)
        requires
            self.wf(),
        ensures
            r is Ok <==> self.registry.has_image(name@),
            r matches Err(e) ==> e == ConfigError::LabelNotFound,
            r matches Ok(h) ==> h.index < self.registry.images@.len()
                && self.registry.images@[h.index as int].0@ == name@,
    {
        self.registry.get_image(name)
    }

    /// Looks a registered buffer up by label; construction-time only.
    pub fn buffer(&self, name: &String) -> (r: Result<crate::resources::BufferHandle, ConfigError>)
        requires
            self.wf(),
        ensures
            r is Ok <==> self.registry.has_buffer(name@),
            r matches Err(e) ==> e == ConfigError::LabelNotFound,
            r matches Ok(h) ==> h.index < self.registry.buffers@.len()
                && self.registry.buffers@[h.index as int].0@ == name@,
    {
        self.registry.get_buffer(name)
    }

    /// Looks a registered binding set up by label; construction-time only.
    pub fn bind_group(&self, name: &String) -> (r: Result<
        crate::resources::BindingSetHandle,
        ConfigError,
    >)
        requires
            self.wf(),
        ensures
            r is Ok <==> self.registry.has_binding_set(name@),
            r matches Err(e) ==> e == ConfigError::LabelNotFound,
            r matches Ok(h) ==> h.index < self.registry.binding_sets@.len()
                && self.registry.binding_sets@[h.index as int].0@ == name@,
    {
        self.registry.get_binding_set(name)
    }

    /// Looks a registered compute pipeline up by label; construction-time
    /// only. Fails with `LabelNotFound` on a label registered only as a
    /// draw pipeline.
    pub fn compute_pipeline(&self, name: &String) -> (r: Result<
        crate::resources::PipelineHandle,
        ConfigError,
    >)
        requires
            self.wf(),
        ensures
            r is Ok <==> self.registry.has_pipeline(name@) && self.registry.pipeline(name@).kind
                == PipelineKind::Compute,
            r matches Err(e) ==> e == ConfigError::LabelNotFound,
            r matches Ok(h) ==> h.index < self.registry.pipelines@.len()
                && self.registry.pipelines@[h.index as int].0@ == name@
                && self.registry.pipelines@[h.index as int].1.kind == PipelineKind::Compute,
    {
        let h = match self.registry.get_pipeline(name) {
            Ok(h) => h,
            Err(e) => {
                return Err(e);
            },
        };
        if matches!(self.registry.pipelines[h.index].1.kind, PipelineKind::Compute) {
            Ok(h)
        } else {
            Err(ConfigError::LabelNotFound)
        }
    }

    /// Looks a registered draw pipeline up by label; construction-time
    /// only. Fails with `LabelNotFound` on a label registered only as a
    /// compute pipeline.
    pub fn render_pipeline(&self, name: &String) -> (r: Result<
        crate::resources::PipelineHandle,
        ConfigError,
    >)
        requires
            self.wf(),
        ensures
            r is Ok <==> self.registry.has_pipeline(name@) && self.registry.pipeline(name@).kind
                == PipelineKind::Draw,
            r matches Err(e) ==> e == ConfigError::LabelNotFound,
            r matches Ok(h) ==> h.index < self.registry.pipelines@.len()
                && self.registry.pipelines@[h.index as int].0@ == name@
                && self.registry.pipelines@[h.index as int].1.kind == PipelineKind::Draw,
    {
        let h = match self.registry.get_pipeline(name) {
            Ok(h) => h,
            Err(e) => {
                return Err(e);
            },
        };
        if matches!(self.registry.pipelines[h.index].1.kind, PipelineKind::Draw) {
            Ok(h)
        } else {
            Err(ConfigError::LabelNotFound)
        }
    }
}

/// Configuration of the single-scale extractor surface: pixel dimensions
/// and the output capacity.
#[derive(Clone, Copy, Debug, PartialEq, Eq, Structural)]
pub struct OrbFeatureExtractorConfig {
    pub image_width: usize,
    pub image_height: usize,
    pub max_features: usize,
}

impl OrbFeatureExtractorConfig {
    /// The full pipeline configuration this surface stands for: a
    /// single-level pyramid with the atomic compaction strategy. Rejected
    /// exactly when the resulting configuration is out of range.
    pub fn to_orb_config(&self, corner_threshold: u32) -> (r: Result<OrbConfig, ConfigError>)
        ensures
            r matches Ok(c) ==> {
                &&& config_valid(c)
                &&& c.image_width == self.image_width
                &&& c.image_height == self.image_height
                &&& c.max_features == self.max_features
                &&& c.pyramid_depth == 1
                &&& c.corner_threshold == corner_threshold
                &&& c.pyramid_strategy == PyramidStrategy::BlitBlur
                &&& c.compaction_strategy == CompactionStrategy::SingleAtomic
            },
            r matches Err(e) ==> e == ConfigError::InvalidConfig,
            r is Ok <==> 1 <= self.image_width <= 16384 && 1 <= self.image_height <= 16384 && 1
                <= self.max_features <= 1048576,
    {
        if !(1 <= self.image_width && self.image_width <= 16384 && 1 <= self.image_height
            && self.image_height <= 16384 && 1 <= self.max_features && self.max_features
            <= 1048576) {
            return Err(ConfigError::InvalidConfig);
        }
        Ok(
            OrbConfig {
                image_width: self.image_width as u32,
                image_height: self.image_height as u32,
                max_features: self.max_features as u32,
                pyramid_depth: 1,
                corner_threshold,
                pyramid_strategy: PyramidStrategy::BlitBlur,
                compaction_strategy: CompactionStrategy::SingleAtomic,
            },
        )
    }
}

impl OrbProgram {
    /// The ordered stage sequence this instance's runs walk: the pass
    /// state machine instantiated with the instance's pyramid depth and
    /// compaction round count.
    pub fn stage_schedule(&self) -> (s: Vec<crate::schedule::Stage>)
        requires
            self.wf(),
        ensures
            s@.len() > 0,
            s@[0] == crate::schedule::Stage::GrayscaleConvert,
            s@[s@.len() - 1] == crate::schedule::Stage::Done,
            forall|i: int|
                0 <= i < s@.len() - 1 ==> s@[i + 1] == crate::schedule::spec_next_stage(
                    #[trigger] s@[i],
                    self.config.pyramid_depth,
                    self.rounds,
                    self.config.compaction_strategy == CompactionStrategy::ChunkedScan,
                ),
    {
        let chunked = self.config.compaction_strategy == CompactionStrategy::ChunkedScan;
        proof {
            let cx = (self.config.image_width + 7) as int / 8;
            let cy = (self.config.image_height + 7) as int / 8;
            assert(1 <= cx <= 2048 && 1 <= cy <= 2048);
            assert(1 <= cx * cy <= 2048 * 2048) by (nonlinear_arith)
                requires
                    1 <= cx <= 2048 && 1 <= cy <= 2048,
            ;
            if chunked && self.rounds > 64 {
                vstd::arithmetic::power2::lemma2_to64();
                if self.rounds - 1 > 22 {
                    vstd::arithmetic::power2::lemma_pow2_strictly_increases(
                        22,
                        (self.rounds - 1) as nat,
                    );
                }
                assert(pow2((self.rounds - 1) as nat) >= pow2(22));
                assert(false);
            }
        }
        crate::schedule::schedule(self.config.pyramid_depth, self.rounds, chunked)
    }
}

/// A command references only resources the catalogue really holds, of the
/// kind the command needs: buffers for copies and clears, a compute
/// pipeline and binding set for a dispatch, a draw pipeline, binding set
/// and view target for a draw, and a host-readable staging buffer for a
/// map request.
pub open spec fn cmd_valid(reg: Registry, cmd: Command) -> bool {
    match cmd {
        Command::ClearBuffer { buffer } => buffer < reg.buffers@.len(),
        Command::CopyBuffer { src, dst, .. } => src < reg.buffers@.len() && dst
            < reg.buffers@.len(),
        Command::Dispatch { pipeline, binding_set, .. } => {
            &&& pipeline < reg.pipelines@.len()
            &&& reg.pipelines@[pipeline as int].1.kind == PipelineKind::Compute
            &&& binding_set < reg.binding_sets@.len()
        },
        Command::Draw { pipeline, binding_set, target } => {
            &&& pipeline < reg.pipelines@.len()
            &&& reg.pipelines@[pipeline as int].1.kind == PipelineKind::Draw
            &&& binding_set < reg.binding_sets@.len()
            &&& target < reg.image_views@.len()
        },
        Command::MapStaging { staging } => staging < reg.buffers@.len()
            && reg.buffers@[staging as int].1.usage.map_read,
    }
}

/// Every command is valid in `reg`.
pub open spec fn cmds_valid(reg: Registry, cmds: Seq<Command>) -> bool {
    forall|i: int| 0 <= i < cmds.len() ==> cmd_valid(reg, #[trigger] cmds[i])
}

/// Validity joins over concatenation.
proof fn lemma_cmds_valid_concat(reg: Registry, a: Seq<Command>, b: Seq<Command>)
    requires
        cmds_valid(reg, a),
        cmds_valid(reg, b),
    ensures
        cmds_valid(reg, a + b),
{
    assert forall|i: int| 0 <= i < (a + b).len() implies cmd_valid(reg, #[trigger] (a + b)[i]) by {
        if i < a.len() {
            assert((a + b)[i] == a[i]);
        } else {
            assert((a + b)[i] == b[i - a.len()]);
        }
    }
}

/// The pyramid stages of a constructed instance only name catalogued
/// resources.
proof fn lemma_pyramid_cmds_valid(p: OrbProgram, n: int)
    requires
        p.wf(),
        0 <= n <= p.config.pyramid_depth,
    ensures
        cmds_valid(p.registry, pyramid_cmds_upto(p.config, p.integral_rounds, n)),
    decreases n,
{
    if n > 0 {
        lemma_pyramid_cmds_valid(p, n - 1);
        let lvl = level_cmds(p.config, p.integral_rounds, n - 1);
        assert(cmds_valid(p.registry, lvl)) by {
            if p.config.pyramid_strategy == PyramidStrategy::BlitBlur {
                assert forall|i: int| 0 <= i < lvl.len() implies cmd_valid(
                    p.registry,
                    #[trigger] lvl[i],
                ) by {
                    let depth = p.config.pyramid_depth as int;
                    assert(p.registry.binding_sets@.len() == 3 * depth + 3);
                    assert(p.registry.image_views@.len() == 2 + 3 * depth);
                }
            } else {
                lemma_integral_cmds_valid(p, p.integral_rounds as int);
            }
        }
        lemma_cmds_valid_concat(
            p.registry,
            pyramid_cmds_upto(p.config, p.integral_rounds, n - 1),
            lvl,
        );
    }
}

/// The integral-image rounds only name catalogued resources.
proof fn lemma_integral_cmds_valid(p: OrbProgram, n: int)
    requires
        p.wf(),
        0 <= n,
    ensures
        cmds_valid(p.registry, integral_cmds_upto(p.config, n)),
    decreases n,
{
    if n > 0 {
        lemma_integral_cmds_valid(p, n - 1);
        lemma_cmds_valid_concat(
            p.registry,
            integral_cmds_upto(p.config, n - 1),
            integral_round_cmds(p.config, n - 1),
        );
    }
}

/// The detection dispatches only name catalogued resources.
proof fn lemma_detect_cmds_valid(p: OrbProgram, n: int)
    requires
        p.wf(),
        0 <= n,
    ensures
        cmds_valid(p.registry, detect_cmds_upto(p.config, n)),
    decreases n,
{
    if n > 0 {
        lemma_detect_cmds_valid(p, n - 1);
        lemma_cmds_valid_concat(
            p.registry,
            detect_cmds_upto(p.config, n - 1),
            seq![detect_cmd(p.config, n - 1)],
        );
    }
}

/// The scan rounds only name catalogued resources.
proof fn lemma_scan_cmds_valid(p: OrbProgram, n: int)
    requires
        p.wf(),
        0 <= n,
    ensures
        cmds_valid(p.registry, scan_cmds_upto(p.num_chunks, n)),
    decreases n,
{
    if n > 0 {
        lemma_scan_cmds_valid(p, n - 1);
        lemma_cmds_valid_concat(
            p.registry,
            scan_cmds_upto(p.num_chunks, n - 1),
            seq![scan_round_cmd(p.num_chunks, n - 1)],
        );
    }
}

/// The whole recorded batch of a constructed instance references only
/// resources its catalogue holds, each of the kind the command needs; the
/// device bindings can replay it without ever reaching outside the
/// catalogue.
pub proof fn lemma_run_cmds_valid(p: OrbProgram)
    requires
        p.wf(),
    ensures
        cmds_valid(
            p.registry,
            run_cmds(p.config, p.num_chunks, p.rounds, p.integral_rounds),
        ),
{
    let reg = p.registry;
    let c = p.config;
    let chunked = c.compaction_strategy == CompactionStrategy::ChunkedScan;
    let pre = prelude_cmds(p.num_chunks, chunked);
    assert(cmds_valid(reg, pre)) by {
        assert forall|i: int| 0 <= i < pre.len() implies cmd_valid(reg, #[trigger] pre[i]) by {}
    }
    lemma_cmds_valid_concat(reg, pre, seq![grayscale_cmd()]);
    lemma_pyramid_cmds_valid(p, c.pyramid_depth as int);
    lemma_cmds_valid_concat(
        reg,
        pre + seq![grayscale_cmd()],
        pyramid_cmds_upto(c, p.integral_rounds, c.pyramid_depth as int),
    );
    lemma_detect_cmds_valid(p, c.pyramid_depth as int);
    let head = pre + seq![grayscale_cmd()] + pyramid_cmds_upto(
        c,
        p.integral_rounds,
        c.pyramid_depth as int,
    );
    lemma_cmds_valid_concat(reg, head, detect_cmds_upto(c, c.pyramid_depth as int));
    let head2 = head + detect_cmds_upto(c, c.pyramid_depth as int);
    let compact = if chunked {
        compact_cmds(p.num_chunks, p.rounds)
    } else {
        Seq::<Command>::empty()
    };
    assert(cmds_valid(reg, compact)) by {
        if chunked {
            lemma_scan_cmds_valid(p, p.rounds as int);
            lemma_cmds_valid_concat(
                reg,
                seq![
                    Command::CopyBuffer { src: 5, dst: 7, size: (p.num_chunks * 4) as u64 },
                ],
                scan_cmds_upto(p.num_chunks, p.rounds as int),
            );
            lemma_cmds_valid_concat(
                reg,
                seq![
                    Command::CopyBuffer { src: 5, dst: 7, size: (p.num_chunks * 4) as u64 },
                ] + scan_cmds_upto(p.num_chunks, p.rounds as int),
                seq![
                    Command::Dispatch {
                        pipeline: 7,
                        binding_set: 3,
                        groups_x: ((p.num_chunks + 7) / 8) as u32,
                        groups_y: 8,
                        groups_z: 1,
                        param: None,
                        threshold: None,
                    },
                ],
            );
        }
    }
    lemma_cmds_valid_concat(reg, head2, compact);
    lemma_cmds_valid_concat(reg, head2 + compact, seq![brief_cmd(c)]);
    assert(cmds_valid(reg, readback_cmds())) by {
        let rb = readback_cmds();
        assert(cmd_valid(reg, rb[0]));
        assert(cmd_valid(reg, rb[1]));
    }
    lemma_cmds_valid_concat(reg, head2 + compact + seq![brief_cmd(c)], readback_cmds());
}

} // verus!

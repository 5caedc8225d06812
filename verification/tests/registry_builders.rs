//! The resource registry and the binding-set and pipeline builders on
//! concrete catalogues: duplicate labels, missing labels, size checks, and
//! the derived binding types.

use orb_core::binding::build_binding_set;
use orb_core::binding_types::{BindingItem, BindingType};
use orb_core::error::ConfigError;
use orb_core::pipeline::{build_compute_pipeline, build_draw_pipeline};
use orb_core::registry::Registry;
use orb_core::resources::{BufferUsage, FilterMode, ImageFormat, ImageUsage};

fn storage_usage() -> BufferUsage {
    BufferUsage {
        storage: true,
        uniform: false,
        copy_src: false,
        copy_dst: false,
        map_read: false,
        map_write: false,
        vertex: false,
    }
}

fn uniform_usage() -> BufferUsage {
    BufferUsage {
        storage: false,
        uniform: true,
        copy_src: false,
        copy_dst: false,
        map_read: false,
        map_write: false,
        vertex: false,
    }
}

fn plain_image_usage() -> ImageUsage {
    ImageUsage {
        texture_binding: true,
        storage_binding: false,
        render_attachment: false,
        copy_src: false,
        copy_dst: true,
    }
}

#[test]
fn duplicate_buffer_label_is_rejected() {
    let mut reg = Registry::new();
    let first = reg.create_buffer(&String::from("counts"), 64, storage_usage());
    assert!(first.is_ok());
    let second = reg.create_buffer(&String::from("counts"), 128, storage_usage());
    assert_eq!(second.unwrap_err(), ConfigError::DuplicateLabel);
    // The failed call left no partial entry behind.
    assert_eq!(reg.buffers.len(), 1);
    assert_eq!(reg.buffers[0].1.size, 64);
}

#[test]
fn lookup_of_missing_label_fails() {
    let reg = Registry::new();
    assert_eq!(
        reg.get_buffer(&String::from("nowhere")).unwrap_err(),
        ConfigError::LabelNotFound
    );
}

#[test]
fn lookup_finds_by_label_not_order() {
    let mut reg = Registry::new();
    reg.create_buffer(&String::from("a"), 4, storage_usage()).unwrap();
    reg.create_buffer(&String::from("b"), 8, storage_usage()).unwrap();
    let h = reg.get_buffer(&String::from("b")).unwrap();
    assert_eq!(reg.buffers[h.index].1.size, 8);
}

#[test]
fn image_view_range_is_checked() {
    let mut reg = Registry::new();
    reg.create_image(
        &String::from("img"),
        64,
        64,
        3,
        ImageFormat::Gray16,
        plain_image_usage(),
    )
    .unwrap();
    let bad = reg.create_image_view(&String::from("v"), &String::from("img"), 2, 2);
    assert_eq!(bad.unwrap_err(), ConfigError::SizeMismatch);
    let missing = reg.create_image_view(&String::from("v"), &String::from("ghost"), 0, 1);
    assert_eq!(missing.unwrap_err(), ConfigError::LabelNotFound);
    let ok = reg.create_image_view(&String::from("v"), &String::from("img"), 2, 1);
    assert!(ok.is_ok());
}

#[test]
fn binding_builder_derives_uniform_from_usage_flags() {
    // A buffer created with the uniform flag binds as a uniform block even
    // when the item declares it as storage: the stored usage flags win.
    let mut reg = Registry::new();
    reg.create_buffer(&String::from("params"), 16, uniform_usage()).unwrap();
    reg.create_buffer(&String::from("table"), 64, storage_usage()).unwrap();
    let items = vec![
        BindingItem::StorageBuffer { label: String::from("params"), min_size: 16, read_only: false },
        BindingItem::StorageBuffer { label: String::from("table"), min_size: 4, read_only: true },
    ];
    let h = build_binding_set(&mut reg, &String::from("set"), &items).unwrap();
    let set = &reg.binding_sets[h.index].1;
    let layout = &reg.layouts[set.layout].1;
    assert_eq!(layout.entries.len(), set.entries.len());
    assert_eq!(layout.entries.len(), 2);
    assert_eq!(layout.entries[0].slot, 0);
    assert_eq!(layout.entries[1].slot, 1);
    assert_eq!(layout.entries[0].binding_type, BindingType::Uniform);
    assert_eq!(layout.entries[1].binding_type, BindingType::Storage { read_only: true });
    // The layout is registered under the derived label.
    assert_eq!(reg.layouts[set.layout].0, String::from("set_layout"));
}

#[test]
fn binding_builder_checks_min_size_at_build_time() {
    let mut reg = Registry::new();
    reg.create_buffer(&String::from("small"), 8, storage_usage()).unwrap();
    let items = vec![
        BindingItem::StorageBuffer { label: String::from("small"), min_size: 16, read_only: true },
    ];
    let r = build_binding_set(&mut reg, &String::from("set"), &items);
    assert_eq!(r.unwrap_err(), ConfigError::SizeMismatch);
    assert_eq!(reg.binding_sets.len(), 0);
    assert_eq!(reg.layouts.len(), 0);
}

#[test]
fn binding_builder_rejects_unregistered_label() {
    let mut reg = Registry::new();
    let items = vec![
        BindingItem::StorageBuffer { label: String::from("ghost"), min_size: 4, read_only: true },
    ];
    let r = build_binding_set(&mut reg, &String::from("set"), &items);
    assert_eq!(r.unwrap_err(), ConfigError::LabelNotFound);
}

#[test]
fn pipeline_builder_checks_entry_points() {
    let mut reg = Registry::new();
    reg.load_program(&String::from("prog"), vec![String::from("main")]).unwrap();
    reg.create_buffer(&String::from("buf"), 16, storage_usage()).unwrap();
    let items = vec![
        BindingItem::StorageBuffer { label: String::from("buf"), min_size: 4, read_only: false },
    ];
    build_binding_set(&mut reg, &String::from("set"), &items).unwrap();
    let missing_entry = build_compute_pipeline(
        &mut reg,
        &String::from("pipe"),
        &String::from("prog"),
        &String::from("other"),
        &vec![String::from("set")],
        0,
    );
    assert_eq!(missing_entry.unwrap_err(), ConfigError::LabelNotFound);
    let ok = build_compute_pipeline(
        &mut reg,
        &String::from("pipe"),
        &String::from("prog"),
        &String::from("main"),
        &vec![String::from("set")],
        4,
    );
    let h = ok.unwrap();
    let pd = &reg.pipelines[h.index].1;
    assert_eq!(pd.binding_sets.len(), 1);
    assert_eq!(pd.binding_sets[0], 0);
    assert_eq!(pd.param_block_size, 4);
    let dup = build_compute_pipeline(
        &mut reg,
        &String::from("pipe"),
        &String::from("prog"),
        &String::from("main"),
        &vec![String::from("set")],
        4,
    );
    assert_eq!(dup.unwrap_err(), ConfigError::DuplicateLabel);
}

#[test]
fn draw_pipeline_records_both_entries_and_targets() {
    let mut reg = Registry::new();
    reg.load_program(
        &String::from("prog"),
        vec![String::from("vs"), String::from("fs")],
    )
    .unwrap();
    reg.create_sampler(&String::from("smp"), FilterMode::Linear).unwrap();
    let items = vec![BindingItem::Sampler { label: String::from("smp") }];
    build_binding_set(&mut reg, &String::from("set"), &items).unwrap();
    let h = build_draw_pipeline(
        &mut reg,
        &String::from("pipe"),
        &String::from("prog"),
        &String::from("vs"),
        &String::from("fs"),
        &vec![String::from("set")],
        vec![ImageFormat::Gray16],
        false,
    )
    .unwrap();
    let pd = &reg.pipelines[h.index].1;
    assert_eq!(pd.entry_point, String::from("vs"));
    assert_eq!(pd.fragment_entry, Some(String::from("fs")));
    assert_eq!(pd.color_targets, vec![ImageFormat::Gray16]);
}

#[test]
fn staging_pair_couples_two_buffers() {
    let mut reg = Registry::new();
    let (storage, staging) = reg
        .create_staging_pair(&String::from("counter"), &String::from("counter_staging"), 4)
        .unwrap();
    assert_eq!(reg.buffers[storage.index].1.size, 4);
    assert_eq!(reg.buffers[staging.index].1.size, 4);
    assert!(reg.buffers[storage.index].1.usage.storage);
    assert!(reg.buffers[staging.index].1.usage.map_read);
    let dup = reg.create_staging_pair(&String::from("counter"), &String::from("x"), 4);
    assert_eq!(dup.unwrap_err(), ConfigError::DuplicateLabel);
}

#[test]
fn buffer_writes_are_bounds_checked() {
    let mut reg = Registry::new();
    reg.create_buffer(&String::from("table"), 64, storage_usage()).unwrap();
    assert!(reg.write_buffer(&String::from("table"), 0, 64).is_ok());
    assert!(reg.write_buffer(&String::from("table"), 60, 4).is_ok());
    assert_eq!(
        reg.write_buffer(&String::from("table"), 60, 5).unwrap_err(),
        ConfigError::SizeMismatch
    );
    assert_eq!(
        reg.write_buffer(&String::from("table"), 65, 0).unwrap_err(),
        ConfigError::SizeMismatch
    );
    assert_eq!(
        reg.write_buffer(&String::from("ghost"), 0, 1).unwrap_err(),
        ConfigError::LabelNotFound
    );
}

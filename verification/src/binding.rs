//! The binding-set builder.
//!
//! Given an ordered list of abstract binding descriptors, the builder
//! synthesizes a layout and a concrete binding set, assigning slot index =
//! position in the list, deriving each buffer's binding type from the usage
//! flags the buffer was created with (uniform flag present means a uniform
//! binding, otherwise storage with the declared read-only access), and
//! registers both under the given label (the layout under a derived label).
//! The layout's entry list and the set's entry list always have the same
//! length and the same slot ordering.

use vstd::prelude::*;

use crate::binding_types::{
    BindingEntry, BindingItem, BindingSetDesc, BindingType, LayoutDesc, LayoutEntry,
};
use crate::error::ConfigError;
use crate::registry::{
    find_label, has_label, insert_label, label_index, lemma_label_index_unique, Registry,
};
use crate::resources::BindingSetHandle;

verus! {

/// The label a binding set's synthesized layout is registered under.
pub open spec fn layout_label_of(label: Seq<char>) -> Seq<char> {
    label + "_layout"@
}

/// Whether the resource an item references is registered under the kind the
/// item expects.
pub open spec fn item_found(reg: Registry, item: BindingItem) -> bool {
    match item {
        BindingItem::StorageBuffer { label, .. } => has_label(reg.buffers@, label@),
        BindingItem::UniformBuffer { label, .. } => has_label(reg.buffers@, label@),
        BindingItem::SampledImage { label } => has_label(reg.images@, label@),
        BindingItem::Sampler { label } => has_label(reg.samplers@, label@),
        BindingItem::ImageView { label } => has_label(reg.image_views@, label@),
        BindingItem::StorageImage { label } => has_label(reg.images@, label@),
    }
}

/// Whether a buffer item's buffer is at least as large as the declared
/// minimum binding size (vacuously true for non-buffer items).
pub open spec fn item_size_ok(reg: Registry, item: BindingItem) -> bool {
    match item {
        BindingItem::StorageBuffer { label, min_size, .. } => reg.buffer(label@).size >= min_size,
        BindingItem::UniformBuffer { label, min_size } => reg.buffer(label@).size >= min_size,
        _ => true,
    }
}

/// The registered resource an item resolves to (meaningful when
/// `item_found` holds).
pub open spec fn item_resource(reg: Registry, item: BindingItem) -> crate::binding_types::BoundResource {
    match item {
        BindingItem::StorageBuffer { label, .. } => crate::binding_types::BoundResource::Buffer {
            index: label_index(reg.buffers@, label@) as usize,
        },
        BindingItem::UniformBuffer { label, .. } => crate::binding_types::BoundResource::Buffer {
            index: label_index(reg.buffers@, label@) as usize,
        },
        BindingItem::SampledImage { label } => crate::binding_types::BoundResource::Image {
            index: label_index(reg.images@, label@) as usize,
        },
        BindingItem::Sampler { label } => crate::binding_types::BoundResource::Sampler {
            index: label_index(reg.samplers@, label@) as usize,
        },
        BindingItem::ImageView { label } => crate::binding_types::BoundResource::View {
            index: label_index(reg.image_views@, label@) as usize,
        },
        BindingItem::StorageImage { label } => crate::binding_types::BoundResource::Image {
            index: label_index(reg.images@, label@) as usize,
        },
    }
}

/// The binding type derived for an item: a buffer's stored uniform flag wins
/// over the item's declaration; a uniform declaration over a plain storage
/// buffer binds it storage read-only.
pub open spec fn derived_type(reg: Registry, item: BindingItem) -> BindingType {
    match item {
        BindingItem::StorageBuffer { label, read_only, .. } => if reg.buffer(
            label@,
        ).usage.uniform {
            BindingType::Uniform
        } else {
            BindingType::Storage { read_only }
        },
        BindingItem::UniformBuffer { label, .. } => if reg.buffer(label@).usage.uniform {
            BindingType::Uniform
        } else {
            BindingType::Storage { read_only: true }
        },
        BindingItem::SampledImage { .. } => BindingType::SampledImage,
        BindingItem::Sampler { .. } => BindingType::Sampler,
        BindingItem::ImageView { .. } => BindingType::ImageView,
        BindingItem::StorageImage { .. } => BindingType::StorageImage,
    }
}

/// Builds the layout and the concrete binding set for `items`, in order, and
/// registers both. On success the set and its layout have one entry per
/// item, slots contiguous from 0 in item order, each set entry pointing at
/// the item's registered resource and each layout entry carrying the derived
/// binding type. Fails with `LabelNotFound` exactly when some item
/// references an unregistered label, else with `SizeMismatch` exactly when
/// some buffer is smaller than its declared minimum size, else with
/// `DuplicateLabel` exactly when the set label or the derived layout label
/// is already taken; a failure leaves the registry unchanged.
pub fn build_binding_set(reg: &mut Registry, label: &String, items: &Vec<BindingItem>) -> (r:
    Result<BindingSetHandle, ConfigError>)
    requires
        old(reg).wf(),
    ensures
        final(reg).wf(),
        final(reg).buffers@ == old(reg).buffers@,
        final(reg).images@ == old(reg).images@,
        final(reg).image_views@ == old(reg).image_views@,
        final(reg).samplers@ == old(reg).samplers@,
        final(reg).programs@ == old(reg).programs@,
        final(reg).pipelines@ == old(reg).pipelines@,
        match r {
            Ok(h) => {
                let bs = final(reg).binding_sets@[h.index as int].1;
                let lay = final(reg).layouts@[bs.layout as int].1;
                &&& (forall|k: int|
                    0 <= k < items@.len() ==> item_found(*old(reg), #[trigger] items@[k])
                        && item_size_ok(*old(reg), items@[k]))
                &&& !old(reg).has_binding_set(label@)
                &&& !old(reg).has_layout(layout_label_of(label@))
                &&& h.index == old(reg).binding_sets@.len()
                &&& final(reg).binding_sets@.len() == old(reg).binding_sets@.len() + 1
                &&& (forall|j: int|
                    0 <= j < old(reg).binding_sets@.len() ==> final(reg).binding_sets@[j] == old(
                        reg,
                    ).binding_sets@[j])
                &&& final(reg).binding_sets@[h.index as int].0@ == label@
                &&& final(reg).layouts@.len() == old(reg).layouts@.len() + 1
                &&& (forall|j: int|
                    0 <= j < old(reg).layouts@.len() ==> final(reg).layouts@[j] == old(
                        reg,
                    ).layouts@[j])
                &&& bs.layout == old(reg).layouts@.len()
                &&& final(reg).layouts@[bs.layout as int].0@ == layout_label_of(label@)
                &&& bs.entries@.len() == items@.len()
                &&& lay.entries@.len() == items@.len()
                &&& (forall|k: int|
                    0 <= k < items@.len() ==> (#[trigger] bs.entries@[k]).slot == k
                        && bs.entries@[k].resource == item_resource(*old(reg), items@[k]))
                &&& (forall|k: int|
                    0 <= k < items@.len() ==> (#[trigger] lay.entries@[k]).slot == k
                        && lay.entries@[k].binding_type == derived_type(*old(reg), items@[k]))
            },
            Err(e) => {
                &&& final(reg).binding_sets@ == old(reg).binding_sets@
                &&& final(reg).layouts@ == old(reg).layouts@
                &&& (e == ConfigError::LabelNotFound || e == ConfigError::SizeMismatch || e
                    == ConfigError::DuplicateLabel)
                &&& (e == ConfigError::LabelNotFound <==> exists|k: int|
                    0 <= k < items@.len() && !item_found(*old(reg), #[trigger] items@[k]))
                &&& (e == ConfigError::SizeMismatch <==> (forall|k: int|
                    0 <= k < items@.len() ==> item_found(*old(reg), #[trigger] items@[k]))
                    && exists|k: int|
                    0 <= k < items@.len() && !item_size_ok(*old(reg), #[trigger] items@[k]))
                &&& (e == ConfigError::DuplicateLabel <==> (forall|k: int|
                    0 <= k < items@.len() ==> item_found(*old(reg), #[trigger] items@[k])
                        && item_size_ok(*old(reg), items@[k])) && (old(reg).has_binding_set(label@)
                    || old(reg).has_layout(layout_label_of(label@))))
            },
        },
{
    let n = items.len();
    let mut resolved: Vec<crate::binding_types::BoundResource> = Vec::new();
    let mut btypes: Vec<BindingType> = Vec::new();

    // Resolve every referenced label and derive every binding type.
    let mut k: usize = 0;
    while k < n
        invariant
            *reg == *old(reg),
            (*reg).wf(),
            n == items@.len(),
            k <= n,
            resolved@.len() == k,
            btypes@.len() == k,
            forall|j: int|
                0 <= j < k ==> item_found(*reg, #[trigger] items@[j]) && resolved@[j]
                    == item_resource(*reg, items@[j]) && btypes@[j] == derived_type(
                    *reg,
                    items@[j],
                ),
        decreases n - k,
    {
        match &items[k] {
            BindingItem::StorageBuffer { label, read_only, .. } => {
                match find_label(&reg.buffers, label) {
                    Some(i) => {
                        proof {
                            lemma_label_index_unique(reg.buffers@, label@, i as int);
                        }
                        resolved.push(crate::binding_types::BoundResource::Buffer { index: i });
                        if reg.buffers[i].1.usage.uniform {
                            btypes.push(BindingType::Uniform);
                        } else {
                            btypes.push(BindingType::Storage { read_only: *read_only });
                        }
                    },
                    None => {
                        return Err(ConfigError::LabelNotFound);
                    },
                }
            },
            BindingItem::UniformBuffer { label, .. } => {
                match find_label(&reg.buffers, label) {
                    Some(i) => {
                        proof {
                            lemma_label_index_unique(reg.buffers@, label@, i as int);
                        }
                        resolved.push(crate::binding_types::BoundResource::Buffer { index: i });
                        if reg.buffers[i].1.usage.uniform {
                            btypes.push(BindingType::Uniform);
                        } else {
                            btypes.push(BindingType::Storage { read_only: true });
                        }
                    },
                    None => {
                        return Err(ConfigError::LabelNotFound);
                    },
                }
            },
            BindingItem::SampledImage { label } => {
                match find_label(&reg.images, label) {
                    Some(i) => {
                        proof {
                            lemma_label_index_unique(reg.images@, label@, i as int);
                        }
                        resolved.push(crate::binding_types::BoundResource::Image { index: i });
                        btypes.push(BindingType::SampledImage);
                    },
                    None => {
                        return Err(ConfigError::LabelNotFound);
                    },
                }
            },
            BindingItem::Sampler { label } => {
                match find_label(&reg.samplers, label) {
                    Some(i) => {
                        proof {
                            lemma_label_index_unique(reg.samplers@, label@, i as int);
                        }
                        resolved.push(crate::binding_types::BoundResource::Sampler { index: i });
                        btypes.push(BindingType::Sampler);
                    },
                    None => {
                        return Err(ConfigError::LabelNotFound);
                    },
                }
            },
            BindingItem::ImageView { label } => {
                match find_label(&reg.image_views, label) {
                    Some(i) => {
                        proof {
                            lemma_label_index_unique(reg.image_views@, label@, i as int);
                        }
                        resolved.push(crate::binding_types::BoundResource::View { index: i });
                        btypes.push(BindingType::ImageView);
                    },
                    None => {
                        return Err(ConfigError::LabelNotFound);
                    },
                }
            },
            BindingItem::StorageImage { label } => {
                match find_label(&reg.images, label) {
                    Some(i) => {
                        proof {
                            lemma_label_index_unique(reg.images@, label@, i as int);
                        }
                        resolved.push(crate::binding_types::BoundResource::Image { index: i });
                        btypes.push(BindingType::StorageImage);
                    },
                    None => {
                        return Err(ConfigError::LabelNotFound);
                    },
                }
            },
        }
        k = k + 1;
    }

    // Check every buffer item against its declared minimum size. This is a
    // configuration error caught at build time, not at dispatch time.
    let mut k: usize = 0;
    while k < n
        invariant
            *reg == *old(reg),
            (*reg).wf(),
            n == items@.len(),
            k <= n,
            forall|j: int| 0 <= j < n ==> item_found(*reg, #[trigger] items@[j]),
            forall|j: int| 0 <= j < k ==> item_size_ok(*reg, #[trigger] items@[j]),
        decreases n - k,
    {
        match &items[k] {
            BindingItem::StorageBuffer { label, min_size, .. } => {
                match find_label(&reg.buffers, label) {
                    Some(i) => {
                        proof {
                            lemma_label_index_unique(reg.buffers@, label@, i as int);
                        }
                        if reg.buffers[i].1.size < *min_size {
                            return Err(ConfigError::SizeMismatch);
                        }
                    },
                    None => {
                        return Err(ConfigError::LabelNotFound);
                    },
                }
            },
            BindingItem::UniformBuffer { label, min_size } => {
                match find_label(&reg.buffers, label) {
                    Some(i) => {
                        proof {
                            lemma_label_index_unique(reg.buffers@, label@, i as int);
                        }
                        if reg.buffers[i].1.size < *min_size {
                            return Err(ConfigError::SizeMismatch);
                        }
                    },
                    None => {
                        return Err(ConfigError::LabelNotFound);
                    },
                }
            },
            _ => {},
        }
        k = k + 1;
    }

    // Both registration labels must be fresh.
    let layout_label = label.clone().concat("_layout");
    if let Some(_) = find_label(&reg.binding_sets, label) {
        return Err(ConfigError::DuplicateLabel);
    }
    if let Some(_) = find_label(&reg.layouts, &layout_label) {
        return Err(ConfigError::DuplicateLabel);
    }

    // Synthesize the two entry lists, slot index = position in `items`.
    let mut lentries: Vec<LayoutEntry> = Vec::new();
    let mut bentries: Vec<BindingEntry> = Vec::new();
    let mut k: usize = 0;
    while k < n
        invariant
            *reg == *old(reg),
            (*reg).wf(),
            n == items@.len(),
            k <= n,
            resolved@.len() == n,
            btypes@.len() == n,
            lentries@.len() == k,
            bentries@.len() == k,
            forall|j: int|
                0 <= j < n ==> item_found(*reg, #[trigger] items@[j]) && resolved@[j]
                    == item_resource(*reg, items@[j]) && btypes@[j] == derived_type(
                    *reg,
                    items@[j],
                ),
            forall|j: int|
                0 <= j < k ==> (#[trigger] lentries@[j]) == (LayoutEntry {
                    slot: j as usize,
                    binding_type: btypes@[j],
                }),
            forall|j: int|
                0 <= j < k ==> (#[trigger] bentries@[j]) == (BindingEntry {
                    slot: j as usize,
                    resource: resolved@[j],
                }),
        decreases n - k,
    {
        lentries.push(LayoutEntry { slot: k, binding_type: btypes[k] });
        bentries.push(BindingEntry { slot: k, resource: resolved[k] });
        k = k + 1;
    }

    let ghost reg0 = *reg;
    let layout_index = match insert_label(
        &mut reg.layouts,
        &layout_label,
        LayoutDesc { entries: lentries },
    ) {
        Ok(i) => i,
        Err(e) => {
            return Err(e);
        },
    };
    proof {
        assert forall|i: int|
            0 <= i < reg.binding_sets@.len() implies reg.binding_set_valid(
            (#[trigger] reg.binding_sets@[i]).1,
        ) by {
            assert(reg0.binding_set_valid(reg0.binding_sets@[i].1));
        }
        assert(reg.wf());
    }
    let ghost reg1 = *reg;
    let r = insert_label(
        &mut reg.binding_sets,
        label,
        BindingSetDesc { layout: layout_index, entries: bentries },
    );
    match r {
        Ok(i) => {
            proof {
                let bs = reg.binding_sets@[i as int].1;
                assert(reg.binding_set_valid(bs)) by {
                    assert forall|k2: int|
                        0 <= k2 < bs.entries@.len() implies reg.resource_in_range(
                        bs.entries@[k2].resource,
                    ) by {
                        assert(bs.entries@[k2].resource == item_resource(reg0, items@[k2]));
                    }
                }
                assert forall|j: int|
                    0 <= j < reg.binding_sets@.len() implies reg.binding_set_valid(
                    (#[trigger] reg.binding_sets@[j]).1,
                ) by {
                    if j < reg1.binding_sets@.len() {
                        assert(reg1.binding_set_valid(reg1.binding_sets@[j].1));
                    }
                }
                assert(reg.wf());
            }
            Ok(BindingSetHandle { index: i })
        },
        Err(e) => Err(e),
    }
}

} // verus!

//! The resource registry: a catalogue mapping string labels to typed device
//! resources.
//!
//! Labels are unique per kind; lookup is by label only and insertion order is
//! irrelevant to callers. The registry exclusively owns every resource it
//! catalogues: creation helpers hand out typed handles (indices), never
//! ownership. A failed creation call never inserts a partial entry.

use vstd::prelude::*;

use crate::binding_types::{BindingSetDesc, BoundResource, LayoutDesc, PipelineDesc};
use crate::error::ConfigError;
use crate::resources::{
    BindingSetHandle, BufferDesc, BufferHandle, BufferUsage, FilterMode, ImageDesc, ImageFormat,
    ImageHandle, ImageUsage, ImageViewDesc, ImageViewHandle, PipelineHandle, ProgramDesc,
    ProgramHandle, SamplerDesc, SamplerHandle,
};

verus! {

/// A label is registered in `s` when some entry carries it.
pub open spec fn has_label<T>(s: Seq<(String, T)>, name: Seq<char>) -> bool {
    exists|i: int| 0 <= i < s.len() && s[i].0@ == name
}

/// All labels in `s` are pairwise distinct.
pub open spec fn distinct_labels<T>(s: Seq<(String, T)>) -> bool {
    forall|i: int, j: int| 0 <= i < j < s.len() ==> s[i].0@ != s[j].0@
}

/// Index of the entry labelled `name` (meaningful when `has_label` holds).
pub open spec fn label_index<T>(s: Seq<(String, T)>, name: Seq<char>) -> int {
    choose|i: int| 0 <= i < s.len() && s[i].0@ == name
}

/// Value stored under `name` (meaningful when `has_label` holds).
pub open spec fn label_value<T>(s: Seq<(String, T)>, name: Seq<char>) -> T {
    s[label_index(s, name)].1
}

/// Under distinct labels, an entry that carries `name` is the entry
/// `label_index` picks, so lookup by label is unambiguous.
pub proof fn lemma_label_index_unique<T>(s: Seq<(String, T)>, name: Seq<char>, i: int)
    requires
        distinct_labels(s),
        0 <= i < s.len(),
        s[i].0@ == name,
    ensures
        label_index(s, name) == i,
        label_value(s, name) == s[i].1,
{
    let j = label_index(s, name);
    assert(0 <= j < s.len() && s[j].0@ == name);
    if i < j {
        assert(s[i].0@ != s[j].0@);
    } else if j < i {
        assert(s[j].0@ != s[i].0@);
    }
}

/// Linear scan for `name`; `None` exactly when no entry carries it.
pub(crate) fn find_label<T>(v: &Vec<(String, T)>, name: &String) -> (r: Option<usize>)
    ensures
        match r {
            Some(i) => i < v@.len() && v@[i as int].0@ == name@,
            None => !has_label(v@, name@),
        },
{
    let mut i: usize = 0;
    while i < v.len()
        invariant
            i <= v@.len(),
            forall|j: int| 0 <= j < i ==> v@[j].0@ != name@,
        decreases v@.len() - i,
    {
        if v[i].0 == *name {
            return Some(i);
        }
        i = i + 1;
    }
    None
}

/// Appends an entry under a fresh label; rejects a duplicate label without
/// touching the catalogue.
pub(crate) fn insert_label<T>(v: &mut Vec<(String, T)>, name: &String, value: T) -> (r: Result<
    usize,
    ConfigError,
>)
    requires
        distinct_labels(old(v)@),
    ensures
        distinct_labels(final(v)@),
        match r {
            Ok(i) => {
                &&& !has_label(old(v)@, name@)
                &&& i == old(v)@.len()
                &&& final(v)@.len() == old(v)@.len() + 1
                &&& (forall|j: int| 0 <= j < old(v)@.len() ==> final(v)@[j] == old(v)@[j])
                &&& final(v)@[i as int].0@ == name@
                &&& final(v)@[i as int].1 == value
            },
            Err(e) => {
                &&& e == ConfigError::DuplicateLabel
                &&& has_label(old(v)@, name@)
                &&& final(v)@ == old(v)@
            },
        },
{
    match find_label(v, name) {
        Some(_) => Err(ConfigError::DuplicateLabel),
        None => {
            let i = v.len();
            v.push((name.clone(), value));
            proof {
                assert forall|p: int, q: int| 0 <= p < q < v@.len() implies v@[p].0@
                    != v@[q].0@ by {
                    if q == old(v)@.len() {
                        assert(v@[p] == old(v)@[p]);
                        if v@[p].0@ == name@ {
                            assert(has_label(old(v)@, name@));
                        }
                    }
                }
            }
            Ok(i)
        },
    }
}

/// The process-wide catalogue of device resources for one pipeline instance.
/// Created once during pipeline construction; resources are mutated in place
/// only by device-side writes and torn down with the registry.
#[derive(Debug)]
pub struct Registry {
    pub buffers: Vec<(String, BufferDesc)>,
    pub images: Vec<(String, ImageDesc)>,
    pub image_views: Vec<(String, ImageViewDesc)>,
    pub samplers: Vec<(String, SamplerDesc)>,
    pub programs: Vec<(String, ProgramDesc)>,
    pub layouts: Vec<(String, LayoutDesc)>,
    pub binding_sets: Vec<(String, BindingSetDesc)>,
    pub pipelines: Vec<(String, PipelineDesc)>,
}

impl Registry {
    /// A binding-set slot points at a resource the registry really holds.
    pub open spec fn resource_in_range(self, r: BoundResource) -> bool {
        match r {
            BoundResource::Buffer { index } => index < self.buffers@.len(),
            BoundResource::Image { index } => index < self.images@.len(),
            BoundResource::View { index } => index < self.image_views@.len(),
            BoundResource::Sampler { index } => index < self.samplers@.len(),
        }
    }

    /// The central binding invariant: a binding set's entry list and its
    /// layout's entry list have the same length and the same contiguous slot
    /// ordering, and every referenced resource is catalogued.
    pub open spec fn binding_set_valid(self, bs: BindingSetDesc) -> bool {
        &&& bs.layout < self.layouts@.len()
        &&& bs.entries@.len() == self.layouts@[bs.layout as int].1.entries@.len()
        &&& (forall|k: int|
            0 <= k < bs.entries@.len() ==> (#[trigger] bs.entries@[k]).slot == k)
        &&& (forall|k: int|
            0 <= k < bs.entries@.len() ==> self.resource_in_range(bs.entries@[k].resource))
    }

    /// A layout's slots are contiguous from 0 in declaration order.
    pub open spec fn layout_valid(self, l: LayoutDesc) -> bool {
        forall|k: int| 0 <= k < l.entries@.len() ==> (#[trigger] l.entries@[k]).slot == k
    }

    /// A pipeline references a catalogued program and catalogued binding
    /// sets.
    pub open spec fn pipeline_valid(self, p: PipelineDesc) -> bool {
        &&& p.program < self.programs@.len()
        &&& (forall|k: int|
            0 <= k < p.binding_sets@.len() ==> (#[trigger] p.binding_sets@[k])
                < self.binding_sets@.len())
    }

    /// Registry well-formedness: labels unique per kind, every view over a
    /// catalogued image with an in-range level run, every binding set and
    /// pipeline internally consistent.
    pub open spec fn wf(self) -> bool {
        &&& distinct_labels(self.buffers@)
        &&& distinct_labels(self.images@)
        &&& distinct_labels(self.image_views@)
        &&& distinct_labels(self.samplers@)
        &&& distinct_labels(self.programs@)
        &&& distinct_labels(self.layouts@)
        &&& distinct_labels(self.binding_sets@)
        &&& distinct_labels(self.pipelines@)
        &&& (forall|i: int|
            0 <= i < self.image_views@.len() ==> {
                let vd = (#[trigger] self.image_views@[i]).1;
                &&& vd.image < self.images@.len()
                &&& vd.base_level + vd.level_count <= self.images@[vd.image as int].1.mip_levels
                &&& vd.level_count >= 1
            })
        &&& (forall|i: int|
            0 <= i < self.binding_sets@.len() ==> self.binding_set_valid(
                (#[trigger] self.binding_sets@[i]).1,
            ))
        &&& (forall|i: int|
            0 <= i < self.layouts@.len() ==> self.layout_valid(
                (#[trigger] self.layouts@[i]).1,
            ))
        &&& (forall|i: int|
            0 <= i < self.pipelines@.len() ==> self.pipeline_valid(
                (#[trigger] self.pipelines@[i]).1,
            ))
    }

    /// Whether a buffer is registered under `name`.
    pub open spec fn has_buffer(self, name: Seq<char>) -> bool {
        has_label(self.buffers@, name)
    }

    /// The buffer registered under `name`.
    pub open spec fn buffer(self, name: Seq<char>) -> BufferDesc {
        label_value(self.buffers@, name)
    }

    /// Whether an image is registered under `name`.
    pub open spec fn has_image(self, name: Seq<char>) -> bool {
        has_label(self.images@, name)
    }

    /// The image registered under `name`.
    pub open spec fn image(self, name: Seq<char>) -> ImageDesc {
        label_value(self.images@, name)
    }

    /// Whether an image view is registered under `name`.
    pub open spec fn has_image_view(self, name: Seq<char>) -> bool {
        has_label(self.image_views@, name)
    }

    /// The image view registered under `name`.
    pub open spec fn image_view(self, name: Seq<char>) -> ImageViewDesc {
        label_value(self.image_views@, name)
    }

    /// Whether a sampler is registered under `name`.
    pub open spec fn has_sampler(self, name: Seq<char>) -> bool {
        has_label(self.samplers@, name)
    }

    /// Whether a program is registered under `name`.
    pub open spec fn has_program(self, name: Seq<char>) -> bool {
        has_label(self.programs@, name)
    }

    /// The program registered under `name`.
    pub open spec fn program(self, name: Seq<char>) -> ProgramDesc {
        label_value(self.programs@, name)
    }

    /// Whether a binding-set layout is registered under `name`.
    pub open spec fn has_layout(self, name: Seq<char>) -> bool {
        has_label(self.layouts@, name)
    }

    /// Whether a binding set is registered under `name`.
    pub open spec fn has_binding_set(self, name: Seq<char>) -> bool {
        has_label(self.binding_sets@, name)
    }

    /// The binding set registered under `name`.
    pub open spec fn binding_set(self, name: Seq<char>) -> BindingSetDesc {
        label_value(self.binding_sets@, name)
    }

    /// Whether a pipeline is registered under `name`.
    pub open spec fn has_pipeline(self, name: Seq<char>) -> bool {
        has_label(self.pipelines@, name)
    }

    /// The pipeline registered under `name`.
    pub open spec fn pipeline(self, name: Seq<char>) -> PipelineDesc {
        label_value(self.pipelines@, name)
    }

    /// An empty catalogue.
    pub fn new() -> (r: Registry)
        ensures
            r.wf(),
            r.buffers@.len() == 0,
            r.images@.len() == 0,
            r.image_views@.len() == 0,
            r.samplers@.len() == 0,
            r.programs@.len() == 0,
            r.layouts@.len() == 0,
            r.binding_sets@.len() == 0,
            r.pipelines@.len() == 0,
    {
        Registry {
            buffers: Vec::new(),
            images: Vec::new(),
            image_views: Vec::new(),
            samplers: Vec::new(),
            programs: Vec::new(),
            layouts: Vec::new(),
            binding_sets: Vec::new(),
            pipelines: Vec::new(),
        }
    }

    /// Creates a buffer of `size` bytes with the given usage flags;
    /// allocation is immediate, not lazy. Fails with `DuplicateLabel` if a
    /// buffer named `label` already exists, leaving the registry unchanged.
    pub fn create_buffer(&mut self, label: &String, size: u64, usage: BufferUsage) -> (r: Result<
        BufferHandle,
        ConfigError,
    >)
        requires
            old(self).wf(),
        ensures
            final(self).wf(),
            final(self).images@ == old(self).images@,
            final(self).image_views@ == old(self).image_views@,
            final(self).samplers@ == old(self).samplers@,
            final(self).programs@ == old(self).programs@,
            final(self).layouts@ == old(self).layouts@,
            final(self).binding_sets@ == old(self).binding_sets@,
            final(self).pipelines@ == old(self).pipelines@,
            match r {
                Ok(h) => {
                    &&& !old(self).has_buffer(label@)
                    &&& h.index == old(self).buffers@.len()
                    &&& final(self).buffers@.len() == old(self).buffers@.len() + 1
                    &&& (forall|j: int|
                        0 <= j < old(self).buffers@.len() ==> final(self).buffers@[j] == old(
                            self,
                        ).buffers@[j])
                    &&& final(self).buffers@[h.index as int].0@ == label@
                    &&& final(self).buffers@[h.index as int].1 == (BufferDesc { size, usage })
                    &&& final(self).has_buffer(label@)
                    &&& final(self).buffer(label@) == (BufferDesc { size, usage })
                },
                Err(e) => {
                    &&& e == ConfigError::DuplicateLabel
                    &&& old(self).has_buffer(label@)
                    &&& final(self).buffers@ == old(self).buffers@
                },
            },
    {
        let r = insert_label(&mut self.buffers, label, BufferDesc { size, usage });
        match r {
            Ok(i) => {
                proof {
                    lemma_label_index_unique(self.buffers@, label@, i as int);
                }
                Ok(BufferHandle { index: i })
            },
            Err(e) => Err(e),
        }
    }

    /// Creates an image with the given dimensions, mip level count, format
    /// and usage. Fails with `DuplicateLabel` if an image named `label`
    /// already exists, leaving the registry unchanged.
    pub fn create_image(
        &mut self,
        label: &String,
        width: u32,
        height: u32,
        mip_levels: u32,
        format: ImageFormat,
        usage: ImageUsage,
    ) -> (r: Result<ImageHandle, ConfigError>)
        requires
            old(self).wf(),
        ensures
            final(self).wf(),
            final(self).buffers@ == old(self).buffers@,
            final(self).image_views@ == old(self).image_views@,
            final(self).samplers@ == old(self).samplers@,
            final(self).programs@ == old(self).programs@,
            final(self).layouts@ == old(self).layouts@,
            final(self).binding_sets@ == old(self).binding_sets@,
            final(self).pipelines@ == old(self).pipelines@,
            match r {
                Ok(h) => {
                    &&& !old(self).has_image(label@)
                    &&& h.index == old(self).images@.len()
                    &&& final(self).images@.len() == old(self).images@.len() + 1
                    &&& (forall|j: int|
                        0 <= j < old(self).images@.len() ==> final(self).images@[j] == old(
                            self,
                        ).images@[j])
                    &&& final(self).images@[h.index as int].0@ == label@
                    &&& final(self).images@[h.index as int].1 == (ImageDesc {
                        width,
                        height,
                        mip_levels,
                        format,
                        usage,
                    })
                    &&& final(self).has_image(label@)
                    &&& final(self).image(label@) == (ImageDesc { width, height, mip_levels, format, usage })
                },
                Err(e) => {
                    &&& e == ConfigError::DuplicateLabel
                    &&& old(self).has_image(label@)
                    &&& final(self).images@ == old(self).images@
                },
            },
    {
        let r = insert_label(
            &mut self.images,
            label,
            ImageDesc { width, height, mip_levels, format, usage },
        );
        match r {
            Ok(i) => {
                proof {
                    lemma_label_index_unique(self.images@, label@, i as int);
                }
                Ok(ImageHandle { index: i })
            },
            Err(e) => Err(e),
        }
    }

    /// Creates a view over `level_count` mip levels of the image registered
    /// under `image_label`, starting at `base_level`. Fails with
    /// `LabelNotFound` if no such image exists, with `SizeMismatch` if the
    /// level run is empty or falls outside the image, and with
    /// `DuplicateLabel` if a view named `label` already exists; a failure
    /// leaves the registry unchanged.
    pub fn create_image_view(
        &mut self,
        label: &String,
        image_label: &String,
        base_level: u32,
        level_count: u32,
    ) -> (r: Result<ImageViewHandle, ConfigError>)
        requires
            old(self).wf(),
        ensures
            final(self).wf(),
            final(self).buffers@ == old(self).buffers@,
            final(self).images@ == old(self).images@,
            final(self).samplers@ == old(self).samplers@,
            final(self).programs@ == old(self).programs@,
            final(self).layouts@ == old(self).layouts@,
            final(self).binding_sets@ == old(self).binding_sets@,
            final(self).pipelines@ == old(self).pipelines@,
            match r {
                Ok(h) => {
                    &&& old(self).has_image(image_label@)
                    &&& level_count >= 1
                    &&& base_level + level_count <= old(self).image(image_label@).mip_levels
                    &&& !old(self).has_image_view(label@)
                    &&& h.index == old(self).image_views@.len()
                    &&& final(self).image_views@.len() == old(self).image_views@.len() + 1
                    &&& (forall|j: int|
                        0 <= j < old(self).image_views@.len() ==> final(self).image_views@[j] == old(
                            self,
                        ).image_views@[j])
                    &&& final(self).image_views@[h.index as int].0@ == label@
                    &&& final(self).image_views@[h.index as int].1 == (ImageViewDesc {
                        image: label_index(old(self).images@, image_label@) as usize,
                        base_level,
                        level_count,
                    })
                    &&& final(self).has_image_view(label@)
                    &&& final(self).image_view(label@).base_level == base_level
                    &&& final(self).image_view(label@).level_count == level_count
                    &&& final(self).images@[final(self).image_view(label@).image as int].1 == old(self).image(
                        image_label@,
                    )
                },
                Err(e) => {
                    &&& final(self).image_views@ == old(self).image_views@
                    &&& (e == ConfigError::LabelNotFound || e == ConfigError::SizeMismatch || e
                        == ConfigError::DuplicateLabel)
                    &&& (e == ConfigError::LabelNotFound <==> !old(self).has_image(image_label@))
                    &&& (e == ConfigError::SizeMismatch <==> old(self).has_image(image_label@) && (
                    level_count < 1 || base_level + level_count > old(self).image(
                        image_label@,
                    ).mip_levels))
                    &&& (e == ConfigError::DuplicateLabel <==> old(self).has_image(image_label@)
                        && level_count >= 1 && base_level + level_count <= old(self).image(
                        image_label@,
                    ).mip_levels && old(self).has_image_view(label@))
                },
            },
    {
        let img = match find_label(&self.images, image_label) {
            Some(i) => i,
            None => {
                return Err(ConfigError::LabelNotFound);
            },
        };
        proof {
            lemma_label_index_unique(self.images@, image_label@, img as int);
        }
        let mips = self.images[img].1.mip_levels;
        if level_count < 1 || base_level > mips || level_count > mips - base_level {
            return Err(ConfigError::SizeMismatch);
        }
        let r = insert_label(
            &mut self.image_views,
            label,
            ImageViewDesc { image: img, base_level, level_count },
        );
        match r {
            Ok(i) => {
                proof {
                    lemma_label_index_unique(self.image_views@, label@, i as int);
                }
                Ok(ImageViewHandle { index: i })
            },
            Err(e) => Err(e),
        }
    }

    /// Creates a sampler with the given filter configuration. Fails with
    /// `DuplicateLabel` if a sampler named `label` already exists, leaving
    /// the registry unchanged.
    pub fn create_sampler(&mut self, label: &String, filter: FilterMode) -> (r: Result<
        SamplerHandle,
        ConfigError,
    >)
        requires
            old(self).wf(),
        ensures
            final(self).wf(),
            final(self).buffers@ == old(self).buffers@,
            final(self).images@ == old(self).images@,
            final(self).image_views@ == old(self).image_views@,
            final(self).programs@ == old(self).programs@,
            final(self).layouts@ == old(self).layouts@,
            final(self).binding_sets@ == old(self).binding_sets@,
            final(self).pipelines@ == old(self).pipelines@,
            match r {
                Ok(h) => {
                    &&& !old(self).has_sampler(label@)
                    &&& h.index == old(self).samplers@.len()
                    &&& final(self).samplers@.len() == old(self).samplers@.len() + 1
                    &&& (forall|j: int|
                        0 <= j < old(self).samplers@.len() ==> final(self).samplers@[j] == old(
                            self,
                        ).samplers@[j])
                    &&& final(self).samplers@[h.index as int].0@ == label@
                    &&& final(self).samplers@[h.index as int].1 == (SamplerDesc { filter })
                    &&& final(self).has_sampler(label@)
                },
                Err(e) => {
                    &&& e == ConfigError::DuplicateLabel
                    &&& old(self).has_sampler(label@)
                    &&& final(self).samplers@ == old(self).samplers@
                },
            },
    {
        let r = insert_label(&mut self.samplers, label, SamplerDesc { filter });
        match r {
            Ok(i) => Ok(SamplerHandle { index: i }),
            Err(e) => Err(e),
        }
    }

    /// Loads a program: an opaque source blob keyed by `label`, with the
    /// entry points it declares told out-of-band. Fails with
    /// `DuplicateLabel` if a program named `label` already exists, leaving
    /// the registry unchanged.
    pub fn load_program(&mut self, label: &String, entry_points: Vec<String>) -> (r: Result<
        ProgramHandle,
        ConfigError,
    >)
        requires
            old(self).wf(),
        ensures
            final(self).wf(),
            final(self).buffers@ == old(self).buffers@,
            final(self).images@ == old(self).images@,
            final(self).image_views@ == old(self).image_views@,
            final(self).samplers@ == old(self).samplers@,
            final(self).layouts@ == old(self).layouts@,
            final(self).binding_sets@ == old(self).binding_sets@,
            final(self).pipelines@ == old(self).pipelines@,
            match r {
                Ok(h) => {
                    &&& !old(self).has_program(label@)
                    &&& h.index == old(self).programs@.len()
                    &&& final(self).programs@.len() == old(self).programs@.len() + 1
                    &&& (forall|j: int|
                        0 <= j < old(self).programs@.len() ==> final(self).programs@[j] == old(
                            self,
                        ).programs@[j])
                    &&& final(self).programs@[h.index as int].0@ == label@
                    &&& final(self).programs@[h.index as int].1.entry_points@ == entry_points@
                    &&& final(self).has_program(label@)
                },
                Err(e) => {
                    &&& e == ConfigError::DuplicateLabel
                    &&& old(self).has_program(label@)
                    &&& final(self).programs@ == old(self).programs@
                },
            },
    {
        let r = insert_label(&mut self.programs, label, ProgramDesc { entry_points });
        match r {
            Ok(i) => Ok(ProgramHandle { index: i }),
            Err(e) => Err(e),
        }
    }

    /// Looks the buffer `label` up; never transfers ownership. Fails with
    /// `LabelNotFound` exactly when no buffer carries the label.
    pub fn get_buffer(&self, label: &String) -> (r: Result<BufferHandle, ConfigError>)
        requires
            self.wf(),
        ensures
            match r {
                Ok(h) => {
                    &&& self.has_buffer(label@)
                    &&& h.index < self.buffers@.len()
                    &&& h.index == label_index(self.buffers@, label@)
                    &&& self.buffers@[h.index as int].0@ == label@
                    &&& self.buffers@[h.index as int].1 == self.buffer(label@)
                },
                Err(e) => e == ConfigError::LabelNotFound && !self.has_buffer(label@),
            },
    {
        match find_label(&self.buffers, label) {
            Some(i) => {
                proof {
                    lemma_label_index_unique(self.buffers@, label@, i as int);
                }
                Ok(BufferHandle { index: i })
            },
            None => Err(ConfigError::LabelNotFound),
        }
    }

    /// Looks the image `label` up. Fails with `LabelNotFound` exactly when
    /// no image carries the label.
    pub fn get_image(&self, label: &String) -> (r: Result<ImageHandle, ConfigError>)
        requires
            self.wf(),
        ensures
            match r {
                Ok(h) => {
                    &&& self.has_image(label@)
                    &&& h.index < self.images@.len()
                    &&& h.index == label_index(self.images@, label@)
                    &&& self.images@[h.index as int].0@ == label@
                    &&& self.images@[h.index as int].1 == self.image(label@)
                },
                Err(e) => e == ConfigError::LabelNotFound && !self.has_image(label@),
            },
    {
        match find_label(&self.images, label) {
            Some(i) => {
                proof {
                    lemma_label_index_unique(self.images@, label@, i as int);
                }
                Ok(ImageHandle { index: i })
            },
            None => Err(ConfigError::LabelNotFound),
        }
    }

    /// Looks the image view `label` up. Fails with `LabelNotFound` exactly
    /// when no view carries the label.
    pub fn get_image_view(&self, label: &String) -> (r: Result<ImageViewHandle, ConfigError>)
        requires
            self.wf(),
        ensures
            match r {
                Ok(h) => {
                    &&& self.has_image_view(label@)
                    &&& h.index < self.image_views@.len()
                    &&& h.index == label_index(self.image_views@, label@)
                    &&& self.image_views@[h.index as int].0@ == label@
                    &&& self.image_views@[h.index as int].1 == self.image_view(label@)
                },
                Err(e) => e == ConfigError::LabelNotFound && !self.has_image_view(label@),
            },
    {
        match find_label(&self.image_views, label) {
            Some(i) => {
                proof {
                    lemma_label_index_unique(self.image_views@, label@, i as int);
                }
                Ok(ImageViewHandle { index: i })
            },
            None => Err(ConfigError::LabelNotFound),
        }
    }

    /// Looks the sampler `label` up. Fails with `LabelNotFound` exactly when
    /// no sampler carries the label.
    pub fn get_sampler(&self, label: &String) -> (r: Result<SamplerHandle, ConfigError>)
        requires
            self.wf(),
        ensures
            match r {
                Ok(h) => {
                    &&& self.has_sampler(label@)
                    &&& h.index < self.samplers@.len()
                    &&& self.samplers@[h.index as int].0@ == label@
                },
                Err(e) => e == ConfigError::LabelNotFound && !self.has_sampler(label@),
            },
    {
        match find_label(&self.samplers, label) {
            Some(i) => Ok(SamplerHandle { index: i }),
            None => Err(ConfigError::LabelNotFound),
        }
    }

    /// Looks the program `label` up. Fails with `LabelNotFound` exactly when
    /// no program carries the label.
    pub fn get_program(&self, label: &String) -> (r: Result<ProgramHandle, ConfigError>)
        requires
            self.wf(),
        ensures
            match r {
                Ok(h) => {
                    &&& self.has_program(label@)
                    &&& h.index < self.programs@.len()
                    &&& h.index == label_index(self.programs@, label@)
                    &&& self.programs@[h.index as int].0@ == label@
                },
                Err(e) => e == ConfigError::LabelNotFound && !self.has_program(label@),
            },
    {
        match find_label(&self.programs, label) {
            Some(i) => {
                proof {
                    lemma_label_index_unique(self.programs@, label@, i as int);
                }
                Ok(ProgramHandle { index: i })
            },
            None => Err(ConfigError::LabelNotFound),
        }
    }

    /// Looks the binding set `label` up. Fails with `LabelNotFound` exactly
    /// when no binding set carries the label.
    pub fn get_binding_set(&self, label: &String) -> (r: Result<BindingSetHandle, ConfigError>)
        requires
            self.wf(),
        ensures
            match r {
                Ok(h) => {
                    &&& self.has_binding_set(label@)
                    &&& h.index < self.binding_sets@.len()
                    &&& h.index == label_index(self.binding_sets@, label@)
                    &&& self.binding_sets@[h.index as int].0@ == label@
                },
                Err(e) => e == ConfigError::LabelNotFound && !self.has_binding_set(label@),
            },
    {
        match find_label(&self.binding_sets, label) {
            Some(i) => {
                proof {
                    lemma_label_index_unique(self.binding_sets@, label@, i as int);
                }
                Ok(BindingSetHandle { index: i })
            },
            None => Err(ConfigError::LabelNotFound),
        }
    }

    /// Looks the pipeline `label` up. Fails with `LabelNotFound` exactly
    /// when no pipeline carries the label.
    pub fn get_pipeline(&self, label: &String) -> (r: Result<PipelineHandle, ConfigError>)
        requires
            self.wf(),
        ensures
            match r {
                Ok(h) => {
                    &&& self.has_pipeline(label@)
                    &&& h.index < self.pipelines@.len()
                    &&& h.index == label_index(self.pipelines@, label@)
                    &&& self.pipelines@[h.index as int].0@ == label@
                },
                Err(e) => e == ConfigError::LabelNotFound && !self.has_pipeline(label@),
            },
    {
        match find_label(&self.pipelines, label) {
            Some(i) => {
                proof {
                    lemma_label_index_unique(self.pipelines@, label@, i as int);
                }
                Ok(PipelineHandle { index: i })
            },
            None => Err(ConfigError::LabelNotFound),
        }
    }
}

impl Registry {
    /// Creates a coupled pair of buffers for device-to-host readback: a
    /// device-local storage buffer and a host-mappable staging buffer of
    /// the same size, so a batch can copy the one into the other and the
    /// host can map the copy. Fails with `DuplicateLabel` exactly when
    /// either label is taken (or the two are equal), inserting nothing.
    pub fn create_staging_pair(
        &mut self,
        storage_label: &String,
        staging_label: &String,
        size: u64,
    ) -> (r: Result<(BufferHandle, BufferHandle), ConfigError>)
        requires
            old(self).wf(),
        ensures
            final(self).wf(),
            final(self).images@ == old(self).images@,
            final(self).image_views@ == old(self).image_views@,
            final(self).samplers@ == old(self).samplers@,
            final(self).programs@ == old(self).programs@,
            final(self).layouts@ == old(self).layouts@,
            final(self).binding_sets@ == old(self).binding_sets@,
            final(self).pipelines@ == old(self).pipelines@,
            r is Ok <==> !old(self).has_buffer(storage_label@) && !old(self).has_buffer(
                staging_label@,
            ) && storage_label@ != staging_label@,
            r matches Err(e) ==> e == ConfigError::DuplicateLabel && final(self).buffers@ == old(
                self,
            ).buffers@,
            r matches Ok(h) ==> {
                &&& h.0.index == old(self).buffers@.len()
                &&& h.1.index == old(self).buffers@.len() + 1
                &&& final(self).buffers@.len() == old(self).buffers@.len() + 2
                &&& (forall|j: int|
                    0 <= j < old(self).buffers@.len() ==> final(self).buffers@[j] == old(
                        self,
                    ).buffers@[j])
                &&& final(self).buffers@[h.0.index as int].0@ == storage_label@
                &&& final(self).buffers@[h.0.index as int].1 == (BufferDesc {
                    size,
                    usage: BufferUsage {
                        storage: true,
                        uniform: false,
                        copy_src: true,
                        copy_dst: true,
                        map_read: false,
                        map_write: false,
                        vertex: false,
                    },
                })
                &&& final(self).buffers@[h.1.index as int].0@ == staging_label@
                &&& final(self).buffers@[h.1.index as int].1 == (BufferDesc {
                    size,
                    usage: BufferUsage {
                        storage: false,
                        uniform: false,
                        copy_src: false,
                        copy_dst: true,
                        map_read: true,
                        map_write: false,
                        vertex: false,
                    },
                })
            },
    {
        if let Some(_) = find_label(&self.buffers, storage_label) {
            return Err(ConfigError::DuplicateLabel);
        }
        if let Some(_) = find_label(&self.buffers, staging_label) {
            return Err(ConfigError::DuplicateLabel);
        }
        if *storage_label == *staging_label {
            return Err(ConfigError::DuplicateLabel);
        }
        let a = match self.create_buffer(
            storage_label,
            size,
            BufferUsage {
                storage: true,
                uniform: false,
                copy_src: true,
                copy_dst: true,
                map_read: false,
                map_write: false,
                vertex: false,
            },
        ) {
            Ok(h) => h,
            Err(e) => {
                return Err(e);
            },
        };
        let b = match self.create_buffer(
            staging_label,
            size,
            BufferUsage {
                storage: false,
                uniform: false,
                copy_src: false,
                copy_dst: true,
                map_read: true,
                map_write: false,
                vertex: false,
            },
        ) {
            Ok(h) => h,
            Err(e) => {
                return Err(e);
            },
        };
        Ok((a, b))
    }

    /// Creates a coupled pair of buffers for host-to-device upload: a
    /// host-mappable staging buffer and a device-local storage buffer of
    /// the same size, so the host can fill the one and a batch can copy it
    /// into the other. Fails with `DuplicateLabel` exactly when either
    /// label is taken (or the two are equal), inserting nothing.
    pub fn create_upload_pair(
        &mut self,
        staging_label: &String,
        storage_label: &String,
        size: u64,
    ) -> (r: Result<(BufferHandle, BufferHandle), ConfigError>)
        requires
            old(self).wf(),
        ensures
            final(self).wf(),
            final(self).images@ == old(self).images@,
            final(self).image_views@ == old(self).image_views@,
            final(self).samplers@ == old(self).samplers@,
            final(self).programs@ == old(self).programs@,
            final(self).layouts@ == old(self).layouts@,
            final(self).binding_sets@ == old(self).binding_sets@,
            final(self).pipelines@ == old(self).pipelines@,
            r is Ok <==> !old(self).has_buffer(storage_label@) && !old(self).has_buffer(
                staging_label@,
            ) && storage_label@ != staging_label@,
            r matches Err(e) ==> e == ConfigError::DuplicateLabel && final(self).buffers@ == old(
                self,
            ).buffers@,
            r matches Ok(h) ==> {
                &&& h.0.index == old(self).buffers@.len()
                &&& h.1.index == old(self).buffers@.len() + 1
                &&& final(self).buffers@.len() == old(self).buffers@.len() + 2
                &&& (forall|j: int|
                    0 <= j < old(self).buffers@.len() ==> final(self).buffers@[j] == old(
                        self,
                    ).buffers@[j])
                &&& final(self).buffers@[h.0.index as int].0@ == staging_label@
                &&& final(self).buffers@[h.0.index as int].1 == (BufferDesc {
                    size,
                    usage: BufferUsage {
                        storage: false,
                        uniform: false,
                        copy_src: true,
                        copy_dst: false,
                        map_read: false,
                        map_write: true,
                        vertex: false,
                    },
                })
                &&& final(self).buffers@[h.1.index as int].0@ == storage_label@
                &&& final(self).buffers@[h.1.index as int].1 == (BufferDesc {
                    size,
                    usage: BufferUsage {
                        storage: true,
                        uniform: false,
                        copy_src: false,
                        copy_dst: true,
                        map_read: false,
                        map_write: false,
                        vertex: false,
                    },
                })
            },
    {
        if let Some(_) = find_label(&self.buffers, storage_label) {
            return Err(ConfigError::DuplicateLabel);
        }
        if let Some(_) = find_label(&self.buffers, staging_label) {
            return Err(ConfigError::DuplicateLabel);
        }
        if *storage_label == *staging_label {
            return Err(ConfigError::DuplicateLabel);
        }
        let a = match self.create_buffer(
            staging_label,
            size,
            BufferUsage {
                storage: false,
                uniform: false,
                copy_src: true,
                copy_dst: false,
                map_read: false,
                map_write: true,
                vertex: false,
            },
        ) {
            Ok(h) => h,
            Err(e) => {
                return Err(e);
            },
        };
        let b = match self.create_buffer(
            storage_label,
            size,
            BufferUsage {
                storage: true,
                uniform: false,
                copy_src: false,
                copy_dst: true,
                map_read: false,
                map_write: false,
                vertex: false,
            },
        ) {
            Ok(h) => h,
            Err(e) => {
                return Err(e);
            },
        };
        Ok((a, b))
    }
}

impl Registry {
    /// Validates a raw byte write into a registered buffer: the write must
    /// lie entirely within the buffer. Returns the handle the device-side
    /// write targets. Fails with `LabelNotFound` exactly when no buffer
    /// carries the label, and with `SizeMismatch` exactly when the write
    /// would run past the buffer's end.
    pub fn write_buffer(&self, label: &String, offset: u64, len: u64) -> (r: Result<
        BufferHandle,
        ConfigError,
    >)
        requires
            self.wf(),
        ensures
            r is Ok <==> self.has_buffer(label@) && offset + len <= self.buffer(label@).size,
            r matches Err(e) ==> {
                &&& (e == ConfigError::LabelNotFound <==> !self.has_buffer(label@))
                &&& (e == ConfigError::SizeMismatch <==> self.has_buffer(label@) && offset + len
                    > self.buffer(label@).size)
            },
            r matches Ok(h) ==> h.index < self.buffers@.len() && self.buffers@[h.index as int].0@
                == label@,
    {
        let h = match self.get_buffer(label) {
            Ok(h) => h,
            Err(_) => {
                return Err(ConfigError::LabelNotFound);
            },
        };
        let size = self.buffers[h.index].1.size;
        if offset > size || len > size - offset {
            return Err(ConfigError::SizeMismatch);
        }
        Ok(h)
    }
}

} // verus!

//! The pipeline builder.
//!
//! A dispatch pipeline is compiled from a named program entry point and an
//! ordered list of binding-set labels: position in the list is the
//! binding-set index the pipeline is compiled against. Building a pipeline
//! is pure construction; no device work is executed.

use vstd::prelude::*;

use crate::binding_types::{PipelineDesc, PipelineKind};
use crate::error::ConfigError;
use crate::registry::{
    find_label, has_label, insert_label, label_index, lemma_label_index_unique, Registry,
};
use crate::resources::{ImageFormat, PipelineHandle, ProgramDesc};

verus! {

/// Whether the program declares an entry point named `name`.
pub open spec fn has_entry(p: ProgramDesc, name: Seq<char>) -> bool {
    exists|i: int| 0 <= i < p.entry_points@.len() && p.entry_points@[i]@ == name
}

/// Linear scan of a program's declared entry points for `name`.
fn find_entry(p: &ProgramDesc, name: &String) -> (r: bool)
    ensures
        r == has_entry(*p, name@),
{
    let mut i: usize = 0;
    while i < p.entry_points.len()
        invariant
            i <= p.entry_points@.len(),
            forall|j: int| 0 <= j < i ==> p.entry_points@[j]@ != name@,
        decreases p.entry_points@.len() - i,
    {
        if p.entry_points[i] == *name {
            return true;
        }
        i = i + 1;
    }
    false
}

/// All construction inputs of a pipeline resolve: the program is loaded and
/// declares the wanted entry points, and every binding-set label is
/// registered.
pub open spec fn pipeline_inputs_found(
    reg: Registry,
    program_label: Seq<char>,
    entry_point: Seq<char>,
    fragment_entry: Option<Seq<char>>,
    labels: Seq<String>,
) -> bool {
    &&& reg.has_program(program_label)
    &&& has_entry(reg.program(program_label), entry_point)
    &&& (fragment_entry is Some ==> has_entry(reg.program(program_label), fragment_entry->0))
    &&& (forall|k: int| 0 <= k < labels.len() ==> reg.has_binding_set((#[trigger] labels[k])@))
}

/// Builds and registers a pipeline of the given kind. Shared by the compute
/// and draw entry points, which fix `kind`, `fragment_entry`,
/// `color_targets` and `vertex_input`.
fn build_pipeline(
    reg: &mut Registry,
    label: &String,
    program_label: &String,
    entry_point: &String,
    fragment_entry: Option<&String>,
    binding_set_labels: &Vec<String>,
    param_block_size: u32,
    color_targets: Vec<ImageFormat>,
    vertex_input: bool,
    kind: PipelineKind,
) -> (r: Result<PipelineHandle, ConfigError>)
    requires
        old(reg).wf(),
    ensures
        final(reg).wf(),
        final(reg).buffers@ == old(reg).buffers@,
        final(reg).images@ == old(reg).images@,
        final(reg).image_views@ == old(reg).image_views@,
        final(reg).samplers@ == old(reg).samplers@,
        final(reg).programs@ == old(reg).programs@,
        final(reg).layouts@ == old(reg).layouts@,
        final(reg).binding_sets@ == old(reg).binding_sets@,
        match r {
            Ok(h) => {
                let pd = final(reg).pipelines@[h.index as int].1;
                &&& pipeline_inputs_found(
                    *old(reg),
                    program_label@,
                    entry_point@,
                    match fragment_entry {
                        Some(f) => Some(f@),
                        None => None,
                    },
                    binding_set_labels@,
                )
                &&& !old(reg).has_pipeline(label@)
                &&& h.index == old(reg).pipelines@.len()
                &&& final(reg).pipelines@.len() == old(reg).pipelines@.len() + 1
                &&& (forall|j: int|
                    0 <= j < old(reg).pipelines@.len() ==> final(reg).pipelines@[j] == old(
                        reg,
                    ).pipelines@[j])
                &&& final(reg).pipelines@[h.index as int].0@ == label@
                &&& pd.kind == kind
                &&& pd.program == label_index(old(reg).programs@, program_label@)
                &&& pd.entry_point@ == entry_point@
                &&& (match (pd.fragment_entry, fragment_entry) {
                    (Some(pf), Some(f)) => pf@ == f@,
                    (None, None) => true,
                    _ => false,
                })
                &&& pd.binding_sets@.len() == binding_set_labels@.len()
                &&& (forall|k: int|
                    0 <= k < binding_set_labels@.len() ==> (#[trigger] pd.binding_sets@[k])
                        == label_index(old(reg).binding_sets@, binding_set_labels@[k]@))
                &&& pd.param_block_size == param_block_size
                &&& pd.color_targets@ == color_targets@
                &&& pd.vertex_input == vertex_input
            },
            Err(e) => {
                &&& final(reg).pipelines@ == old(reg).pipelines@
                &&& (e == ConfigError::LabelNotFound || e == ConfigError::DuplicateLabel)
                &&& (e == ConfigError::LabelNotFound <==> !pipeline_inputs_found(
                    *old(reg),
                    program_label@,
                    entry_point@,
                    match fragment_entry {
                        Some(f) => Some(f@),
                        None => None,
                    },
                    binding_set_labels@,
                ))
                &&& (e == ConfigError::DuplicateLabel <==> pipeline_inputs_found(
                    *old(reg),
                    program_label@,
                    entry_point@,
                    match fragment_entry {
                        Some(f) => Some(f@),
                        None => None,
                    },
                    binding_set_labels@,
                ) && old(reg).has_pipeline(label@))
            },
        },
{
    // Resolve the program and check its declared entry points.
    let prog = match find_label(&reg.programs, program_label) {
        Some(i) => i,
        None => {
            return Err(ConfigError::LabelNotFound);
        },
    };
    proof {
        lemma_label_index_unique(reg.programs@, program_label@, prog as int);
    }
    if !find_entry(&reg.programs[prog].1, entry_point) {
        return Err(ConfigError::LabelNotFound);
    }
    match fragment_entry {
        Some(f) => {
            if !find_entry(&reg.programs[prog].1, f) {
                return Err(ConfigError::LabelNotFound);
            }
        },
        None => {},
    }

    // Resolve the binding sets; their order fixes binding-set indices.
    let n = binding_set_labels.len();
    let mut sets: Vec<usize> = Vec::new();
    let mut k: usize = 0;
    while k < n
        invariant
            *reg == *old(reg),
            (*reg).wf(),
            n == binding_set_labels@.len(),
            k <= n,
            sets@.len() == k,
            forall|j: int|
                0 <= j < k ==> (*reg).has_binding_set((#[trigger] binding_set_labels@[j])@)
                    && sets@[j] == label_index(reg.binding_sets@, binding_set_labels@[j]@),
        decreases n - k,
    {
        match find_label(&reg.binding_sets, &binding_set_labels[k]) {
            Some(i) => {
                proof {
                    lemma_label_index_unique(
                        reg.binding_sets@,
                        binding_set_labels@[k as int]@,
                        i as int,
                    );
                }
                sets.push(i);
            },
            None => {
                return Err(ConfigError::LabelNotFound);
            },
        }
        k = k + 1;
    }

    if let Some(_) = find_label(&reg.pipelines, label) {
        return Err(ConfigError::DuplicateLabel);
    }

    let fragment_owned: Option<String> = match fragment_entry {
        Some(f) => Some(f.clone()),
        None => None,
    };
    let desc = PipelineDesc {
        kind,
        program: prog,
        entry_point: entry_point.clone(),
        fragment_entry: fragment_owned,
        binding_sets: sets,
        param_block_size,
        color_targets,
        vertex_input,
    };
    let ghost reg0 = *reg;
    let ghost gdesc = desc;
    match insert_label(&mut reg.pipelines, label, desc) {
        Ok(i) => {
            proof {
                assert forall|j: int|
                    0 <= j < reg.pipelines@.len() implies reg.pipeline_valid(
                    (#[trigger] reg.pipelines@[j]).1,
                ) by {
                    if j < reg0.pipelines@.len() {
                        assert(reg0.pipeline_valid(reg0.pipelines@[j].1));
                    } else {
                        let pd = reg.pipelines@[j].1;
                        assert(pd == gdesc);
                        assert forall|k2: int|
                            0 <= k2 < pd.binding_sets@.len() implies (
                        #[trigger] pd.binding_sets@[k2]) < reg.binding_sets@.len() by {
                            let nm = binding_set_labels@[k2]@;
                            assert(has_label(reg0.binding_sets@, nm));
                            assert(0 <= label_index(reg0.binding_sets@, nm)
                                < reg0.binding_sets@.len());
                        }
                    }
                }
                assert(reg.wf());
            }
            Ok(PipelineHandle { index: i })
        },
        Err(e) => Err(e),
    }
}

/// Compiles a compute pipeline from `program_label`'s `entry_point` and the
/// binding sets named in order. Fails with `LabelNotFound` exactly when the
/// program, the entry point or a binding-set label is not registered, and
/// with `DuplicateLabel` exactly when everything resolves but a pipeline
/// named `label` already exists; a failure leaves the registry unchanged.
pub fn build_compute_pipeline(
    reg: &mut Registry,
    label: &String,
    program_label: &String,
    entry_point: &String,
    binding_set_labels: &Vec<String>,
    param_block_size: u32,
) -> (r: Result<PipelineHandle, ConfigError>)
    requires
        old(reg).wf(),
    ensures
        final(reg).wf(),
        final(reg).buffers@ == old(reg).buffers@,
        final(reg).images@ == old(reg).images@,
        final(reg).image_views@ == old(reg).image_views@,
        final(reg).samplers@ == old(reg).samplers@,
        final(reg).programs@ == old(reg).programs@,
        final(reg).layouts@ == old(reg).layouts@,
        final(reg).binding_sets@ == old(reg).binding_sets@,
        match r {
            Ok(h) => {
                let pd = final(reg).pipelines@[h.index as int].1;
                &&& pipeline_inputs_found(
                    *old(reg),
                    program_label@,
                    entry_point@,
                    None,
                    binding_set_labels@,
                )
                &&& !old(reg).has_pipeline(label@)
                &&& h.index == old(reg).pipelines@.len()
                &&& final(reg).pipelines@.len() == old(reg).pipelines@.len() + 1
                &&& (forall|j: int|
                    0 <= j < old(reg).pipelines@.len() ==> final(reg).pipelines@[j] == old(
                        reg,
                    ).pipelines@[j])
                &&& final(reg).pipelines@[h.index as int].0@ == label@
                &&& pd.kind == PipelineKind::Compute
                &&& pd.program == label_index(old(reg).programs@, program_label@)
                &&& pd.entry_point@ == entry_point@
                &&& pd.fragment_entry is None
                &&& pd.binding_sets@.len() == binding_set_labels@.len()
                &&& (forall|k: int|
                    0 <= k < binding_set_labels@.len() ==> (#[trigger] pd.binding_sets@[k])
                        == label_index(old(reg).binding_sets@, binding_set_labels@[k]@))
                &&& pd.param_block_size == param_block_size
                &&& pd.color_targets@.len() == 0
                &&& pd.vertex_input == false
            },
            Err(e) => {
                &&& final(reg).pipelines@ == old(reg).pipelines@
                &&& (e == ConfigError::LabelNotFound || e == ConfigError::DuplicateLabel)
                &&& (e == ConfigError::LabelNotFound <==> !pipeline_inputs_found(
                    *old(reg),
                    program_label@,
                    entry_point@,
                    None,
                    binding_set_labels@,
                ))
                &&& (e == ConfigError::DuplicateLabel <==> pipeline_inputs_found(
                    *old(reg),
                    program_label@,
                    entry_point@,
                    None,
                    binding_set_labels@,
                ) && old(reg).has_pipeline(label@))
            },
        },
{
    build_pipeline(
        reg,
        label,
        program_label,
        entry_point,
        None,
        binding_set_labels,
        param_block_size,
        Vec::new(),
        false,
        PipelineKind::Compute,
    )
}

/// Compiles a draw pipeline from `program_label`'s vertex and fragment entry
/// points, the binding sets named in order, and the given color target
/// formats. Fails with `LabelNotFound` exactly when the program, either
/// entry point or a binding-set label is not registered, and with
/// `DuplicateLabel` exactly when everything resolves but a pipeline named
/// `label` already exists; a failure leaves the registry unchanged.
pub fn build_draw_pipeline(
    reg: &mut Registry,
    label: &String,
    program_label: &String,
    vertex_entry: &String,
    fragment_entry: &String,
    binding_set_labels: &Vec<String>,
    color_targets: Vec<ImageFormat>,
    vertex_input: bool,
) -> (r: Result<PipelineHandle, ConfigError>)
    requires
        old(reg).wf(),
    ensures
        final(reg).wf(),
        final(reg).buffers@ == old(reg).buffers@,
        final(reg).images@ == old(reg).images@,
        final(reg).image_views@ == old(reg).image_views@,
        final(reg).samplers@ == old(reg).samplers@,
        final(reg).programs@ == old(reg).programs@,
        final(reg).layouts@ == old(reg).layouts@,
        final(reg).binding_sets@ == old(reg).binding_sets@,
        match r {
            Ok(h) => {
                let pd = final(reg).pipelines@[h.index as int].1;
                &&& pipeline_inputs_found(
                    *old(reg),
                    program_label@,
                    vertex_entry@,
                    Some(fragment_entry@),
                    binding_set_labels@,
                )
                &&& !old(reg).has_pipeline(label@)
                &&& h.index == old(reg).pipelines@.len()
                &&& final(reg).pipelines@.len() == old(reg).pipelines@.len() + 1
                &&& (forall|j: int|
                    0 <= j < old(reg).pipelines@.len() ==> final(reg).pipelines@[j] == old(
                        reg,
                    ).pipelines@[j])
                &&& final(reg).pipelines@[h.index as int].0@ == label@
                &&& pd.kind == PipelineKind::Draw
                &&& pd.program == label_index(old(reg).programs@, program_label@)
                &&& pd.entry_point@ == vertex_entry@
                &&& (pd.fragment_entry matches Some(f) && f@ == fragment_entry@)
                &&& pd.binding_sets@.len() == binding_set_labels@.len()
                &&& (forall|k: int|
                    0 <= k < binding_set_labels@.len() ==> (#[trigger] pd.binding_sets@[k])
                        == label_index(old(reg).binding_sets@, binding_set_labels@[k]@))
                &&& pd.param_block_size == 0
                &&& pd.color_targets@ == color_targets@
                &&& pd.vertex_input == vertex_input
            },
            Err(e) => {
                &&& final(reg).pipelines@ == old(reg).pipelines@
                &&& (e == ConfigError::LabelNotFound || e == ConfigError::DuplicateLabel)
                &&& (e == ConfigError::LabelNotFound <==> !pipeline_inputs_found(
                    *old(reg),
                    program_label@,
                    vertex_entry@,
                    Some(fragment_entry@),
                    binding_set_labels@,
                ))
                &&& (e == ConfigError::DuplicateLabel <==> pipeline_inputs_found(
                    *old(reg),
                    program_label@,
                    vertex_entry@,
                    Some(fragment_entry@),
                    binding_set_labels@,
                ) && old(reg).has_pipeline(label@))
            },
        },
{
    build_pipeline(
        reg,
        label,
        program_label,
        vertex_entry,
        Some(fragment_entry),
        binding_set_labels,
        0,
        color_targets,
        vertex_input,
        PipelineKind::Draw,
    )
}

} // verus!

//! Which meshes of a model a draw pass draws, and in what order.

use vstd::prelude::*;

verus! {

/// Which meshes a draw pass draws, by the transparency of their material.
#[derive(Debug, Clone, Copy, PartialEq, Eq, Structural)]
pub enum MeshFilter {
    TransparentsOnly,
    OpaqueOnly,
}

impl MeshFilter {
    /// Whether a mesh whose material is (or is not) transparent passes.
    pub open spec fn spec_accepts(self, is_transparent: bool) -> bool {
        match self {
            MeshFilter::TransparentsOnly => is_transparent,
            MeshFilter::OpaqueOnly => !is_transparent,
        }
    }

    /// Whether a mesh whose material is (or is not) transparent passes.
    pub fn accepts(self, is_transparent: bool) -> (pass: bool)
        ensures
            pass == self.spec_accepts(is_transparent),
    {
        match self {
            MeshFilter::TransparentsOnly => is_transparent,
            MeshFilter::OpaqueOnly => !is_transparent,
        }
    }
}

/// Bytes between the transforms of consecutive nodes in the hierarchy
/// buffer.
pub const NODE_STRIDE: u32 = 256;

/// The most nodes a model may have: their offsets must fit in a `u32`.
pub const MAX_NODES: usize = 16777216;

/// What the draw pass reads of a model.
pub struct ModelLayout {
    /// For each node, the meshes it renders.
    pub node_meshes: Vec<Vec<usize>>,
    /// For each mesh, the index of its material.
    pub mesh_materials: Vec<usize>,
    /// For each material, whether it is transparent.
    pub material_transparent: Vec<bool>,
}

/// One step of drawing a model.
#[derive(Debug, Clone, Copy, PartialEq, Eq, Structural)]
pub enum DrawStep {
    /// Bind the hierarchy group at this dynamic offset (the node's transform).
    BindNode { dynamic_offset: u32 },
    /// Draw this mesh with this material.
    DrawMesh { mesh: usize, material: usize },
}

/// The node meshes as sequences.
pub open spec fn spec_nodes(layout: ModelLayout) -> Seq<Seq<usize>> {
    Seq::new(layout.node_meshes@.len(), |i: int| layout.node_meshes@[i]@)
}

impl ModelLayout {
    /// Every mesh that a node renders exists and has an existing material,
    /// and the node offsets fit in a `u32`.
    pub open spec fn well_formed(&self) -> bool {
        &&& self.node_meshes@.len() <= MAX_NODES
        &&& forall|i: int, j: int|
            #![trigger self.node_meshes@[i]@[j]]
            0 <= i < self.node_meshes@.len() && 0 <= j < self.node_meshes@[i]@.len() ==> {
                let m = self.node_meshes@[i]@[j];
                &&& m < self.mesh_materials@.len()
                &&& self.mesh_materials@[m as int] < self.material_transparent@.len()
            }
    }
}

/// The draw steps for the meshes `meshes` of one node.
pub open spec fn spec_mesh_steps(
    meshes: Seq<usize>,
    mesh_materials: Seq<usize>,
    transparent: Seq<bool>,
    filter: MeshFilter,
) -> Seq<DrawStep>
    decreases meshes.len(),
{
    if meshes.len() == 0 {
        Seq::empty()
    } else {
        let m = meshes.last();
        let mat = mesh_materials[m as int];
        let rest = spec_mesh_steps(meshes.drop_last(), mesh_materials, transparent, filter);
        if filter.spec_accepts(transparent[mat as int]) {
            rest.push(DrawStep::DrawMesh { mesh: m, material: mat })
        } else {
            rest
        }
    }
}

/// The draw steps for the first `n` nodes: for each node, its binding, then
/// the meshes of it that pass the filter, in order.
pub open spec fn spec_draw_plan(
    nodes: Seq<Seq<usize>>,
    mesh_materials: Seq<usize>,
    transparent: Seq<bool>,
    filter: MeshFilter,
    n: nat,
) -> Seq<DrawStep>
    decreases n,
{
    if n == 0 {
        Seq::empty()
    } else {
        let i = (n - 1) as nat;
        spec_draw_plan(nodes, mesh_materials, transparent, filter, i).push(
            DrawStep::BindNode { dynamic_offset: (i * 256) as u32 },
        ) + spec_mesh_steps(nodes[i as int], mesh_materials, transparent, filter)
    }
}

/// The draw steps for a whole model.
pub open spec fn spec_model_plan(layout: ModelLayout, filter: MeshFilter) -> Seq<DrawStep> {
    spec_draw_plan(
        spec_nodes(layout),
        layout.mesh_materials@,
        layout.material_transparent@,
        filter,
        layout.node_meshes@.len(),
    )
}

/// The steps that draw a model: each node binds its transform, then the
/// meshes it renders that pass `filter` are drawn.
pub fn plan_model_draw(layout: &ModelLayout, filter: MeshFilter) -> (steps: Vec<DrawStep>)
    requires
        layout.well_formed(),
    ensures
        steps@ == spec_model_plan(*layout, filter),
{
    let ghost nodes = spec_nodes(*layout);
    let ghost mats = layout.mesh_materials@;
    let ghost tr = layout.material_transparent@;
    let mut steps: Vec<DrawStep> = Vec::new();
    let n = layout.node_meshes.len();
    let mut i: usize = 0;
    while i < n
        invariant
            n == layout.node_meshes@.len(),
            n <= MAX_NODES,
            i <= n,
            layout.well_formed(),
            nodes == spec_nodes(*layout),
            mats == layout.mesh_materials@,
            tr == layout.material_transparent@,
            steps@ == spec_draw_plan(nodes, mats, tr, filter, i as nat),
        decreases n - i,
    {
        assert(i * 256 <= u32::MAX) by (nonlinear_arith)
            requires
                i < 16777216,
        ;
        let offset: u32 = (i as u32) * NODE_STRIDE;
        steps.push(DrawStep::BindNode { dynamic_offset: offset });
        let ghost base = steps@;
        let meshes = &layout.node_meshes[i];
        let k = meshes.len();
        let mut j: usize = 0;
        while j < k
            invariant
                i < n,
                n == layout.node_meshes@.len(),
                layout.well_formed(),
                meshes@ == layout.node_meshes@[i as int]@,
                k == meshes@.len(),
                j <= k,
                mats == layout.mesh_materials@,
                tr == layout.material_transparent@,
                steps@ == base + spec_mesh_steps(meshes@.take(j as int), mats, tr, filter),
            decreases k - j,
        {
            let m = meshes[j];
            assert(layout.node_meshes@[i as int]@[j as int] == m);
            let mat = layout.mesh_materials[m];
            let is_transparent = layout.material_transparent[mat];
            assert(meshes@.take(j + 1).drop_last() =~= meshes@.take(j as int));
            if filter.accepts(is_transparent) {
                steps.push(DrawStep::DrawMesh { mesh: m, material: mat });
            }
            j += 1;
        }
        assert(meshes@.take(k as int) =~= meshes@);
        assert(nodes[i as int] == meshes@);
        i += 1;
    }
    steps
}

/// A mesh draw step of a plan draws a mesh that passes the filter.
pub open spec fn spec_step_passes(
    step: DrawStep,
    transparent: Seq<bool>,
    filter: MeshFilter,
) -> bool {
    match step {
        DrawStep::DrawMesh { material, .. } => filter.spec_accepts(transparent[material as int]),
        DrawStep::BindNode { .. } => true,
    }
}

/// Every mesh drawn for a node passes the filter.
pub proof fn lemma_mesh_steps_pass(
    meshes: Seq<usize>,
    mesh_materials: Seq<usize>,
    transparent: Seq<bool>,
    filter: MeshFilter,
)
    ensures
        forall|s: int|
            0 <= s < spec_mesh_steps(meshes, mesh_materials, transparent, filter).len()
                ==> #[trigger] spec_step_passes(
                spec_mesh_steps(meshes, mesh_materials, transparent, filter)[s],
                transparent,
                filter,
            ),
    decreases meshes.len(),
{
    if meshes.len() > 0 {
        let rest = spec_mesh_steps(meshes.drop_last(), mesh_materials, transparent, filter);
        let all = spec_mesh_steps(meshes, mesh_materials, transparent, filter);
        lemma_mesh_steps_pass(meshes.drop_last(), mesh_materials, transparent, filter);
        assert forall|s: int| 0 <= s < all.len() implies #[trigger] spec_step_passes(
            all[s],
            transparent,
            filter,
        ) by {
            if s < rest.len() {
                assert(all[s] == rest[s]);
            }
        }
    }
}

/// A draw pass draws only meshes whose material passes its filter.
pub proof fn lemma_plan_steps_pass(
    nodes: Seq<Seq<usize>>,
    mesh_materials: Seq<usize>,
    transparent: Seq<bool>,
    filter: MeshFilter,
    n: nat,
)
    ensures
        forall|s: int|
            0 <= s < spec_draw_plan(nodes, mesh_materials, transparent, filter, n).len()
                ==> #[trigger] spec_step_passes(
                spec_draw_plan(nodes, mesh_materials, transparent, filter, n)[s],
                transparent,
                filter,
            ),
    decreases n,
{
    if n > 0 {
        let i = (n - 1) as nat;
        let prefix = spec_draw_plan(nodes, mesh_materials, transparent, filter, i);
        let head = prefix.push(DrawStep::BindNode { dynamic_offset: (i * 256) as u32 });
        let tail = spec_mesh_steps(nodes[i as int], mesh_materials, transparent, filter);
        let all = spec_draw_plan(nodes, mesh_materials, transparent, filter, n);
        assert(all == head + tail);
        lemma_plan_steps_pass(nodes, mesh_materials, transparent, filter, i);
        lemma_mesh_steps_pass(nodes[i as int], mesh_materials, transparent, filter);
        assert forall|s: int| 0 <= s < all.len() implies #[trigger] spec_step_passes(
            all[s],
            transparent,
            filter,
        ) by {
            if s < prefix.len() {
                assert(all[s] == prefix[s]);
            } else if s == prefix.len() {
                assert(all[s] == head[s]);
            } else {
                assert(all[s] == tail[s - head.len()]);
            }
        }
    }
}

/// The opaque and the transparent pass together draw each mesh of a node
/// exactly once: their step counts add up to the node's mesh count.
pub proof fn lemma_filters_partition(
    meshes: Seq<usize>,
    mesh_materials: Seq<usize>,
    transparent: Seq<bool>,
)
    ensures
        spec_mesh_steps(meshes, mesh_materials, transparent, MeshFilter::OpaqueOnly).len()
            + spec_mesh_steps(meshes, mesh_materials, transparent, MeshFilter::TransparentsOnly).len()
            == meshes.len(),
    decreases meshes.len(),
{
    if meshes.len() > 0 {
        lemma_filters_partition(meshes.drop_last(), mesh_materials, transparent);
    }
}

/// The draw steps of every mesh of one node, whatever its material.
pub open spec fn spec_all_mesh_steps(meshes: Seq<usize>, mesh_materials: Seq<usize>) -> Seq<DrawStep>
    decreases meshes.len(),
{
    if meshes.len() == 0 {
        Seq::empty()
    } else {
        let m = meshes.last();
        spec_all_mesh_steps(meshes.drop_last(), mesh_materials).push(
            DrawStep::DrawMesh { mesh: m, material: mesh_materials[m as int] },
        )
    }
}

/// The steps of the first `n` nodes with every mesh drawn: each node's
/// binding followed by all its meshes.
pub open spec fn spec_full_plan(nodes: Seq<Seq<usize>>, mesh_materials: Seq<usize>, n: nat) -> Seq<
    DrawStep,
>
    decreases n,
{
    if n == 0 {
        Seq::empty()
    } else {
        let i = (n - 1) as nat;
        spec_full_plan(nodes, mesh_materials, i).push(
            DrawStep::BindNode { dynamic_offset: (i * 256) as u32 },
        ) + spec_all_mesh_steps(nodes[i as int], mesh_materials)
    }
}

/// The steps that a pass with `filter` keeps of the full plan.
pub open spec fn spec_keeps(transparent: Seq<bool>, filter: MeshFilter) -> spec_fn(DrawStep) -> bool {
    |s: DrawStep| spec_step_passes(s, transparent, filter)
}

proof fn lemma_mesh_steps_are_filter(
    meshes: Seq<usize>,
    mesh_materials: Seq<usize>,
    transparent: Seq<bool>,
    filter: MeshFilter,
)
    ensures
        spec_mesh_steps(meshes, mesh_materials, transparent, filter) == spec_all_mesh_steps(
            meshes,
            mesh_materials,
        ).filter(spec_keeps(transparent, filter)),
    decreases meshes.len(),
{
    if meshes.len() > 0 {
        lemma_mesh_steps_are_filter(meshes.drop_last(), mesh_materials, transparent, filter);
        let m = meshes.last();
        let step = DrawStep::DrawMesh { mesh: m, material: mesh_materials[m as int] };
        spec_all_mesh_steps(meshes.drop_last(), mesh_materials).lemma_filter_push(
            step,
            spec_keeps(transparent, filter),
        );
    }
}

/// Both draw passes are the same sequence of steps, each keeping its share:
/// a pass keeps every node binding of the full plan, in order, and of the
/// mesh draws exactly those whose material passes its filter; a mesh draw
/// passes exactly one of the two filters. So every mesh of every node is
/// drawn by exactly one of the opaque and transparent passes, after the same
/// bindings.
pub proof fn law_passes_split_the_full_plan(
    nodes: Seq<Seq<usize>>,
    mesh_materials: Seq<usize>,
    transparent: Seq<bool>,
    filter: MeshFilter,
    n: nat,
)
    ensures
        spec_draw_plan(nodes, mesh_materials, transparent, filter, n) == spec_full_plan(
            nodes,
            mesh_materials,
            n,
        ).filter(spec_keeps(transparent, filter)),
        forall|s: DrawStep|
            #![trigger spec_step_passes(s, transparent, MeshFilter::OpaqueOnly)]
            s is DrawMesh ==> spec_step_passes(s, transparent, MeshFilter::OpaqueOnly)
                != spec_step_passes(s, transparent, MeshFilter::TransparentsOnly),
        forall|s: DrawStep|
            #![trigger spec_step_passes(s, transparent, filter)]
            s is BindNode ==> spec_step_passes(s, transparent, filter),
    decreases n,
{
    if n > 0 {
        let i = (n - 1) as nat;
        let keep = spec_keeps(transparent, filter);
        law_passes_split_the_full_plan(nodes, mesh_materials, transparent, filter, i);
        lemma_mesh_steps_are_filter(nodes[i as int], mesh_materials, transparent, filter);
        let bind = DrawStep::BindNode { dynamic_offset: (i * 256) as u32 };
        let head = spec_full_plan(nodes, mesh_materials, i).push(bind);
        let tail = spec_all_mesh_steps(nodes[i as int], mesh_materials);
        Seq::filter_distributes_over_add(head, tail, keep);
        spec_full_plan(nodes, mesh_materials, i).lemma_filter_push(bind, keep);
    }
}

/// The transparent pass takes exactly the meshes with a transparent material,
/// the opaque pass exactly the others.
pub proof fn law_filter_by_transparency(is_transparent: bool)
    ensures
        MeshFilter::TransparentsOnly.spec_accepts(is_transparent) == is_transparent,
        MeshFilter::OpaqueOnly.spec_accepts(is_transparent) == !is_transparent,
{
}

} // verus!

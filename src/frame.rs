use vstd::prelude::*;

use crate::state::State;

verus! {

/// A GPU buffer the frame binds.
#[derive(Clone, Copy, PartialEq, Eq, Structural, Debug)]
pub enum BufferRef {
    /// The per-instance transforms.
    Instances,
    /// The vertices of the loaded model's mesh with this index.
    MeshVertices(usize),
    /// The indices of the loaded model's mesh with this index.
    MeshIndices(usize),
    /// The vertices of the inline buffer set with this index.
    SetVertices(usize),
    /// The indices of the inline buffer set with this index.
    SetIndices(usize),
}

/// A bind group the frame binds.
#[derive(Clone, Copy, PartialEq, Eq, Structural, Debug)]
pub enum BindGroupRef {
    /// The texture and sampler of the loaded model's material with this index.
    Material(usize),
    /// The texture and sampler of the inline geometry.
    Diffuse,
    /// The camera's uniform buffer.
    Camera,
}

/// One command recorded into the frame's render pass.
#[derive(Clone, Copy, PartialEq, Eq, Structural, Debug)]
pub enum Command {
    SetPipeline(usize),
    SetBindGroup { index: u32, group: BindGroupRef },
    SetVertexBuffer { slot: u32, buffer: BufferRef },
    /// Binds an index buffer of 32-bit indices.
    SetIndexBuffer(BufferRef),
    /// Draws indices `0..index_count` for instances `0..instance_count`.
    DrawIndexed { index_count: u32, instance_count: u32 },
}

/// A mesh of a loaded model: how many indices it draws and which material
/// it is drawn with.
#[derive(Clone, Copy, PartialEq, Eq, Structural, Debug)]
pub struct MeshInfo {
    pub num_elements: u32,
    pub material: usize,
}

/// The shape of a loaded model: its meshes, in order, and how many
/// materials it has. Every mesh names one of those materials.
pub struct ModelLayout {
    pub meshes: Vec<MeshInfo>,
    pub material_count: usize,
}

/// Why a model cannot be drawn.
#[derive(Clone, Copy, PartialEq, Eq, Structural, Debug)]
pub enum LayoutError {
    /// The mesh with this index names a material the model does not have.
    MissingMaterial { mesh: usize },
}

impl ModelLayout {
    pub open spec fn wf(&self) -> bool {
        forall|i: int|
            0 <= i < self.meshes@.len() ==> (#[trigger] self.meshes@[i]).material
                < self.material_count
    }

    /// Checks that every mesh names an existing material. On failure the
    /// error names the first mesh that does not.
    pub fn new(meshes: Vec<MeshInfo>, material_count: usize) -> (r: Result<ModelLayout, LayoutError>)
        ensures
            r matches Ok(m) ==> m.wf() && m.meshes@ == meshes@ && m.material_count
                == material_count,
            r is Ok <==> forall|i: int|
                0 <= i < meshes@.len() ==> (#[trigger] meshes@[i]).material < material_count,
            r matches Err(LayoutError::MissingMaterial { mesh }) ==> mesh < meshes@.len()
                && meshes@[mesh as int].material >= material_count && forall|i: int|
                0 <= i < mesh ==> (#[trigger] meshes@[i]).material < material_count,
    {
        let mut i: usize = 0;
        while i < meshes.len()
            invariant
                i <= meshes@.len(),
                forall|j: int| 0 <= j < i ==> (#[trigger] meshes@[j]).material < material_count,
            decreases meshes@.len() - i,
        {
            if meshes[i].material >= material_count {
                return Err(LayoutError::MissingMaterial { mesh: i });
            }
            i = i + 1;
        }
        Ok(ModelLayout { meshes, material_count })
    }
}

/// The commands that draw mesh `index` of a model, every instance at once:
/// its vertices at slot 0, its indices, its material at group 0, the camera
/// at group 1, then the draw over all its indices.
pub open spec fn mesh_commands(m: MeshInfo, index: usize, instance_count: u32) -> Seq<Command> {
    seq![
        Command::SetVertexBuffer { slot: 0, buffer: BufferRef::MeshVertices(index) },
        Command::SetIndexBuffer(BufferRef::MeshIndices(index)),
        Command::SetBindGroup { index: 0, group: BindGroupRef::Material(m.material) },
        Command::SetBindGroup { index: 1, group: BindGroupRef::Camera },
        Command::DrawIndexed { index_count: m.num_elements, instance_count },
    ]
}

/// The draw commands of the given meshes, one mesh after the other.
pub open spec fn meshes_commands(meshes: Seq<MeshInfo>, instance_count: u32) -> Seq<Command>
    decreases meshes.len(),
{
    if meshes.len() == 0 {
        seq![]
    } else {
        meshes_commands(meshes.drop_last(), instance_count) + mesh_commands(
            meshes.last(),
            (meshes.len() - 1) as usize,
            instance_count,
        )
    }
}

/// The render pass of a frame that draws a loaded model: the instance
/// buffer at slot 1, the selected pipeline, then each mesh in order.
pub open spec fn model_frame_spec(pipeline: usize, meshes: Seq<MeshInfo>, instance_count: u32) -> Seq<Command> {
    seq![
        Command::SetVertexBuffer { slot: 1, buffer: BufferRef::Instances },
        Command::SetPipeline(pipeline),
    ] + meshes_commands(meshes, instance_count)
}

/// The render pass of a frame that draws the selected inline buffer set
/// `set`, whose index buffer holds `index_count` indices.
pub open spec fn inline_frame_spec(pipeline: usize, set: usize, index_count: u32, instance_count: u32) -> Seq<Command> {
    seq![
        Command::SetPipeline(pipeline),
        Command::SetBindGroup { index: 0, group: BindGroupRef::Diffuse },
        Command::SetBindGroup { index: 1, group: BindGroupRef::Camera },
        Command::SetVertexBuffer { slot: 0, buffer: BufferRef::SetVertices(set) },
        Command::SetVertexBuffer { slot: 1, buffer: BufferRef::Instances },
        Command::SetIndexBuffer(BufferRef::SetIndices(set)),
        Command::DrawIndexed { index_count, instance_count },
    ]
}

/// Plans the render pass that draws `model` with the state's selected
/// pipeline, `instance_count` times.
pub fn model_frame(state: &State, model: &ModelLayout, instance_count: u32) -> (r: Vec<Command>)
    requires
        state.wf(),
        model.wf(),
    ensures
        r@ == model_frame_spec(state.current_pipeline, model.meshes@, instance_count),
{
    let mut r: Vec<Command> = Vec::new();
    r.push(Command::SetVertexBuffer { slot: 1, buffer: BufferRef::Instances });
    r.push(Command::SetPipeline(state.current_pipeline));
    let ghost head = r@;
    let mut i: usize = 0;
    while i < model.meshes.len()
        invariant
            i <= model.meshes@.len(),
            head == seq![
                Command::SetVertexBuffer { slot: 1, buffer: BufferRef::Instances },
                Command::SetPipeline(state.current_pipeline),
            ],
            r@ == head + meshes_commands(model.meshes@.take(i as int), instance_count),
        decreases model.meshes@.len() - i,
    {
        let m = model.meshes[i];
        r.push(Command::SetVertexBuffer { slot: 0, buffer: BufferRef::MeshVertices(i) });
        r.push(Command::SetIndexBuffer(BufferRef::MeshIndices(i)));
        r.push(Command::SetBindGroup { index: 0, group: BindGroupRef::Material(m.material) });
        r.push(Command::SetBindGroup { index: 1, group: BindGroupRef::Camera });
        r.push(Command::DrawIndexed { index_count: m.num_elements, instance_count });
        proof {
            let next = model.meshes@.take(i + 1);
            assert(next.drop_last() == model.meshes@.take(i as int));
            assert(next.last() == m);
            assert(r@ == head + meshes_commands(next, instance_count));
        }
        i = i + 1;
    }
    assert(model.meshes@.take(i as int) == model.meshes@);
    r
}

/// Plans the render pass that draws the state's selected inline buffer set,
/// `instance_count` times; `index_counts` gives each set's index count.
pub fn inline_frame(state: &State, index_counts: &Vec<u32>, instance_count: u32) -> (r: Vec<Command>)
    requires
        state.wf(),
        index_counts@.len() == state.buffer_set_count,
    ensures
        r@ == inline_frame_spec(
            state.current_pipeline,
            state.current_buffer_set,
            index_counts@[state.current_buffer_set as int],
            instance_count,
        ),
{
    let set = state.current_buffer_set;
    let mut r: Vec<Command> = Vec::new();
    r.push(Command::SetPipeline(state.current_pipeline));
    r.push(Command::SetBindGroup { index: 0, group: BindGroupRef::Diffuse });
    r.push(Command::SetBindGroup { index: 1, group: BindGroupRef::Camera });
    r.push(Command::SetVertexBuffer { slot: 0, buffer: BufferRef::SetVertices(set) });
    r.push(Command::SetVertexBuffer { slot: 1, buffer: BufferRef::Instances });
    r.push(Command::SetIndexBuffer(BufferRef::SetIndices(set)));
    r.push(Command::DrawIndexed { index_count: index_counts[set], instance_count });
    assert(r@ == inline_frame_spec(
        state.current_pipeline,
        set,
        index_counts@[set as int],
        instance_count,
    ));
    r
}

} // verus!

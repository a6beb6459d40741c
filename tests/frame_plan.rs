use renderer::frame::{
    inline_frame, model_frame, BindGroupRef, BufferRef, Command, LayoutError, MeshInfo, ModelLayout,
};
use renderer::state::{Size, State};

#[test]
fn model_frame_draws_each_mesh_with_its_material() {
    let mut s = State::new(Size { width: 4, height: 4 }, 2, 1, true);
    s.next_pipeline();
    let meshes = vec![
        MeshInfo { num_elements: 36, material: 1 },
        MeshInfo { num_elements: 6, material: 0 },
    ];
    let model = ModelLayout::new(meshes, 2).ok().unwrap();
    let plan = model_frame(&s, &model, 100);
    let expected = vec![
        Command::SetVertexBuffer { slot: 1, buffer: BufferRef::Instances },
        Command::SetPipeline(1),
        Command::SetVertexBuffer { slot: 0, buffer: BufferRef::MeshVertices(0) },
        Command::SetIndexBuffer(BufferRef::MeshIndices(0)),
        Command::SetBindGroup { index: 0, group: BindGroupRef::Material(1) },
        Command::SetBindGroup { index: 1, group: BindGroupRef::Camera },
        Command::DrawIndexed { index_count: 36, instance_count: 100 },
        Command::SetVertexBuffer { slot: 0, buffer: BufferRef::MeshVertices(1) },
        Command::SetIndexBuffer(BufferRef::MeshIndices(1)),
        Command::SetBindGroup { index: 0, group: BindGroupRef::Material(0) },
        Command::SetBindGroup { index: 1, group: BindGroupRef::Camera },
        Command::DrawIndexed { index_count: 6, instance_count: 100 },
    ];
    assert_eq!(plan, expected);
}

#[test]
fn empty_model_binds_only_pipeline_and_instances() {
    let s = State::new(Size { width: 4, height: 4 }, 1, 1, false);
    let model = ModelLayout::new(vec![], 0).ok().unwrap();
    assert_eq!(
        model_frame(&s, &model, 1),
        vec![
            Command::SetVertexBuffer { slot: 1, buffer: BufferRef::Instances },
            Command::SetPipeline(0),
        ]
    );
}

#[test]
fn model_layout_rejects_missing_material() {
    let meshes = vec![
        MeshInfo { num_elements: 3, material: 0 },
        MeshInfo { num_elements: 3, material: 2 },
        MeshInfo { num_elements: 3, material: 5 },
    ];
    match ModelLayout::new(meshes, 2) {
        Err(e) => assert_eq!(e, LayoutError::MissingMaterial { mesh: 1 }),
        Ok(_) => panic!("a mesh names a missing material"),
    }
}

#[test]
fn inline_frame_draws_selected_buffer_set() {
    let mut s = State::new(Size { width: 4, height: 4 }, 2, 2, false);
    s.next_buffer_set();
    let plan = inline_frame(&s, &vec![9, 12], 1);
    assert_eq!(
        plan,
        vec![
            Command::SetPipeline(0),
            Command::SetBindGroup { index: 0, group: BindGroupRef::Diffuse },
            Command::SetBindGroup { index: 1, group: BindGroupRef::Camera },
            Command::SetVertexBuffer { slot: 0, buffer: BufferRef::SetVertices(1) },
            Command::SetVertexBuffer { slot: 1, buffer: BufferRef::Instances },
            Command::SetIndexBuffer(BufferRef::SetIndices(1)),
            Command::DrawIndexed { index_count: 12, instance_count: 1 },
        ]
    );
}

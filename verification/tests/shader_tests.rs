use vulkust::shader::{
    from_gx3d_id, get_vertex_size, shader_id_resources, shader_id_to_vertex_attributes,
    shader_uniform_size, BindingStage, ResourceType, Shader, TwoStage, UniformSizes,
    DIRECTIONAL_TEXTURED_SPECULATED_NOCUBE_FULLSHADOW_OPAQUE_ID, ID_BYTES_COUNT, WHITE_ID,
};
use vulkust::vertex::Attribute;

#[test]
fn gx3d_id_is_big_endian() {
    assert_eq!(from_gx3d_id(vec![]), 0);
    assert_eq!(from_gx3d_id(vec![0x01]), 1);
    assert_eq!(from_gx3d_id(vec![0x01, 0x02]), 0x0102);
    assert_eq!(from_gx3d_id(vec![0, 0, 0x02, 0x02, 0x00, 0x00]), 0x0202_0000);
}

#[test]
fn gx3d_id_of_directional_shader() {
    let bytes = vec![0x02, 0x02, 0x01, 0x00, 0x01, 0x00];
    assert_eq!(bytes.len(), ID_BYTES_COUNT);
    let id = from_gx3d_id(bytes);
    assert_eq!(id, DIRECTIONAL_TEXTURED_SPECULATED_NOCUBE_FULLSHADOW_OPAQUE_ID);
    assert_eq!(from_gx3d_id(vec![0; 6]), WHITE_ID);
}

#[test]
fn gx3d_id_longer_than_eight_bytes_keeps_last_eight() {
    let id = from_gx3d_id(vec![0xAA, 1, 2, 3, 4, 5, 6, 7, 8]);
    assert_eq!(id, 0x0102_0304_0506_0708);
    let id = from_gx3d_id(vec![0xff; 8]);
    assert_eq!(id, u64::MAX);
}

#[test]
fn vertex_sizes() {
    assert_eq!(get_vertex_size(WHITE_ID), 12);
    assert_eq!(
        get_vertex_size(DIRECTIONAL_TEXTURED_SPECULATED_NOCUBE_FULLSHADOW_OPAQUE_ID),
        32
    );
}

#[test]
fn vertex_attributes() {
    assert_eq!(shader_id_to_vertex_attributes(WHITE_ID), vec![Attribute::Vec3F32]);
    assert_eq!(
        shader_id_to_vertex_attributes(DIRECTIONAL_TEXTURED_SPECULATED_NOCUBE_FULLSHADOW_OPAQUE_ID),
        vec![Attribute::Vec3F32, Attribute::Vec3F32, Attribute::Vec2F32]
    );
}

#[test]
fn vertex_size_matches_layout_sizes() {
    for id in [WHITE_ID, DIRECTIONAL_TEXTURED_SPECULATED_NOCUBE_FULLSHADOW_OPAQUE_ID] {
        let total: usize = shader_id_to_vertex_attributes(id)
            .iter()
            .map(|a| match a {
                Attribute::Vec3F32 => 12,
                Attribute::Vec2F32 => 8,
            })
            .sum();
        assert_eq!(total, get_vertex_size(id));
    }
}

#[test]
fn resources_of_known_shaders() {
    for id in [WHITE_ID, DIRECTIONAL_TEXTURED_SPECULATED_NOCUBE_FULLSHADOW_OPAQUE_ID] {
        let r = shader_id_resources(id);
        assert_eq!(r.len(), 1);
        assert_eq!(r[0].0, vec![BindingStage::Vertex]);
        assert_eq!(r[0].1, 1);
        assert_eq!(r[0].2, ResourceType::Uniform);
    }
}

#[test]
fn uniform_sizes() {
    let sizes = UniformSizes {
        white: 64,
        directional_textured_speculated_nocube_fullshadow_opaque: 208,
    };
    assert_eq!(shader_uniform_size(WHITE_ID, &sizes), 64);
    assert_eq!(
        shader_uniform_size(DIRECTIONAL_TEXTURED_SPECULATED_NOCUBE_FULLSHADOW_OPAQUE_ID, &sizes),
        208
    );
}

#[test]
fn two_stage_program() {
    let p = TwoStage::new("vs", "fs");
    assert_eq!(p.get_stages_count(), 2);
    assert_eq!(*p.get_stage(0), "vs");
    assert_eq!(*p.get_stage(1), "fs");
    assert_eq!(*p.get_vertex_stage(), "vs");
    assert_eq!(*p.get_fragment_stage(), "fs");
    assert_eq!(p.as_two_stage().vertex, "vs");
}

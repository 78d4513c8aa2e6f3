use rvff_odol::body::read_lod_body;
use rvff_odol::codec::Cursor;
use rvff_odol::enums::{
    AnimAddressCxx, ClipFlagsCxx, SBSourceCxx, ClipFlagsEnumCxx, EFogModeCxx, EMainLightCxx, MapTypeCxx,
    PixelShaderIDCxx, ResolutionEnumCxx, UVSourceCxx, VertexShaderIDEnumCxx,
};
use rvff_odol::error::DecodeError;
use rvff_odol::index_array::read_index_array;
use rvff_odol::lod::{read_face, read_material, read_proxy, read_rt_weight, read_section, read_selection};
use rvff_odol::model::read_model_info;

fn push_u32(v: &mut Vec<u8>, x: u32) {
    v.extend_from_slice(&x.to_le_bytes());
}

#[test]
fn reads_little_endian_scalars() {
    let data = vec![0x78, 0x56, 0x34, 0x12, 0xff, 0xff, 0x01];
    let mut c = Cursor::new(&data, 0, data.len());
    assert_eq!(c.read_u32(), Ok(0x1234_5678));
    assert_eq!(c.read_i16(), Ok(-1));
    assert_eq!(c.read_bool(), Ok(true));
    assert_eq!(c.pos, 7);
    assert_eq!(c.read_u8(), Err(DecodeError::TruncatedInput));
}

#[test]
fn scalar_past_the_limit_is_truncated() {
    let data = vec![1, 2, 3, 4, 5, 6];
    let mut c = Cursor::new(&data, 3, 6);
    assert_eq!(c.read_u32(), Err(DecodeError::TruncatedInput));
    assert_eq!(c.read_u16(), Ok(0x0504));
}

#[test]
fn reads_zero_terminated_strings() {
    let data = b"abc\0de".to_vec();
    let mut c = Cursor::new(&data, 0, data.len());
    assert_eq!(c.read_asciiz(), Ok(b"abc".to_vec()));
    assert_eq!(c.pos, 4);
    assert_eq!(c.read_asciiz(), Err(DecodeError::TruncatedInput));
}

#[test]
fn absent_field_consumes_nothing() {
    let data = vec![9, 0, 0, 0];
    let mut c = Cursor::new(&data, 0, data.len());
    assert_eq!(c.read_u32_if(3, 4, 77), Ok(77));
    assert_eq!(c.pos, 0);
    assert_eq!(c.read_u32_if(4, 4, 77), Ok(9));
    assert_eq!(c.pos, 4);
}

fn face(t: u8, n: usize, wide: bool) -> Vec<u8> {
    let mut d = vec![t];
    for k in 0..n {
        if wide {
            push_u32(&mut d, 10 + k as u32);
        } else {
            d.extend_from_slice(&(10 + k as u16).to_le_bytes());
        }
    }
    d.extend_from_slice(&[0xee; 8]);
    d
}

#[test]
fn triangle_face_has_three_indices() {
    let d = face(3, 3, true);
    let mut c = Cursor::new(&d, 0, d.len());
    let f = read_face(&mut c, 69).unwrap();
    assert_eq!(f.face_type, 3);
    assert_eq!(f.vertex_indices, vec![10, 11, 12]);
    assert_eq!(c.pos, 13);
}

#[test]
fn quad_face_has_four_indices() {
    let d = face(4, 4, true);
    let mut c = Cursor::new(&d, 0, d.len());
    let f = read_face(&mut c, 73).unwrap();
    assert_eq!(f.vertex_indices, vec![10, 11, 12, 13]);
    assert_eq!(c.pos, 17);
}

#[test]
fn older_faces_have_short_indices() {
    let d = face(4, 4, false);
    let mut c = Cursor::new(&d, 0, d.len());
    let f = read_face(&mut c, 68).unwrap();
    assert_eq!(f.vertex_indices, vec![10, 11, 12, 13]);
    assert_eq!(c.pos, 9);
}

#[test]
fn index_runs_expand_in_order_with_repeats() {
    let mut d = Vec::new();
    push_u32(&mut d, 3);
    push_u32(&mut d, 5);
    d.extend_from_slice(&3u16.to_le_bytes());
    push_u32(&mut d, 5);
    d.extend_from_slice(&2u16.to_le_bytes());
    push_u32(&mut d, u32::MAX);
    d.extend_from_slice(&2u16.to_le_bytes());
    let mut c = Cursor::new(&d, 0, d.len());
    let a = read_index_array(&mut c).unwrap();
    assert_eq!(a.edges, vec![5, 6, 7, 5, 6, u32::MAX, 0]);
    assert_eq!(c.pos, d.len());
}

#[test]
fn index_runs_cut_short_are_truncated() {
    let mut d = Vec::new();
    push_u32(&mut d, 2);
    push_u32(&mut d, 5);
    d.extend_from_slice(&3u16.to_le_bytes());
    let mut c = Cursor::new(&d, 0, d.len());
    assert_eq!(read_index_array(&mut c), Err(DecodeError::TruncatedInput));
}

fn proxy_bytes(with_section: bool) -> Vec<u8> {
    let mut d = b"p.p3d\0".to_vec();
    d.extend_from_slice(&[0u8; 48]);
    push_u32(&mut d, 1);
    push_u32(&mut d, 2);
    push_u32(&mut d, 3);
    if with_section {
        push_u32(&mut d, 4);
    }
    d
}

#[test]
fn proxy_section_index_is_versioned() {
    let old = proxy_bytes(false);
    let mut c = Cursor::new(&old, 0, old.len());
    let p = read_proxy(&mut c, 39).unwrap();
    assert_eq!(c.pos, 66);
    assert_eq!(p.section_index, -1);
    assert_eq!(p.bone_index, 3);
    let new = proxy_bytes(true);
    let mut c = Cursor::new(&new, 0, new.len());
    let p = read_proxy(&mut c, 40).unwrap();
    assert_eq!(c.pos, 70);
    assert_eq!(p.section_index, 4);
    assert_eq!(p.proxy_model, b"p.p3d".to_vec());
}

fn material_bytes(version: u32) -> Vec<u8> {
    let mut d = b"m.rvmat\0".to_vec();
    push_u32(&mut d, version);
    d.extend_from_slice(&[0u8; 96]);
    push_u32(&mut d, 0x4120_0000); // specular power 10.0
    push_u32(&mut d, 2); // pixel shader
    push_u32(&mut d, 1); // vertex shader
    if version >= 3 {
        push_u32(&mut d, 1); // main light
    }
    if version >= 4 {
        push_u32(&mut d, 3); // fog mode
    }
    d.extend_from_slice(b"s.bisurf\0");
    push_u32(&mut d, 1); // count of render flags
    push_u32(&mut d, 5); // render flags
    push_u32(&mut d, 1); // one texture stage
    push_u32(&mut d, 1); // one transform stage
    push_u32(&mut d, 6);
    d.extend_from_slice(b"t.paa\0");
    push_u32(&mut d, 0);
    if version >= 10 {
        d.push(1);
    }
    push_u32(&mut d, 42); // an unknown texture-coordinate source
    d.extend_from_slice(&[0u8; 48]);
    if version >= 11 {
        push_u32(&mut d, 7); // trailing stage
        d.extend_from_slice(b"d.paa\0");
        push_u32(&mut d, 8);
        d.push(0);
    }
    d
}

#[test]
fn material_fields_follow_its_version() {
    let d = material_bytes(11);
    let mut c = Cursor::new(&d, 0, d.len());
    let m = read_material(&mut c).unwrap();
    assert_eq!(c.pos, d.len());
    assert_eq!(m.material_name, b"m.rvmat".to_vec());
    assert_eq!(m.specular_power, 0x4120_0000);
    assert_eq!(m.pixel_shader, PixelShaderIDCxx::PSNormalMap);
    assert_eq!(m.vertex_shader.e, VertexShaderIDEnumCxx::VSNormalMap);
    assert_eq!(m.main_light, EMainLightCxx::ML_Sun);
    assert_eq!(m.fog_mode, EFogModeCxx::FM_FogAlpha);
    assert_eq!(m.surface_file, b"s.bisurf".to_vec());
    assert_eq!(m.stage_textures.len(), 1);
    assert!(m.stage_textures[0].use_world_env);
    assert_eq!(m.stage_transforms[0].uv_source, UVSourceCxx::Unknown(42));
    assert_eq!((m.n_render_flags, m.render_flags), (1, 5));
    assert_eq!((m.texture_count, m.transform_count), (1, 1));
    assert_eq!(m.dummy_stage_textures.texture, b"d.paa".to_vec());
    assert_eq!(m.dummy_stage_textures.stage_id, 8);

    let d = material_bytes(2);
    let mut c = Cursor::new(&d, 0, d.len());
    let m = read_material(&mut c).unwrap();
    assert_eq!(c.pos, d.len());
    assert_eq!(m.main_light, EMainLightCxx::ML_None);
    assert_eq!(m.fog_mode, EFogModeCxx::FM_None);
    assert!(!m.stage_textures[0].use_world_env);
    assert!(m.dummy_stage_textures.texture.is_empty());
}

#[test]
fn section_material_path_only_for_index_minus_one() {
    let mut d = vec![0u8; 26];
    d.extend_from_slice(&(-1i32).to_le_bytes());
    d.extend_from_slice(b"x.rvmat\0");
    let mut c = Cursor::new(&d, 0, d.len());
    let s = read_section(&mut c, 28).unwrap();
    assert_eq!(s.material, b"x.rvmat".to_vec());
    assert_eq!(c.pos, d.len());
    assert!(s.short_indices);
    assert!(s.stages.is_empty());

    let mut d = vec![0u8; 26];
    d.extend_from_slice(&2i32.to_le_bytes());
    d.extend_from_slice(b"x\0");
    let mut c = Cursor::new(&d, 0, d.len());
    let s = read_section(&mut c, 28).unwrap();
    assert!(s.material.is_empty());
    assert_eq!(c.pos, 30);
}

#[test]
fn section_stages_and_matrix_follow_version() {
    let mut d = vec![0u8; 26];
    d.extend_from_slice(&2i32.to_le_bytes());
    push_u32(&mut d, 2); // two stage values
    push_u32(&mut d, 0x3f80_0000);
    push_u32(&mut d, 0x4000_0000);
    d.push(1); // an extra matrix follows
    d.extend_from_slice(&[9u8; 48]);
    let mut c = Cursor::new(&d, 0, d.len());
    let s = read_section(&mut c, 69).unwrap();
    assert_eq!(c.pos, d.len());
    assert!(!s.short_indices);
    assert_eq!(s.stage_count, 2);
    assert_eq!(s.stages, vec![0x3f80_0000, 0x4000_0000]);
    assert!(s.unk_matrix_exists);
    assert_eq!(s.unk_matrix._3.z, 0x0909_0909);

    let mut c = Cursor::new(&d, 0, d.len());
    let s = read_section(&mut c, 40).unwrap();
    assert_eq!(c.pos, 42);
    assert!(!s.unk_matrix_exists);
}

#[test]
fn vertex_weights_use_at_most_four_pairs() {
    let mut d = Vec::new();
    d.extend_from_slice(&2i32.to_le_bytes());
    d.extend_from_slice(&[1, 100, 2, 50, 3, 0, 4, 0]);
    let mut c = Cursor::new(&d, 0, d.len());
    let w = read_rt_weight(&mut c).unwrap();
    assert_eq!(w.animation_rt_pairs.len(), 2);
    assert_eq!(w.animation_rt_pairs[1].selection_index, 2);
    assert_eq!(w.animation_rt_pairs[1].weight, 50);
    assert_eq!(w.small_space, vec![1, 100, 2, 50, 3, 0, 4, 0]);

    let mut d = Vec::new();
    d.extend_from_slice(&9i32.to_le_bytes());
    d.extend_from_slice(&[0; 8]);
    let mut c = Cursor::new(&d, 0, d.len());
    assert_eq!(read_rt_weight(&mut c).unwrap().animation_rt_pairs.len(), 4);
}

#[test]
fn clip_flags_three_keeps_both_bits() {
    let f = ClipFlagsCxx::from_value(3);
    assert_eq!(f.value, 3);
    assert_eq!(f.res, ClipFlagsEnumCxx::Unknown);
    assert!(f.has_flag(ClipFlagsEnumCxx::ClipFront));
    assert!(f.has_flag(ClipFlagsEnumCxx::ClipBack));
    assert!(!f.has_flag(ClipFlagsEnumCxx::ClipLeft));
    assert!(!f.has_flag(ClipFlagsEnumCxx::ClipNoneNormal));
}

#[test]
fn clip_flags_single_values_are_named() {
    assert_eq!(ClipFlagsCxx::from_value(1).res, ClipFlagsEnumCxx::ClipFront);
    assert_eq!(ClipFlagsCxx::from_value(0).res, ClipFlagsEnumCxx::ClipNoneNormal);
    assert_eq!(ClipFlagsCxx::from_value(268435200).res, ClipFlagsEnumCxx::ClipHints);
    assert!(ClipFlagsCxx::from_value(0).has_flag(ClipFlagsEnumCxx::ClipNoneNormal));
}

#[test]
fn enum_codes_resolve_or_fall_back() {
    assert_eq!(PixelShaderIDCxx::from_code(0), PixelShaderIDCxx::PSNormal);
    assert_eq!(PixelShaderIDCxx::from_code(u32::MAX), PixelShaderIDCxx::PSUninitialized);
    assert_eq!(PixelShaderIDCxx::from_code(5000), PixelShaderIDCxx::Unknown(5000));
    assert_eq!(PixelShaderIDCxx::from_code(5000).code(), 5000);
    assert_eq!(PixelShaderIDCxx::PSTreeAdvTrunk.code(), 116);
    assert_eq!(PixelShaderIDCxx::from_code(116), PixelShaderIDCxx::PSTreeAdvTrunk);
    assert_eq!(MapTypeCxx::from_code(11), MapTypeCxx::MapRock);
    assert_eq!(MapTypeCxx::from_code(13), MapTypeCxx::MapFortress);
    assert_eq!(MapTypeCxx::from_code(37), MapTypeCxx::Unknown(37));
    assert_eq!(AnimAddressCxx::from_code(2), AnimAddressCxx::AnimMirror);
    assert_eq!(AnimAddressCxx::from_code(4), AnimAddressCxx::Unknown(4));
    assert_eq!(VertexShaderIDEnumCxx::from_code(35), VertexShaderIDEnumCxx::NVertexShaderID);
    assert_eq!(VertexShaderIDEnumCxx::from_code(36), VertexShaderIDEnumCxx::Unknown(36));
}

#[test]
fn resolutions_resolve_by_value() {
    let r = |v: f32| ResolutionEnumCxx::from_bits(v.to_bits());
    assert_eq!(r(0.0), ResolutionEnumCxx::GraphicalLod);
    assert_eq!(r(999.0), ResolutionEnumCxx::GraphicalLod);
    assert_eq!(r(1000.0), ResolutionEnumCxx::ViewGunner);
    assert_eq!(r(1100.0), ResolutionEnumCxx::ViewPilot);
    assert_eq!(r(1200.0), ResolutionEnumCxx::ViewCargo);
    assert_eq!(r(5000.0), ResolutionEnumCxx::ViewUnknown);
    assert_eq!(r(10000.0), ResolutionEnumCxx::ShadowVolume);
    assert_eq!(r(15000.0), ResolutionEnumCxx::StencilShadowUnknown);
    assert_eq!(r(1e13), ResolutionEnumCxx::Geometry);
    assert_eq!(r(1e15), ResolutionEnumCxx::Memory);
    assert_eq!(r(7e15), ResolutionEnumCxx::FireGeometry);
    assert_eq!(r(2.1e16), ResolutionEnumCxx::Wreck);
    assert_eq!(r(3e20), ResolutionEnumCxx::Unknown);
    assert_eq!(r(-1.0), ResolutionEnumCxx::Unknown);
}

#[test]
fn full_body_of_a_recent_model() {
    let mut b = Vec::new();
    push_u32(&mut b, 0); // proxies
    push_u32(&mut b, 2); // lod items
    push_u32(&mut b, 7);
    push_u32(&mut b, 8);
    push_u32(&mut b, 0); // bone links
    push_u32(&mut b, 2); // vertex count
    b.extend_from_slice(&[0u8; 52]);
    push_u32(&mut b, 0); // textures
    push_u32(&mut b, 0); // materials
    push_u32(&mut b, 0); // mlod edges
    push_u32(&mut b, 1); // vertex edges: one run
    push_u32(&mut b, 0);
    b.extend_from_slice(&2u16.to_le_bytes());
    push_u32(&mut b, 1); // one face
    b.push(3);
    push_u32(&mut b, 0);
    push_u32(&mut b, 1);
    push_u32(&mut b, 0);
    push_u32(&mut b, 0); // sections
    push_u32(&mut b, 0); // selections
    push_u32(&mut b, 1); // one property
    b.extend_from_slice(b"class\0house\0");
    push_u32(&mut b, 0); // frames
    push_u32(&mut b, 0xff00_00ff); // icon colour
    b.extend_from_slice(&[0u8; 13]);
    push_u32(&mut b, 3); // clip flags of vertex 0
    push_u32(&mut b, 0); // clip flags of vertex 1
    b.push(0); // default set, not discretized
    b.extend_from_slice(&[0u8; 16]);
    push_u32(&mut b, 2);
    b.push(0); // one value per vertex
    push_u32(&mut b, 11);
    push_u32(&mut b, 12);
    push_u32(&mut b, 0); // further sets
    b.extend_from_slice(&[1u8; 24]); // vertices
    b.extend_from_slice(&[2u8; 24]); // normals
    b.extend_from_slice(&[3u8; 48]); // texture-space pairs
    b.extend_from_slice(&[0u8; 24]); // bone weights
    push_u32(&mut b, 0); // neighbours
    let mut c = Cursor::new(&b, 0, b.len());
    let lod = read_lod_body(&mut c, 73).unwrap();
    assert_eq!(c.pos, b.len());
    assert_eq!(lod.lod_items, vec![7, 8]);
    assert!(lod.clip_old_format.is_empty());
    assert_eq!(lod.clip.len(), 2);
    assert!(lod.clip[0].has_flag(ClipFlagsEnumCxx::ClipBack));
    assert_eq!(lod.lod_edges.vertex_index.edges, vec![0, 1]);
    assert_eq!(lod.faces[0].vertex_indices, vec![0, 1, 0]);
    assert_eq!(lod.named_properties[0].property, b"class".to_vec());
    assert_eq!(lod.named_properties[0].value, b"house".to_vec());
    assert_eq!(lod.icon_color, 0xff00_00ff);
    assert_eq!(lod.default_uv_set.uv_data, vec![11, 12]);
    assert_eq!(lod.vertices.len(), 2);
    assert_eq!(lod.vertices[1].x, 0x0101_0101);
    assert_eq!(lod.normals[0].z, 0x0202_0202);
    assert_eq!(lod.st_coords.len(), 2);
    assert_eq!(lod.vertex_bone_ref.len(), 2);

    // The same bytes read as a model of format 44 lack the clip flags and
    // the texture-space pairs, so they do not decode to the same end.
    let mut c = Cursor::new(&b, 0, b.len());
    let older = read_lod_body(&mut c, 44);
    assert!(older.is_err() || c.pos != b.len());
}

#[test]
fn legacy_clip_flags_follow_the_vertex_count() {
    let mut b = Vec::new();
    push_u32(&mut b, 0); // proxies
    push_u32(&mut b, 0); // lod items
    push_u32(&mut b, 0); // bone links
    push_u32(&mut b, 1); // vertex count
    push_u32(&mut b, 2); // legacy clip flags of the vertex
    b.extend_from_slice(&[0u8; 52]);
    for _ in 0..9 {
        push_u32(&mut b, 0); // textures to frames
    }
    b.extend_from_slice(&[0u8; 17]);
    b.extend_from_slice(&[0u8; 21]);
    b.push(1);
    push_u32(&mut b, 0);
    push_u32(&mut b, 0); // further sets
    b.extend_from_slice(&[0u8; 24]); // vertex and normal
    b.extend_from_slice(&[0u8; 12]); // bone weights
    push_u32(&mut b, 0); // neighbours
    let mut c = Cursor::new(&b, 0, b.len());
    let lod = read_lod_body(&mut c, 30).unwrap();
    assert_eq!(c.pos, b.len());
    assert_eq!(lod.clip_old_format.len(), 1);
    assert_eq!(lod.clip_old_format[0].res, ClipFlagsEnumCxx::ClipBack);
    assert!(lod.clip.is_empty());
}

#[test]
fn selection_keeps_its_section_indices() {
    let mut d = b"door\0".to_vec();
    push_u32(&mut d, 0); // no selected faces
    d.push(1); // sectional
    push_u32(&mut d, 2);
    d.extend_from_slice(&(-1i32).to_le_bytes());
    d.extend_from_slice(&3i32.to_le_bytes());
    push_u32(&mut d, 0); // no selected vertices
    push_u32(&mut d, 0); // no weights
    let mut c = Cursor::new(&d, 0, d.len());
    let s = read_selection(&mut c).unwrap();
    assert_eq!(c.pos, d.len());
    assert!(s.is_sectional);
    assert_eq!(s.vertex_indices, vec![-1, 3]);
}

#[test]
fn model_information_of_the_newest_version() {
    let mut d = vec![0u8; 44]; // ids
    d.extend_from_slice(&[0u8; 72]); // bounds with density and importance
    d.extend_from_slice(&[1u8; 24]); // visual box
    for v in 1..=6u32 {
        push_u32(&mut d, v); // heat values, mass factor, body temperature
    }
    d.extend_from_slice(&[0u8; 36]); // inertia
    d.extend_from_slice(&[0u8; 10]); // flags
    d.push(1); // ai covers
    d.push(0); // force not alpha
    push_u32(&mut d, 4); // shadow-buffer source
    d.push(0); // no skeleton
    d.extend_from_slice(&[0u8; 17 + 14]);
    push_u32(&mut d, 1); // one point mass
    push_u32(&mut d, 0x4120_0000);
    push_u32(&mut d, 7); // explosion shielding
    d.extend_from_slice(b"c\0d\0");
    push_u32(&mut d, 0); // min shadow
    d.push(1); // can blend
    d.push(1); // property frequent
    push_u32(&mut d, 99); // unnamed value
    d.extend_from_slice(&(-1i32).to_le_bytes());
    d.extend_from_slice(&2i32.to_le_bytes());
    d.extend_from_slice(&3i32.to_le_bytes());
    let mut c = Cursor::new(&d, 0, d.len());
    let info = read_model_info(&mut c, 75, 1).unwrap();
    assert_eq!(c.pos, d.len());
    assert_eq!(info.bbox_max_visual.z, 0x0101_0101);
    assert_eq!((info.ht_min, info.mf_max, info.t_body), (1, 4, 6));
    assert!(info.ai_covers);
    assert_eq!(info.sb_source, SBSourceCxx::SBS_VisualEx);
    assert_eq!(info.mass_array, vec![0x4120_0000]);
    assert_eq!(info.property_explosion_shielding, 7);
    assert_eq!(info.property_class, b"c".to_vec());
    assert!(info.property_frequent);
    assert_eq!(info.unknown_int, 99);
    assert_eq!(info.prefferred_shadow_volumne_lod, vec![-1]);
    assert_eq!(info.prefferred_shadow_buffer_lod, vec![2]);
    assert_eq!(info.prefferred_shadow_buffer_lod_vis, vec![3]);
}

use rvff_odol::enums::ResolutionEnumCxx;
use rvff_odol::error::DecodeError;
use rvff_odol::reader::create_odol_lazy_reader_vec;

const GRAPHICAL: u32 = 0x3f80_0000; // 1.0
const GEOMETRY: u32 = 0x5511_84e7; // 1e13

fn push_u32(v: &mut Vec<u8>, x: u32) {
    v.extend_from_slice(&x.to_le_bytes());
}

/// A body of a format-28 model with no vertices whose single texture path
/// has `pad` bytes: 155 + pad + 1 bytes in all.
fn body(pad: usize) -> Vec<u8> {
    let mut b = Vec::new();
    push_u32(&mut b, 0); // proxies
    push_u32(&mut b, 0); // lod items
    push_u32(&mut b, 0); // bone links
    push_u32(&mut b, 0); // vertex count
    b.extend_from_slice(&[0u8; 52]); // area, hints, bounds
    push_u32(&mut b, 1); // textures
    b.extend(std::iter::repeat(b'a').take(pad));
    b.push(0);
    push_u32(&mut b, 0); // materials
    push_u32(&mut b, 0); // mlod edges
    push_u32(&mut b, 0); // vertex edges
    push_u32(&mut b, 0); // faces
    push_u32(&mut b, 0); // sections
    push_u32(&mut b, 0); // selections
    push_u32(&mut b, 0); // properties
    push_u32(&mut b, 0); // frames
    b.extend_from_slice(&[0u8; 17]);
    b.extend_from_slice(&[0u8; 21]); // default texture-coordinate set
    b.push(1); // filled with one value
    push_u32(&mut b, 0);
    push_u32(&mut b, 0); // further sets
    push_u32(&mut b, 0); // neighbours
    b
}

/// The header of a model of format `version` (below 58, so without
/// application id and prefix) declaring `res` with the given ranges.
fn header(version: u32, res: &[u32], ranges: &[(u32, u32)]) -> Vec<u8> {
    header_with_animations(version, res, ranges, &[0])
}

/// As `header`, with `anims` as the animation block.
fn header_with_animations(version: u32, res: &[u32], ranges: &[(u32, u32)], anims: &[u8]) -> Vec<u8> {
    let mut h = b"ODOL".to_vec();
    push_u32(&mut h, version);
    push_u32(&mut h, res.len() as u32);
    for r in res {
        push_u32(&mut h, *r);
    }
    h.extend_from_slice(&[0u8; 44]); // ids
    h.extend_from_slice(&[0u8; 64]); // bounds
    h.extend_from_slice(&[0u8; 36]); // inertia
    h.extend_from_slice(&[0u8; 10]); // flags and shadow offset
    h.push(0); // skeleton without name
    h.extend_from_slice(&[0u8; 17]); // map type and masses
    h.extend_from_slice(&[0u8; 14]); // special levels of detail
    h.push(0); // property class
    h.push(0); // property damage
    push_u32(&mut h, 0); // min shadow
    h.push(0); // can blend
    h.extend_from_slice(anims);
    for (s, _) in ranges {
        push_u32(&mut h, *s);
    }
    for (_, e) in ranges {
        push_u32(&mut h, *e);
    }
    for _ in ranges {
        h.push(1);
    }
    h
}

/// A model with two levels of detail of 400 bytes each at 300..700 and
/// 700..1100 in an input of 1100 bytes.
fn two_lod_model() -> Vec<u8> {
    let mut m = header(28, &[GRAPHICAL, GEOMETRY], &[(300, 700), (700, 1100)]);
    assert!(m.len() <= 300);
    m.resize(300, 0);
    m.extend(body(244));
    m.extend(body(244));
    assert_eq!(m.len(), 1100);
    m
}

/// The rest of a body after its proxies and items, with a texture path of
/// `pad` bytes: 148 + pad bytes.
fn body_rest(pad: usize) -> Vec<u8> {
    body(pad)[8..].to_vec()
}

/// Two levels of detail at 100..500 and 500..900 in an input of 900 bytes.
/// The header is 232 bytes long, so the first body starts inside it: at 100
/// stand a zero proxy count and an item count of 31 (two coordinates of the
/// model information), and the 31 items are the header's last 124 bytes.
fn scenario_model() -> Vec<u8> {
    let mut m = header(28, &[GRAPHICAL, GEOMETRY], &[(100, 500), (500, 900)]);
    assert_eq!(m.len(), 232);
    m[104..108].copy_from_slice(&31u32.to_le_bytes());
    m.extend(body_rest(120));
    assert_eq!(m.len(), 500);
    m.extend(body(244));
    assert_eq!(m.len(), 900);
    m
}

#[test]
fn scenario_graphical_at_100_and_wreck_absent() {
    let data = scenario_model();
    let mut rd = create_odol_lazy_reader_vec(&data).unwrap();
    assert_eq!(rd.get_odol().start_address_of_lods, vec![100, 500]);
    assert_eq!(rd.get_odol().end_address_of_lods, vec![500, 900]);
    let lod = rd.read_lod(ResolutionEnumCxx::GraphicalLod).unwrap();
    assert_eq!(rd.pos(), 500);
    assert_eq!(lod.lod_items.len(), 31);
    assert_eq!(lod.textures[0].len(), 120);
    assert_eq!(rd.read_lod(ResolutionEnumCxx::Wreck), Err(DecodeError::ResolutionNotFound));
    let geometry = rd.read_lod(ResolutionEnumCxx::Geometry).unwrap();
    assert_eq!(rd.pos(), 900);
    assert_eq!(geometry.textures[0].len(), 244);
}

#[test]
fn scenario_two_lods_graphical_and_wreck() {
    let data = two_lod_model();
    let mut rd = create_odol_lazy_reader_vec(&data).unwrap();
    assert_eq!(rd.get_odol().start_address_of_lods, vec![300, 700]);
    assert_eq!(rd.get_odol().end_address_of_lods, vec![700, 1100]);
    let lod = rd.read_lod(ResolutionEnumCxx::GraphicalLod).unwrap();
    assert_eq!(rd.pos(), 700);
    assert_eq!(lod.textures.len(), 1);
    assert_eq!(lod.textures[0].len(), 244);
    assert_eq!(rd.read_lod(ResolutionEnumCxx::Wreck), Err(DecodeError::ResolutionNotFound));
}

#[test]
fn header_records_resolutions_and_ranges() {
    let data = two_lod_model();
    let rd = create_odol_lazy_reader_vec(&data).unwrap();
    let o = rd.get_odol();
    assert_eq!(o.version, 28);
    assert_eq!(o.lod_count, 2);
    assert_eq!(o.resolutions.len(), 2);
    assert_eq!(o.resolutions[0].value, GRAPHICAL);
    assert_eq!(o.resolutions[0].res, ResolutionEnumCxx::GraphicalLod);
    assert_eq!(o.resolutions[1].res, ResolutionEnumCxx::Geometry);
    assert_eq!(o.use_defaults, vec![true, true]);
    assert!(o.face_defaults.is_empty());
    assert_eq!(o.app_id, 0);
    assert!(o.prefix.is_empty());
}

#[test]
fn second_lod_decodes_to_its_end() {
    let data = two_lod_model();
    let mut rd = create_odol_lazy_reader_vec(&data).unwrap();
    let lod = rd.read_lod(ResolutionEnumCxx::Geometry).unwrap();
    assert_eq!(rd.pos(), 1100);
    assert_eq!(lod.vertex_count, 0);
}

#[test]
fn failed_lookup_leaves_reader_usable() {
    let data = two_lod_model();
    let mut rd = create_odol_lazy_reader_vec(&data).unwrap();
    assert_eq!(rd.read_lod(ResolutionEnumCxx::Memory), Err(DecodeError::ResolutionNotFound));
    assert!(rd.read_lod(ResolutionEnumCxx::Geometry).is_ok());
}

#[test]
fn redecoding_gives_identical_bodies() {
    let data = two_lod_model();
    let mut rd = create_odol_lazy_reader_vec(&data).unwrap();
    let a = rd.read_lod(ResolutionEnumCxx::GraphicalLod).unwrap();
    let _ = rd.read_lod(ResolutionEnumCxx::Geometry).unwrap();
    let b = rd.read_lod(ResolutionEnumCxx::GraphicalLod).unwrap();
    assert_eq!(a, b);
}

#[test]
fn lookup_by_value_prefers_exact_match() {
    let data = two_lod_model();
    let mut rd = create_odol_lazy_reader_vec(&data).unwrap();
    assert!(rd.read_lod_value(GEOMETRY).is_ok());
    assert_eq!(rd.pos(), 1100);
    // 2.0 is declared nowhere; it falls back to the first graphical level.
    assert!(rd.read_lod_value(0x4000_0000).is_ok());
    assert_eq!(rd.pos(), 700);
    assert_eq!(rd.read_lod_value(0x5a95_36c7), Err(DecodeError::ResolutionNotFound));
}

#[test]
fn body_shorter_than_range_is_a_mismatch() {
    let mut m = header(28, &[GRAPHICAL], &[(300, 704)]);
    m.resize(300, 0);
    m.extend(body(244));
    m.extend_from_slice(&[0, 0, 0, 0]);
    let mut rd = create_odol_lazy_reader_vec(&m).unwrap();
    assert_eq!(rd.read_lod(ResolutionEnumCxx::GraphicalLod), Err(DecodeError::BodyLengthMismatch));
}

#[test]
fn body_longer_than_range_is_a_mismatch() {
    let mut m = header(28, &[GRAPHICAL], &[(300, 690)]);
    m.resize(300, 0);
    m.extend(body(244));
    let mut rd = create_odol_lazy_reader_vec(&m).unwrap();
    assert_eq!(rd.read_lod(ResolutionEnumCxx::GraphicalLod), Err(DecodeError::BodyLengthMismatch));
}

#[test]
fn body_cut_by_the_end_of_input_is_truncated() {
    let mut m = header(28, &[GRAPHICAL], &[(300, 690)]);
    m.resize(300, 0);
    m.extend(body(244));
    m.truncate(690);
    let mut rd = create_odol_lazy_reader_vec(&m).unwrap();
    assert_eq!(rd.read_lod(ResolutionEnumCxx::GraphicalLod), Err(DecodeError::TruncatedInput));
}

#[test]
fn unknown_magic_is_malformed() {
    let mut m = two_lod_model();
    m[0] = b'X';
    assert_eq!(create_odol_lazy_reader_vec(&m).err(), Some(DecodeError::MalformedHeader));
}

#[test]
fn unknown_versions_are_malformed() {
    let mut m = two_lod_model();
    m[4] = 27;
    assert_eq!(create_odol_lazy_reader_vec(&m).err(), Some(DecodeError::MalformedHeader));
    m[4] = 76;
    assert_eq!(create_odol_lazy_reader_vec(&m).err(), Some(DecodeError::MalformedHeader));
}

#[test]
fn short_inputs_are_truncated() {
    assert_eq!(create_odol_lazy_reader_vec(&b"ODOL".to_vec()).err(), Some(DecodeError::TruncatedInput));
    let h = header(28, &[GRAPHICAL], &[(0, 0)]);
    let cut = h[..h.len() - 1].to_vec();
    assert_eq!(create_odol_lazy_reader_vec(&cut).err(), Some(DecodeError::TruncatedInput));
}

#[test]
fn range_past_the_input_is_malformed() {
    let mut m = header(28, &[GRAPHICAL], &[(300, 800)]);
    m.resize(700, 0);
    assert_eq!(create_odol_lazy_reader_vec(&m).err(), Some(DecodeError::MalformedHeader));
}

#[test]
fn overlapping_ranges_are_malformed() {
    let mut m = header(28, &[GRAPHICAL, GEOMETRY], &[(300, 700), (600, 1000)]);
    m.resize(1000, 0);
    assert_eq!(create_odol_lazy_reader_vec(&m).err(), Some(DecodeError::MalformedHeader));
}

#[test]
fn start_after_end_is_malformed() {
    let mut m = header(28, &[GRAPHICAL], &[(500, 400)]);
    m.resize(600, 0);
    assert_eq!(create_odol_lazy_reader_vec(&m).err(), Some(DecodeError::MalformedHeader));
}

#[test]
fn newer_header_reads_app_id_and_prefix() {
    let mut h = b"ODOL".to_vec();
    push_u32(&mut h, 59);
    push_u32(&mut h, 7); // app id
    h.extend_from_slice(b"a\\b\0");
    push_u32(&mut h, 0); // no levels of detail
    h.extend_from_slice(&[0u8; 44 + 64]); // ids and bounds
    h.extend_from_slice(&[0u8; 24 + 16]); // visual box and heat values
    push_u32(&mut h, 3); // mass factor
    push_u32(&mut h, 0); // body temperature
    h.extend_from_slice(&[0u8; 36 + 10]); // inertia and flags
    h.push(1); // force not alpha
    h.push(0); // no skeleton
    h.extend_from_slice(&[0u8; 17 + 14]);
    push_u32(&mut h, 0); // no point masses
    h.extend_from_slice(b"\0\0");
    push_u32(&mut h, 0); // min shadow
    h.push(0); // can blend
    h.push(1); // property frequent
    push_u32(&mut h, 5); // unnamed value
    h.push(0); // no animations
    let rd = create_odol_lazy_reader_vec(&h).unwrap();
    assert_eq!(rd.get_odol().app_id, 7);
    assert!(rd.get_odol().muzzle_flash.is_empty());
    assert_eq!(rd.get_odol().model_info.m_fact, 3);
    assert!(rd.get_odol().model_info.force_not_alpha);
    assert!(!rd.get_odol().model_info.ai_covers);
    assert_eq!(rd.get_odol().model_info.unknown_int, 5);
    assert_eq!(rd.get_odol().prefix, b"a\\b".to_vec());
    assert_eq!(rd.get_odol().lod_count, 0);
}

#[test]
fn model_information_fields_are_placed() {
    let mut m = header(28, &[], &[]);
    // model information starts at 12 in a header without levels of detail
    m[12..16].copy_from_slice(&5u32.to_le_bytes()); // index
    m[60..64].copy_from_slice(&0x3f80_0000u32.to_le_bytes()); // bounding box min x
    let flags = 12 + 44 + 64 + 36;
    m[flags + 4] = 1; // animated
    m[flags + 6..flags + 10].copy_from_slice(&9u32.to_le_bytes());
    let mass = flags + 10 + 1;
    m[mass] = 11; // map icon
    m[mass + 1 + 16 + 8] = 0xff; // the signed special index
    let rd = create_odol_lazy_reader_vec(&m).unwrap();
    let info = &rd.get_odol().model_info;
    assert_eq!(info.index, 5);
    assert_eq!(info.bbox_min_pos.x, 0x3f80_0000);
    assert!(info.animated);
    assert!(!info.auto_center);
    assert_eq!(info.shadow_offset, 9);
    assert_eq!(info.map_type, 11);
    assert_eq!(info.map_type_kind(), rvff_odol::enums::MapTypeCxx::MapRock);
    assert_eq!(info.unknown_signedbyte, -1);
    assert_eq!(info.inv_intertia.len(), 3);
    assert!(info.skeleton.name.is_empty());
}

fn anim_class(kind: u32, name: &[u8]) -> Vec<u8> {
    let mut a = Vec::new();
    push_u32(&mut a, kind);
    a.extend_from_slice(name);
    a.push(0);
    a.extend_from_slice(b"door\0");
    for v in [0u32, 0x3f80_0000, 0, 0x3f80_0000, 1] {
        push_u32(&mut a, v);
    }
    match kind {
        0..=7 => {
            push_u32(&mut a, 0);
            push_u32(&mut a, 0x3fc9_0fdb); // pi / 2
        }
        8 => a.extend_from_slice(&[0u8; 32]),
        9 => push_u32(&mut a, 0x3f00_0000), // 0.5
        _ => {}
    }
    a
}

#[test]
fn animation_tables_follow_class_kinds() {
    let mut anims = vec![1u8];
    push_u32(&mut anims, 2); // two classes
    anims.extend(anim_class(0, b"rot"));
    anims.extend(anim_class(9, b"hide"));
    push_u32(&mut anims, 1); // one bone in the only level of detail
    push_u32(&mut anims, 2);
    push_u32(&mut anims, 0);
    push_u32(&mut anims, 1);
    anims.extend_from_slice(&0i32.to_le_bytes()); // rotation: bone 0 and an axis
    anims.extend_from_slice(&[5u8; 24]);
    anims.extend_from_slice(&0i32.to_le_bytes()); // hiding: bone 0 alone
    let m = header_with_animations(28, &[GRAPHICAL], &[(0, 0)], &anims);
    let rd = create_odol_lazy_reader_vec(&m).unwrap();
    let o = rd.get_odol();
    assert!(o.has_anims);
    let a = &o.animations;
    assert_eq!(a.animation_classes.len(), 2);
    assert_eq!(a.animation_classes[0].anim_transform_type, rvff_odol::enums::AnimTypeCxx::Rotation);
    assert_eq!(a.animation_classes[1].anim_class_name, b"hide".to_vec());
    assert_eq!(a.animation_classes[0].source_address, rvff_odol::enums::AnimAddressCxx::AnimLoop);
    assert_eq!(a.animation_classes[0].angle_1, 0x3fc9_0fdb);
    assert_eq!(a.animation_classes[1].hide_value, 0x3f00_0000);
    assert_eq!(a.animation_classes[1].angle_1, 0);
    assert_eq!(a.bones_2_anims[0].bone_2_anim_class_list[0].animation_class_index, vec![0, 1]);
    let axes = &a.anims_2_bones[0].animation_class_indices;
    assert_eq!(axes.len(), 2);
    assert_eq!(axes[0].axis_pos.x, 0x0505_0505);
    assert_eq!(axes[1].axis_pos.x, 0);
}

#[test]
fn face_defaults_only_for_levels_without_shared_defaults() {
    let mut m = header(28, &[GRAPHICAL, GEOMETRY], &[(0, 0), (0, 0)]);
    let n = m.len();
    m[n - 2] = 0; // the first level declares its own face data
    push_u32(&mut m, 12); // face count
    push_u32(&mut m, 0xffff_ffff); // colour
    push_u32(&mut m, 0); // special
    push_u32(&mut m, 0); // or-hints
    push_u32(&mut m, 36); // vertex count
    push_u32(&mut m, 0x4000_0000); // face area
    let rd = create_odol_lazy_reader_vec(&m).unwrap();
    assert_eq!(rd.get_odol().use_defaults, vec![false, true]);
    assert_eq!(rd.get_odol().face_defaults.len(), 1);
    let f = rd.get_odol().face_defaults[0];
    assert_eq!(f.header_face_count, 12);
    assert_eq!(f.vertices_count, 36);
    assert_eq!(f.face_area, 0x4000_0000);
    assert!(!f.has_skeleton);
}

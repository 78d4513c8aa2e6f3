//! Properties of the decoders that relate several functions or hold of every
//! input, each stated over the spec functions that the decoders' contracts use.
use vstd::prelude::*;

use crate::body::{
    clip_flags_spec, lod_links_spec, lod_spec, lod_surface_spec, st_coords_spec, LodView,
};
use crate::codec::{asciiz_spec, counted_spec, lemma_seq_len, present, seq_spec, u32_at};
use crate::enums::{ClipFlagsCxx, ResolutionEnumCxx, SBSourceCxx, GRAPHICAL_LIMIT};
use crate::error::DecodeError;
use crate::lod::{
    face_reader, face_spec, index_reader, proxy_reader, proxy_spec, section_reader,
    shading_spec, stage_texture_spec, LodFaceView, LodSectionView, ProxyView,
};
use crate::model::{
    anim_class_reader, animations_spec, face_data_spec, info_bounds_spec, resolution_reader,
};
use crate::odol::{
    header_front_spec, header_outcome, lemma_front_length, lemma_table_lengths, OdolView,
};
use crate::reader::{lod_at_outcome, tag_index, tag_outcome, value_outcome, OdolLazyReaderCxx};
use crate::versions::{
    ANIM_PERIOD_SINCE,
    AI_COVERS_SINCE, EXPLOSION_SHIELDING_SINCE, FORCE_NOT_ALPHA_SINCE, MASS_ARRAY_SINCE,
    MUZZLE_FLASH_SINCE, PROPERTY_FREQUENT_SINCE, SB_SOURCE_SINCE, SHADOW_LODS_SINCE,
    THERMAL_BODY_SINCE, THERMAL_SINCE, UNKNOWN_INT_SINCE, VISUAL_BOUNDS_SINCE,
    SECTION_MATRIX_SINCE, SECTION_STAGES_SINCE,
    APP_ID_SINCE, CLIP_FLAGS_SINCE, DRAW_IMPORTANCE_SINCE, FACE_SKELETON_SINCE,
    LOD_DENSITY_SINCE, MATERIAL_FOG_SINCE, MATERIAL_MAIN_LIGHT_SINCE, MATERIAL_WORLD_ENV_SINCE,
    PREFIX_SINCE, PROXY_SECTION_SINCE, ST_COORDS_SINCE, WIDE_INDICES_SINCE,
};

verus! {

/// Every header that decodes has as many start addresses, end addresses
/// and resolutions as levels of detail, and each range lies in order within
/// the input.
pub proof fn lemma_address_table_shape(s: Seq<u8>)
    requires
        header_outcome(s) is Ok,
    ensures
        ({
            let o = header_outcome(s)->Ok_0;
            &&& o.starts.len() == o.ends.len()
            &&& o.ends.len() == o.resolutions.len()
            &&& o.resolutions.len() == o.lod_count
            &&& forall|i: int|
                0 <= i < o.starts.len() ==> #[trigger] o.starts[i] <= o.ends[i] && o.ends[i] <= s.len()
        }),
{
    let v = crate::codec::u32_at(s, 4);
    let front = header_front_spec(s, 8, v);
    let info = crate::model::model_info_spec(s, (8 + front.1) as int, v, front.0.2);
    let anims = crate::model::animations_spec(s, (8 + front.1 + info.1) as int, front.0.2, v);
    lemma_front_length(s, 8, v);
    lemma_table_lengths(s, (8 + front.1 + info.1 + anims.1) as int, v, front.0.2);
}

/// A level of detail that decodes consumed exactly the bytes from its start
/// address to its end address.
pub proof fn lemma_body_spans_range(s: Seq<u8>, o: OdolView, i: int)
    requires
        lod_at_outcome(s, o, i) is Ok,
    ensures
        lod_spec(s, o.starts[i] as int, o.version).1 == o.ends[i] - o.starts[i],
{
}

/// What a request decodes depends on the input and the header alone, which
/// no request changes: decoding the same resolution again, after any other
/// request, succeeded or failed, gives the same result.
pub proof fn lemma_redecode_identical(
    before: &OdolLazyReaderCxx,
    after: &OdolLazyReaderCxx,
    res: ResolutionEnumCxx,
    value: u32,
)
    requires
        before.unchanged(after),
    ensures
        tag_outcome(before.bytes(), before.header(), res) == tag_outcome(
            after.bytes(),
            after.header(),
            res,
        ),
        value_outcome(before.bytes(), before.header(), value) == value_outcome(
            after.bytes(),
            after.header(),
            value,
        ),
{
}

/// A request for a tier that the header does not declare fails with
/// `ResolutionNotFound`.
pub proof fn lemma_absent_resolution(s: Seq<u8>, o: OdolView, res: ResolutionEnumCxx)
    requires
        forall|i: int| 0 <= i < o.resolutions.len() ==> #[trigger] o.resolutions[i].res != res,
    ensures
        tag_outcome(s, o, res) == Err::<LodView, DecodeError>(
            DecodeError::ResolutionNotFound,
        ),
{
}

/// A field introduced at a version above the record's own is not read: the
/// record is as wide as its mandatory fields alone, and the field takes its
/// default.
pub proof fn lemma_absent_fields_consume_nothing(s: Seq<u8>, p: int, version: u32, n: u32)
    ensures
        !present(version, PROXY_SECTION_SINCE) ==> proxy_spec(s, p, version).1 == asciiz_spec(
            s,
            p,
        ).1 + 60 && proxy_spec(s, p, version).0.section_index == -1,
        !present(version, CLIP_FLAGS_SINCE) ==> clip_flags_spec(s, p, version, n).1 == 0
            && clip_flags_spec(s, p, version, n).0.len() == 0,
        !present(version, ST_COORDS_SINCE) ==> st_coords_spec(s, p, version, n).1 == 0
            && st_coords_spec(s, p, version, n).0.len() == 0,
        !present(version, FACE_SKELETON_SINCE) ==> face_data_spec(s, p, version).1 == 24
            && !face_data_spec(s, p, version).0.has_skeleton,
        !present(version, MATERIAL_WORLD_ENV_SINCE) ==> stage_texture_spec(s, p, version).1 == 8
            + asciiz_spec(s, p + 4).1 && !stage_texture_spec(s, p, version).0.use_world_env,
        !present(version, MATERIAL_MAIN_LIGHT_SINCE) && !present(version, MATERIAL_FOG_SINCE)
            ==> shading_spec(s, p, version).1 == 12,
        !present(version, LOD_DENSITY_SINCE) && !present(version, DRAW_IMPORTANCE_SINCE)
            ==> info_bounds_spec(s, p, version).1 == 64 && info_bounds_spec(s, p, version).0.3 == 0
            && info_bounds_spec(s, p, version).0.4 == 0,
        !present(version, APP_ID_SINCE) && !present(version, PREFIX_SINCE) ==> header_front_spec(
            s,
            p,
            version,
        ).1 == 4 + seq_spec(s, p + 4, crate::codec::u32_at(s, p) as nat, resolution_reader()).1
            && header_front_spec(s, p, version).0.0 == 0 && header_front_spec(
            s,
            p,
            version,
        ).0.1.len() == 0,
        !present(version, WIDE_INDICES_SINCE) ==> index_reader(version)(s, p).1 == 2,
{
    assert(0xffff_ffffu32 as i32 == -1i32) by (bit_vector);
}

/// Every resolution value resolves: values from zero below 1000 are
/// graphical levels, negative values and those above the last named tier
/// resolve to `Unknown`, and each named tier other than the banded ones
/// stands for exactly one value.
pub proof fn lemma_resolution_bands(b: u32)
    ensures
        b < GRAPHICAL_LIMIT ==> ResolutionEnumCxx::spec_from_bits(b) == ResolutionEnumCxx::GraphicalLod,
        b >= 0x8000_0000 ==> ResolutionEnumCxx::spec_from_bits(b) == ResolutionEnumCxx::Unknown,
        b > 0x5a95_36c7 ==> ResolutionEnumCxx::spec_from_bits(b) == ResolutionEnumCxx::Unknown,
        ResolutionEnumCxx::spec_from_bits(b) == ResolutionEnumCxx::Wreck <==> b == 0x5a95_36c7,
        ResolutionEnumCxx::spec_from_bits(b) == ResolutionEnumCxx::Geometry <==> b == 0x5511_84e7,
{
}

/// A clip-flags word keeps its value whatever it resolves to, and a word
/// that resolves to a named value is exactly that value's bits.
pub proof fn lemma_clip_flags_keep_word(value: i32)
    ensures
        ClipFlagsCxx::spec_from_value(value).value == value,
        !(ClipFlagsCxx::spec_from_value(value).res is Unknown) ==> ClipFlagsCxx::spec_from_value(
            value,
        ).res.spec_mask() == value as u32,
{
}

/// A face of type `t` holds `t` vertex indices.
pub open spec fn face_arity_holds(f: LodFaceView) -> bool {
    f.vertex_indices.len() == f.face_type
}

/// A section decoded at `version` read no stage values and no extra
/// matrix where the version lacks them.
pub open spec fn section_defaults_hold(version: u32, x: LodSectionView) -> bool {
    &&& !present(version, SECTION_STAGES_SINCE) ==> x.stage_count == 0 && x.stages.len() == 0
    &&& !present(version, SECTION_MATRIX_SINCE) ==> !x.unk_matrix_exists
}

/// A proxy decoded at `version` has section index -1 where the version
/// lacks it.
pub open spec fn proxy_defaults_hold(version: u32, x: ProxyView) -> bool {
    !present(version, PROXY_SECTION_SINCE) ==> x.section_index == -1
}

/// The position of the faces in the surface part at `q`.
pub open spec fn faces_at(s: Seq<u8>, q: int) -> int {
    let textures = counted_spec(s, q, crate::codec::asciiz_reader());
    let materials = counted_spec(s, q + textures.1, crate::lod::material_reader());
    let p2 = q + textures.1 + materials.1;
    let mlod = crate::index_array::index_array_spec(s, p2);
    let vedges = crate::index_array::index_array_spec(s, p2 + mlod.1);
    p2 + mlod.1 + vedges.1
}

pub proof fn lemma_surface_parts(s: Seq<u8>, q: int, version: u32)
    ensures
        lod_surface_spec(s, q, version).0.4 == counted_spec(s, faces_at(s, q), face_reader(version)).0,
        lod_surface_spec(s, q, version).0.5 == counted_spec(
            s,
            faces_at(s, q) + counted_spec(s, faces_at(s, q), face_reader(version)).1,
            section_reader(version),
        ).0,
{
}

/// A face read anywhere holds as many vertex indices as its type.
pub proof fn lemma_face_reader_arity(s: Seq<u8>, version: u32)
    ensures
        forall|q: int| #[trigger] face_arity_holds(face_reader(version)(s, q).0),
{
    assert forall|q: int| #[trigger] face_arity_holds(face_reader(version)(s, q).0) by {
        lemma_seq_len(s, q + 1, s[q] as nat, index_reader(version));
    }
}

/// The start of the surface part of the body at `p`.
pub open spec fn surface_at(s: Seq<u8>, p: int, version: u32) -> int {
    p + lod_links_spec(s, p, version).1 + 52
}

/// The parts of a body that the laws below speak of.
#[verifier::rlimit(100)]
pub proof fn lemma_body_parts(s: Seq<u8>, p: int, version: u32)
    ensures
        lod_spec(s, p, version).0.faces == lod_surface_spec(s, surface_at(s, p, version), version).0.4,
        lod_spec(s, p, version).0.sections == lod_surface_spec(
            s,
            surface_at(s, p, version),
            version,
        ).0.5,
        lod_spec(s, p, version).0.proxies == lod_links_spec(s, p, version).0.0,
{
}

/// Every face of a sequence of faces holds as many vertex indices as its
/// type.
pub proof fn lemma_faces_arity(s: Seq<u8>, p: int, n: nat, version: u32)
    ensures
        forall|k: int|
            0 <= k < seq_spec(s, p, n, face_reader(version)).0.len() ==> #[trigger] face_arity_holds(
                seq_spec(s, p, n, face_reader(version)).0[k],
            ),
    decreases n,
{
    if n > 0 {
        lemma_faces_arity(s, p, (n - 1) as nat, version);
        let prev = seq_spec(s, p, (n - 1) as nat, face_reader(version));
        let q = p + prev.1;
        lemma_seq_len(s, q + 1, s[q] as nat, index_reader(version));
        assert(face_arity_holds(face_spec(s, q, version).0));
    }
}

/// Every face of a surface part holds as many vertex indices as its type.
#[verifier::rlimit(100)]
pub proof fn lemma_surface_face_arity(s: Seq<u8>, q: int, version: u32)
    ensures
        forall|k: int|
            0 <= k < lod_surface_spec(s, q, version).0.4.len() ==> #[trigger] face_arity_holds(
                lod_surface_spec(s, q, version).0.4[k],
            ),
{
    lemma_surface_parts(s, q, version);
    let p3 = faces_at(s, q);
    lemma_faces_arity(s, p3 + 4, u32_at(s, p3) as nat, version);
}

/// Every face of every body holds as many vertex indices as its type: a
/// face of type 3 three, one of type 4 four.
pub proof fn lemma_body_face_arity(s: Seq<u8>, p: int, version: u32)
    ensures
        forall|k: int|
            0 <= k < lod_spec(s, p, version).0.faces.len() ==> #[trigger] face_arity_holds(
                lod_spec(s, p, version).0.faces[k],
            ),
{
    lemma_body_parts(s, p, version);
    lemma_surface_face_arity(s, surface_at(s, p, version), version);
}

/// Every face of a body that a request decodes holds as many vertex
/// indices as its type says.
pub proof fn lemma_read_lod_face_arity(s: Seq<u8>, o: OdolView, res: ResolutionEnumCxx)
    requires
        tag_outcome(s, o, res) is Ok,
    ensures
        forall|k: int|
            0 <= k < tag_outcome(s, o, res)->Ok_0.faces.len() ==> #[trigger] face_arity_holds(
                tag_outcome(s, o, res)->Ok_0.faces[k],
            ),
{
    lemma_body_face_arity(s, o.starts[tag_index(o, res)] as int, o.version);
}

/// A body decoded at `version` reads no field that its version lacks: the
/// clip-flags words, the texture-space pairs, the proxies' section indices
/// and the sections' stage values and matrices take their defaults, and
/// the legacy clip-flags words are empty from the version that supersedes
/// them.
pub proof fn lemma_body_absent_fields(s: Seq<u8>, p: int, version: u32)
    ensures
        ({
            let b = lod_spec(s, p, version).0;
            &&& !present(version, CLIP_FLAGS_SINCE) ==> b.clip.len() == 0
            &&& present(version, CLIP_FLAGS_SINCE) ==> b.clip_old_format.len() == 0
            &&& !present(version, ST_COORDS_SINCE) ==> b.st_coords.len() == 0
            &&& forall|k: int|
                0 <= k < b.sections.len() ==> #[trigger] section_defaults_hold(
                    version,
                    b.sections[k],
                )
            &&& forall|k: int|
                0 <= k < b.proxies.len() ==> #[trigger] proxy_defaults_hold(version, b.proxies[k])
        }),
{
    lemma_body_parts(s, p, version);
    lemma_links_proxy_defaults(s, p, version);
    lemma_surface_section_defaults(s, surface_at(s, p, version), version);
}

/// Every proxy of a sequence of proxies keeps its defaults.
pub proof fn lemma_proxies_defaults(s: Seq<u8>, p: int, n: nat, version: u32)
    ensures
        forall|k: int|
            0 <= k < seq_spec(s, p, n, proxy_reader(version)).0.len() ==> #[trigger] proxy_defaults_hold(
                version,
                seq_spec(s, p, n, proxy_reader(version)).0[k],
            ),
    decreases n,
{
    if n > 0 {
        lemma_proxies_defaults(s, p, (n - 1) as nat, version);
        assert(0xffff_ffffu32 as i32 == -1i32) by (bit_vector);
        let q = p + seq_spec(s, p, (n - 1) as nat, proxy_reader(version)).1;
        assert(proxy_defaults_hold(version, proxy_spec(s, q, version).0));
    }
}

/// Every section of a sequence of sections keeps its defaults.
pub proof fn lemma_sections_defaults(s: Seq<u8>, p: int, n: nat, version: u32)
    ensures
        forall|k: int|
            0 <= k < seq_spec(s, p, n, section_reader(version)).0.len() ==> #[trigger] section_defaults_hold(
                version,
                seq_spec(s, p, n, section_reader(version)).0[k],
            ),
    decreases n,
{
    if n > 0 {
        lemma_sections_defaults(s, p, (n - 1) as nat, version);
        let q = p + seq_spec(s, p, (n - 1) as nat, section_reader(version)).1;
        assert(section_defaults_hold(version, crate::lod::section_spec(s, q, version).0));
    }
}

/// Every proxy of a links part keeps its defaults.
pub proof fn lemma_links_proxy_defaults(s: Seq<u8>, p: int, version: u32)
    ensures
        forall|k: int|
            0 <= k < lod_links_spec(s, p, version).0.0.len() ==> #[trigger] proxy_defaults_hold(
                version,
                lod_links_spec(s, p, version).0.0[k],
            ),
{
    lemma_proxies_defaults(s, p + 4, u32_at(s, p) as nat, version);
}

/// Every section of a surface part keeps its defaults.
#[verifier::rlimit(100)]
pub proof fn lemma_surface_section_defaults(s: Seq<u8>, q: int, version: u32)
    ensures
        forall|k: int|
            0 <= k < lod_surface_spec(s, q, version).0.5.len() ==> #[trigger] section_defaults_hold(
                version,
                lod_surface_spec(s, q, version).0.5[k],
            ),
{
    lemma_surface_parts(s, q, version);
    let p3 = faces_at(s, q);
    let faces = counted_spec(s, p3, face_reader(version));
    lemma_sections_defaults(s, p3 + faces.1 + 4, u32_at(s, p3 + faces.1) as nat, version);
}

/// A body that a request decodes reads no field that the model's version
/// lacks (see `lemma_body_absent_fields`).
pub proof fn lemma_read_lod_absent_fields(s: Seq<u8>, o: OdolView, res: ResolutionEnumCxx)
    requires
        tag_outcome(s, o, res) is Ok,
    ensures
        ({
            let b = tag_outcome(s, o, res)->Ok_0;
            &&& !present(o.version, CLIP_FLAGS_SINCE) ==> b.clip.len() == 0
            &&& present(o.version, CLIP_FLAGS_SINCE) ==> b.clip_old_format.len() == 0
            &&& !present(o.version, ST_COORDS_SINCE) ==> b.st_coords.len() == 0
            &&& forall|k: int|
                0 <= k < b.sections.len() ==> #[trigger] section_defaults_hold(
                    o.version,
                    b.sections[k],
                )
            &&& forall|k: int|
                0 <= k < b.proxies.len() ==> #[trigger] proxy_defaults_hold(o.version, b.proxies[k])
        }),
{
    lemma_body_absent_fields(s, o.starts[tag_index(o, res)] as int, o.version);
}

/// The information block of a model of format `version` reads no field
/// that its version lacks: each takes its default.
pub open spec fn info_defaults_hold(version: u32, m: crate::model::ModelInfoView) -> bool {
    &&& !present(version, LOD_DENSITY_SINCE) ==> m.bounds.3 == 0
    &&& !present(version, DRAW_IMPORTANCE_SINCE) ==> m.bounds.4 == 0
    &&& !present(version, VISUAL_BOUNDS_SINCE) ==> m.extra.0 == crate::model::zero_xyz()
        && m.extra.1 == crate::model::zero_xyz()
    &&& !present(version, THERMAL_SINCE) ==> m.extra.2 == 0 && m.extra.3 == 0 && m.extra.4 == 0
        && m.extra.5 == 0
    &&& !present(version, THERMAL_BODY_SINCE) ==> m.extra.6 == 0 && m.extra.7 == 0
    &&& !present(version, AI_COVERS_SINCE) ==> !m.shading.0
    &&& !present(version, FORCE_NOT_ALPHA_SINCE) ==> !m.shading.1
    &&& !present(version, SB_SOURCE_SINCE) ==> m.shading.2 == SBSourceCxx::SBS_Visual
    &&& !present(version, MASS_ARRAY_SINCE) ==> m.mass_extra.0.len() == 0
    &&& !present(version, EXPLOSION_SHIELDING_SINCE) ==> m.mass_extra.1 == 0
    &&& !present(version, PROPERTY_FREQUENT_SINCE) ==> !m.tail.2
    &&& !present(version, UNKNOWN_INT_SINCE) ==> m.tail.3 == 0
    &&& !present(version, SHADOW_LODS_SINCE) ==> m.tail.4.len() == 0 && m.tail.5.len() == 0
        && m.tail.6.len() == 0
}

/// The model information reads no field that its version lacks.
#[verifier::rlimit(100)]
pub proof fn lemma_info_absent_fields(s: Seq<u8>, p: int, version: u32, lod_count: u32)
    ensures
        info_defaults_hold(version, crate::model::model_info_spec(s, p, version, lod_count).0),
{
}

/// An animation class decoded at `version` has period and initial phase
/// zero where the version lacks them.
pub open spec fn class_defaults_hold(version: u32, x: crate::model::AnimationClassView) -> bool {
    !present(version, ANIM_PERIOD_SINCE) ==> x.period == (0u32, 0u32)
}

/// Every class of a sequence of animation classes keeps its defaults.
pub proof fn lemma_classes_defaults(s: Seq<u8>, p: int, n: nat, version: u32)
    ensures
        forall|k: int|
            0 <= k < seq_spec(s, p, n, anim_class_reader(version)).0.len()
                ==> #[trigger] class_defaults_hold(
                version,
                seq_spec(s, p, n, anim_class_reader(version)).0[k],
            ),
    decreases n,
{
    if n > 0 {
        lemma_classes_defaults(s, p, (n - 1) as nat, version);
        let q = p + seq_spec(s, p, (n - 1) as nat, anim_class_reader(version)).1;
        assert(class_defaults_hold(version, crate::model::anim_class_spec(s, q, version).0));
    }
}

/// The animation block of a model of format `version` keeps the defaults
/// of every class.
pub proof fn lemma_animations_defaults(s: Seq<u8>, p: int, lod_count: u32, version: u32)
    ensures
        forall|k: int|
            0 <= k < animations_spec(s, p, lod_count, version).0.1.0.len()
                ==> #[trigger] class_defaults_hold(
                version,
                animations_spec(s, p, lod_count, version).0.1.0[k],
            ),
{
    lemma_classes_defaults(s, p + 5, u32_at(s, p + 1) as nat, version);
}

/// A header that decodes reads no field that its version lacks: the
/// application id, prefix and muzzle-flash name, and the gated fields of
/// the model information, take their defaults.
pub proof fn lemma_header_absent_fields(s: Seq<u8>)
    requires
        header_outcome(s) is Ok,
    ensures
        ({
            let o = header_outcome(s)->Ok_0;
            &&& !present(o.version, APP_ID_SINCE) ==> o.app_id == 0
            &&& !present(o.version, PREFIX_SINCE) ==> o.prefix.len() == 0
            &&& !present(o.version, MUZZLE_FLASH_SINCE) ==> o.muzzle_flash.len() == 0
            &&& info_defaults_hold(o.version, o.model_info)
            &&& forall|k: int|
                0 <= k < o.animations.0.len() ==> #[trigger] class_defaults_hold(
                    o.version,
                    o.animations.0[k],
                )
        }),
{
    let v = crate::codec::u32_at(s, 4);
    let front = header_front_spec(s, 8, v);
    lemma_info_absent_fields(s, (8 + front.1) as int, v, front.0.2);
    let info = crate::model::model_info_spec(s, (8 + front.1) as int, v, front.0.2);
    lemma_animations_defaults(s, (8 + front.1 + info.1) as int, front.0.2, v);
}

} // verus!

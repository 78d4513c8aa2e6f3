//! Records of the model header: resolutions, model information with its
//! skeleton, the animation-class table and the default face data.
use vstd::prelude::*;

use crate::codec::{
    asciiz_spec, bool_at, bool_if_spec, is_present, present, counted_spec, i32_at, lemma_seq_width_mono, rgba_at,
    seq_spec, u32_at, u32_if_spec, u32_reader, views, xyz_at, xyz_reader, Cursor, RGBAColorCxx,
    XYZTripletCxx,
};
use crate::enums::{AnimAddressCxx, AnimTypeCxx, MapTypeCxx, ResolutionEnumCxx, SBSourceCxx};
use crate::error::DecodeError;
use crate::lod::{i32_reader, lemma_bytes_at, lemma_bytes_len, read_bytes, read_i32s, read_xyzs};
use crate::versions::{
    AI_COVERS_SINCE, ANIM_HIDE_EXTRA_SINCE, ANIM_PERIOD_SINCE, DRAW_IMPORTANCE_SINCE,
    EXPLOSION_SHIELDING_SINCE, FACE_SKELETON_SINCE, FORCE_NOT_ALPHA_SINCE, LOD_DENSITY_SINCE,
    MASS_ARRAY_SINCE, PROPERTY_FREQUENT_SINCE, SB_SOURCE_SINCE, SHADOW_LODS_SINCE,
    THERMAL_BODY_SINCE, THERMAL_SINCE, UNKNOWN_INT_SINCE, VISUAL_BOUNDS_SINCE,
};

verus! {

/// A declared resolution: the bit pattern of its single-precision value,
/// kept verbatim, and the tier it resolves to.
#[derive(Debug, Clone, Copy, PartialEq, Eq, Structural)]
pub struct ResolutionCxx {
    pub value: u32,
    pub res: ResolutionEnumCxx,
}

impl View for ResolutionCxx {
    type V = ResolutionCxx;

    open spec fn view(&self) -> ResolutionCxx {
        *self
    }
}

pub open spec fn resolution_reader() -> spec_fn(Seq<u8>, int) -> (ResolutionCxx, nat) {
    |s: Seq<u8>, p: int|
        (
            ResolutionCxx { value: u32_at(s, p), res: ResolutionEnumCxx::spec_from_bits(u32_at(s, p)) },
            4nat,
        )
}

pub fn read_resolution(c: &mut Cursor) -> (r: Result<ResolutionCxx, DecodeError>)
    requires
        old(c).wf(),
    ensures
        old(c).reads(final(c), r, resolution_reader()(old(c).bytes(), old(c).pos as int)),
{
    let value = c.read_u32()?;
    Ok(ResolutionCxx { value, res: ResolutionEnumCxx::from_bits(value) })
}

/// A bone of the skeleton and the name of its parent.
#[derive(Debug, Clone, PartialEq, Eq)]
pub struct BoneCxx {
    pub bone_name: Vec<u8>,
    pub bone_parent: Vec<u8>,
}

impl View for BoneCxx {
    type V = (Seq<u8>, Seq<u8>);

    open spec fn view(&self) -> (Seq<u8>, Seq<u8>) {
        (self.bone_name@, self.bone_parent@)
    }
}

pub open spec fn bone_reader() -> spec_fn(Seq<u8>, int) -> ((Seq<u8>, Seq<u8>), nat) {
    |s: Seq<u8>, p: int|
        {
            let n = asciiz_spec(s, p);
            let q = asciiz_spec(s, p + n.1);
            ((n.0, q.0), n.1 + q.1)
        }
}

pub fn read_bone(c: &mut Cursor) -> (r: Result<BoneCxx, DecodeError>)
    requires
        old(c).wf(),
    ensures
        old(c).reads(final(c), r, bone_reader()(old(c).bytes(), old(c).pos as int)),
{
    let bone_name = c.read_asciiz()?;
    let bone_parent = c.read_asciiz()?;
    Ok(BoneCxx { bone_name, bone_parent })
}

/// The skeleton of a model. A model without one stores an empty name and
/// nothing else.
#[derive(Debug, Clone, PartialEq, Eq)]
pub struct SkeletonCxx {
    pub name: Vec<u8>,
    pub is_discrete: bool,
    pub skeleton_bones: Vec<BoneCxx>,
    pub pivots_name_obsolete: Vec<u8>,
}

pub ghost struct SkeletonView {
    pub name: Seq<u8>,
    pub is_discrete: bool,
    pub skeleton_bones: Seq<(Seq<u8>, Seq<u8>)>,
    pub pivots_name_obsolete: Seq<u8>,
}

impl View for SkeletonCxx {
    type V = SkeletonView;

    open spec fn view(&self) -> SkeletonView {
        SkeletonView {
            name: self.name@,
            is_discrete: self.is_discrete,
            skeleton_bones: views(self.skeleton_bones@),
            pivots_name_obsolete: self.pivots_name_obsolete@,
        }
    }
}

/// The skeleton at `p`: its name; where the name is not empty, a discrete
/// flag, the counted bones and the obsolete pivots name follow.
pub open spec fn skeleton_spec(s: Seq<u8>, p: int) -> (SkeletonView, nat) {
    let name = asciiz_spec(s, p);
    if name.0.len() == 0 {
        (
            SkeletonView {
                name: name.0,
                is_discrete: false,
                skeleton_bones: Seq::empty(),
                pivots_name_obsolete: Seq::empty(),
            },
            name.1,
        )
    } else {
        let q = p + name.1;
        let bones = counted_spec(s, q + 1, bone_reader());
        let pivots = asciiz_spec(s, q + 1 + bones.1);
        (
            SkeletonView {
                name: name.0,
                is_discrete: bool_at(s, q),
                skeleton_bones: bones.0,
                pivots_name_obsolete: pivots.0,
            },
            name.1 + 1 + bones.1 + pivots.1,
        )
    }
}

pub fn read_skeleton(c: &mut Cursor) -> (r: Result<SkeletonCxx, DecodeError>)
    requires
        old(c).wf(),
    ensures
        old(c).reads(final(c), r, skeleton_spec(old(c).bytes(), old(c).pos as int)),
{
    let name = c.read_asciiz()?;
    if name.len() == 0 {
        let skeleton_bones: Vec<BoneCxx> = Vec::new();
        assert(views(skeleton_bones@) =~= Seq::empty());
        return Ok(
            SkeletonCxx {
                name,
                is_discrete: false,
                skeleton_bones,
                pivots_name_obsolete: Vec::new(),
            },
        );
    }
    let is_discrete = c.read_bool()?;
    let skeleton_bones = read_counted_bones(c)?;
    let pivots_name_obsolete = c.read_asciiz()?;
    Ok(SkeletonCxx { name, is_discrete, skeleton_bones, pivots_name_obsolete })
}

/// `n` records read one after another.
pub fn read_bones(c: &mut Cursor, n: u32) -> (r: Result<Vec<BoneCxx>, DecodeError>)
    requires
        old(c).wf(),
    ensures
        old(c).reads_seq(final(c), r, seq_spec(old(c).bytes(), old(c).pos as int, n as nat, bone_reader())),
{
    let ghost s = c.data@;
    let ghost p0 = c.pos as int;
    let mut out: Vec<BoneCxx> = Vec::new();
    let mut i: u32 = 0;
    while i < n
        invariant
            c.wf(),
            c.data@ == s,
            s == old(c).data@,
            c.limit == old(c).limit,
            p0 == old(c).pos,
            i <= n,
            c.pos == p0 + seq_spec(s, p0, i as nat, bone_reader()).1,
            views(out@) == seq_spec(s, p0, i as nat, bone_reader()).0,
        decreases n - i,
    {
        match read_bone(c) {
            Ok(x) => {
                let ghost prev = out@;
                out.push(x);
                proof {
                    assert(views(out@) =~= views(prev).push(x@));
                }
                i = i + 1;
            },
            Err(e) => {
                proof {
                    lemma_seq_width_mono(s, p0, (i + 1) as nat, n as nat, bone_reader());
                }
                return Err(e);
            },
        }
    }
    Ok(out)
}

/// A 32-bit count followed by that many records.
pub fn read_counted_bones(c: &mut Cursor) -> (r: Result<Vec<BoneCxx>, DecodeError>)
    requires
        old(c).wf(),
    ensures
        old(c).reads_seq(final(c), r, counted_spec(old(c).bytes(), old(c).pos as int, bone_reader())),
{
    let n = c.read_u32()?;
    read_bones(c, n)
}

/// `n` records read one after another.
pub fn read_resolutions(c: &mut Cursor, n: u32) -> (r: Result<Vec<ResolutionCxx>, DecodeError>)
    requires
        old(c).wf(),
    ensures
        old(c).reads_seq(final(c), r, seq_spec(old(c).bytes(), old(c).pos as int, n as nat, resolution_reader())),
{
    let ghost s = c.data@;
    let ghost p0 = c.pos as int;
    let mut out: Vec<ResolutionCxx> = Vec::new();
    let mut i: u32 = 0;
    while i < n
        invariant
            c.wf(),
            c.data@ == s,
            s == old(c).data@,
            c.limit == old(c).limit,
            p0 == old(c).pos,
            i <= n,
            c.pos == p0 + seq_spec(s, p0, i as nat, resolution_reader()).1,
            views(out@) == seq_spec(s, p0, i as nat, resolution_reader()).0,
        decreases n - i,
    {
        match read_resolution(c) {
            Ok(x) => {
                let ghost prev = out@;
                out.push(x);
                proof {
                    assert(views(out@) =~= views(prev).push(x@));
                }
                i = i + 1;
            },
            Err(e) => {
                proof {
                    lemma_seq_width_mono(s, p0, (i + 1) as nat, n as nat, resolution_reader());
                }
                return Err(e);
            },
        }
    }
    Ok(out)
}

/// Model-wide information: spheres, hints, colours, bounding geometry,
/// inertia, occlusion flags, skeleton, map icon, masses and properties.
/// Single-precision values are kept as bit patterns.
#[derive(Debug, Clone, PartialEq, Eq)]
pub struct ModelInfoCxx {
    pub index: u32,
    pub mem_lod_sphere: u32,
    pub geo_lod_sphere: u32,
    pub remarks: u32,
    pub and_hints: u32,
    pub or_hints: u32,
    pub aiming_center: XYZTripletCxx,
    pub map_icon_color: RGBAColorCxx,
    pub map_selected_color: RGBAColorCxx,
    pub view_density: u32,
    pub bbox_min_pos: XYZTripletCxx,
    pub bbox_max_pos: XYZTripletCxx,
    pub lod_density_coef: u32,
    pub draw_importance: u32,
    pub bounding_center: XYZTripletCxx,
    pub geometry_center: XYZTripletCxx,
    pub center_of_mass: XYZTripletCxx,
    pub bbox_min_visual: XYZTripletCxx,
    pub bbox_max_visual: XYZTripletCxx,
    pub ht_min: u32,
    pub ht_max: u32,
    pub af_max: u32,
    pub mf_max: u32,
    pub m_fact: u32,
    pub t_body: u32,
    pub inv_intertia: Vec<XYZTripletCxx>,
    pub auto_center: bool,
    pub lock_auto_center: bool,
    pub can_occlude: bool,
    pub can_be_occluded: bool,
    pub animated: bool,
    pub prefer_shadow_volume: bool,
    pub shadow_offset: u32,
    pub ai_covers: bool,
    pub force_not_alpha: bool,
    pub sb_source: SBSourceCxx,
    pub skeleton: SkeletonCxx,
    pub map_type: u8,
    pub mass: u32,
    pub mass_reciprocal: u32,
    pub alt_mass: u32,
    pub alt_mass_reciprocal: u32,
    pub geometry_simple: u8,
    pub geometry_phys: u8,
    pub memory: u8,
    pub geometry: u8,
    pub geometry_fire: u8,
    pub geometry_view: u8,
    pub geometry_view_pilot: u8,
    pub geometry_view_gunner: u8,
    pub unknown_signedbyte: i8,
    pub geometry_view_cargo: u8,
    pub land_contact: u8,
    pub roadway: u8,
    pub paths: u8,
    pub hitpoints: u8,
    pub mass_array: Vec<u32>,
    pub property_explosion_shielding: u32,
    pub property_class: Vec<u8>,
    pub property_damage: Vec<u8>,
    pub min_shadow: u32,
    pub can_blend: bool,
    pub property_frequent: bool,
    pub unknown_int: u32,
    pub prefferred_shadow_volumne_lod: Vec<i32>,
    pub prefferred_shadow_buffer_lod: Vec<i32>,
    pub prefferred_shadow_buffer_lod_vis: Vec<i32>,
}

impl ModelInfoCxx {
    /// The map icon, resolved from the stored code, which is kept as read.
    pub fn map_type_kind(&self) -> (r: MapTypeCxx)
        ensures
            r == MapTypeCxx::spec_from_code(self.map_type as u32),
    {
        MapTypeCxx::from_code(self.map_type as u32)
    }
}

pub ghost struct ModelInfoView {
    pub ids: (u32, u32, u32, u32, u32, u32, XYZTripletCxx, RGBAColorCxx, RGBAColorCxx),
    pub bounds: (
        u32,
        XYZTripletCxx,
        XYZTripletCxx,
        u32,
        u32,
        XYZTripletCxx,
        XYZTripletCxx,
        XYZTripletCxx,
    ),
    pub extra: (XYZTripletCxx, XYZTripletCxx, u32, u32, u32, u32, u32, u32),
    pub inv_intertia: Seq<XYZTripletCxx>,
    pub flags: (bool, bool, bool, bool, bool, bool, u32),
    pub shading: (bool, bool, SBSourceCxx),
    pub skeleton: SkeletonView,
    pub mass: (u8, u32, u32, u32, u32),
    pub lod_indices: Seq<u8>,
    pub mass_extra: (Seq<u32>, u32),
    pub property_class: Seq<u8>,
    pub property_damage: Seq<u8>,
    pub tail: (u32, bool, bool, u32, Seq<i32>, Seq<i32>, Seq<i32>),
}

impl View for ModelInfoCxx {
    type V = ModelInfoView;

    open spec fn view(&self) -> ModelInfoView {
        ModelInfoView {
            ids: (
                self.index,
                self.mem_lod_sphere,
                self.geo_lod_sphere,
                self.remarks,
                self.and_hints,
                self.or_hints,
                self.aiming_center,
                self.map_icon_color,
                self.map_selected_color,
            ),
            bounds: (
                self.view_density,
                self.bbox_min_pos,
                self.bbox_max_pos,
                self.lod_density_coef,
                self.draw_importance,
                self.bounding_center,
                self.geometry_center,
                self.center_of_mass,
            ),
            extra: (
                self.bbox_min_visual,
                self.bbox_max_visual,
                self.ht_min,
                self.ht_max,
                self.af_max,
                self.mf_max,
                self.m_fact,
                self.t_body,
            ),
            inv_intertia: self.inv_intertia@,
            flags: (
                self.auto_center,
                self.lock_auto_center,
                self.can_occlude,
                self.can_be_occluded,
                self.animated,
                self.prefer_shadow_volume,
                self.shadow_offset,
            ),
            shading: (self.ai_covers, self.force_not_alpha, self.sb_source),
            skeleton: self.skeleton@,
            mass: (self.map_type, self.mass, self.mass_reciprocal, self.alt_mass, self.alt_mass_reciprocal),
            lod_indices: seq![
                self.geometry_simple,
                self.geometry_phys,
                self.memory,
                self.geometry,
                self.geometry_fire,
                self.geometry_view,
                self.geometry_view_pilot,
                self.geometry_view_gunner,
                self.unknown_signedbyte as u8,
                self.geometry_view_cargo,
                self.land_contact,
                self.roadway,
                self.paths,
                self.hitpoints,
            ],
            mass_extra: (self.mass_array@, self.property_explosion_shielding),
            property_class: self.property_class@,
            property_damage: self.property_damage@,
            tail: (
                self.min_shadow,
                self.can_blend,
                self.property_frequent,
                self.unknown_int,
                self.prefferred_shadow_volumne_lod@,
                self.prefferred_shadow_buffer_lod@,
                self.prefferred_shadow_buffer_lod_vis@,
            ),
        }
    }
}

/// Index, the two spheres, remarks, and- and or-hints, aiming centre and
/// the two map colours: 44 bytes.
pub open spec fn info_ids_spec(s: Seq<u8>, p: int) -> (
    (u32, u32, u32, u32, u32, u32, XYZTripletCxx, RGBAColorCxx, RGBAColorCxx),
    nat,
) {
    (
        (
            u32_at(s, p),
            u32_at(s, p + 4),
            u32_at(s, p + 8),
            u32_at(s, p + 12),
            u32_at(s, p + 16),
            u32_at(s, p + 20),
            xyz_at(s, p + 24),
            rgba_at(s, p + 36),
            rgba_at(s, p + 40),
        ),
        44,
    )
}

pub fn read_info_ids(c: &mut Cursor) -> (r: Result<
    (u32, u32, u32, u32, u32, u32, XYZTripletCxx, RGBAColorCxx, RGBAColorCxx),
    DecodeError,
>)
    requires
        old(c).wf(),
    ensures
        old(c).reads(final(c), r, info_ids_spec(old(c).bytes(), old(c).pos as int)),
{
    if c.limit - c.pos < 44 {
        return Err(DecodeError::TruncatedInput);
    }
    let index = c.read_u32()?;
    let mem = c.read_u32()?;
    let geo = c.read_u32()?;
    let remarks = c.read_u32()?;
    let and_hints = c.read_u32()?;
    let or_hints = c.read_u32()?;
    let aiming = c.read_xyz()?;
    let icon = c.read_rgba()?;
    let selected = c.read_rgba()?;
    Ok((index, mem, geo, remarks, and_hints, or_hints, aiming, icon, selected))
}

/// View density, bounding box, the density coefficient and the draw
/// importance where the version has them (else zero), then the bounding,
/// geometry and mass centres.
pub open spec fn info_bounds_spec(s: Seq<u8>, p: int, version: u32) -> (
    (u32, XYZTripletCxx, XYZTripletCxx, u32, u32, XYZTripletCxx, XYZTripletCxx, XYZTripletCxx),
    nat,
) {
    let density = u32_if_spec(s, p + 28, version, LOD_DENSITY_SINCE, 0);
    let importance = u32_if_spec(s, p + 28 + density.1, version, DRAW_IMPORTANCE_SINCE, 0);
    let q = p + 28 + density.1 + importance.1;
    (
        (
            u32_at(s, p),
            xyz_at(s, p + 4),
            xyz_at(s, p + 16),
            density.0,
            importance.0,
            xyz_at(s, q),
            xyz_at(s, q + 12),
            xyz_at(s, q + 24),
        ),
        28 + density.1 + importance.1 + 36,
    )
}

pub fn read_info_bounds(c: &mut Cursor, version: u32) -> (r: Result<
    (u32, XYZTripletCxx, XYZTripletCxx, u32, u32, XYZTripletCxx, XYZTripletCxx, XYZTripletCxx),
    DecodeError,
>)
    requires
        old(c).wf(),
    ensures
        old(c).reads(final(c), r, info_bounds_spec(old(c).bytes(), old(c).pos as int, version)),
{
    let density = c.read_u32()?;
    let bmin = c.read_xyz()?;
    let bmax = c.read_xyz()?;
    let coef = c.read_u32_if(version, LOD_DENSITY_SINCE, 0)?;
    let importance = c.read_u32_if(version, DRAW_IMPORTANCE_SINCE, 0)?;
    let bounding = c.read_xyz()?;
    let geometry = c.read_xyz()?;
    let mass = c.read_xyz()?;
    Ok((density, bmin, bmax, coef, importance, bounding, geometry, mass))
}

/// Auto-centre, its lock, occluding, occludable, animated and
/// shadow-volume preference flags, then the shadow offset.
pub open spec fn info_flags_spec(s: Seq<u8>, p: int) -> ((bool, bool, bool, bool, bool, bool, u32), nat) {
    (
        (
            bool_at(s, p),
            bool_at(s, p + 1),
            bool_at(s, p + 2),
            bool_at(s, p + 3),
            bool_at(s, p + 4),
            bool_at(s, p + 5),
            u32_at(s, p + 6),
        ),
        10,
    )
}

pub fn read_info_flags(c: &mut Cursor) -> (r: Result<(bool, bool, bool, bool, bool, bool, u32), DecodeError>)
    requires
        old(c).wf(),
    ensures
        old(c).reads(final(c), r, info_flags_spec(old(c).bytes(), old(c).pos as int)),
{
    if c.limit - c.pos < 10 {
        return Err(DecodeError::TruncatedInput);
    }
    let a = c.read_bool()?;
    let b = c.read_bool()?;
    let d = c.read_bool()?;
    let e = c.read_bool()?;
    let f = c.read_bool()?;
    let g = c.read_bool()?;
    let offset = c.read_u32()?;
    Ok((a, b, d, e, f, g, offset))
}

/// The map icon code and the four mass values: 17 bytes.
pub open spec fn info_mass_spec(s: Seq<u8>, p: int) -> ((u8, u32, u32, u32, u32), nat) {
    ((s[p], u32_at(s, p + 1), u32_at(s, p + 5), u32_at(s, p + 9), u32_at(s, p + 13)), 17)
}

pub fn read_info_mass(c: &mut Cursor) -> (r: Result<(u8, u32, u32, u32, u32), DecodeError>)
    requires
        old(c).wf(),
    ensures
        old(c).reads(final(c), r, info_mass_spec(old(c).bytes(), old(c).pos as int)),
{
    if c.limit - c.pos < 17 {
        return Err(DecodeError::TruncatedInput);
    }
    let map_type = c.read_u8()?;
    let mass = c.read_u32()?;
    let mass_reciprocal = c.read_u32()?;
    let alt_mass = c.read_u32()?;
    let alt_mass_reciprocal = c.read_u32()?;
    Ok((map_type, mass, mass_reciprocal, alt_mass, alt_mass_reciprocal))
}

/// The 14 indices of the special levels of detail, as stored.
pub fn read_lod_indices(c: &mut Cursor) -> (r: Result<Vec<u8>, DecodeError>)
    requires
        old(c).wf(),
    ensures
        old(c).reads(
            final(c),
            r,
            (old(c).bytes().subrange(old(c).pos as int, old(c).pos + 14), 14nat),
        ),
{
    let ghost q = c.pos as int;
    proof {
        lemma_bytes_len(c.data@, q, 14);
    }
    let lods = read_bytes(c, 14)?;
    proof {
        assert(lods@ =~= views(lods@));
        assert forall|k: int| 0 <= k < 14 implies #[trigger] lods@[k] == c.data@[q + k] by {
            lemma_bytes_at(c.data@, q, 14, k);
        }
        assert(lods@ =~= c.data@.subrange(q, q + 14));
    }
    Ok(lods)
}

/// The visual bounding box from `VISUAL_BOUNDS_SINCE` on, the four heat
/// values from `THERMAL_SINCE` on, the mass factor and body temperature
/// from `THERMAL_BODY_SINCE` on; zero where the version lacks them.
pub open spec fn info_extra_spec(s: Seq<u8>, p: int, version: u32) -> (
    (XYZTripletCxx, XYZTripletCxx, u32, u32, u32, u32, u32, u32),
    nat,
) {
    let z = XYZTripletCxx { x: 0, y: 0, z: 0 };
    let vis: ((XYZTripletCxx, XYZTripletCxx), nat) = if present(version, VISUAL_BOUNDS_SINCE) {
        ((xyz_at(s, p), xyz_at(s, p + 12)), 24)
    } else {
        ((z, z), 0)
    };
    let q = p + vis.1;
    let heat: ((u32, u32, u32, u32), nat) = if present(version, THERMAL_SINCE) {
        ((u32_at(s, q), u32_at(s, q + 4), u32_at(s, q + 8), u32_at(s, q + 12)), 16)
    } else {
        ((0, 0, 0, 0), 0)
    };
    let body: ((u32, u32), nat) = if present(version, THERMAL_BODY_SINCE) {
        ((u32_at(s, q + heat.1), u32_at(s, q + heat.1 + 4)), 8)
    } else {
        ((0, 0), 0)
    };
    (
        (vis.0.0, vis.0.1, heat.0.0, heat.0.1, heat.0.2, heat.0.3, body.0.0, body.0.1),
        vis.1 + heat.1 + body.1,
    )
}

pub fn read_info_extra(c: &mut Cursor, version: u32) -> (r: Result<
    (XYZTripletCxx, XYZTripletCxx, u32, u32, u32, u32, u32, u32),
    DecodeError,
>)
    requires
        old(c).wf(),
    ensures
        old(c).reads(final(c), r, info_extra_spec(old(c).bytes(), old(c).pos as int, version)),
{
    let z = XYZTripletCxx { x: 0, y: 0, z: 0 };
    let (vmin, vmax) = if is_present(version, VISUAL_BOUNDS_SINCE) {
        let a = c.read_xyz()?;
        let b = c.read_xyz()?;
        (a, b)
    } else {
        (z, z)
    };
    let (h0, h1, h2, h3) = if is_present(version, THERMAL_SINCE) {
        let a = c.read_u32()?;
        let b = c.read_u32()?;
        let d = c.read_u32()?;
        let e = c.read_u32()?;
        (a, b, d, e)
    } else {
        (0, 0, 0, 0)
    };
    let (m_fact, t_body) = if is_present(version, THERMAL_BODY_SINCE) {
        let a = c.read_u32()?;
        let b = c.read_u32()?;
        (a, b)
    } else {
        (0, 0)
    };
    Ok((vmin, vmax, h0, h1, h2, h3, m_fact, t_body))
}

/// The AI-covers flag, the force-not-alpha flag and the shadow-buffer
/// source, each where the version has it (else false, false, code 0).
pub open spec fn info_shading_spec(s: Seq<u8>, p: int, version: u32) -> ((bool, bool, SBSourceCxx), nat) {
    let covers = bool_if_spec(s, p, version, AI_COVERS_SINCE, false);
    let alpha = bool_if_spec(s, p + covers.1, version, FORCE_NOT_ALPHA_SINCE, false);
    let sb = u32_if_spec(s, p + covers.1 + alpha.1, version, SB_SOURCE_SINCE, 0);
    ((covers.0, alpha.0, SBSourceCxx::spec_from_code(sb.0)), covers.1 + alpha.1 + sb.1)
}

pub fn read_info_shading(c: &mut Cursor, version: u32) -> (r: Result<(bool, bool, SBSourceCxx), DecodeError>)
    requires
        old(c).wf(),
    ensures
        old(c).reads(final(c), r, info_shading_spec(old(c).bytes(), old(c).pos as int, version)),
{
    let covers = c.read_bool_if(version, AI_COVERS_SINCE, false)?;
    let alpha = c.read_bool_if(version, FORCE_NOT_ALPHA_SINCE, false)?;
    let sb = c.read_u32_if(version, SB_SOURCE_SINCE, 0)?;
    Ok((covers, alpha, SBSourceCxx::from_code(sb)))
}

/// The per-point masses from `MASS_ARRAY_SINCE` on, and the explosion
/// shielding from `EXPLOSION_SHIELDING_SINCE` on.
pub open spec fn info_mass_extra_spec(s: Seq<u8>, p: int, version: u32) -> ((Seq<u32>, u32), nat) {
    let masses: (Seq<u32>, nat) = if present(version, MASS_ARRAY_SINCE) {
        counted_spec(s, p, u32_reader())
    } else {
        (Seq::empty(), 0)
    };
    let shield = u32_if_spec(s, p + masses.1, version, EXPLOSION_SHIELDING_SINCE, 0);
    ((masses.0, shield.0), masses.1 + shield.1)
}

pub fn read_info_mass_extra(c: &mut Cursor, version: u32) -> (r: Result<(Vec<u32>, u32), DecodeError>)
    requires
        old(c).wf(),
    ensures
        old(c).reads(final(c), r, info_mass_extra_spec(old(c).bytes(), old(c).pos as int, version)),
{
    let masses = if is_present(version, MASS_ARRAY_SINCE) {
        c.read_counted_u32s()?
    } else {
        Vec::new()
    };
    assert(masses@ =~= info_mass_extra_spec(old(c).bytes(), old(c).pos as int, version).0.0);
    let shield = c.read_u32_if(version, EXPLOSION_SHIELDING_SINCE, 0)?;
    Ok((masses, shield))
}

/// `n` signed 32-bit values where the version has the shadow lists.
pub open spec fn shadow_list_spec(s: Seq<u8>, p: int, version: u32, n: u32) -> (Seq<i32>, nat) {
    if present(version, SHADOW_LODS_SINCE) {
        seq_spec(s, p, n as nat, i32_reader())
    } else {
        (Seq::empty(), 0)
    }
}

pub fn read_shadow_list(c: &mut Cursor, version: u32, n: u32) -> (r: Result<Vec<i32>, DecodeError>)
    requires
        old(c).wf(),
    ensures
        old(c).reads(final(c), r, shadow_list_spec(old(c).bytes(), old(c).pos as int, version, n)),
{
    let v = if is_present(version, SHADOW_LODS_SINCE) {
        read_i32s(c, n)?
    } else {
        Vec::new()
    };
    assert(v@ =~= views(v@));
    Ok(v)
}

/// Minimum shadow and blending flag; the frequent-property flag and the
/// unnamed value where the version has them; then where the version has
/// them the preferred shadow-volume, shadow-buffer and visible
/// shadow-buffer levels, one of each per level of detail.
pub open spec fn info_tail_spec(s: Seq<u8>, p: int, version: u32, lod_count: u32) -> (
    (u32, bool, bool, u32, Seq<i32>, Seq<i32>, Seq<i32>),
    nat,
) {
    let freq = bool_if_spec(s, p + 5, version, PROPERTY_FREQUENT_SINCE, false);
    let unk = u32_if_spec(s, p + 5 + freq.1, version, UNKNOWN_INT_SINCE, 0);
    let q = p + 5 + freq.1 + unk.1;
    let a = shadow_list_spec(s, q, version, lod_count);
    let b = shadow_list_spec(s, q + a.1, version, lod_count);
    let d = shadow_list_spec(s, q + a.1 + b.1, version, lod_count);
    (
        (u32_at(s, p), bool_at(s, p + 4), freq.0, unk.0, a.0, b.0, d.0),
        5 + freq.1 + unk.1 + a.1 + b.1 + d.1,
    )
}

pub fn read_info_tail(c: &mut Cursor, version: u32, lod_count: u32) -> (r: Result<
    (u32, bool, bool, u32, Vec<i32>, Vec<i32>, Vec<i32>),
    DecodeError,
>)
    requires
        old(c).wf(),
    ensures
        old(c).reads(
            final(c),
            r,
            info_tail_spec(old(c).bytes(), old(c).pos as int, version, lod_count),
        ),
{
    let min_shadow = c.read_u32()?;
    let can_blend = c.read_bool()?;
    let freq = c.read_bool_if(version, PROPERTY_FREQUENT_SINCE, false)?;
    let unk = c.read_u32_if(version, UNKNOWN_INT_SINCE, 0)?;
    let a = read_shadow_list(c, version, lod_count)?;
    let b = read_shadow_list(c, version, lod_count)?;
    let d = read_shadow_list(c, version, lod_count)?;
    Ok((min_shadow, can_blend, freq, unk, a, b, d))
}

/// The model information at `p` in a model of format `version` with
/// `lod_count` levels of detail.
pub open spec fn model_info_spec(s: Seq<u8>, p: int, version: u32, lod_count: u32) -> (
    ModelInfoView,
    nat,
) {
    let ids = info_ids_spec(s, p);
    let bounds = info_bounds_spec(s, p + 44, version);
    let extra = info_extra_spec(s, p + 44 + bounds.1, version);
    let p1 = p + 44 + bounds.1 + extra.1;
    let inertia = seq_spec(s, p1, 3, xyz_reader());
    let flags = info_flags_spec(s, p1 + inertia.1);
    let shading = info_shading_spec(s, p1 + inertia.1 + 10, version);
    let skeleton = skeleton_spec(s, p1 + inertia.1 + 10 + shading.1);
    let p2 = p1 + inertia.1 + 10 + shading.1 + skeleton.1;
    let mass = info_mass_spec(s, p2);
    let mextra = info_mass_extra_spec(s, p2 + 31, version);
    let class = asciiz_spec(s, p2 + 31 + mextra.1);
    let damage = asciiz_spec(s, p2 + 31 + mextra.1 + class.1);
    let tail = info_tail_spec(s, p2 + 31 + mextra.1 + class.1 + damage.1, version, lod_count);
    (
        ModelInfoView {
            ids: ids.0,
            bounds: bounds.0,
            extra: extra.0,
            inv_intertia: inertia.0,
            flags: flags.0,
            shading: shading.0,
            skeleton: skeleton.0,
            mass: mass.0,
            lod_indices: s.subrange(p2 + 17, p2 + 31),
            mass_extra: mextra.0,
            property_class: class.0,
            property_damage: damage.0,
            tail: tail.0,
        },
        44 + bounds.1 + extra.1 + inertia.1 + 10 + shading.1 + skeleton.1 + 31 + mextra.1 + class.1
            + damage.1 + tail.1,
    )
}

#[verifier::rlimit(100)]
pub fn read_model_info(c: &mut Cursor, version: u32, lod_count: u32) -> (r: Result<
    ModelInfoCxx,
    DecodeError,
>)
    requires
        old(c).wf(),
    ensures
        old(c).reads(
            final(c),
            r,
            model_info_spec(old(c).bytes(), old(c).pos as int, version, lod_count),
        ),
{
    let ids = read_info_ids(c)?;
    let bounds = read_info_bounds(c, version)?;
    let extra = read_info_extra(c, version)?;
    let inv_intertia = read_xyzs(c, 3)?;
    assert(inv_intertia@ =~= views(inv_intertia@));
    let flags = read_info_flags(c)?;
    let shading = read_info_shading(c, version)?;
    let skeleton = read_skeleton(c)?;
    let mass = read_info_mass(c)?;
    let lods = read_lod_indices(c)?;
    let b8 = lods[8];
    let signed = #[verifier::truncate] (b8 as i8);
    assert(signed as u8 == b8) by (bit_vector)
        requires
            signed == #[verifier::truncate] (b8 as i8),
    ;
    let mextra = read_info_mass_extra(c, version)?;
    let property_class = c.read_asciiz()?;
    let property_damage = c.read_asciiz()?;
    let tail = read_info_tail(c, version, lod_count)?;
    let info = ModelInfoCxx {
        index: ids.0,
        mem_lod_sphere: ids.1,
        geo_lod_sphere: ids.2,
        remarks: ids.3,
        and_hints: ids.4,
        or_hints: ids.5,
        aiming_center: ids.6,
        map_icon_color: ids.7,
        map_selected_color: ids.8,
        view_density: bounds.0,
        bbox_min_pos: bounds.1,
        bbox_max_pos: bounds.2,
        lod_density_coef: bounds.3,
        draw_importance: bounds.4,
        bounding_center: bounds.5,
        geometry_center: bounds.6,
        center_of_mass: bounds.7,
        bbox_min_visual: extra.0,
        bbox_max_visual: extra.1,
        ht_min: extra.2,
        ht_max: extra.3,
        af_max: extra.4,
        mf_max: extra.5,
        m_fact: extra.6,
        t_body: extra.7,
        inv_intertia,
        auto_center: flags.0,
        lock_auto_center: flags.1,
        can_occlude: flags.2,
        can_be_occluded: flags.3,
        animated: flags.4,
        prefer_shadow_volume: flags.5,
        shadow_offset: flags.6,
        ai_covers: shading.0,
        force_not_alpha: shading.1,
        sb_source: shading.2,
        skeleton,
        map_type: mass.0,
        mass: mass.1,
        mass_reciprocal: mass.2,
        alt_mass: mass.3,
        alt_mass_reciprocal: mass.4,
        geometry_simple: lods[0],
        geometry_phys: lods[1],
        memory: lods[2],
        geometry: lods[3],
        geometry_fire: lods[4],
        geometry_view: lods[5],
        geometry_view_pilot: lods[6],
        geometry_view_gunner: lods[7],
        unknown_signedbyte: signed,
        geometry_view_cargo: lods[9],
        land_contact: lods[10],
        roadway: lods[11],
        paths: lods[12],
        hitpoints: lods[13],
        mass_array: mextra.0,
        property_explosion_shielding: mextra.1,
        property_class,
        property_damage,
        min_shadow: tail.0,
        can_blend: tail.1,
        property_frequent: tail.2,
        unknown_int: tail.3,
        prefferred_shadow_volumne_lod: tail.4,
        prefferred_shadow_buffer_lod: tail.5,
        prefferred_shadow_buffer_lod_vis: tail.6,
    };
    assert(info@.lod_indices =~= lods@);
    Ok(info)
}

// ---- default face data ----

/// The face data that a level of detail without shared defaults declares.
#[derive(Debug, Clone, Copy, PartialEq, Eq, Structural)]
pub struct FaceDataCxx {
    pub header_face_count: u32,
    pub color: u32,
    pub special: i32,
    pub or_hints: u32,
    pub has_skeleton: bool,
    pub vertices_count: i32,
    pub face_area: u32,
}

impl View for FaceDataCxx {
    type V = FaceDataCxx;

    open spec fn view(&self) -> FaceDataCxx {
        *self
    }
}

/// Face count, colour, special flags, or-hints, the skeleton flag from
/// `FACE_SKELETON_SINCE` on (else false), vertex count and face area.
pub open spec fn face_data_spec(s: Seq<u8>, p: int, version: u32) -> (FaceDataCxx, nat) {
    let sk = bool_if_spec(s, p + 16, version, FACE_SKELETON_SINCE, false);
    let q = p + 16 + sk.1;
    (
        FaceDataCxx {
            header_face_count: u32_at(s, p),
            color: u32_at(s, p + 4),
            special: i32_at(s, p + 8),
            or_hints: u32_at(s, p + 12),
            has_skeleton: sk.0,
            vertices_count: i32_at(s, q),
            face_area: u32_at(s, q + 4),
        },
        16 + sk.1 + 8,
    )
}

pub fn read_face_data(c: &mut Cursor, version: u32) -> (r: Result<FaceDataCxx, DecodeError>)
    requires
        old(c).wf(),
    ensures
        old(c).reads(final(c), r, face_data_spec(old(c).bytes(), old(c).pos as int, version)),
{
    let header_face_count = c.read_u32()?;
    let color = c.read_u32()?;
    let special = c.read_i32()?;
    let or_hints = c.read_u32()?;
    let has_skeleton = c.read_bool_if(version, FACE_SKELETON_SINCE, false)?;
    let vertices_count = c.read_i32()?;
    let face_area = c.read_u32()?;
    Ok(
        FaceDataCxx {
            header_face_count,
            color,
            special,
            or_hints,
            has_skeleton,
            vertices_count,
            face_area,
        },
    )
}

/// One face-data block for each level of detail whose flag says that it
/// does not use the shared defaults, in order.
pub open spec fn face_defaults_spec(s: Seq<u8>, p: int, use_defaults: Seq<bool>, version: u32) -> (
    Seq<FaceDataCxx>,
    nat,
)
    decreases use_defaults.len(),
{
    if use_defaults.len() == 0 {
        (Seq::empty(), 0)
    } else {
        let prev = face_defaults_spec(s, p, use_defaults.drop_last(), version);
        if use_defaults.last() {
            prev
        } else {
            let f = face_data_spec(s, p + prev.1, version);
            (prev.0.push(f.0), prev.1 + f.1)
        }
    }
}

pub proof fn lemma_face_defaults_mono(
    s: Seq<u8>,
    p: int,
    flags: Seq<bool>,
    i: int,
    version: u32,
)
    requires
        0 <= i <= flags.len(),
    ensures
        face_defaults_spec(s, p, flags.take(i), version).1 <= face_defaults_spec(s, p, flags, version).1,
    decreases flags.len(),
{
    if i < flags.len() {
        assert(flags.drop_last().take(i) =~= flags.take(i));
        lemma_face_defaults_mono(s, p, flags.drop_last(), i, version);
    } else {
        assert(flags.take(i) =~= flags);
    }
}

pub fn read_face_defaults(c: &mut Cursor, use_defaults: &Vec<bool>, version: u32) -> (r: Result<
    Vec<FaceDataCxx>,
    DecodeError,
>)
    requires
        old(c).wf(),
    ensures
        old(c).steps(
            final(c),
            r,
            face_defaults_spec(old(c).bytes(), old(c).pos as int, use_defaults@, version).1,
        ),
        r is Ok ==> r->Ok_0@ == face_defaults_spec(
            old(c).bytes(),
            old(c).pos as int,
            use_defaults@,
            version,
        ).0,
{
    let ghost s = c.data@;
    let ghost p0 = c.pos as int;
    let mut out: Vec<FaceDataCxx> = Vec::new();
    let mut i: usize = 0;
    while i < use_defaults.len()
        invariant
            c.wf(),
            c.data@ == s,
            s == old(c).data@,
            c.limit == old(c).limit,
            p0 == old(c).pos,
            i <= use_defaults@.len(),
            c.pos == p0 + face_defaults_spec(s, p0, use_defaults@.take(i as int), version).1,
            out@ == face_defaults_spec(s, p0, use_defaults@.take(i as int), version).0,
        decreases use_defaults@.len() - i,
    {
        assert(use_defaults@.take(i + 1).drop_last() =~= use_defaults@.take(i as int));
        if !use_defaults[i] {
            match read_face_data(c, version) {
                Ok(f) => {
                    out.push(f);
                },
                Err(e) => {
                    proof {
                        lemma_face_defaults_mono(s, p0, use_defaults@, i + 1, version);
                    }
                    return Err(e);
                },
            }
        }
        i = i + 1;
    }
    assert(use_defaults@.take(i as int) =~= use_defaults@);
    Ok(out)
}

// ---- animations ----

/// One animation class: how it transforms, its name and source, its phase
/// and value ranges (as bit patterns) and how its phase is addressed.
#[derive(Debug, Clone, PartialEq, Eq)]
pub struct AnimationClassCxx {
    pub anim_transform_type: AnimTypeCxx,
    pub anim_class_name: Vec<u8>,
    pub anim_source: Vec<u8>,
    pub min_phase: u32,
    pub max_phase: u32,
    pub min_value: u32,
    pub max_value: u32,
    pub anim_period: u32,
    pub init_phase: u32,
    pub source_address: AnimAddressCxx,
    pub angle_0: u32,
    pub angle_1: u32,
    pub offset_0: u32,
    pub offset_1: u32,
    pub axis_pos: XYZTripletCxx,
    pub axis_dir: XYZTripletCxx,
    pub axis_angle: u32,
    pub axis_offset: u32,
    pub hide_value: u32,
    pub unknown_hide: u32,
}

pub ghost struct AnimationClassView {
    pub anim_transform_type: AnimTypeCxx,
    pub anim_class_name: Seq<u8>,
    pub anim_source: Seq<u8>,
    pub ranges: (u32, u32, u32, u32),
    pub period: (u32, u32),
    pub source_address: AnimAddressCxx,
    pub tail: (u32, u32, u32, u32, XYZTripletCxx, XYZTripletCxx, u32, u32, u32, u32),
}

impl View for AnimationClassCxx {
    type V = AnimationClassView;

    open spec fn view(&self) -> AnimationClassView {
        AnimationClassView {
            anim_transform_type: self.anim_transform_type,
            anim_class_name: self.anim_class_name@,
            anim_source: self.anim_source@,
            ranges: (self.min_phase, self.max_phase, self.min_value, self.max_value),
            period: (self.anim_period, self.init_phase),
            source_address: self.source_address,
            tail: (
                self.angle_0,
                self.angle_1,
                self.offset_0,
                self.offset_1,
                self.axis_pos,
                self.axis_dir,
                self.axis_angle,
                self.axis_offset,
                self.hide_value,
                self.unknown_hide,
            ),
        }
    }
}

/// What follows the common part of a class, by its kind: two angles for a
/// rotation, two offsets for a translation, an axis with its angle and
/// offset for a direct class, a value for a hiding class (and from
/// `ANIM_HIDE_EXTRA_SINCE` on a second one), nothing for an unknown kind.
/// Fields a kind does not store are zero.
pub open spec fn anim_tail_spec(s: Seq<u8>, p: int, kind: AnimTypeCxx, version: u32) -> (
    (u32, u32, u32, u32, XYZTripletCxx, XYZTripletCxx, u32, u32, u32, u32),
    nat,
) {
    let z = XYZTripletCxx { x: 0, y: 0, z: 0 };
    match kind {
        AnimTypeCxx::Rotation | AnimTypeCxx::RotationX | AnimTypeCxx::RotationY
        | AnimTypeCxx::RotationZ => ((u32_at(s, p), u32_at(s, p + 4), 0, 0, z, z, 0, 0, 0, 0), 8),
        AnimTypeCxx::Translation | AnimTypeCxx::TranslationX | AnimTypeCxx::TranslationY
        | AnimTypeCxx::TranslationZ => ((0, 0, u32_at(s, p), u32_at(s, p + 4), z, z, 0, 0, 0, 0), 8),
        AnimTypeCxx::Direct => (
            (0, 0, 0, 0, xyz_at(s, p), xyz_at(s, p + 12), u32_at(s, p + 24), u32_at(s, p + 28), 0, 0),
            32,
        ),
        AnimTypeCxx::Hide => {
            let extra = u32_if_spec(s, p + 4, version, ANIM_HIDE_EXTRA_SINCE, 0);
            ((0, 0, 0, 0, z, z, 0, 0, u32_at(s, p), extra.0), 4 + extra.1)
        },
        AnimTypeCxx::Unknown(_) => ((0, 0, 0, 0, z, z, 0, 0, 0, 0), 0),
    }
}

pub fn read_anim_tail(c: &mut Cursor, kind: AnimTypeCxx, version: u32) -> (r: Result<
    (u32, u32, u32, u32, XYZTripletCxx, XYZTripletCxx, u32, u32, u32, u32),
    DecodeError,
>)
    requires
        old(c).wf(),
    ensures
        old(c).reads(final(c), r, anim_tail_spec(old(c).bytes(), old(c).pos as int, kind, version)),
{
    let z = XYZTripletCxx { x: 0, y: 0, z: 0 };
    match kind {
        AnimTypeCxx::Rotation | AnimTypeCxx::RotationX | AnimTypeCxx::RotationY
        | AnimTypeCxx::RotationZ => {
            if c.limit - c.pos < 8 {
                return Err(DecodeError::TruncatedInput);
            }
            let a = c.read_u32()?;
            let b = c.read_u32()?;
            Ok((a, b, 0, 0, z, z, 0, 0, 0, 0))
        },
        AnimTypeCxx::Translation | AnimTypeCxx::TranslationX | AnimTypeCxx::TranslationY
        | AnimTypeCxx::TranslationZ => {
            if c.limit - c.pos < 8 {
                return Err(DecodeError::TruncatedInput);
            }
            let a = c.read_u32()?;
            let b = c.read_u32()?;
            Ok((0, 0, a, b, z, z, 0, 0, 0, 0))
        },
        AnimTypeCxx::Direct => {
            if c.limit - c.pos < 32 {
                return Err(DecodeError::TruncatedInput);
            }
            let pos = c.read_xyz()?;
            let dir = c.read_xyz()?;
            let angle = c.read_u32()?;
            let offset = c.read_u32()?;
            Ok((0, 0, 0, 0, pos, dir, angle, offset, 0, 0))
        },
        AnimTypeCxx::Hide => {
            let v = c.read_u32()?;
            let extra = c.read_u32_if(version, ANIM_HIDE_EXTRA_SINCE, 0)?;
            Ok((0, 0, 0, 0, z, z, 0, 0, v, extra))
        },
        AnimTypeCxx::Unknown(_) => Ok((0, 0, 0, 0, z, z, 0, 0, 0, 0)),
    }
}

/// An animation class of a model of format `version`: kind, name, source,
/// phase and value ranges, the period and initial phase where the version
/// has them (else zero), the phase addressing, then the tail of its kind.
pub open spec fn anim_class_spec(s: Seq<u8>, p: int, version: u32) -> (AnimationClassView, nat) {
    let name = asciiz_spec(s, p + 4);
    let source = asciiz_spec(s, p + 4 + name.1);
    let q = p + 4 + name.1 + source.1;
    let period = u32_if_spec(s, q + 16, version, ANIM_PERIOD_SINCE, 0);
    let phase = u32_if_spec(s, q + 16 + period.1, version, ANIM_PERIOD_SINCE, 0);
    let a = q + 16 + period.1 + phase.1;
    let tail = anim_tail_spec(s, a + 4, AnimTypeCxx::spec_from_code(u32_at(s, p)), version);
    (
        AnimationClassView {
            anim_transform_type: AnimTypeCxx::spec_from_code(u32_at(s, p)),
            anim_class_name: name.0,
            anim_source: source.0,
            ranges: (u32_at(s, q), u32_at(s, q + 4), u32_at(s, q + 8), u32_at(s, q + 12)),
            period: (period.0, phase.0),
            source_address: AnimAddressCxx::spec_from_code(u32_at(s, a)),
            tail: tail.0,
        },
        4 + name.1 + source.1 + 16 + period.1 + phase.1 + 4 + tail.1,
    )
}

pub open spec fn anim_class_reader(version: u32) -> spec_fn(Seq<u8>, int) -> (
    AnimationClassView,
    nat,
) {
    |s: Seq<u8>, p: int| anim_class_spec(s, p, version)
}

pub fn read_anim_class(c: &mut Cursor, version: u32) -> (r: Result<AnimationClassCxx, DecodeError>)
    requires
        old(c).wf(),
    ensures
        old(c).reads(final(c), r, anim_class_spec(old(c).bytes(), old(c).pos as int, version)),
{
    let kind = c.read_u32()?;
    let anim_class_name = c.read_asciiz()?;
    let anim_source = c.read_asciiz()?;
    let min_phase = c.read_u32()?;
    let max_phase = c.read_u32()?;
    let min_value = c.read_u32()?;
    let max_value = c.read_u32()?;
    let anim_period = c.read_u32_if(version, ANIM_PERIOD_SINCE, 0)?;
    let init_phase = c.read_u32_if(version, ANIM_PERIOD_SINCE, 0)?;
    let address = c.read_u32()?;
    let anim_transform_type = AnimTypeCxx::from_code(kind);
    let tail = read_anim_tail(c, anim_transform_type, version)?;
    Ok(
        AnimationClassCxx {
            anim_transform_type,
            anim_class_name,
            anim_source,
            min_phase,
            max_phase,
            min_value,
            max_value,
            anim_period,
            init_phase,
            source_address: AnimAddressCxx::from_code(address),
            angle_0: tail.0,
            angle_1: tail.1,
            offset_0: tail.2,
            offset_1: tail.3,
            axis_pos: tail.4,
            axis_dir: tail.5,
            axis_angle: tail.6,
            axis_offset: tail.7,
            hide_value: tail.8,
            unknown_hide: tail.9,
        },
    )
}

/// The animation classes that drive one bone.
#[derive(Debug, Clone, PartialEq, Eq)]
pub struct Bone2AnimClassListCxx {
    pub animation_class_index: Vec<u32>,
}

impl View for Bone2AnimClassListCxx {
    type V = Seq<u32>;

    open spec fn view(&self) -> Seq<u32> {
        self.animation_class_index@
    }
}

pub open spec fn class_list_reader() -> spec_fn(Seq<u8>, int) -> (Seq<u32>, nat) {
    |s: Seq<u8>, p: int| counted_spec(s, p, u32_reader())
}

pub fn read_class_list(c: &mut Cursor) -> (r: Result<Bone2AnimClassListCxx, DecodeError>)
    requires
        old(c).wf(),
    ensures
        old(c).reads(final(c), r, class_list_reader()(old(c).bytes(), old(c).pos as int)),
{
    let animation_class_index = c.read_counted_u32s()?;
    Ok(Bone2AnimClassListCxx { animation_class_index })
}

/// `n` records read one after another.
pub fn read_class_lists(c: &mut Cursor, n: u32) -> (r: Result<Vec<Bone2AnimClassListCxx>, DecodeError>)
    requires
        old(c).wf(),
    ensures
        old(c).reads_seq(final(c), r, seq_spec(old(c).bytes(), old(c).pos as int, n as nat, class_list_reader())),
{
    let ghost s = c.data@;
    let ghost p0 = c.pos as int;
    let mut out: Vec<Bone2AnimClassListCxx> = Vec::new();
    let mut i: u32 = 0;
    while i < n
        invariant
            c.wf(),
            c.data@ == s,
            s == old(c).data@,
            c.limit == old(c).limit,
            p0 == old(c).pos,
            i <= n,
            c.pos == p0 + seq_spec(s, p0, i as nat, class_list_reader()).1,
            views(out@) == seq_spec(s, p0, i as nat, class_list_reader()).0,
        decreases n - i,
    {
        match read_class_list(c) {
            Ok(x) => {
                let ghost prev = out@;
                out.push(x);
                proof {
                    assert(views(out@) =~= views(prev).push(x@));
                }
                i = i + 1;
            },
            Err(e) => {
                proof {
                    lemma_seq_width_mono(s, p0, (i + 1) as nat, n as nat, class_list_reader());
                }
                return Err(e);
            },
        }
    }
    Ok(out)
}

/// A 32-bit count followed by that many records.
pub fn read_counted_class_lists(c: &mut Cursor) -> (r: Result<Vec<Bone2AnimClassListCxx>, DecodeError>)
    requires
        old(c).wf(),
    ensures
        old(c).reads_seq(final(c), r, counted_spec(old(c).bytes(), old(c).pos as int, class_list_reader())),
{
    let n = c.read_u32()?;
    read_class_lists(c, n)
}

/// For one level of detail, the animation classes of each bone.
#[derive(Debug, Clone, PartialEq, Eq)]
pub struct Bones2AnimsCxx {
    pub bone_2_anim_class_list: Vec<Bone2AnimClassListCxx>,
}

impl View for Bones2AnimsCxx {
    type V = Seq<Seq<u32>>;

    open spec fn view(&self) -> Seq<Seq<u32>> {
        views(self.bone_2_anim_class_list@)
    }
}

pub open spec fn bones_reader() -> spec_fn(Seq<u8>, int) -> (Seq<Seq<u32>>, nat) {
    |s: Seq<u8>, p: int| counted_spec(s, p, class_list_reader())
}

pub fn read_bone_table(c: &mut Cursor) -> (r: Result<Bones2AnimsCxx, DecodeError>)
    requires
        old(c).wf(),
    ensures
        old(c).reads(final(c), r, bones_reader()(old(c).bytes(), old(c).pos as int)),
{
    let bone_2_anim_class_list = read_counted_class_lists(c)?;
    Ok(Bones2AnimsCxx { bone_2_anim_class_list })
}

/// `n` records read one after another.
pub fn read_bone_tables(c: &mut Cursor, n: u32) -> (r: Result<Vec<Bones2AnimsCxx>, DecodeError>)
    requires
        old(c).wf(),
    ensures
        old(c).reads_seq(final(c), r, seq_spec(old(c).bytes(), old(c).pos as int, n as nat, bones_reader())),
{
    let ghost s = c.data@;
    let ghost p0 = c.pos as int;
    let mut out: Vec<Bones2AnimsCxx> = Vec::new();
    let mut i: u32 = 0;
    while i < n
        invariant
            c.wf(),
            c.data@ == s,
            s == old(c).data@,
            c.limit == old(c).limit,
            p0 == old(c).pos,
            i <= n,
            c.pos == p0 + seq_spec(s, p0, i as nat, bones_reader()).1,
            views(out@) == seq_spec(s, p0, i as nat, bones_reader()).0,
        decreases n - i,
    {
        match read_bone_table(c) {
            Ok(x) => {
                let ghost prev = out@;
                out.push(x);
                proof {
                    assert(views(out@) =~= views(prev).push(x@));
                }
                i = i + 1;
            },
            Err(e) => {
                proof {
                    lemma_seq_width_mono(s, p0, (i + 1) as nat, n as nat, bones_reader());
                }
                return Err(e);
            },
        }
    }
    Ok(out)
}

/// `n` records read one after another.
pub fn read_anim_classes(c: &mut Cursor, n: u32, version: u32) -> (r: Result<Vec<AnimationClassCxx>, DecodeError>)
    requires
        old(c).wf(),
    ensures
        old(c).reads_seq(final(c), r, seq_spec(old(c).bytes(), old(c).pos as int, n as nat, anim_class_reader(version))),
{
    let ghost s = c.data@;
    let ghost p0 = c.pos as int;
    let mut out: Vec<AnimationClassCxx> = Vec::new();
    let mut i: u32 = 0;
    while i < n
        invariant
            c.wf(),
            c.data@ == s,
            s == old(c).data@,
            c.limit == old(c).limit,
            p0 == old(c).pos,
            i <= n,
            c.pos == p0 + seq_spec(s, p0, i as nat, anim_class_reader(version)).1,
            views(out@) == seq_spec(s, p0, i as nat, anim_class_reader(version)).0,
        decreases n - i,
    {
        match read_anim_class(c, version) {
            Ok(x) => {
                let ghost prev = out@;
                out.push(x);
                proof {
                    assert(views(out@) =~= views(prev).push(x@));
                }
                i = i + 1;
            },
            Err(e) => {
                proof {
                    lemma_seq_width_mono(s, p0, (i + 1) as nat, n as nat, anim_class_reader(version));
                }
                return Err(e);
            },
        }
    }
    Ok(out)
}

/// A 32-bit count followed by that many records.
pub fn read_counted_anim_classes(c: &mut Cursor, version: u32) -> (r: Result<Vec<AnimationClassCxx>, DecodeError>)
    requires
        old(c).wf(),
    ensures
        old(c).reads_seq(final(c), r, counted_spec(old(c).bytes(), old(c).pos as int, anim_class_reader(version))),
{
    let n = c.read_u32()?;
    read_anim_classes(c, n, version)
}


// ---- animation axes ----

/// The bone that an animation class moves in one level of detail, with the
/// axis the class turns or slides along where it has one.
#[derive(Debug, Clone, Copy, PartialEq, Eq, Structural)]
pub struct AnimBonesCxx {
    pub skeleton_bone_name_index: i32,
    pub axis_pos: XYZTripletCxx,
    pub axis_dir: XYZTripletCxx,
}

impl View for AnimBonesCxx {
    type V = AnimBonesCxx;

    open spec fn view(&self) -> AnimBonesCxx {
        *self
    }
}

/// Whether a class of this kind stores an axis with its bone: all but the
/// direct and hiding ones.
pub open spec fn has_axis(kind: AnimTypeCxx) -> bool {
    !(kind is Direct) && !(kind is Hide)
}

pub open spec fn zero_xyz() -> XYZTripletCxx {
    XYZTripletCxx { x: 0, y: 0, z: 0 }
}

/// The bone of a class of kind `kind`: its index, then where the index is
/// not -1 and the kind has an axis, the axis position and direction.
pub open spec fn anim_bone_spec(s: Seq<u8>, p: int, kind: AnimTypeCxx) -> (AnimBonesCxx, nat) {
    let idx = i32_at(s, p);
    if idx != -1 && has_axis(kind) {
        (
            AnimBonesCxx {
                skeleton_bone_name_index: idx,
                axis_pos: xyz_at(s, p + 4),
                axis_dir: xyz_at(s, p + 16),
            },
            28,
        )
    } else {
        (AnimBonesCxx { skeleton_bone_name_index: idx, axis_pos: zero_xyz(), axis_dir: zero_xyz() }, 4)
    }
}

pub fn read_anim_bone(c: &mut Cursor, kind: AnimTypeCxx) -> (r: Result<AnimBonesCxx, DecodeError>)
    requires
        old(c).wf(),
    ensures
        old(c).reads(final(c), r, anim_bone_spec(old(c).bytes(), old(c).pos as int, kind)),
{
    let idx = c.read_i32()?;
    let axis = match kind {
        AnimTypeCxx::Direct => false,
        AnimTypeCxx::Hide => false,
        _ => true,
    };
    if idx != -1 && axis {
        let axis_pos = c.read_xyz()?;
        let axis_dir = c.read_xyz()?;
        Ok(AnimBonesCxx { skeleton_bone_name_index: idx, axis_pos, axis_dir })
    } else {
        let zero = XYZTripletCxx { x: 0, y: 0, z: 0 };
        Ok(AnimBonesCxx { skeleton_bone_name_index: idx, axis_pos: zero, axis_dir: zero })
    }
}

/// One bone record per animation class, the class kinds in order.
pub open spec fn anim_bones_spec(s: Seq<u8>, p: int, kinds: Seq<AnimTypeCxx>) -> (
    Seq<AnimBonesCxx>,
    nat,
)
    decreases kinds.len(),
{
    if kinds.len() == 0 {
        (Seq::empty(), 0)
    } else {
        let prev = anim_bones_spec(s, p, kinds.drop_last());
        let b = anim_bone_spec(s, p + prev.1, kinds.last());
        (prev.0.push(b.0), prev.1 + b.1)
    }
}

pub proof fn lemma_anim_bones_mono(s: Seq<u8>, p: int, kinds: Seq<AnimTypeCxx>, i: int)
    requires
        0 <= i <= kinds.len(),
    ensures
        anim_bones_spec(s, p, kinds.take(i)).1 <= anim_bones_spec(s, p, kinds).1,
    decreases kinds.len(),
{
    if i < kinds.len() {
        assert(kinds.drop_last().take(i) =~= kinds.take(i));
        lemma_anim_bones_mono(s, p, kinds.drop_last(), i);
    } else {
        assert(kinds.take(i) =~= kinds);
    }
}

/// For one level of detail, the bone that each animation class moves.
#[derive(Debug, Clone, PartialEq, Eq)]
pub struct Anims2BonesCxx {
    pub animation_class_indices: Vec<AnimBonesCxx>,
}

impl View for Anims2BonesCxx {
    type V = Seq<AnimBonesCxx>;

    open spec fn view(&self) -> Seq<AnimBonesCxx> {
        self.animation_class_indices@
    }
}

pub open spec fn anims_reader(kinds: Seq<AnimTypeCxx>) -> spec_fn(Seq<u8>, int) -> (
    Seq<AnimBonesCxx>,
    nat,
) {
    |s: Seq<u8>, p: int| anim_bones_spec(s, p, kinds)
}

pub fn read_anim_table(c: &mut Cursor, kinds: &Vec<AnimTypeCxx>) -> (r: Result<Anims2BonesCxx, DecodeError>)
    requires
        old(c).wf(),
    ensures
        old(c).reads(final(c), r, anims_reader(kinds@)(old(c).bytes(), old(c).pos as int)),
{
    let ghost s = c.data@;
    let ghost p0 = c.pos as int;
    let mut out: Vec<AnimBonesCxx> = Vec::new();
    let mut i: usize = 0;
    while i < kinds.len()
        invariant
            c.wf(),
            c.data@ == s,
            s == old(c).data@,
            c.limit == old(c).limit,
            p0 == old(c).pos,
            i <= kinds@.len(),
            c.pos == p0 + anim_bones_spec(s, p0, kinds@.take(i as int)).1,
            out@ == anim_bones_spec(s, p0, kinds@.take(i as int)).0,
        decreases kinds@.len() - i,
    {
        assert(kinds@.take(i + 1).drop_last() =~= kinds@.take(i as int));
        match read_anim_bone(c, kinds[i]) {
            Ok(b) => {
                out.push(b);
            },
            Err(e) => {
                proof {
                    lemma_anim_bones_mono(s, p0, kinds@, i + 1);
                }
                return Err(e);
            },
        }
        i = i + 1;
    }
    assert(kinds@.take(i as int) =~= kinds@);
    Ok(Anims2BonesCxx { animation_class_indices: out })
}

/// `n` records read one after another.
pub fn read_anim_tables(c: &mut Cursor, n: u32, kinds: &Vec<AnimTypeCxx>) -> (r: Result<Vec<Anims2BonesCxx>, DecodeError>)
    requires
        old(c).wf(),
    ensures
        old(c).reads_seq(final(c), r, seq_spec(old(c).bytes(), old(c).pos as int, n as nat, anims_reader(kinds@))),
{
    let ghost s = c.data@;
    let ghost p0 = c.pos as int;
    let mut out: Vec<Anims2BonesCxx> = Vec::new();
    let mut i: u32 = 0;
    while i < n
        invariant
            c.wf(),
            c.data@ == s,
            s == old(c).data@,
            c.limit == old(c).limit,
            p0 == old(c).pos,
            i <= n,
            c.pos == p0 + seq_spec(s, p0, i as nat, anims_reader(kinds@)).1,
            views(out@) == seq_spec(s, p0, i as nat, anims_reader(kinds@)).0,
        decreases n - i,
    {
        match read_anim_table(c, kinds) {
            Ok(x) => {
                let ghost prev = out@;
                out.push(x);
                proof {
                    assert(views(out@) =~= views(prev).push(x@));
                }
                i = i + 1;
            },
            Err(e) => {
                proof {
                    lemma_seq_width_mono(s, p0, (i + 1) as nat, n as nat, anims_reader(kinds@));
                }
                return Err(e);
            },
        }
    }
    Ok(out)
}

/// The kinds of a sequence of animation classes.
pub open spec fn kinds_of(classes: Seq<AnimationClassView>) -> Seq<AnimTypeCxx> {
    classes.map_values(|a: AnimationClassView| a.anim_transform_type)
}

pub fn class_kinds(classes: &Vec<AnimationClassCxx>) -> (r: Vec<AnimTypeCxx>)
    ensures
        r@ == kinds_of(views(classes@)),
{
    let mut out: Vec<AnimTypeCxx> = Vec::new();
    let mut i: usize = 0;
    while i < classes.len()
        invariant
            i <= classes@.len(),
            out@ == kinds_of(views(classes@)).take(i as int),
        decreases classes@.len() - i,
    {
        out.push(classes[i].anim_transform_type);
        i = i + 1;
        assert(out@ =~= kinds_of(views(classes@)).take(i as int));
    }
    assert(out@ =~= kinds_of(views(classes@)));
    out
}

/// The animation-class table, and per level of detail which classes drive
/// each bone.
#[derive(Debug, Clone, PartialEq, Eq)]
pub struct AnimationsCxx {
    pub animation_classes: Vec<AnimationClassCxx>,
    pub bones_2_anims: Vec<Bones2AnimsCxx>,
    pub anims_2_bones: Vec<Anims2BonesCxx>,
}

impl View for AnimationsCxx {
    type V = (Seq<AnimationClassView>, Seq<Seq<Seq<u32>>>, Seq<Seq<AnimBonesCxx>>);

    open spec fn view(&self) -> (Seq<AnimationClassView>, Seq<Seq<Seq<u32>>>, Seq<Seq<AnimBonesCxx>>) {
        (views(self.animation_classes@), views(self.bones_2_anims@), views(self.anims_2_bones@))
    }
}

/// The animation flag, then where it is set the counted classes, one bone
/// table for each of the `lod_count` levels of detail, and one class table
/// for each of them.
pub open spec fn animations_spec(s: Seq<u8>, p: int, lod_count: u32, version: u32) -> (
    (bool, (Seq<AnimationClassView>, Seq<Seq<Seq<u32>>>, Seq<Seq<AnimBonesCxx>>)),
    nat,
) {
    if bool_at(s, p) {
        let classes = counted_spec(s, p + 1, anim_class_reader(version));
        let bones = seq_spec(s, p + 1 + classes.1, lod_count as nat, bones_reader());
        let axes = seq_spec(
            s,
            p + 1 + classes.1 + bones.1,
            lod_count as nat,
            anims_reader(kinds_of(classes.0)),
        );
        ((true, (classes.0, bones.0, axes.0)), 1 + classes.1 + bones.1 + axes.1)
    } else {
        ((false, (Seq::empty(), Seq::empty(), Seq::empty())), 1)
    }
}

pub fn read_animations(c: &mut Cursor, lod_count: u32, version: u32) -> (r: Result<
    (bool, AnimationsCxx),
    DecodeError,
>)
    requires
        old(c).wf(),
    ensures
        old(c).reads(
            final(c),
            r,
            animations_spec(old(c).bytes(), old(c).pos as int, lod_count, version),
        ),
{
    let has_anims = c.read_bool()?;
    if has_anims {
        let animation_classes = read_counted_anim_classes(c, version)?;
        let bones_2_anims = read_bone_tables(c, lod_count)?;
        let kinds = class_kinds(&animation_classes);
        let anims_2_bones = read_anim_tables(c, lod_count, &kinds)?;
        Ok((true, AnimationsCxx { animation_classes, bones_2_anims, anims_2_bones }))
    } else {
        let a = AnimationsCxx {
            animation_classes: Vec::new(),
            bones_2_anims: Vec::new(),
            anims_2_bones: Vec::new(),
        };
        assert(a@.0 =~= Seq::empty());
        assert(a@.1 =~= Seq::empty());
        assert(a@.2 =~= Seq::empty());
        Ok((false, a))
    }
}

} // verus!

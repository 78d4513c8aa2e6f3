//! The body of one level of detail. Its fields come in a fixed order, and
//! the vertex count read early gates the size of every per-vertex array.
use vstd::prelude::*;

use crate::codec::{
    asciiz_reader, bool_at, counted_spec, i32_at, is_present, present, seq_spec, u32_at,
    u32_reader, views, xyz_at, xyz_reader, Cursor, XYZTripletCxx,
};
use crate::enums::ClipFlagsCxx;
use crate::error::DecodeError;
use crate::index_array::{index_array_spec, read_index_array, CompressedVertexIndexArrayCxx};
use crate::lod::{
    bone_link_reader, clip_flags_reader, face_reader, material_reader, neighbour_reader,
    property_reader, proxy_reader, read_clip_flag_words, read_counted_bone_links,
    read_counted_faces, read_counted_frames, read_counted_materials, read_counted_neighbours,
    read_counted_properties, read_counted_proxies, read_counted_sections,
    read_counted_selections, read_counted_strings, read_rt_weights, read_st_pairs, read_xyzs,
    read_counted_uv_sets, read_uv_set, uv_set_reader, uv_set_spec, UVSetCxx, UVSetView,
    rt_weight_reader, section_reader, selection_reader, st_pair_reader, frame_reader,
    AnimationRTWeightCxx, AnimationRTWeightView, BoneLinkCxx, LodFaceCxx, LodFaceView,
    LodFrameCxx, LodFrameView, LodMaterialCxx, LodMaterialView, LodNameSelectionCxx,
    LodNameSelectionView, LodNamedPropertyCxx, LodSectionCxx, LodSectionView, ProxyCxx,
    ProxyView, STPairCxx, VertexNeighbourCxx, VertexNeighbourView,
};
use crate::versions::{CLIP_FLAGS_SINCE, ST_COORDS_SINCE};

verus! {

/// The two edge tables of a level of detail.
#[derive(Debug, Clone, PartialEq, Eq)]
pub struct LodEdgesCxx {
    pub mlod_index: CompressedVertexIndexArrayCxx,
    pub vertex_index: CompressedVertexIndexArrayCxx,
}

/// A decoded level of detail. Single-precision values (face area, bounds,
/// radius, coordinates) are kept as their bit patterns.
#[derive(Debug, Clone, PartialEq, Eq)]
pub struct LodCxx {
    pub proxies: Vec<ProxyCxx>,
    pub lod_items: Vec<u32>,
    pub bone_links: Vec<BoneLinkCxx>,
    pub vertex_count: u32,
    pub clip_old_format: Vec<ClipFlagsCxx>,
    pub face_area: u32,
    pub or_hints: i32,
    pub and_hints: i32,
    pub b_min: XYZTripletCxx,
    pub b_max: XYZTripletCxx,
    pub b_center: XYZTripletCxx,
    pub b_radius: u32,
    pub textures: Vec<Vec<u8>>,
    pub materials: Vec<LodMaterialCxx>,
    pub lod_edges: LodEdgesCxx,
    pub faces: Vec<LodFaceCxx>,
    pub sections: Vec<LodSectionCxx>,
    pub named_selection: Vec<LodNameSelectionCxx>,
    pub named_properties: Vec<LodNamedPropertyCxx>,
    pub frames: Vec<LodFrameCxx>,
    pub icon_color: u32,
    pub selected_color: u32,
    pub special: u32,
    pub vertex_bone_ref_is_simple: bool,
    pub size_of_rest_data: u32,
    pub clip: Vec<ClipFlagsCxx>,
    pub default_uv_set: UVSetCxx,
    pub uv_sets: Vec<UVSetCxx>,
    pub vertices: Vec<XYZTripletCxx>,
    pub normals: Vec<XYZTripletCxx>,
    pub st_coords: Vec<STPairCxx>,
    pub vertex_bone_ref: Vec<AnimationRTWeightCxx>,
    pub neighbour_bone_ref: Vec<VertexNeighbourCxx>,
}

pub ghost struct LodView {
    pub proxies: Seq<ProxyView>,
    pub lod_items: Seq<u32>,
    pub bone_links: Seq<Seq<u32>>,
    pub vertex_count: u32,
    pub clip_old_format: Seq<ClipFlagsCxx>,
    pub face_area: u32,
    pub or_hints: i32,
    pub and_hints: i32,
    pub b_min: XYZTripletCxx,
    pub b_max: XYZTripletCxx,
    pub b_center: XYZTripletCxx,
    pub b_radius: u32,
    pub textures: Seq<Seq<u8>>,
    pub materials: Seq<LodMaterialView>,
    pub mlod_edges: Seq<u32>,
    pub vertex_edges: Seq<u32>,
    pub faces: Seq<LodFaceView>,
    pub sections: Seq<LodSectionView>,
    pub named_selection: Seq<LodNameSelectionView>,
    pub named_properties: Seq<(Seq<u8>, Seq<u8>)>,
    pub frames: Seq<LodFrameView>,
    pub icon_color: u32,
    pub selected_color: u32,
    pub special: u32,
    pub vertex_bone_ref_is_simple: bool,
    pub size_of_rest_data: u32,
    pub clip: Seq<ClipFlagsCxx>,
    pub default_uv_set: UVSetView,
    pub uv_sets: Seq<UVSetView>,
    pub vertices: Seq<XYZTripletCxx>,
    pub normals: Seq<XYZTripletCxx>,
    pub st_coords: Seq<STPairCxx>,
    pub vertex_bone_ref: Seq<AnimationRTWeightView>,
    pub neighbour_bone_ref: Seq<VertexNeighbourView>,
}

impl View for LodCxx {
    type V = LodView;

    open spec fn view(&self) -> LodView {
        LodView {
            proxies: views(self.proxies@),
            lod_items: self.lod_items@,
            bone_links: views(self.bone_links@),
            vertex_count: self.vertex_count,
            clip_old_format: self.clip_old_format@,
            face_area: self.face_area,
            or_hints: self.or_hints,
            and_hints: self.and_hints,
            b_min: self.b_min,
            b_max: self.b_max,
            b_center: self.b_center,
            b_radius: self.b_radius,
            textures: views(self.textures@),
            materials: views(self.materials@),
            mlod_edges: self.lod_edges.mlod_index@,
            vertex_edges: self.lod_edges.vertex_index@,
            faces: views(self.faces@),
            sections: views(self.sections@),
            named_selection: views(self.named_selection@),
            named_properties: views(self.named_properties@),
            frames: views(self.frames@),
            icon_color: self.icon_color,
            selected_color: self.selected_color,
            special: self.special,
            vertex_bone_ref_is_simple: self.vertex_bone_ref_is_simple,
            size_of_rest_data: self.size_of_rest_data,
            clip: self.clip@,
            default_uv_set: self.default_uv_set@,
            uv_sets: views(self.uv_sets@),
            vertices: self.vertices@,
            normals: self.normals@,
            st_coords: self.st_coords@,
            vertex_bone_ref: views(self.vertex_bone_ref@),
            neighbour_bone_ref: views(self.neighbour_bone_ref@),
        }
    }
}

/// The legacy per-vertex clip-flags words after the vertex count, read only
/// below `CLIP_FLAGS_SINCE`, which supersedes them.
pub open spec fn clip_old_format_spec(s: Seq<u8>, p: int, version: u32, n: u32) -> (
    Seq<ClipFlagsCxx>,
    nat,
) {
    if !present(version, CLIP_FLAGS_SINCE) {
        seq_spec(s, p, n as nat, clip_flags_reader())
    } else {
        (Seq::empty(), 0)
    }
}

/// The per-vertex clip-flags words after the rest size, present from
/// `CLIP_FLAGS_SINCE` on.
pub open spec fn clip_flags_spec(s: Seq<u8>, p: int, version: u32, n: u32) -> (
    Seq<ClipFlagsCxx>,
    nat,
) {
    if present(version, CLIP_FLAGS_SINCE) {
        seq_spec(s, p, n as nat, clip_flags_reader())
    } else {
        (Seq::empty(), 0)
    }
}

/// The texture-space pairs, one per vertex, present from `ST_COORDS_SINCE` on.
pub open spec fn st_coords_spec(s: Seq<u8>, p: int, version: u32, n: u32) -> (
    Seq<STPairCxx>,
    nat,
) {
    if present(version, ST_COORDS_SINCE) {
        seq_spec(s, p, n as nat, st_pair_reader())
    } else {
        (Seq::empty(), 0)
    }
}

/// Proxies, level-of-detail items, bone links, the vertex count and the
/// legacy clip-flags words.
pub open spec fn lod_links_spec(s: Seq<u8>, p: int, version: u32) -> (
    (Seq<ProxyView>, Seq<u32>, Seq<Seq<u32>>, u32, Seq<ClipFlagsCxx>),
    nat,
) {
    let proxies = counted_spec(s, p, proxy_reader(version));
    let items = counted_spec(s, p + proxies.1, u32_reader());
    let links = counted_spec(s, p + proxies.1 + items.1, bone_link_reader());
    let q = p + proxies.1 + items.1 + links.1;
    let nv = u32_at(s, q);
    let clip = clip_old_format_spec(s, q + 4, version, nv);
    ((proxies.0, items.0, links.0, nv, clip.0), proxies.1 + items.1 + links.1 + 4 + clip.1)
}

/// Face area, or- and and-hints, bounding box corners and centre, radius.
pub open spec fn lod_bounds_spec(s: Seq<u8>, p: int) -> (
    (u32, i32, i32, XYZTripletCxx, XYZTripletCxx, XYZTripletCxx, u32),
    nat,
) {
    (
        (
            u32_at(s, p),
            i32_at(s, p + 4),
            i32_at(s, p + 8),
            xyz_at(s, p + 12),
            xyz_at(s, p + 24),
            xyz_at(s, p + 36),
            u32_at(s, p + 48),
        ),
        52,
    )
}

/// Textures, materials, the two edge tables, faces and sections.
pub open spec fn lod_surface_spec(s: Seq<u8>, p: int, version: u32) -> (
    (
        Seq<Seq<u8>>,
        Seq<LodMaterialView>,
        Seq<u32>,
        Seq<u32>,
        Seq<LodFaceView>,
        Seq<LodSectionView>,
    ),
    nat,
) {
    let textures = counted_spec(s, p, asciiz_reader());
    let p1 = p + textures.1;
    let materials = counted_spec(s, p1, material_reader());
    let p2 = p1 + materials.1;
    let mlod = index_array_spec(s, p2);
    let vedges = index_array_spec(s, p2 + mlod.1);
    let p3 = p2 + mlod.1 + vedges.1;
    let faces = counted_spec(s, p3, face_reader(version));
    let sections = counted_spec(s, p3 + faces.1, section_reader(version));
    (
        (textures.0, materials.0, mlod.0, vedges.0, faces.0, sections.0),
        textures.1 + materials.1 + mlod.1 + vedges.1 + faces.1 + sections.1,
    )
}

/// Named selections, named properties, keyframes, then two colours, the
/// special flags, the simplicity flag and the size of the rest.
pub open spec fn lod_naming_spec(s: Seq<u8>, p: int) -> (
    (
        Seq<LodNameSelectionView>,
        Seq<(Seq<u8>, Seq<u8>)>,
        Seq<LodFrameView>,
        u32,
        u32,
        u32,
        bool,
        u32,
    ),
    nat,
) {
    let selections = counted_spec(s, p, selection_reader());
    let properties = counted_spec(s, p + selections.1, property_reader());
    let frames = counted_spec(s, p + selections.1 + properties.1, frame_reader());
    let q = p + selections.1 + properties.1 + frames.1;
    (
        (
            selections.0,
            properties.0,
            frames.0,
            u32_at(s, q),
            u32_at(s, q + 4),
            u32_at(s, q + 8),
            bool_at(s, q + 12),
            u32_at(s, q + 13),
        ),
        selections.1 + properties.1 + frames.1 + 17,
    )
}

/// The clip-flags words where the version has them, the default
/// texture-coordinate set and the counted further sets; then
/// vertices, normals, texture-space pairs and bone weights, one of each per
/// vertex; then the counted vertex neighbours.
pub open spec fn lod_vertex_spec(s: Seq<u8>, p0: int, version: u32, nv: u32) -> (
    (
        Seq<ClipFlagsCxx>,
        UVSetView,
        Seq<UVSetView>,
        Seq<XYZTripletCxx>,
        Seq<XYZTripletCxx>,
        Seq<STPairCxx>,
        Seq<AnimationRTWeightView>,
        Seq<VertexNeighbourView>,
    ),
    nat,
) {
    let clip = clip_flags_spec(s, p0, version, nv);
    let p1 = p0 + clip.1;
    let uv = uv_set_spec(s, p1);
    let uvs = counted_spec(s, p1 + uv.1, uv_set_reader());
    let p = p1 + uv.1 + uvs.1;
    let vertices = seq_spec(s, p, nv as nat, xyz_reader());
    let normals = seq_spec(s, p + vertices.1, nv as nat, xyz_reader());
    let q = p + vertices.1 + normals.1;
    let st = st_coords_spec(s, q, version, nv);
    let weights = seq_spec(s, q + st.1, nv as nat, rt_weight_reader());
    let neighbours = counted_spec(s, q + st.1 + weights.1, neighbour_reader());
    (
        (clip.0, uv.0, uvs.0, vertices.0, normals.0, st.0, weights.0, neighbours.0),
        clip.1 + uv.1 + uvs.1 + vertices.1 + normals.1 + st.1 + weights.1 + neighbours.1,
    )
}

/// The body of a level of detail at `p` in a model of format `version`, and
/// its width.
pub open spec fn lod_spec(s: Seq<u8>, p: int, version: u32) -> (LodView, nat) {
    let a = lod_links_spec(s, p, version);
    let b = lod_bounds_spec(s, p + a.1);
    let c = lod_surface_spec(s, p + a.1 + b.1, version);
    let d = lod_naming_spec(s, p + a.1 + b.1 + c.1);
    let e = lod_vertex_spec(s, p + a.1 + b.1 + c.1 + d.1, version, a.0.3);
    (
        LodView {
            proxies: a.0.0,
            lod_items: a.0.1,
            bone_links: a.0.2,
            vertex_count: a.0.3,
            clip_old_format: a.0.4,
            face_area: b.0.0,
            or_hints: b.0.1,
            and_hints: b.0.2,
            b_min: b.0.3,
            b_max: b.0.4,
            b_center: b.0.5,
            b_radius: b.0.6,
            textures: c.0.0,
            materials: c.0.1,
            mlod_edges: c.0.2,
            vertex_edges: c.0.3,
            faces: c.0.4,
            sections: c.0.5,
            named_selection: d.0.0,
            named_properties: d.0.1,
            frames: d.0.2,
            icon_color: d.0.3,
            selected_color: d.0.4,
            special: d.0.5,
            vertex_bone_ref_is_simple: d.0.6,
            size_of_rest_data: d.0.7,
            clip: e.0.0,
            default_uv_set: e.0.1,
            uv_sets: e.0.2,
            vertices: e.0.3,
            normals: e.0.4,
            st_coords: e.0.5,
            vertex_bone_ref: e.0.6,
            neighbour_bone_ref: e.0.7,
        },
        a.1 + b.1 + c.1 + d.1 + e.1,
    )
}

pub fn read_lod_links(c: &mut Cursor, version: u32) -> (r: Result<
    (Vec<ProxyCxx>, Vec<u32>, Vec<BoneLinkCxx>, u32, Vec<ClipFlagsCxx>),
    DecodeError,
>)
    requires
        old(c).wf(),
    ensures
        old(c).steps(final(c), r, lod_links_spec(old(c).bytes(), old(c).pos as int, version).1),
        r is Ok ==> {
            let v = r->Ok_0;
            (views(v.0@), v.1@, views(v.2@), v.3, v.4@) == lod_links_spec(
                old(c).bytes(),
                old(c).pos as int,
                version,
            ).0
        },
{
    let proxies = read_counted_proxies(c, version)?;
    let items = c.read_counted_u32s()?;
    let links = read_counted_bone_links(c)?;
    let nv = c.read_u32()?;
    let clip = if !is_present(version, CLIP_FLAGS_SINCE) {
        read_clip_flag_words(c, nv)?
    } else {
        Vec::new()
    };
    assert(clip@ =~= views(clip@));
    Ok((proxies, items, links, nv, clip))
}

pub fn read_lod_bounds(c: &mut Cursor) -> (r: Result<
    (u32, i32, i32, XYZTripletCxx, XYZTripletCxx, XYZTripletCxx, u32),
    DecodeError,
>)
    requires
        old(c).wf(),
    ensures
        old(c).reads(final(c), r, lod_bounds_spec(old(c).bytes(), old(c).pos as int)),
{
    if c.limit - c.pos < 52 {
        return Err(DecodeError::TruncatedInput);
    }
    let area = c.read_u32()?;
    let or_hints = c.read_i32()?;
    let and_hints = c.read_i32()?;
    let b_min = c.read_xyz()?;
    let b_max = c.read_xyz()?;
    let b_center = c.read_xyz()?;
    let radius = c.read_u32()?;
    Ok((area, or_hints, and_hints, b_min, b_max, b_center, radius))
}

pub fn read_lod_surface(c: &mut Cursor, version: u32) -> (r: Result<
    (
        Vec<Vec<u8>>,
        Vec<LodMaterialCxx>,
        CompressedVertexIndexArrayCxx,
        CompressedVertexIndexArrayCxx,
        Vec<LodFaceCxx>,
        Vec<LodSectionCxx>,
    ),
    DecodeError,
>)
    requires
        old(c).wf(),
    ensures
        old(c).steps(final(c), r, lod_surface_spec(old(c).bytes(), old(c).pos as int, version).1),
        r is Ok ==> {
            let v = r->Ok_0;
            (views(v.0@), views(v.1@), v.2@, v.3@, views(v.4@), views(v.5@)) == lod_surface_spec(
                old(c).bytes(),
                old(c).pos as int,
                version,
            ).0
        },
{
    let textures = read_counted_strings(c)?;
    let materials = read_counted_materials(c)?;
    let mlod = read_index_array(c)?;
    let vedges = read_index_array(c)?;
    let faces = read_counted_faces(c, version)?;
    let sections = read_counted_sections(c, version)?;
    Ok((textures, materials, mlod, vedges, faces, sections))
}

pub fn read_lod_naming(c: &mut Cursor) -> (r: Result<
    (
        Vec<LodNameSelectionCxx>,
        Vec<LodNamedPropertyCxx>,
        Vec<LodFrameCxx>,
        u32,
        u32,
        u32,
        bool,
        u32,
    ),
    DecodeError,
>)
    requires
        old(c).wf(),
    ensures
        old(c).steps(final(c), r, lod_naming_spec(old(c).bytes(), old(c).pos as int).1),
        r is Ok ==> {
            let v = r->Ok_0;
            (views(v.0@), views(v.1@), views(v.2@), v.3, v.4, v.5, v.6, v.7) == lod_naming_spec(
                old(c).bytes(),
                old(c).pos as int,
            ).0
        },
{
    let selections = read_counted_selections(c)?;
    let properties = read_counted_properties(c)?;
    let frames = read_counted_frames(c)?;
    if c.limit - c.pos < 17 {
        return Err(DecodeError::TruncatedInput);
    }
    let icon = c.read_u32()?;
    let selected = c.read_u32()?;
    let special = c.read_u32()?;
    let simple = c.read_bool()?;
    let rest = c.read_u32()?;
    Ok((selections, properties, frames, icon, selected, special, simple, rest))
}

pub fn read_lod_vertices(c: &mut Cursor, version: u32, nv: u32) -> (r: Result<
    (
        Vec<ClipFlagsCxx>,
        UVSetCxx,
        Vec<UVSetCxx>,
        Vec<XYZTripletCxx>,
        Vec<XYZTripletCxx>,
        Vec<STPairCxx>,
        Vec<AnimationRTWeightCxx>,
        Vec<VertexNeighbourCxx>,
    ),
    DecodeError,
>)
    requires
        old(c).wf(),
    ensures
        old(c).steps(final(c), r, lod_vertex_spec(old(c).bytes(), old(c).pos as int, version, nv).1),
        r is Ok ==> {
            let v = r->Ok_0;
            (v.0@, v.1@, views(v.2@), v.3@, v.4@, v.5@, views(v.6@), views(v.7@)) == lod_vertex_spec(
                old(c).bytes(),
                old(c).pos as int,
                version,
                nv,
            ).0
        },
{
    let clip = if is_present(version, CLIP_FLAGS_SINCE) {
        read_clip_flag_words(c, nv)?
    } else {
        Vec::new()
    };
    assert(clip@ =~= views(clip@));
    let uv = read_uv_set(c)?;
    let uvs = read_counted_uv_sets(c)?;
    let vertices = read_xyzs(c, nv)?;
    let normals = read_xyzs(c, nv)?;
    let st = if is_present(version, ST_COORDS_SINCE) {
        read_st_pairs(c, nv)?
    } else {
        Vec::new()
    };
    let weights = read_rt_weights(c, nv)?;
    let neighbours = read_counted_neighbours(c)?;
    assert(vertices@ =~= views(vertices@));
    assert(normals@ =~= views(normals@));
    assert(st@ =~= views(st@));
    Ok((clip, uv, uvs, vertices, normals, st, weights, neighbours))
}

/// Decodes the body of one level of detail at the cursor.
#[verifier::rlimit(60)]
pub fn read_lod_body(c: &mut Cursor, version: u32) -> (r: Result<LodCxx, DecodeError>)
    requires
        old(c).wf(),
    ensures
        old(c).reads(final(c), r, lod_spec(old(c).bytes(), old(c).pos as int, version)),
{
    let a = read_lod_links(c, version)?;
    let b = read_lod_bounds(c)?;
    let d = read_lod_surface(c, version)?;
    let e = read_lod_naming(c)?;
    let f = read_lod_vertices(c, version, a.3)?;
    let (proxies, lod_items, bone_links, vertex_count, clip_old_format) = a;
    let (face_area, or_hints, and_hints, b_min, b_max, b_center, b_radius) = b;
    let (textures, materials, mlod_index, vertex_index, faces, sections) = d;
    let (
        named_selection,
        named_properties,
        frames,
        icon_color,
        selected_color,
        special,
        vertex_bone_ref_is_simple,
        size_of_rest_data,
    ) = e;
    let (
        clip,
        default_uv_set,
        uv_sets,
        vertices,
        normals,
        st_coords,
        vertex_bone_ref,
        neighbour_bone_ref,
    ) = f;
    Ok(
        LodCxx {
            proxies,
            lod_items,
            bone_links,
            vertex_count,
            clip_old_format,
            face_area,
            or_hints,
            and_hints,
            b_min,
            b_max,
            b_center,
            b_radius,
            textures,
            materials,
            lod_edges: LodEdgesCxx { mlod_index, vertex_index },
            faces,
            sections,
            named_selection,
            named_properties,
            frames,
            icon_color,
            selected_color,
            special,
            vertex_bone_ref_is_simple,
            size_of_rest_data,
            clip,
            default_uv_set,
            uv_sets,
            vertices,
            normals,
            st_coords,
            vertex_bone_ref,
            neighbour_bone_ref,
        },
    )
}

} // verus!

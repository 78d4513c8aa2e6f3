//! The records inside a level-of-detail body: faces, proxies, materials,
//! sections, selections, properties, keyframes and per-vertex data. Each
//! record has a spec function that gives, for the bytes at a position, the
//! record that they encode and its width; its reader is proved against it.
use vstd::prelude::*;

use crate::codec::{
    asciiz_reader, asciiz_spec, bool_at, bool_if_spec, counted_spec, i16_at, i32_at,
    lemma_seq_width_mono, matrix_at, present, seq_spec, u16_at, u32_at, u32_if_spec, u32_reader,
    u8_reader, views, xyz_at, xyz_reader, color_at, Cursor, D3DColorValueCxx, TransformMatrixCxx,
    XYZTripletCxx, is_present,
};
use crate::enums::{
    ClipFlagsCxx,
    EFogModeCxx, EMainLightCxx, PixelShaderIDCxx, UVSourceCxx, VertextShaderIDCxx,
};
use crate::error::DecodeError;
use crate::index_array::{index_array_spec, read_index_array, CompressedVertexIndexArrayCxx};
use crate::versions::{
    MATERIAL_DUMMY_STAGE_SINCE, MATERIAL_FOG_SINCE, MATERIAL_MAIN_LIGHT_SINCE,
    MATERIAL_WORLD_ENV_SINCE, PROXY_SECTION_SINCE, SECTION_MATRIX_SINCE, SECTION_STAGES_SINCE,
    WIDE_INDICES_SINCE,
};

verus! {

// ---- faces ----

/// A face vertex index: 32 bits from `WIDE_INDICES_SINCE` on, 16 before.
pub open spec fn index_reader(version: u32) -> spec_fn(Seq<u8>, int) -> (u32, nat) {
    |s: Seq<u8>, p: int|
        if present(version, WIDE_INDICES_SINCE) {
            (u32_at(s, p), 4nat)
        } else {
            (u16_at(s, p) as u32, 2nat)
        }
}

pub fn read_index(c: &mut Cursor, version: u32) -> (r: Result<u32, DecodeError>)
    requires
        old(c).wf(),
    ensures
        old(c).reads(final(c), r, index_reader(version)(old(c).bytes(), old(c).pos as int)),
{
    if is_present(version, WIDE_INDICES_SINCE) {
        c.read_u32()
    } else {
        match c.read_u16() {
            Ok(v) => Ok(v as u32),
            Err(e) => Err(e),
        }
    }
}

/// A face: its type, which is the number of its vertices, then as many
/// vertex indices.
#[derive(Debug, Clone, PartialEq, Eq)]
pub struct LodFaceCxx {
    pub face_type: u8,
    pub vertex_indices: Vec<u32>,
}

pub ghost struct LodFaceView {
    pub face_type: u8,
    pub vertex_indices: Seq<u32>,
}

impl View for LodFaceCxx {
    type V = LodFaceView;

    open spec fn view(&self) -> LodFaceView {
        LodFaceView { face_type: self.face_type, vertex_indices: self.vertex_indices@ }
    }
}

pub open spec fn face_spec(s: Seq<u8>, p: int, version: u32) -> (LodFaceView, nat) {
    let t = s[p];
    let idx = seq_spec(s, p + 1, t as nat, index_reader(version));
    (LodFaceView { face_type: t, vertex_indices: idx.0 }, 1 + idx.1)
}

pub open spec fn face_reader(version: u32) -> spec_fn(Seq<u8>, int) -> (LodFaceView, nat) {
    |s: Seq<u8>, p: int| face_spec(s, p, version)
}

pub fn read_face(c: &mut Cursor, version: u32) -> (r: Result<LodFaceCxx, DecodeError>)
    requires
        old(c).wf(),
    ensures
        old(c).reads(final(c), r, face_spec(old(c).bytes(), old(c).pos as int, version)),
{
    let face_type = c.read_u8()?;
    let vertex_indices = read_indices(c, face_type as u32, version)?;
    assert(vertex_indices@ =~= views(vertex_indices@));
    Ok(LodFaceCxx { face_type, vertex_indices })
}

// ---- proxies ----

/// A proxy: another model placed into this one.
#[derive(Debug, Clone, PartialEq, Eq)]
pub struct ProxyCxx {
    pub proxy_model: Vec<u8>,
    pub transformation: TransformMatrixCxx,
    pub sequence_id: i32,
    pub named_selection_index: i32,
    pub bone_index: i32,
    pub section_index: i32,
}

pub ghost struct ProxyView {
    pub proxy_model: Seq<u8>,
    pub transformation: TransformMatrixCxx,
    pub sequence_id: i32,
    pub named_selection_index: i32,
    pub bone_index: i32,
    pub section_index: i32,
}

impl View for ProxyCxx {
    type V = ProxyView;

    open spec fn view(&self) -> ProxyView {
        ProxyView {
            proxy_model: self.proxy_model@,
            transformation: self.transformation,
            sequence_id: self.sequence_id,
            named_selection_index: self.named_selection_index,
            bone_index: self.bone_index,
            section_index: self.section_index,
        }
    }
}

/// The proxy at `p`: model path, transform, sequence id, selection index,
/// bone index, and from `PROXY_SECTION_SINCE` on a section index (else -1).
pub open spec fn proxy_spec(s: Seq<u8>, p: int, version: u32) -> (ProxyView, nat) {
    let m = asciiz_spec(s, p);
    let q = p + m.1;
    let sec = u32_if_spec(s, q + 60, version, PROXY_SECTION_SINCE, 0xffff_ffff);
    (
        ProxyView {
            proxy_model: m.0,
            transformation: matrix_at(s, q),
            sequence_id: i32_at(s, q + 48),
            named_selection_index: i32_at(s, q + 52),
            bone_index: i32_at(s, q + 56),
            section_index: sec.0 as i32,
        },
        m.1 + 60 + sec.1,
    )
}

pub open spec fn proxy_reader(version: u32) -> spec_fn(Seq<u8>, int) -> (ProxyView, nat) {
    |s: Seq<u8>, p: int| proxy_spec(s, p, version)
}

pub fn read_proxy(c: &mut Cursor, version: u32) -> (r: Result<ProxyCxx, DecodeError>)
    requires
        old(c).wf(),
    ensures
        old(c).reads(final(c), r, proxy_spec(old(c).bytes(), old(c).pos as int, version)),
{
    let proxy_model = c.read_asciiz()?;
    let transformation = c.read_matrix()?;
    let sequence_id = c.read_i32()?;
    let named_selection_index = c.read_i32()?;
    let bone_index = c.read_i32()?;
    let section_index = c.read_u32_if(version, PROXY_SECTION_SINCE, 0xffff_ffff)? as i32;
    Ok(
        ProxyCxx {
            proxy_model,
            transformation,
            sequence_id,
            named_selection_index,
            bone_index,
            section_index,
        },
    )
}

// ---- bone links ----

/// The bones that one sub-skeleton bone links to.
#[derive(Debug, Clone, PartialEq, Eq)]
pub struct BoneLinkCxx {
    pub values: Vec<u32>,
}

impl View for BoneLinkCxx {
    type V = Seq<u32>;

    open spec fn view(&self) -> Seq<u32> {
        self.values@
    }
}

pub open spec fn bone_link_reader() -> spec_fn(Seq<u8>, int) -> (Seq<u32>, nat) {
    |s: Seq<u8>, p: int| counted_spec(s, p, u32_reader())
}

pub fn read_bone_link(c: &mut Cursor) -> (r: Result<BoneLinkCxx, DecodeError>)
    requires
        old(c).wf(),
    ensures
        old(c).reads(final(c), r, bone_link_reader()(old(c).bytes(), old(c).pos as int)),
{
    let values = c.read_counted_u32s()?;
    Ok(BoneLinkCxx { values })
}

// ---- strings ----

pub fn read_one_asciiz(c: &mut Cursor) -> (r: Result<Vec<u8>, DecodeError>)
    requires
        old(c).wf(),
    ensures
        old(c).reads(final(c), r, asciiz_reader()(old(c).bytes(), old(c).pos as int)),
{
    c.read_asciiz()
}

pub fn read_one_u8(c: &mut Cursor) -> (r: Result<u8, DecodeError>)
    requires
        old(c).wf(),
    ensures
        old(c).reads(final(c), r, u8_reader()(old(c).bytes(), old(c).pos as int)),
{
    c.read_u8()
}

pub open spec fn i32_reader() -> spec_fn(Seq<u8>, int) -> (i32, nat) {
    |s: Seq<u8>, p: int| (i32_at(s, p), 4nat)
}

pub fn read_one_i32(c: &mut Cursor) -> (r: Result<i32, DecodeError>)
    requires
        old(c).wf(),
    ensures
        old(c).reads(final(c), r, i32_reader()(old(c).bytes(), old(c).pos as int)),
{
    c.read_i32()
}

pub fn read_one_xyz(c: &mut Cursor) -> (r: Result<XYZTripletCxx, DecodeError>)
    requires
        old(c).wf(),
    ensures
        old(c).reads(final(c), r, xyz_reader()(old(c).bytes(), old(c).pos as int)),
{
    c.read_xyz()
}

/// `n` records read one after another.
pub fn read_indices(c: &mut Cursor, n: u32, version: u32) -> (r: Result<Vec<u32>, DecodeError>)
    requires
        old(c).wf(),
    ensures
        old(c).reads_seq(final(c), r, seq_spec(old(c).bytes(), old(c).pos as int, n as nat, index_reader(version))),
{
    let ghost s = c.data@;
    let ghost p0 = c.pos as int;
    let mut out: Vec<u32> = Vec::new();
    let mut i: u32 = 0;
    while i < n
        invariant
            c.wf(),
            c.data@ == s,
            s == old(c).data@,
            c.limit == old(c).limit,
            p0 == old(c).pos,
            i <= n,
            c.pos == p0 + seq_spec(s, p0, i as nat, index_reader(version)).1,
            views(out@) == seq_spec(s, p0, i as nat, index_reader(version)).0,
        decreases n - i,
    {
        match read_index(c, version) {
            Ok(x) => {
                let ghost prev = out@;
                out.push(x);
                proof {
                    assert(views(out@) =~= views(prev).push(x@));
                }
                i = i + 1;
            },
            Err(e) => {
                proof {
                    lemma_seq_width_mono(s, p0, (i + 1) as nat, n as nat, index_reader(version));
                }
                return Err(e);
            },
        }
    }
    Ok(out)
}

/// `n` records read one after another.
pub fn read_faces(c: &mut Cursor, n: u32, version: u32) -> (r: Result<Vec<LodFaceCxx>, DecodeError>)
    requires
        old(c).wf(),
    ensures
        old(c).reads_seq(final(c), r, seq_spec(old(c).bytes(), old(c).pos as int, n as nat, face_reader(version))),
{
    let ghost s = c.data@;
    let ghost p0 = c.pos as int;
    let mut out: Vec<LodFaceCxx> = Vec::new();
    let mut i: u32 = 0;
    while i < n
        invariant
            c.wf(),
            c.data@ == s,
            s == old(c).data@,
            c.limit == old(c).limit,
            p0 == old(c).pos,
            i <= n,
            c.pos == p0 + seq_spec(s, p0, i as nat, face_reader(version)).1,
            views(out@) == seq_spec(s, p0, i as nat, face_reader(version)).0,
        decreases n - i,
    {
        match read_face(c, version) {
            Ok(x) => {
                let ghost prev = out@;
                out.push(x);
                proof {
                    assert(views(out@) =~= views(prev).push(x@));
                }
                i = i + 1;
            },
            Err(e) => {
                proof {
                    lemma_seq_width_mono(s, p0, (i + 1) as nat, n as nat, face_reader(version));
                }
                return Err(e);
            },
        }
    }
    Ok(out)
}

/// A 32-bit count followed by that many records.
pub fn read_counted_faces(c: &mut Cursor, version: u32) -> (r: Result<Vec<LodFaceCxx>, DecodeError>)
    requires
        old(c).wf(),
    ensures
        old(c).reads_seq(final(c), r, counted_spec(old(c).bytes(), old(c).pos as int, face_reader(version))),
{
    let n = c.read_u32()?;
    read_faces(c, n, version)
}

/// `n` records read one after another.
pub fn read_proxies(c: &mut Cursor, n: u32, version: u32) -> (r: Result<Vec<ProxyCxx>, DecodeError>)
    requires
        old(c).wf(),
    ensures
        old(c).reads_seq(final(c), r, seq_spec(old(c).bytes(), old(c).pos as int, n as nat, proxy_reader(version))),
{
    let ghost s = c.data@;
    let ghost p0 = c.pos as int;
    let mut out: Vec<ProxyCxx> = Vec::new();
    let mut i: u32 = 0;
    while i < n
        invariant
            c.wf(),
            c.data@ == s,
            s == old(c).data@,
            c.limit == old(c).limit,
            p0 == old(c).pos,
            i <= n,
            c.pos == p0 + seq_spec(s, p0, i as nat, proxy_reader(version)).1,
            views(out@) == seq_spec(s, p0, i as nat, proxy_reader(version)).0,
        decreases n - i,
    {
        match read_proxy(c, version) {
            Ok(x) => {
                let ghost prev = out@;
                out.push(x);
                proof {
                    assert(views(out@) =~= views(prev).push(x@));
                }
                i = i + 1;
            },
            Err(e) => {
                proof {
                    lemma_seq_width_mono(s, p0, (i + 1) as nat, n as nat, proxy_reader(version));
                }
                return Err(e);
            },
        }
    }
    Ok(out)
}

/// A 32-bit count followed by that many records.
pub fn read_counted_proxies(c: &mut Cursor, version: u32) -> (r: Result<Vec<ProxyCxx>, DecodeError>)
    requires
        old(c).wf(),
    ensures
        old(c).reads_seq(final(c), r, counted_spec(old(c).bytes(), old(c).pos as int, proxy_reader(version))),
{
    let n = c.read_u32()?;
    read_proxies(c, n, version)
}

/// `n` records read one after another.
pub fn read_bone_links(c: &mut Cursor, n: u32) -> (r: Result<Vec<BoneLinkCxx>, DecodeError>)
    requires
        old(c).wf(),
    ensures
        old(c).reads_seq(final(c), r, seq_spec(old(c).bytes(), old(c).pos as int, n as nat, bone_link_reader())),
{
    let ghost s = c.data@;
    let ghost p0 = c.pos as int;
    let mut out: Vec<BoneLinkCxx> = Vec::new();
    let mut i: u32 = 0;
    while i < n
        invariant
            c.wf(),
            c.data@ == s,
            s == old(c).data@,
            c.limit == old(c).limit,
            p0 == old(c).pos,
            i <= n,
            c.pos == p0 + seq_spec(s, p0, i as nat, bone_link_reader()).1,
            views(out@) == seq_spec(s, p0, i as nat, bone_link_reader()).0,
        decreases n - i,
    {
        match read_bone_link(c) {
            Ok(x) => {
                let ghost prev = out@;
                out.push(x);
                proof {
                    assert(views(out@) =~= views(prev).push(x@));
                }
                i = i + 1;
            },
            Err(e) => {
                proof {
                    lemma_seq_width_mono(s, p0, (i + 1) as nat, n as nat, bone_link_reader());
                }
                return Err(e);
            },
        }
    }
    Ok(out)
}

/// A 32-bit count followed by that many records.
pub fn read_counted_bone_links(c: &mut Cursor) -> (r: Result<Vec<BoneLinkCxx>, DecodeError>)
    requires
        old(c).wf(),
    ensures
        old(c).reads_seq(final(c), r, counted_spec(old(c).bytes(), old(c).pos as int, bone_link_reader())),
{
    let n = c.read_u32()?;
    read_bone_links(c, n)
}

/// `n` records read one after another.
pub fn read_strings(c: &mut Cursor, n: u32) -> (r: Result<Vec<Vec<u8>>, DecodeError>)
    requires
        old(c).wf(),
    ensures
        old(c).reads_seq(final(c), r, seq_spec(old(c).bytes(), old(c).pos as int, n as nat, asciiz_reader())),
{
    let ghost s = c.data@;
    let ghost p0 = c.pos as int;
    let mut out: Vec<Vec<u8>> = Vec::new();
    let mut i: u32 = 0;
    while i < n
        invariant
            c.wf(),
            c.data@ == s,
            s == old(c).data@,
            c.limit == old(c).limit,
            p0 == old(c).pos,
            i <= n,
            c.pos == p0 + seq_spec(s, p0, i as nat, asciiz_reader()).1,
            views(out@) == seq_spec(s, p0, i as nat, asciiz_reader()).0,
        decreases n - i,
    {
        match read_one_asciiz(c) {
            Ok(x) => {
                let ghost prev = out@;
                out.push(x);
                proof {
                    assert(views(out@) =~= views(prev).push(x@));
                }
                i = i + 1;
            },
            Err(e) => {
                proof {
                    lemma_seq_width_mono(s, p0, (i + 1) as nat, n as nat, asciiz_reader());
                }
                return Err(e);
            },
        }
    }
    Ok(out)
}

/// A 32-bit count followed by that many records.
pub fn read_counted_strings(c: &mut Cursor) -> (r: Result<Vec<Vec<u8>>, DecodeError>)
    requires
        old(c).wf(),
    ensures
        old(c).reads_seq(final(c), r, counted_spec(old(c).bytes(), old(c).pos as int, asciiz_reader())),
{
    let n = c.read_u32()?;
    read_strings(c, n)
}

/// `n` records read one after another.
pub fn read_bytes(c: &mut Cursor, n: u32) -> (r: Result<Vec<u8>, DecodeError>)
    requires
        old(c).wf(),
    ensures
        old(c).reads_seq(final(c), r, seq_spec(old(c).bytes(), old(c).pos as int, n as nat, u8_reader())),
{
    let ghost s = c.data@;
    let ghost p0 = c.pos as int;
    let mut out: Vec<u8> = Vec::new();
    let mut i: u32 = 0;
    while i < n
        invariant
            c.wf(),
            c.data@ == s,
            s == old(c).data@,
            c.limit == old(c).limit,
            p0 == old(c).pos,
            i <= n,
            c.pos == p0 + seq_spec(s, p0, i as nat, u8_reader()).1,
            views(out@) == seq_spec(s, p0, i as nat, u8_reader()).0,
        decreases n - i,
    {
        match read_one_u8(c) {
            Ok(x) => {
                let ghost prev = out@;
                out.push(x);
                proof {
                    assert(views(out@) =~= views(prev).push(x@));
                }
                i = i + 1;
            },
            Err(e) => {
                proof {
                    lemma_seq_width_mono(s, p0, (i + 1) as nat, n as nat, u8_reader());
                }
                return Err(e);
            },
        }
    }
    Ok(out)
}

/// A 32-bit count followed by that many records.
pub fn read_counted_bytes(c: &mut Cursor) -> (r: Result<Vec<u8>, DecodeError>)
    requires
        old(c).wf(),
    ensures
        old(c).reads_seq(final(c), r, counted_spec(old(c).bytes(), old(c).pos as int, u8_reader())),
{
    let n = c.read_u32()?;
    read_bytes(c, n)
}

/// `n` records read one after another.
pub fn read_i32s(c: &mut Cursor, n: u32) -> (r: Result<Vec<i32>, DecodeError>)
    requires
        old(c).wf(),
    ensures
        old(c).reads_seq(final(c), r, seq_spec(old(c).bytes(), old(c).pos as int, n as nat, i32_reader())),
{
    let ghost s = c.data@;
    let ghost p0 = c.pos as int;
    let mut out: Vec<i32> = Vec::new();
    let mut i: u32 = 0;
    while i < n
        invariant
            c.wf(),
            c.data@ == s,
            s == old(c).data@,
            c.limit == old(c).limit,
            p0 == old(c).pos,
            i <= n,
            c.pos == p0 + seq_spec(s, p0, i as nat, i32_reader()).1,
            views(out@) == seq_spec(s, p0, i as nat, i32_reader()).0,
        decreases n - i,
    {
        match read_one_i32(c) {
            Ok(x) => {
                let ghost prev = out@;
                out.push(x);
                proof {
                    assert(views(out@) =~= views(prev).push(x@));
                }
                i = i + 1;
            },
            Err(e) => {
                proof {
                    lemma_seq_width_mono(s, p0, (i + 1) as nat, n as nat, i32_reader());
                }
                return Err(e);
            },
        }
    }
    Ok(out)
}

/// A 32-bit count followed by that many records.
pub fn read_counted_i32s(c: &mut Cursor) -> (r: Result<Vec<i32>, DecodeError>)
    requires
        old(c).wf(),
    ensures
        old(c).reads_seq(final(c), r, counted_spec(old(c).bytes(), old(c).pos as int, i32_reader())),
{
    let n = c.read_u32()?;
    read_i32s(c, n)
}

/// `n` records read one after another.
pub fn read_xyzs(c: &mut Cursor, n: u32) -> (r: Result<Vec<XYZTripletCxx>, DecodeError>)
    requires
        old(c).wf(),
    ensures
        old(c).reads_seq(final(c), r, seq_spec(old(c).bytes(), old(c).pos as int, n as nat, xyz_reader())),
{
    let ghost s = c.data@;
    let ghost p0 = c.pos as int;
    let mut out: Vec<XYZTripletCxx> = Vec::new();
    let mut i: u32 = 0;
    while i < n
        invariant
            c.wf(),
            c.data@ == s,
            s == old(c).data@,
            c.limit == old(c).limit,
            p0 == old(c).pos,
            i <= n,
            c.pos == p0 + seq_spec(s, p0, i as nat, xyz_reader()).1,
            views(out@) == seq_spec(s, p0, i as nat, xyz_reader()).0,
        decreases n - i,
    {
        match read_one_xyz(c) {
            Ok(x) => {
                let ghost prev = out@;
                out.push(x);
                proof {
                    assert(views(out@) =~= views(prev).push(x@));
                }
                i = i + 1;
            },
            Err(e) => {
                proof {
                    lemma_seq_width_mono(s, p0, (i + 1) as nat, n as nat, xyz_reader());
                }
                return Err(e);
            },
        }
    }
    Ok(out)
}

// ---- materials ----

/// A texture stage of a material.
#[derive(Debug, Clone, PartialEq, Eq)]
pub struct StageTextureCxx {
    pub render_flags: u32,
    pub texture: Vec<u8>,
    pub stage_id: u32,
    pub use_world_env: bool,
}

pub ghost struct StageTextureView {
    pub render_flags: u32,
    pub texture: Seq<u8>,
    pub stage_id: u32,
    pub use_world_env: bool,
}

impl View for StageTextureCxx {
    type V = StageTextureView;

    open spec fn view(&self) -> StageTextureView {
        StageTextureView {
            render_flags: self.render_flags,
            texture: self.texture@,
            stage_id: self.stage_id,
            use_world_env: self.use_world_env,
        }
    }
}

/// A texture stage: render flags, texture path, stage id, and from
/// `MATERIAL_WORLD_ENV_SINCE` of the material's version on a world
/// environment flag (else false).
pub open spec fn stage_texture_spec(s: Seq<u8>, p: int, mversion: u32) -> (StageTextureView, nat) {
    let t = asciiz_spec(s, p + 4);
    let q = p + 4 + t.1;
    let env = bool_if_spec(s, q + 4, mversion, MATERIAL_WORLD_ENV_SINCE, false);
    (
        StageTextureView {
            render_flags: u32_at(s, p),
            texture: t.0,
            stage_id: u32_at(s, q),
            use_world_env: env.0,
        },
        4 + t.1 + 4 + env.1,
    )
}

pub open spec fn stage_texture_reader(mversion: u32) -> spec_fn(Seq<u8>, int) -> (
    StageTextureView,
    nat,
) {
    |s: Seq<u8>, p: int| stage_texture_spec(s, p, mversion)
}

pub fn read_stage_texture(c: &mut Cursor, mversion: u32) -> (r: Result<StageTextureCxx, DecodeError>)
    requires
        old(c).wf(),
    ensures
        old(c).reads(final(c), r, stage_texture_spec(old(c).bytes(), old(c).pos as int, mversion)),
{
    let render_flags = c.read_u32()?;
    let texture = c.read_asciiz()?;
    let stage_id = c.read_u32()?;
    let use_world_env = c.read_bool_if(mversion, MATERIAL_WORLD_ENV_SINCE, false)?;
    Ok(StageTextureCxx { render_flags, texture, stage_id, use_world_env })
}

/// A texture-coordinate transform stage of a material.
#[derive(Debug, Clone, Copy, PartialEq, Eq, Structural)]
pub struct StageTransformCxx {
    pub uv_source: UVSourceCxx,
    pub transformation: TransformMatrixCxx,
}

impl View for StageTransformCxx {
    type V = StageTransformCxx;

    open spec fn view(&self) -> StageTransformCxx {
        *self
    }
}

pub open spec fn stage_transform_reader() -> spec_fn(Seq<u8>, int) -> (StageTransformCxx, nat) {
    |s: Seq<u8>, p: int|
        (
            StageTransformCxx {
                uv_source: UVSourceCxx::spec_from_code(u32_at(s, p)),
                transformation: matrix_at(s, p + 4),
            },
            52nat,
        )
}

pub fn read_stage_transform(c: &mut Cursor) -> (r: Result<StageTransformCxx, DecodeError>)
    requires
        old(c).wf(),
    ensures
        old(c).reads(final(c), r, stage_transform_reader()(old(c).bytes(), old(c).pos as int)),
{
    if c.limit - c.pos >= 52 {
        let code = c.read_u32()?;
        let transformation = c.read_matrix()?;
        Ok(StageTransformCxx { uv_source: UVSourceCxx::from_code(code), transformation })
    } else {
        Err(DecodeError::TruncatedInput)
    }
}

/// `n` records read one after another.
pub fn read_stage_textures(c: &mut Cursor, n: u32, mversion: u32) -> (r: Result<Vec<StageTextureCxx>, DecodeError>)
    requires
        old(c).wf(),
    ensures
        old(c).reads_seq(final(c), r, seq_spec(old(c).bytes(), old(c).pos as int, n as nat, stage_texture_reader(mversion))),
{
    let ghost s = c.data@;
    let ghost p0 = c.pos as int;
    let mut out: Vec<StageTextureCxx> = Vec::new();
    let mut i: u32 = 0;
    while i < n
        invariant
            c.wf(),
            c.data@ == s,
            s == old(c).data@,
            c.limit == old(c).limit,
            p0 == old(c).pos,
            i <= n,
            c.pos == p0 + seq_spec(s, p0, i as nat, stage_texture_reader(mversion)).1,
            views(out@) == seq_spec(s, p0, i as nat, stage_texture_reader(mversion)).0,
        decreases n - i,
    {
        match read_stage_texture(c, mversion) {
            Ok(x) => {
                let ghost prev = out@;
                out.push(x);
                proof {
                    assert(views(out@) =~= views(prev).push(x@));
                }
                i = i + 1;
            },
            Err(e) => {
                proof {
                    lemma_seq_width_mono(s, p0, (i + 1) as nat, n as nat, stage_texture_reader(mversion));
                }
                return Err(e);
            },
        }
    }
    Ok(out)
}

/// `n` records read one after another.
pub fn read_stage_transforms(c: &mut Cursor, n: u32) -> (r: Result<Vec<StageTransformCxx>, DecodeError>)
    requires
        old(c).wf(),
    ensures
        old(c).reads_seq(final(c), r, seq_spec(old(c).bytes(), old(c).pos as int, n as nat, stage_transform_reader())),
{
    let ghost s = c.data@;
    let ghost p0 = c.pos as int;
    let mut out: Vec<StageTransformCxx> = Vec::new();
    let mut i: u32 = 0;
    while i < n
        invariant
            c.wf(),
            c.data@ == s,
            s == old(c).data@,
            c.limit == old(c).limit,
            p0 == old(c).pos,
            i <= n,
            c.pos == p0 + seq_spec(s, p0, i as nat, stage_transform_reader()).1,
            views(out@) == seq_spec(s, p0, i as nat, stage_transform_reader()).0,
        decreases n - i,
    {
        match read_stage_transform(c) {
            Ok(x) => {
                let ghost prev = out@;
                out.push(x);
                proof {
                    assert(views(out@) =~= views(prev).push(x@));
                }
                i = i + 1;
            },
            Err(e) => {
                proof {
                    lemma_seq_width_mono(s, p0, (i + 1) as nat, n as nat, stage_transform_reader());
                }
                return Err(e);
            },
        }
    }
    Ok(out)
}

/// A material: name, its own format version, six colours, specular power,
/// shader selectors, surface reference, render flags, and its texture and
/// transform stages.
#[derive(Debug, Clone, PartialEq, Eq)]
pub struct LodMaterialCxx {
    pub material_name: Vec<u8>,
    pub version: u32,
    pub emissive: D3DColorValueCxx,
    pub ambient: D3DColorValueCxx,
    pub diffuse: D3DColorValueCxx,
    pub forced_diffuse: D3DColorValueCxx,
    pub specular: D3DColorValueCxx,
    pub specular_2: D3DColorValueCxx,
    pub specular_power: u32,
    pub pixel_shader: PixelShaderIDCxx,
    pub vertex_shader: VertextShaderIDCxx,
    pub main_light: EMainLightCxx,
    pub fog_mode: EFogModeCxx,
    pub surface_file: Vec<u8>,
    pub n_render_flags: u32,
    pub render_flags: u32,
    pub texture_count: u32,
    pub transform_count: u32,
    pub stage_textures: Vec<StageTextureCxx>,
    pub stage_transforms: Vec<StageTransformCxx>,
    pub dummy_stage_textures: StageTextureCxx,
}

pub ghost struct LodMaterialView {
    pub material_name: Seq<u8>,
    pub version: u32,
    pub emissive: D3DColorValueCxx,
    pub ambient: D3DColorValueCxx,
    pub diffuse: D3DColorValueCxx,
    pub forced_diffuse: D3DColorValueCxx,
    pub specular: D3DColorValueCxx,
    pub specular_2: D3DColorValueCxx,
    pub specular_power: u32,
    pub pixel_shader: PixelShaderIDCxx,
    pub vertex_shader: VertextShaderIDCxx,
    pub main_light: EMainLightCxx,
    pub fog_mode: EFogModeCxx,
    pub surface_file: Seq<u8>,
    pub n_render_flags: u32,
    pub render_flags: u32,
    pub texture_count: u32,
    pub transform_count: u32,
    pub stage_textures: Seq<StageTextureView>,
    pub stage_transforms: Seq<StageTransformCxx>,
    pub dummy_stage_textures: StageTextureView,
}

impl View for LodMaterialCxx {
    type V = LodMaterialView;

    open spec fn view(&self) -> LodMaterialView {
        LodMaterialView {
            material_name: self.material_name@,
            version: self.version,
            emissive: self.emissive,
            ambient: self.ambient,
            diffuse: self.diffuse,
            forced_diffuse: self.forced_diffuse,
            specular: self.specular,
            specular_2: self.specular_2,
            specular_power: self.specular_power,
            pixel_shader: self.pixel_shader,
            vertex_shader: self.vertex_shader,
            main_light: self.main_light,
            fog_mode: self.fog_mode,
            surface_file: self.surface_file@,
            n_render_flags: self.n_render_flags,
            render_flags: self.render_flags,
            texture_count: self.texture_count,
            transform_count: self.transform_count,
            stage_textures: views(self.stage_textures@),
            stage_transforms: views(self.stage_transforms@),
            dummy_stage_textures: self.dummy_stage_textures@,
        }
    }
}

/// The six colours of a material: emissive, ambient, diffuse, forced
/// diffuse, specular and second specular.
pub open spec fn colors_spec(s: Seq<u8>, p: int) -> (
    (
        D3DColorValueCxx,
        D3DColorValueCxx,
        D3DColorValueCxx,
        D3DColorValueCxx,
        D3DColorValueCxx,
        D3DColorValueCxx,
    ),
    nat,
) {
    (
        (
            color_at(s, p),
            color_at(s, p + 16),
            color_at(s, p + 32),
            color_at(s, p + 48),
            color_at(s, p + 64),
            color_at(s, p + 80),
        ),
        96,
    )
}

pub fn read_colors(c: &mut Cursor) -> (r: Result<
    (
        D3DColorValueCxx,
        D3DColorValueCxx,
        D3DColorValueCxx,
        D3DColorValueCxx,
        D3DColorValueCxx,
        D3DColorValueCxx,
    ),
    DecodeError,
>)
    requires
        old(c).wf(),
    ensures
        old(c).reads(final(c), r, colors_spec(old(c).bytes(), old(c).pos as int)),
{
    if c.limit - c.pos < 96 {
        return Err(DecodeError::TruncatedInput);
    }
    let a = c.read_color()?;
    let b = c.read_color()?;
    let d = c.read_color()?;
    let e = c.read_color()?;
    let f = c.read_color()?;
    let g = c.read_color()?;
    Ok((a, b, d, e, f, g))
}

/// The shading selectors of a material of version `mversion`: specular
/// power, pixel and vertex shader, then the main light and the fog mode
/// where that version has them (else code 0).
pub open spec fn shading_spec(s: Seq<u8>, p: int, mversion: u32) -> (
    (u32, PixelShaderIDCxx, VertextShaderIDCxx, EMainLightCxx, EFogModeCxx),
    nat,
) {
    let light = u32_if_spec(s, p + 12, mversion, MATERIAL_MAIN_LIGHT_SINCE, 0);
    let fog = u32_if_spec(s, p + 12 + light.1, mversion, MATERIAL_FOG_SINCE, 0);
    (
        (
            u32_at(s, p),
            PixelShaderIDCxx::spec_from_code(u32_at(s, p + 4)),
            VertextShaderIDCxx::spec_from_value(i32_at(s, p + 8)),
            EMainLightCxx::spec_from_code(light.0),
            EFogModeCxx::spec_from_code(fog.0),
        ),
        12 + light.1 + fog.1,
    )
}

pub fn read_shading(c: &mut Cursor, mversion: u32) -> (r: Result<
    (u32, PixelShaderIDCxx, VertextShaderIDCxx, EMainLightCxx, EFogModeCxx),
    DecodeError,
>)
    requires
        old(c).wf(),
    ensures
        old(c).reads(final(c), r, shading_spec(old(c).bytes(), old(c).pos as int, mversion)),
{
    let power = c.read_u32()?;
    let pixel = c.read_u32()?;
    let vertex = c.read_i32()?;
    let light = c.read_u32_if(mversion, MATERIAL_MAIN_LIGHT_SINCE, 0)?;
    let fog = c.read_u32_if(mversion, MATERIAL_FOG_SINCE, 0)?;
    Ok(
        (
            power,
            PixelShaderIDCxx::from_code(pixel),
            VertextShaderIDCxx::from_value(vertex),
            EMainLightCxx::from_code(light),
            EFogModeCxx::from_code(fog),
        ),
    )
}

/// The stage with nothing in it, which stands where a material's version has
/// no trailing stage.
pub open spec fn empty_stage() -> StageTextureView {
    StageTextureView { render_flags: 0, texture: Seq::empty(), stage_id: 0, use_world_env: false }
}

/// The stage part of a material of version `mversion`: the count of render
/// flags and the flags, the texture and transform counts, that many texture
/// and transform stages, and from `MATERIAL_DUMMY_STAGE_SINCE` on a trailing
/// stage texture.
pub open spec fn material_stages_spec(s: Seq<u8>, p: int, mversion: u32) -> (
    (u32, u32, u32, u32, Seq<StageTextureView>, Seq<StageTransformCxx>, StageTextureView),
    nat,
) {
    let nt = u32_at(s, p + 8);
    let nm = u32_at(s, p + 12);
    let textures = seq_spec(s, p + 16, nt as nat, stage_texture_reader(mversion));
    let transforms = seq_spec(s, p + 16 + textures.1, nm as nat, stage_transform_reader());
    let q = p + 16 + textures.1 + transforms.1;
    let dummy: (StageTextureView, nat) = if present(mversion, MATERIAL_DUMMY_STAGE_SINCE) {
        stage_texture_spec(s, q, mversion)
    } else {
        (empty_stage(), 0)
    };
    (
        (u32_at(s, p), u32_at(s, p + 4), nt, nm, textures.0, transforms.0, dummy.0),
        16 + textures.1 + transforms.1 + dummy.1,
    )
}

pub fn read_material_stages(c: &mut Cursor, mversion: u32) -> (r: Result<
    (u32, u32, u32, u32, Vec<StageTextureCxx>, Vec<StageTransformCxx>, StageTextureCxx),
    DecodeError,
>)
    requires
        old(c).wf(),
    ensures
        old(c).steps(final(c), r, material_stages_spec(old(c).bytes(), old(c).pos as int, mversion).1),
        r is Ok ==> {
            let v = r->Ok_0;
            (v.0, v.1, v.2, v.3, views(v.4@), views(v.5@), v.6@) == material_stages_spec(
                old(c).bytes(),
                old(c).pos as int,
                mversion,
            ).0
        },
{
    let n_render_flags = c.read_u32()?;
    let render_flags = c.read_u32()?;
    let texture_count = c.read_u32()?;
    let transform_count = c.read_u32()?;
    let textures = read_stage_textures(c, texture_count, mversion)?;
    let transforms = read_stage_transforms(c, transform_count)?;
    let dummy = if is_present(mversion, MATERIAL_DUMMY_STAGE_SINCE) {
        read_stage_texture(c, mversion)?
    } else {
        StageTextureCxx { render_flags: 0, texture: Vec::new(), stage_id: 0, use_world_env: false }
    };
    assert(dummy@ == material_stages_spec(old(c).bytes(), old(c).pos as int, mversion).0.6) by {
        if !present(mversion, MATERIAL_DUMMY_STAGE_SINCE) {
            assert(dummy@.texture =~= Seq::<u8>::empty());
        }
    }
    Ok((n_render_flags, render_flags, texture_count, transform_count, textures, transforms, dummy))
}

/// The material at `p`: name, its own version (at `q`), colours, shading,
/// surface file, then its stage part.
pub open spec fn material_spec(s: Seq<u8>, p: int) -> (LodMaterialView, nat) {
    let name = asciiz_spec(s, p);
    let q = p + name.1;
    let mv = u32_at(s, q);
    let colors = colors_spec(s, q + 4);
    let shading = shading_spec(s, q + 100, mv);
    let q2 = q + 100 + shading.1;
    let surface = asciiz_spec(s, q2);
    let q3 = q2 + surface.1;
    let stages = material_stages_spec(s, q3, mv);
    (
        LodMaterialView {
            material_name: name.0,
            version: mv,
            emissive: colors.0.0,
            ambient: colors.0.1,
            diffuse: colors.0.2,
            forced_diffuse: colors.0.3,
            specular: colors.0.4,
            specular_2: colors.0.5,
            specular_power: shading.0.0,
            pixel_shader: shading.0.1,
            vertex_shader: shading.0.2,
            main_light: shading.0.3,
            fog_mode: shading.0.4,
            surface_file: surface.0,
            n_render_flags: stages.0.0,
            render_flags: stages.0.1,
            texture_count: stages.0.2,
            transform_count: stages.0.3,
            stage_textures: stages.0.4,
            stage_transforms: stages.0.5,
            dummy_stage_textures: stages.0.6,
        },
        name.1 + 100 + shading.1 + surface.1 + stages.1,
    )
}

pub open spec fn material_reader() -> spec_fn(Seq<u8>, int) -> (LodMaterialView, nat) {
    |s: Seq<u8>, p: int| material_spec(s, p)
}

pub fn read_material(c: &mut Cursor) -> (r: Result<LodMaterialCxx, DecodeError>)
    requires
        old(c).wf(),
    ensures
        old(c).reads(final(c), r, material_spec(old(c).bytes(), old(c).pos as int)),
{
    let material_name = c.read_asciiz()?;
    let version = c.read_u32()?;
    let colors = read_colors(c)?;
    let shading = read_shading(c, version)?;
    let surface_file = c.read_asciiz()?;
    let stages = read_material_stages(c, version)?;
    Ok(
        LodMaterialCxx {
            material_name,
            version,
            emissive: colors.0,
            ambient: colors.1,
            diffuse: colors.2,
            forced_diffuse: colors.3,
            specular: colors.4,
            specular_2: colors.5,
            specular_power: shading.0,
            pixel_shader: shading.1,
            vertex_shader: shading.2,
            main_light: shading.3,
            fog_mode: shading.4,
            surface_file,
            n_render_flags: stages.0,
            render_flags: stages.1,
            texture_count: stages.2,
            transform_count: stages.3,
            stage_textures: stages.4,
            stage_transforms: stages.5,
            dummy_stage_textures: stages.6,
        },
    )
}

/// `n` records read one after another.
pub fn read_materials(c: &mut Cursor, n: u32) -> (r: Result<Vec<LodMaterialCxx>, DecodeError>)
    requires
        old(c).wf(),
    ensures
        old(c).reads_seq(final(c), r, seq_spec(old(c).bytes(), old(c).pos as int, n as nat, material_reader())),
{
    let ghost s = c.data@;
    let ghost p0 = c.pos as int;
    let mut out: Vec<LodMaterialCxx> = Vec::new();
    let mut i: u32 = 0;
    while i < n
        invariant
            c.wf(),
            c.data@ == s,
            s == old(c).data@,
            c.limit == old(c).limit,
            p0 == old(c).pos,
            i <= n,
            c.pos == p0 + seq_spec(s, p0, i as nat, material_reader()).1,
            views(out@) == seq_spec(s, p0, i as nat, material_reader()).0,
        decreases n - i,
    {
        match read_material(c) {
            Ok(x) => {
                let ghost prev = out@;
                out.push(x);
                proof {
                    assert(views(out@) =~= views(prev).push(x@));
                }
                i = i + 1;
            },
            Err(e) => {
                proof {
                    lemma_seq_width_mono(s, p0, (i + 1) as nat, n as nat, material_reader());
                }
                return Err(e);
            },
        }
    }
    Ok(out)
}

/// A 32-bit count followed by that many records.
pub fn read_counted_materials(c: &mut Cursor) -> (r: Result<Vec<LodMaterialCxx>, DecodeError>)
    requires
        old(c).wf(),
    ensures
        old(c).reads_seq(final(c), r, counted_spec(old(c).bytes(), old(c).pos as int, material_reader())),
{
    let n = c.read_u32()?;
    read_materials(c, n)
}

// ---- sections ----

/// A run of faces that share material and texture-stage state.
#[derive(Debug, Clone, PartialEq, Eq)]
pub struct LodSectionCxx {
    pub short_indices: bool,
    pub face_lower_index: u32,
    pub face_upper_index: u32,
    pub min_bone_index: u32,
    pub bone_count: u32,
    pub common_point_user_value: u32,
    pub common_texture_index: i16,
    pub common_face_flag: u32,
    pub material_index: i32,
    pub material: Vec<u8>,
    pub stage_count: u32,
    pub stages: Vec<u32>,
    pub unk_matrix_exists: bool,
    pub unk_matrix: TransformMatrixCxx,
}

pub ghost struct LodSectionView {
    pub short_indices: bool,
    pub face_lower_index: u32,
    pub face_upper_index: u32,
    pub min_bone_index: u32,
    pub bone_count: u32,
    pub common_point_user_value: u32,
    pub common_texture_index: i16,
    pub common_face_flag: u32,
    pub material_index: i32,
    pub material: Seq<u8>,
    pub stage_count: u32,
    pub stages: Seq<u32>,
    pub unk_matrix_exists: bool,
    pub unk_matrix: TransformMatrixCxx,
}

impl View for LodSectionCxx {
    type V = LodSectionView;

    open spec fn view(&self) -> LodSectionView {
        LodSectionView {
            short_indices: self.short_indices,
            face_lower_index: self.face_lower_index,
            face_upper_index: self.face_upper_index,
            min_bone_index: self.min_bone_index,
            bone_count: self.bone_count,
            common_point_user_value: self.common_point_user_value,
            common_texture_index: self.common_texture_index,
            common_face_flag: self.common_face_flag,
            material_index: self.material_index,
            material: self.material@,
            stage_count: self.stage_count,
            stages: self.stages@,
            unk_matrix_exists: self.unk_matrix_exists,
            unk_matrix: self.unk_matrix,
        }
    }
}

/// The matrix of zeros, which stands where a section has no extra matrix.
pub open spec fn zero_matrix() -> TransformMatrixCxx {
    let z = XYZTripletCxx { x: 0, y: 0, z: 0 };
    TransformMatrixCxx { _0: z, _1: z, _2: z, _3: z }
}

/// The texture-stage values of a section: a count and that many values
/// from `SECTION_STAGES_SINCE` on, else none.
pub open spec fn section_stages_spec(s: Seq<u8>, p: int, version: u32) -> ((u32, Seq<u32>), nat) {
    if present(version, SECTION_STAGES_SINCE) {
        let r = counted_spec(s, p, u32_reader());
        ((u32_at(s, p), r.0), r.1)
    } else {
        ((0, Seq::empty()), 0)
    }
}

/// The extra matrix of a section: from `SECTION_MATRIX_SINCE` on a flag,
/// and where it is set the matrix; else no flag and no matrix.
pub open spec fn section_matrix_spec(s: Seq<u8>, p: int, version: u32) -> (
    (bool, TransformMatrixCxx),
    nat,
) {
    if present(version, SECTION_MATRIX_SINCE) {
        if bool_at(s, p) {
            ((true, matrix_at(s, p + 1)), 49)
        } else {
            ((false, zero_matrix()), 1)
        }
    } else {
        ((false, zero_matrix()), 0)
    }
}

/// A section of a model of format `version`: 30 bytes of fixed fields;
/// where the material index is -1 a material path; then the stage values
/// and the extra matrix where the version has them. Whether its faces use
/// short indices follows from the version alone.
pub open spec fn section_spec(s: Seq<u8>, p: int, version: u32) -> (LodSectionView, nat) {
    let mi = i32_at(s, p + 26);
    let m: (Seq<u8>, nat) = if mi == -1 {
        asciiz_spec(s, p + 30)
    } else {
        (Seq::empty(), 0)
    };
    let st = section_stages_spec(s, p + 30 + m.1, version);
    let mx = section_matrix_spec(s, p + 30 + m.1 + st.1, version);
    (
        LodSectionView {
            short_indices: !present(version, WIDE_INDICES_SINCE),
            face_lower_index: u32_at(s, p),
            face_upper_index: u32_at(s, p + 4),
            min_bone_index: u32_at(s, p + 8),
            bone_count: u32_at(s, p + 12),
            common_point_user_value: u32_at(s, p + 16),
            common_texture_index: i16_at(s, p + 20),
            common_face_flag: u32_at(s, p + 22),
            material_index: mi,
            material: m.0,
            stage_count: st.0.0,
            stages: st.0.1,
            unk_matrix_exists: mx.0.0,
            unk_matrix: mx.0.1,
        },
        30 + m.1 + st.1 + mx.1,
    )
}

pub open spec fn section_reader(version: u32) -> spec_fn(Seq<u8>, int) -> (LodSectionView, nat) {
    |s: Seq<u8>, p: int| section_spec(s, p, version)
}

pub fn read_section_stages(c: &mut Cursor, version: u32) -> (r: Result<(u32, Vec<u32>), DecodeError>)
    requires
        old(c).wf(),
    ensures
        old(c).reads(final(c), r, section_stages_spec(old(c).bytes(), old(c).pos as int, version)),
{
    if is_present(version, SECTION_STAGES_SINCE) {
        let n = c.read_u32()?;
        let v = c.read_u32s(n)?;
        Ok((n, v))
    } else {
        let v: Vec<u32> = Vec::new();
        assert(v@ =~= Seq::<u32>::empty());
        Ok((0, v))
    }
}

pub fn read_section_matrix(c: &mut Cursor, version: u32) -> (r: Result<(bool, TransformMatrixCxx), DecodeError>)
    requires
        old(c).wf(),
    ensures
        old(c).reads(final(c), r, section_matrix_spec(old(c).bytes(), old(c).pos as int, version)),
{
    let z = XYZTripletCxx { x: 0, y: 0, z: 0 };
    let zero = TransformMatrixCxx { _0: z, _1: z, _2: z, _3: z };
    if is_present(version, SECTION_MATRIX_SINCE) {
        let exists = c.read_bool()?;
        if exists {
            let m = c.read_matrix()?;
            Ok((true, m))
        } else {
            Ok((false, zero))
        }
    } else {
        Ok((false, zero))
    }
}

pub fn read_section(c: &mut Cursor, version: u32) -> (r: Result<LodSectionCxx, DecodeError>)
    requires
        old(c).wf(),
    ensures
        old(c).reads(final(c), r, section_spec(old(c).bytes(), old(c).pos as int, version)),
{
    let face_lower_index = c.read_u32()?;
    let face_upper_index = c.read_u32()?;
    let min_bone_index = c.read_u32()?;
    let bone_count = c.read_u32()?;
    let common_point_user_value = c.read_u32()?;
    let common_texture_index = c.read_i16()?;
    let common_face_flag = c.read_u32()?;
    let material_index = c.read_i32()?;
    let material = if material_index == -1 {
        c.read_asciiz()?
    } else {
        Vec::new()
    };
    assert(material@ =~= section_spec(old(c).bytes(), old(c).pos as int, version).0.material);
    let stages = read_section_stages(c, version)?;
    let matrix = read_section_matrix(c, version)?;
    Ok(
        LodSectionCxx {
            short_indices: !is_present(version, WIDE_INDICES_SINCE),
            face_lower_index,
            face_upper_index,
            min_bone_index,
            bone_count,
            common_point_user_value,
            common_texture_index,
            common_face_flag,
            material_index,
            material,
            stage_count: stages.0,
            stages: stages.1,
            unk_matrix_exists: matrix.0,
            unk_matrix: matrix.1,
        },
    )
}

// ---- named selections and properties ----

/// A named subset of faces and vertices, with optional vertex weights.
#[derive(Debug, Clone, PartialEq, Eq)]
pub struct LodNameSelectionCxx {
    pub name: Vec<u8>,
    pub selected_faces: CompressedVertexIndexArrayCxx,
    pub is_sectional: bool,
    pub vertex_indices: Vec<i32>,
    pub selected_vertices: CompressedVertexIndexArrayCxx,
    pub selected_vertices_weights: Vec<u8>,
}

pub ghost struct LodNameSelectionView {
    pub name: Seq<u8>,
    pub selected_faces: Seq<u32>,
    pub is_sectional: bool,
    pub vertex_indices: Seq<i32>,
    pub selected_vertices: Seq<u32>,
    pub selected_vertices_weights: Seq<u8>,
}

impl View for LodNameSelectionCxx {
    type V = LodNameSelectionView;

    open spec fn view(&self) -> LodNameSelectionView {
        LodNameSelectionView {
            name: self.name@,
            selected_faces: self.selected_faces@,
            is_sectional: self.is_sectional,
            vertex_indices: self.vertex_indices@,
            selected_vertices: self.selected_vertices@,
            selected_vertices_weights: self.selected_vertices_weights@,
        }
    }
}

/// A named selection: name, selected faces, sectional flag, a counted list
/// of section indices, selected vertices, and a counted list of vertex
/// weights.
pub open spec fn selection_spec(s: Seq<u8>, p: int) -> (LodNameSelectionView, nat) {
    let name = asciiz_spec(s, p);
    let faces = index_array_spec(s, p + name.1);
    let q = p + name.1 + faces.1;
    let indices = counted_spec(s, q + 1, i32_reader());
    let verts = index_array_spec(s, q + 1 + indices.1);
    let weights = counted_spec(s, q + 1 + indices.1 + verts.1, u8_reader());
    (
        LodNameSelectionView {
            name: name.0,
            selected_faces: faces.0,
            is_sectional: bool_at(s, q),
            vertex_indices: indices.0,
            selected_vertices: verts.0,
            selected_vertices_weights: weights.0,
        },
        name.1 + faces.1 + 1 + indices.1 + verts.1 + weights.1,
    )
}

pub open spec fn selection_reader() -> spec_fn(Seq<u8>, int) -> (LodNameSelectionView, nat) {
    |s: Seq<u8>, p: int| selection_spec(s, p)
}

pub fn read_selection(c: &mut Cursor) -> (r: Result<LodNameSelectionCxx, DecodeError>)
    requires
        old(c).wf(),
    ensures
        old(c).reads(final(c), r, selection_spec(old(c).bytes(), old(c).pos as int)),
{
    let name = c.read_asciiz()?;
    let selected_faces = read_index_array(c)?;
    let is_sectional = c.read_bool()?;
    let vertex_indices = read_counted_i32s(c)?;
    assert(vertex_indices@ =~= views(vertex_indices@));
    let selected_vertices = read_index_array(c)?;
    let selected_vertices_weights = read_counted_bytes(c)?;
    assert(selected_vertices_weights@ =~= views(selected_vertices_weights@));
    Ok(
        LodNameSelectionCxx {
            name,
            selected_faces,
            is_sectional,
            vertex_indices,
            selected_vertices,
            selected_vertices_weights,
        },
    )
}

/// A free-form key and value.
#[derive(Debug, Clone, PartialEq, Eq)]
pub struct LodNamedPropertyCxx {
    pub property: Vec<u8>,
    pub value: Vec<u8>,
}

impl View for LodNamedPropertyCxx {
    type V = (Seq<u8>, Seq<u8>);

    open spec fn view(&self) -> (Seq<u8>, Seq<u8>) {
        (self.property@, self.value@)
    }
}

pub open spec fn property_reader() -> spec_fn(Seq<u8>, int) -> ((Seq<u8>, Seq<u8>), nat) {
    |s: Seq<u8>, p: int|
        {
            let k = asciiz_spec(s, p);
            let v = asciiz_spec(s, p + k.1);
            ((k.0, v.0), k.1 + v.1)
        }
}

pub fn read_property(c: &mut Cursor) -> (r: Result<LodNamedPropertyCxx, DecodeError>)
    requires
        old(c).wf(),
    ensures
        old(c).reads(final(c), r, property_reader()(old(c).bytes(), old(c).pos as int)),
{
    let property = c.read_asciiz()?;
    let value = c.read_asciiz()?;
    Ok(LodNamedPropertyCxx { property, value })
}

// ---- keyframes ----

/// The bone positions of one animation keyframe.
#[derive(Debug, Clone, PartialEq, Eq)]
pub struct LodFrameCxx {
    pub frame_time: u32,
    pub bone_count: u32,
    pub bone_positions: Vec<XYZTripletCxx>,
}

pub ghost struct LodFrameView {
    pub frame_time: u32,
    pub bone_count: u32,
    pub bone_positions: Seq<XYZTripletCxx>,
}

impl View for LodFrameCxx {
    type V = LodFrameView;

    open spec fn view(&self) -> LodFrameView {
        LodFrameView {
            frame_time: self.frame_time,
            bone_count: self.bone_count,
            bone_positions: views(self.bone_positions@),
        }
    }
}

/// A keyframe: its time, a bone count, and one position per bone.
pub open spec fn frame_spec(s: Seq<u8>, p: int) -> (LodFrameView, nat) {
    let n = u32_at(s, p + 4);
    let pos = seq_spec(s, p + 8, n as nat, xyz_reader());
    (LodFrameView { frame_time: u32_at(s, p), bone_count: n, bone_positions: pos.0 }, 8 + pos.1)
}

pub open spec fn frame_reader() -> spec_fn(Seq<u8>, int) -> (LodFrameView, nat) {
    |s: Seq<u8>, p: int| frame_spec(s, p)
}

pub fn read_frame(c: &mut Cursor) -> (r: Result<LodFrameCxx, DecodeError>)
    requires
        old(c).wf(),
    ensures
        old(c).reads(final(c), r, frame_spec(old(c).bytes(), old(c).pos as int)),
{
    let frame_time = c.read_u32()?;
    let bone_count = c.read_u32()?;
    let bone_positions = read_xyzs(c, bone_count)?;
    Ok(LodFrameCxx { frame_time, bone_count, bone_positions })
}

// ---- per-vertex bone weights ----

/// One bone weight: a selection index and its weight.
#[derive(Debug, Clone, Copy, PartialEq, Eq, Structural)]
pub struct AnimationRTPairCxx {
    pub selection_index: u8,
    pub weight: u8,
}

impl View for AnimationRTPairCxx {
    type V = AnimationRTPairCxx;

    open spec fn view(&self) -> AnimationRTPairCxx {
        *self
    }
}

/// The weights of one vertex: a count and room for four pairs inline. The
/// pairs in use are the first `small_count` of them, at most four.
#[derive(Debug, Clone, PartialEq, Eq)]
pub struct AnimationRTWeightCxx {
    pub small_count: i32,
    pub small_space: Vec<u8>,
    pub animation_rt_pairs: Vec<AnimationRTPairCxx>,
}

pub ghost struct AnimationRTWeightView {
    pub small_count: i32,
    pub small_space: Seq<u8>,
    pub animation_rt_pairs: Seq<AnimationRTPairCxx>,
}

impl View for AnimationRTWeightCxx {
    type V = AnimationRTWeightView;

    open spec fn view(&self) -> AnimationRTWeightView {
        AnimationRTWeightView {
            small_count: self.small_count,
            small_space: self.small_space@,
            animation_rt_pairs: self.animation_rt_pairs@,
        }
    }
}

/// How many of the four inline pairs a count puts in use.
pub open spec fn pairs_in_use(small_count: i32) -> nat {
    if small_count <= 0 {
        0
    } else if small_count >= 4 {
        4
    } else {
        small_count as nat
    }
}

pub open spec fn rt_weight_spec(s: Seq<u8>, p: int) -> (AnimationRTWeightView, nat) {
    let n = i32_at(s, p);
    (
        AnimationRTWeightView {
            small_count: n,
            small_space: s.subrange(p + 4, p + 12),
            animation_rt_pairs: Seq::new(
                pairs_in_use(n),
                |j: int| AnimationRTPairCxx { selection_index: s[p + 4 + 2 * j], weight: s[p + 5 + 2 * j] },
            ),
        },
        12,
    )
}

pub open spec fn rt_weight_reader() -> spec_fn(Seq<u8>, int) -> (AnimationRTWeightView, nat) {
    |s: Seq<u8>, p: int| rt_weight_spec(s, p)
}

pub fn read_rt_weight(c: &mut Cursor) -> (r: Result<AnimationRTWeightCxx, DecodeError>)
    requires
        old(c).wf(),
    ensures
        old(c).reads(final(c), r, rt_weight_spec(old(c).bytes(), old(c).pos as int)),
{
    if c.limit - c.pos < 12 {
        return Err(DecodeError::TruncatedInput);
    }
    let ghost s = c.data@;
    let ghost p = c.pos as int;
    let small_count = c.read_i32()?;
    proof {
        lemma_bytes_len(s, p + 4, 8);
    }
    let small_space = read_bytes(c, 8)?;
    assert(small_space@ =~= views(small_space@));
    assert(small_space@ =~= s.subrange(p + 4, p + 12)) by {
        assert forall|k: int| 0 <= k < 8 implies #[trigger] small_space@[k] == s[p + 4 + k] by {
            lemma_bytes_at(s, p + 4, 8, k);
        }
    }
    let used: usize = if small_count <= 0 {
        0
    } else if small_count >= 4 {
        4
    } else {
        small_count as usize
    };
    let mut pairs: Vec<AnimationRTPairCxx> = Vec::new();
    let mut j: usize = 0;
    while j < used
        invariant
            used == pairs_in_use(small_count),
            used <= 4,
            small_space@.len() == 8,
            j <= used,
            pairs@ == Seq::new(
                j as nat,
                |k: int| AnimationRTPairCxx { selection_index: small_space@[2 * k], weight: small_space@[2 * k + 1] },
            ),
        decreases used - j,
    {
        pairs.push(AnimationRTPairCxx { selection_index: small_space[2 * j], weight: small_space[2 * j + 1] });
        j = j + 1;
        assert(pairs@ =~= Seq::new(
            j as nat,
            |k: int| AnimationRTPairCxx { selection_index: small_space@[2 * k], weight: small_space@[2 * k + 1] },
        ));
    }
    assert(pairs@ =~= rt_weight_spec(s, p).0.animation_rt_pairs);
    Ok(AnimationRTWeightCxx { small_count, small_space, animation_rt_pairs: pairs })
}

/// `n` bytes read one by one from `p` are `n` bytes wide.
pub proof fn lemma_bytes_len(s: Seq<u8>, p: int, n: nat)
    ensures
        seq_spec(s, p, n, u8_reader()).0.len() == n,
        seq_spec(s, p, n, u8_reader()).1 == n,
    decreases n,
{
    if n > 0 {
        lemma_bytes_len(s, p, (n - 1) as nat);
    }
}

/// The `k`th of `n` bytes read one by one from `p` is the byte at `p + k`.
pub proof fn lemma_bytes_at(s: Seq<u8>, p: int, n: nat, k: int)
    requires
        0 <= k < n,
    ensures
        seq_spec(s, p, n, u8_reader()).0[k] == s[p + k],
    decreases n,
{
    lemma_bytes_len(s, p, (n - 1) as nat);
    if k < n - 1 {
        lemma_bytes_at(s, p, (n - 1) as nat, k);
    }
}

/// The two vertices at either end of an edge, each with its bone weights.
#[derive(Debug, Clone, PartialEq, Eq)]
pub struct VertexNeighbourCxx {
    pub pos_a: u16,
    pub rtw_a: AnimationRTWeightCxx,
    pub pos_b: u16,
    pub rtw_b: AnimationRTWeightCxx,
}

pub ghost struct VertexNeighbourView {
    pub pos_a: u16,
    pub rtw_a: AnimationRTWeightView,
    pub pos_b: u16,
    pub rtw_b: AnimationRTWeightView,
}

impl View for VertexNeighbourCxx {
    type V = VertexNeighbourView;

    open spec fn view(&self) -> VertexNeighbourView {
        VertexNeighbourView { pos_a: self.pos_a, rtw_a: self.rtw_a@, pos_b: self.pos_b, rtw_b: self.rtw_b@ }
    }
}

pub open spec fn neighbour_reader() -> spec_fn(Seq<u8>, int) -> (VertexNeighbourView, nat) {
    |s: Seq<u8>, p: int|
        (
            VertexNeighbourView {
                pos_a: u16_at(s, p),
                rtw_a: rt_weight_spec(s, p + 2).0,
                pos_b: u16_at(s, p + 14),
                rtw_b: rt_weight_spec(s, p + 16).0,
            },
            28nat,
        )
}

pub fn read_neighbour(c: &mut Cursor) -> (r: Result<VertexNeighbourCxx, DecodeError>)
    requires
        old(c).wf(),
    ensures
        old(c).reads(final(c), r, neighbour_reader()(old(c).bytes(), old(c).pos as int)),
{
    if c.limit - c.pos < 28 {
        return Err(DecodeError::TruncatedInput);
    }
    let pos_a = c.read_u16()?;
    let rtw_a = read_rt_weight(c)?;
    let pos_b = c.read_u16()?;
    let rtw_b = read_rt_weight(c)?;
    Ok(VertexNeighbourCxx { pos_a, rtw_a, pos_b, rtw_b })
}

// ---- texture coordinates and clip flags ----

/// The S and T texture-space directions of a vertex.
#[derive(Debug, Clone, Copy, PartialEq, Eq, Structural)]
pub struct STPairCxx {
    pub s: XYZTripletCxx,
    pub t: XYZTripletCxx,
}

impl View for STPairCxx {
    type V = STPairCxx;

    open spec fn view(&self) -> STPairCxx {
        *self
    }
}

pub open spec fn st_pair_reader() -> spec_fn(Seq<u8>, int) -> (STPairCxx, nat) {
    |s: Seq<u8>, p: int| (STPairCxx { s: xyz_at(s, p), t: xyz_at(s, p + 12) }, 24nat)
}

pub fn read_st_pair(c: &mut Cursor) -> (r: Result<STPairCxx, DecodeError>)
    requires
        old(c).wf(),
    ensures
        old(c).reads(final(c), r, st_pair_reader()(old(c).bytes(), old(c).pos as int)),
{
    if c.limit - c.pos < 24 {
        return Err(DecodeError::TruncatedInput);
    }
    let s = c.read_xyz()?;
    let t = c.read_xyz()?;
    Ok(STPairCxx { s, t })
}

pub open spec fn clip_flags_reader() -> spec_fn(Seq<u8>, int) -> (ClipFlagsCxx, nat) {
    |s: Seq<u8>, p: int| (ClipFlagsCxx::spec_from_value(i32_at(s, p)), 4nat)
}

pub fn read_clip_flags(c: &mut Cursor) -> (r: Result<ClipFlagsCxx, DecodeError>)
    requires
        old(c).wf(),
    ensures
        old(c).reads(final(c), r, clip_flags_reader()(old(c).bytes(), old(c).pos as int)),
{
    let v = c.read_i32()?;
    Ok(ClipFlagsCxx::from_value(v))
}

/// `n` records read one after another.
pub fn read_selections(c: &mut Cursor, n: u32) -> (r: Result<Vec<LodNameSelectionCxx>, DecodeError>)
    requires
        old(c).wf(),
    ensures
        old(c).reads_seq(final(c), r, seq_spec(old(c).bytes(), old(c).pos as int, n as nat, selection_reader())),
{
    let ghost s = c.data@;
    let ghost p0 = c.pos as int;
    let mut out: Vec<LodNameSelectionCxx> = Vec::new();
    let mut i: u32 = 0;
    while i < n
        invariant
            c.wf(),
            c.data@ == s,
            s == old(c).data@,
            c.limit == old(c).limit,
            p0 == old(c).pos,
            i <= n,
            c.pos == p0 + seq_spec(s, p0, i as nat, selection_reader()).1,
            views(out@) == seq_spec(s, p0, i as nat, selection_reader()).0,
        decreases n - i,
    {
        match read_selection(c) {
            Ok(x) => {
                let ghost prev = out@;
                out.push(x);
                proof {
                    assert(views(out@) =~= views(prev).push(x@));
                }
                i = i + 1;
            },
            Err(e) => {
                proof {
                    lemma_seq_width_mono(s, p0, (i + 1) as nat, n as nat, selection_reader());
                }
                return Err(e);
            },
        }
    }
    Ok(out)
}

/// A 32-bit count followed by that many records.
pub fn read_counted_selections(c: &mut Cursor) -> (r: Result<Vec<LodNameSelectionCxx>, DecodeError>)
    requires
        old(c).wf(),
    ensures
        old(c).reads_seq(final(c), r, counted_spec(old(c).bytes(), old(c).pos as int, selection_reader())),
{
    let n = c.read_u32()?;
    read_selections(c, n)
}

/// `n` records read one after another.
pub fn read_properties(c: &mut Cursor, n: u32) -> (r: Result<Vec<LodNamedPropertyCxx>, DecodeError>)
    requires
        old(c).wf(),
    ensures
        old(c).reads_seq(final(c), r, seq_spec(old(c).bytes(), old(c).pos as int, n as nat, property_reader())),
{
    let ghost s = c.data@;
    let ghost p0 = c.pos as int;
    let mut out: Vec<LodNamedPropertyCxx> = Vec::new();
    let mut i: u32 = 0;
    while i < n
        invariant
            c.wf(),
            c.data@ == s,
            s == old(c).data@,
            c.limit == old(c).limit,
            p0 == old(c).pos,
            i <= n,
            c.pos == p0 + seq_spec(s, p0, i as nat, property_reader()).1,
            views(out@) == seq_spec(s, p0, i as nat, property_reader()).0,
        decreases n - i,
    {
        match read_property(c) {
            Ok(x) => {
                let ghost prev = out@;
                out.push(x);
                proof {
                    assert(views(out@) =~= views(prev).push(x@));
                }
                i = i + 1;
            },
            Err(e) => {
                proof {
                    lemma_seq_width_mono(s, p0, (i + 1) as nat, n as nat, property_reader());
                }
                return Err(e);
            },
        }
    }
    Ok(out)
}

/// A 32-bit count followed by that many records.
pub fn read_counted_properties(c: &mut Cursor) -> (r: Result<Vec<LodNamedPropertyCxx>, DecodeError>)
    requires
        old(c).wf(),
    ensures
        old(c).reads_seq(final(c), r, counted_spec(old(c).bytes(), old(c).pos as int, property_reader())),
{
    let n = c.read_u32()?;
    read_properties(c, n)
}

/// `n` records read one after another.
pub fn read_frames(c: &mut Cursor, n: u32) -> (r: Result<Vec<LodFrameCxx>, DecodeError>)
    requires
        old(c).wf(),
    ensures
        old(c).reads_seq(final(c), r, seq_spec(old(c).bytes(), old(c).pos as int, n as nat, frame_reader())),
{
    let ghost s = c.data@;
    let ghost p0 = c.pos as int;
    let mut out: Vec<LodFrameCxx> = Vec::new();
    let mut i: u32 = 0;
    while i < n
        invariant
            c.wf(),
            c.data@ == s,
            s == old(c).data@,
            c.limit == old(c).limit,
            p0 == old(c).pos,
            i <= n,
            c.pos == p0 + seq_spec(s, p0, i as nat, frame_reader()).1,
            views(out@) == seq_spec(s, p0, i as nat, frame_reader()).0,
        decreases n - i,
    {
        match read_frame(c) {
            Ok(x) => {
                let ghost prev = out@;
                out.push(x);
                proof {
                    assert(views(out@) =~= views(prev).push(x@));
                }
                i = i + 1;
            },
            Err(e) => {
                proof {
                    lemma_seq_width_mono(s, p0, (i + 1) as nat, n as nat, frame_reader());
                }
                return Err(e);
            },
        }
    }
    Ok(out)
}

/// A 32-bit count followed by that many records.
pub fn read_counted_frames(c: &mut Cursor) -> (r: Result<Vec<LodFrameCxx>, DecodeError>)
    requires
        old(c).wf(),
    ensures
        old(c).reads_seq(final(c), r, counted_spec(old(c).bytes(), old(c).pos as int, frame_reader())),
{
    let n = c.read_u32()?;
    read_frames(c, n)
}

/// `n` records read one after another.
pub fn read_neighbours(c: &mut Cursor, n: u32) -> (r: Result<Vec<VertexNeighbourCxx>, DecodeError>)
    requires
        old(c).wf(),
    ensures
        old(c).reads_seq(final(c), r, seq_spec(old(c).bytes(), old(c).pos as int, n as nat, neighbour_reader())),
{
    let ghost s = c.data@;
    let ghost p0 = c.pos as int;
    let mut out: Vec<VertexNeighbourCxx> = Vec::new();
    let mut i: u32 = 0;
    while i < n
        invariant
            c.wf(),
            c.data@ == s,
            s == old(c).data@,
            c.limit == old(c).limit,
            p0 == old(c).pos,
            i <= n,
            c.pos == p0 + seq_spec(s, p0, i as nat, neighbour_reader()).1,
            views(out@) == seq_spec(s, p0, i as nat, neighbour_reader()).0,
        decreases n - i,
    {
        match read_neighbour(c) {
            Ok(x) => {
                let ghost prev = out@;
                out.push(x);
                proof {
                    assert(views(out@) =~= views(prev).push(x@));
                }
                i = i + 1;
            },
            Err(e) => {
                proof {
                    lemma_seq_width_mono(s, p0, (i + 1) as nat, n as nat, neighbour_reader());
                }
                return Err(e);
            },
        }
    }
    Ok(out)
}

/// A 32-bit count followed by that many records.
pub fn read_counted_neighbours(c: &mut Cursor) -> (r: Result<Vec<VertexNeighbourCxx>, DecodeError>)
    requires
        old(c).wf(),
    ensures
        old(c).reads_seq(final(c), r, counted_spec(old(c).bytes(), old(c).pos as int, neighbour_reader())),
{
    let n = c.read_u32()?;
    read_neighbours(c, n)
}

/// `n` records read one after another.
pub fn read_sections(c: &mut Cursor, n: u32, version: u32) -> (r: Result<Vec<LodSectionCxx>, DecodeError>)
    requires
        old(c).wf(),
    ensures
        old(c).reads_seq(final(c), r, seq_spec(old(c).bytes(), old(c).pos as int, n as nat, section_reader(version))),
{
    let ghost s = c.data@;
    let ghost p0 = c.pos as int;
    let mut out: Vec<LodSectionCxx> = Vec::new();
    let mut i: u32 = 0;
    while i < n
        invariant
            c.wf(),
            c.data@ == s,
            s == old(c).data@,
            c.limit == old(c).limit,
            p0 == old(c).pos,
            i <= n,
            c.pos == p0 + seq_spec(s, p0, i as nat, section_reader(version)).1,
            views(out@) == seq_spec(s, p0, i as nat, section_reader(version)).0,
        decreases n - i,
    {
        match read_section(c, version) {
            Ok(x) => {
                let ghost prev = out@;
                out.push(x);
                proof {
                    assert(views(out@) =~= views(prev).push(x@));
                }
                i = i + 1;
            },
            Err(e) => {
                proof {
                    lemma_seq_width_mono(s, p0, (i + 1) as nat, n as nat, section_reader(version));
                }
                return Err(e);
            },
        }
    }
    Ok(out)
}

/// A 32-bit count followed by that many records.
pub fn read_counted_sections(c: &mut Cursor, version: u32) -> (r: Result<Vec<LodSectionCxx>, DecodeError>)
    requires
        old(c).wf(),
    ensures
        old(c).reads_seq(final(c), r, counted_spec(old(c).bytes(), old(c).pos as int, section_reader(version))),
{
    let n = c.read_u32()?;
    read_sections(c, n, version)
}

/// `n` records read one after another.
pub fn read_rt_weights(c: &mut Cursor, n: u32) -> (r: Result<Vec<AnimationRTWeightCxx>, DecodeError>)
    requires
        old(c).wf(),
    ensures
        old(c).reads_seq(final(c), r, seq_spec(old(c).bytes(), old(c).pos as int, n as nat, rt_weight_reader())),
{
    let ghost s = c.data@;
    let ghost p0 = c.pos as int;
    let mut out: Vec<AnimationRTWeightCxx> = Vec::new();
    let mut i: u32 = 0;
    while i < n
        invariant
            c.wf(),
            c.data@ == s,
            s == old(c).data@,
            c.limit == old(c).limit,
            p0 == old(c).pos,
            i <= n,
            c.pos == p0 + seq_spec(s, p0, i as nat, rt_weight_reader()).1,
            views(out@) == seq_spec(s, p0, i as nat, rt_weight_reader()).0,
        decreases n - i,
    {
        match read_rt_weight(c) {
            Ok(x) => {
                let ghost prev = out@;
                out.push(x);
                proof {
                    assert(views(out@) =~= views(prev).push(x@));
                }
                i = i + 1;
            },
            Err(e) => {
                proof {
                    lemma_seq_width_mono(s, p0, (i + 1) as nat, n as nat, rt_weight_reader());
                }
                return Err(e);
            },
        }
    }
    Ok(out)
}

/// `n` records read one after another.
pub fn read_st_pairs(c: &mut Cursor, n: u32) -> (r: Result<Vec<STPairCxx>, DecodeError>)
    requires
        old(c).wf(),
    ensures
        old(c).reads_seq(final(c), r, seq_spec(old(c).bytes(), old(c).pos as int, n as nat, st_pair_reader())),
{
    let ghost s = c.data@;
    let ghost p0 = c.pos as int;
    let mut out: Vec<STPairCxx> = Vec::new();
    let mut i: u32 = 0;
    while i < n
        invariant
            c.wf(),
            c.data@ == s,
            s == old(c).data@,
            c.limit == old(c).limit,
            p0 == old(c).pos,
            i <= n,
            c.pos == p0 + seq_spec(s, p0, i as nat, st_pair_reader()).1,
            views(out@) == seq_spec(s, p0, i as nat, st_pair_reader()).0,
        decreases n - i,
    {
        match read_st_pair(c) {
            Ok(x) => {
                let ghost prev = out@;
                out.push(x);
                proof {
                    assert(views(out@) =~= views(prev).push(x@));
                }
                i = i + 1;
            },
            Err(e) => {
                proof {
                    lemma_seq_width_mono(s, p0, (i + 1) as nat, n as nat, st_pair_reader());
                }
                return Err(e);
            },
        }
    }
    Ok(out)
}

/// `n` records read one after another.
pub fn read_clip_flag_words(c: &mut Cursor, n: u32) -> (r: Result<Vec<ClipFlagsCxx>, DecodeError>)
    requires
        old(c).wf(),
    ensures
        old(c).reads_seq(final(c), r, seq_spec(old(c).bytes(), old(c).pos as int, n as nat, clip_flags_reader())),
{
    let ghost s = c.data@;
    let ghost p0 = c.pos as int;
    let mut out: Vec<ClipFlagsCxx> = Vec::new();
    let mut i: u32 = 0;
    while i < n
        invariant
            c.wf(),
            c.data@ == s,
            s == old(c).data@,
            c.limit == old(c).limit,
            p0 == old(c).pos,
            i <= n,
            c.pos == p0 + seq_spec(s, p0, i as nat, clip_flags_reader()).1,
            views(out@) == seq_spec(s, p0, i as nat, clip_flags_reader()).0,
        decreases n - i,
    {
        match read_clip_flags(c) {
            Ok(x) => {
                let ghost prev = out@;
                out.push(x);
                proof {
                    assert(views(out@) =~= views(prev).push(x@));
                }
                i = i + 1;
            },
            Err(e) => {
                proof {
                    lemma_seq_width_mono(s, p0, (i + 1) as nat, n as nat, clip_flags_reader());
                }
                return Err(e);
            },
        }
    }
    Ok(out)
}

// ---- texture-coordinate sets ----

/// A set of texture coordinates: whether they are discretized, their range
/// (bit patterns), a vertex count, and either one value that fills every
/// vertex or one packed value per vertex.
#[derive(Debug, Clone, PartialEq, Eq)]
pub struct UVSetCxx {
    pub is_discretized: bool,
    pub min_u: u32,
    pub min_v: u32,
    pub max_u: u32,
    pub max_v: u32,
    pub n_vertices: u32,
    pub default_fill: bool,
    pub default_value: u32,
    pub uv_data: Vec<u32>,
}

pub ghost struct UVSetView {
    pub is_discretized: bool,
    pub range: (u32, u32, u32, u32),
    pub n_vertices: u32,
    pub default_fill: bool,
    pub default_value: u32,
    pub uv_data: Seq<u32>,
}

impl View for UVSetCxx {
    type V = UVSetView;

    open spec fn view(&self) -> UVSetView {
        UVSetView {
            is_discretized: self.is_discretized,
            range: (self.min_u, self.min_v, self.max_u, self.max_v),
            n_vertices: self.n_vertices,
            default_fill: self.default_fill,
            default_value: self.default_value,
            uv_data: self.uv_data@,
        }
    }
}

/// The set at `p`: where the fill flag is set a single value follows, else
/// one value per vertex.
pub open spec fn uv_set_spec(s: Seq<u8>, p: int) -> (UVSetView, nat) {
    let n = u32_at(s, p + 17);
    let fill = bool_at(s, p + 21);
    let data: (Seq<u32>, nat) = if fill {
        (Seq::empty(), 4)
    } else {
        seq_spec(s, p + 22, n as nat, u32_reader())
    };
    (
        UVSetView {
            is_discretized: bool_at(s, p),
            range: (u32_at(s, p + 1), u32_at(s, p + 5), u32_at(s, p + 9), u32_at(s, p + 13)),
            n_vertices: n,
            default_fill: fill,
            default_value: if fill {
                u32_at(s, p + 22)
            } else {
                0
            },
            uv_data: data.0,
        },
        22 + data.1,
    )
}

pub open spec fn uv_set_reader() -> spec_fn(Seq<u8>, int) -> (UVSetView, nat) {
    |s: Seq<u8>, p: int| uv_set_spec(s, p)
}

pub fn read_uv_set(c: &mut Cursor) -> (r: Result<UVSetCxx, DecodeError>)
    requires
        old(c).wf(),
    ensures
        old(c).reads(final(c), r, uv_set_spec(old(c).bytes(), old(c).pos as int)),
{
    let is_discretized = c.read_bool()?;
    let min_u = c.read_u32()?;
    let min_v = c.read_u32()?;
    let max_u = c.read_u32()?;
    let max_v = c.read_u32()?;
    let n_vertices = c.read_u32()?;
    let default_fill = c.read_bool()?;
    if default_fill {
        let default_value = c.read_u32()?;
        let uv_data: Vec<u32> = Vec::new();
        assert(uv_data@ =~= Seq::<u32>::empty());
        Ok(
            UVSetCxx {
                is_discretized,
                min_u,
                min_v,
                max_u,
                max_v,
                n_vertices,
                default_fill,
                default_value,
                uv_data,
            },
        )
    } else {
        let uv_data = c.read_u32s(n_vertices)?;
        Ok(
            UVSetCxx {
                is_discretized,
                min_u,
                min_v,
                max_u,
                max_v,
                n_vertices,
                default_fill,
                default_value: 0,
                uv_data,
            },
        )
    }
}

/// `n` records read one after another.
pub fn read_uv_sets(c: &mut Cursor, n: u32) -> (r: Result<Vec<UVSetCxx>, DecodeError>)
    requires
        old(c).wf(),
    ensures
        old(c).reads_seq(final(c), r, seq_spec(old(c).bytes(), old(c).pos as int, n as nat, uv_set_reader())),
{
    let ghost s = c.data@;
    let ghost p0 = c.pos as int;
    let mut out: Vec<UVSetCxx> = Vec::new();
    let mut i: u32 = 0;
    while i < n
        invariant
            c.wf(),
            c.data@ == s,
            s == old(c).data@,
            c.limit == old(c).limit,
            p0 == old(c).pos,
            i <= n,
            c.pos == p0 + seq_spec(s, p0, i as nat, uv_set_reader()).1,
            views(out@) == seq_spec(s, p0, i as nat, uv_set_reader()).0,
        decreases n - i,
    {
        match read_uv_set(c) {
            Ok(x) => {
                let ghost prev = out@;
                out.push(x);
                proof {
                    assert(views(out@) =~= views(prev).push(x@));
                }
                i = i + 1;
            },
            Err(e) => {
                proof {
                    lemma_seq_width_mono(s, p0, (i + 1) as nat, n as nat, uv_set_reader());
                }
                return Err(e);
            },
        }
    }
    Ok(out)
}

/// A 32-bit count followed by that many records.
pub fn read_counted_uv_sets(c: &mut Cursor) -> (r: Result<Vec<UVSetCxx>, DecodeError>)
    requires
        old(c).wf(),
    ensures
        old(c).reads_seq(final(c), r, counted_spec(old(c).bytes(), old(c).pos as int, uv_set_reader())),
{
    let n = c.read_u32()?;
    read_uv_sets(c, n)
}

} // verus!

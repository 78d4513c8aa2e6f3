//! The model header, its address table, and the lazy reader that decodes a
//! level of detail on request from the byte range the header records for it.
use vstd::prelude::*;

use crate::codec::{
    asciiz_spec, bool_reader, is_present, lemma_seq_len, lemma_seq_width_mono, present, seq_spec,
    u32_at, u32_if_spec, u32_reader, views, Cursor,
};
use crate::error::DecodeError;
use crate::model::{
    animations_spec, face_defaults_spec, model_info_spec, read_animations, read_face_defaults,
    read_model_info, read_resolutions, resolution_reader, AnimBonesCxx, AnimationClassView,
    AnimationsCxx,
    FaceDataCxx, ModelInfoCxx, ModelInfoView, ResolutionCxx,
};
use crate::versions::{
    APP_ID_SINCE, MUZZLE_FLASH_SINCE, ODOL_MAX_VERSION, ODOL_MIN_VERSION, PREFIX_SINCE,
};

verus! {

pub fn read_one_bool(c: &mut Cursor) -> (r: Result<bool, DecodeError>)
    requires
        old(c).wf(),
    ensures
        old(c).reads(final(c), r, bool_reader()(old(c).bytes(), old(c).pos as int)),
{
    c.read_bool()
}

/// `n` records read one after another.
pub fn read_bools(c: &mut Cursor, n: u32) -> (r: Result<Vec<bool>, DecodeError>)
    requires
        old(c).wf(),
    ensures
        old(c).reads_seq(final(c), r, seq_spec(old(c).bytes(), old(c).pos as int, n as nat, bool_reader())),
{
    let ghost s = c.data@;
    let ghost p0 = c.pos as int;
    let mut out: Vec<bool> = Vec::new();
    let mut i: u32 = 0;
    while i < n
        invariant
            c.wf(),
            c.data@ == s,
            s == old(c).data@,
            c.limit == old(c).limit,
            p0 == old(c).pos,
            i <= n,
            c.pos == p0 + seq_spec(s, p0, i as nat, bool_reader()).1,
            views(out@) == seq_spec(s, p0, i as nat, bool_reader()).0,
        decreases n - i,
    {
        match read_one_bool(c) {
            Ok(x) => {
                let ghost prev = out@;
                out.push(x);
                proof {
                    assert(views(out@) =~= views(prev).push(x@));
                }
                i = i + 1;
            },
            Err(e) => {
                proof {
                    lemma_seq_width_mono(s, p0, (i + 1) as nat, n as nat, bool_reader());
                }
                return Err(e);
            },
        }
    }
    Ok(out)
}

/// A decoded model header. The bodies of its levels of detail are not part
/// of it: the lazy reader decodes them on request.
#[derive(Debug, Clone, PartialEq, Eq)]
pub struct ODOLCxx {
    pub version: u32,
    pub prefix: Vec<u8>,
    pub app_id: u32,
    pub muzzle_flash: Vec<u8>,
    pub lod_count: u32,
    pub resolutions: Vec<ResolutionCxx>,
    pub model_info: ModelInfoCxx,
    pub has_anims: bool,
    pub animations: AnimationsCxx,
    pub start_address_of_lods: Vec<u32>,
    pub end_address_of_lods: Vec<u32>,
    pub use_defaults: Vec<bool>,
    pub face_defaults: Vec<FaceDataCxx>,
}

pub ghost struct OdolView {
    pub version: u32,
    pub prefix: Seq<u8>,
    pub app_id: u32,
    pub muzzle_flash: Seq<u8>,
    pub lod_count: u32,
    pub resolutions: Seq<ResolutionCxx>,
    pub model_info: ModelInfoView,
    pub has_anims: bool,
    pub animations: (Seq<AnimationClassView>, Seq<Seq<Seq<u32>>>, Seq<Seq<AnimBonesCxx>>),
    pub starts: Seq<u32>,
    pub ends: Seq<u32>,
    pub use_defaults: Seq<bool>,
    pub face_defaults: Seq<FaceDataCxx>,
}

impl View for ODOLCxx {
    type V = OdolView;

    open spec fn view(&self) -> OdolView {
        OdolView {
            version: self.version,
            prefix: self.prefix@,
            app_id: self.app_id,
            muzzle_flash: self.muzzle_flash@,
            lod_count: self.lod_count,
            resolutions: self.resolutions@,
            model_info: self.model_info@,
            has_anims: self.has_anims,
            animations: self.animations@,
            starts: self.start_address_of_lods@,
            ends: self.end_address_of_lods@,
            use_defaults: self.use_defaults@,
            face_defaults: self.face_defaults@,
        }
    }
}

/// Two byte ranges share no byte.
pub open spec fn ranges_disjoint(a0: u32, a1: u32, b0: u32, b1: u32) -> bool {
    a0 == a1 || b0 == b1 || a1 <= b0 || b1 <= a0
}

/// One range per level of detail, each within an input of `len` bytes, no
/// two of them overlapping.
pub open spec fn address_table_valid(starts: Seq<u32>, ends: Seq<u32>, len: nat) -> bool {
    &&& starts.len() == ends.len()
    &&& forall|i: int| 0 <= i < starts.len() ==> #[trigger] starts[i] <= ends[i] && ends[i] <= len
    &&& forall|i: int, j: int|
        0 <= i < starts.len() && 0 <= j < starts.len() && i != j ==> ranges_disjoint(
            #[trigger] starts[i],
            ends[i],
            #[trigger] starts[j],
            ends[j],
        )
}

impl OdolView {
    /// A header over an input of `len` bytes: one resolution, one address
    /// range and one defaults flag per level of detail, the ranges valid.
    pub open spec fn wf(self, len: nat) -> bool {
        &&& self.resolutions.len() == self.lod_count
        &&& self.starts.len() == self.lod_count
        &&& self.ends.len() == self.lod_count
        &&& self.use_defaults.len() == self.lod_count
        &&& address_table_valid(self.starts, self.ends, len)
    }
}

/// Whether a header of format `version` has an address table this decoder
/// can interpret.
pub open spec fn version_known(version: u32) -> bool {
    ODOL_MIN_VERSION <= version <= ODOL_MAX_VERSION
}

/// The input starts with the four bytes `ODOL`.
pub open spec fn magic_ok(s: Seq<u8>) -> bool {
    s.len() >= 4 && s[0] == 0x4f && s[1] == 0x44 && s[2] == 0x4f && s[3] == 0x4c
}

/// Application id, name prefix and muzzle-flash name where the version has
/// them, the count of levels of detail and their resolutions.
pub open spec fn header_front_spec(s: Seq<u8>, p: int, version: u32) -> (
    (u32, Seq<u8>, u32, Seq<ResolutionCxx>, Seq<u8>),
    nat,
) {
    let app = u32_if_spec(s, p, version, APP_ID_SINCE, 0);
    let prefix: (Seq<u8>, nat) = if present(version, PREFIX_SINCE) {
        asciiz_spec(s, p + app.1)
    } else {
        (Seq::empty(), 0)
    };
    let muzzle: (Seq<u8>, nat) = if present(version, MUZZLE_FLASH_SINCE) {
        asciiz_spec(s, p + app.1 + prefix.1)
    } else {
        (Seq::empty(), 0)
    };
    let q = p + app.1 + prefix.1 + muzzle.1;
    let n = u32_at(s, q);
    let res = seq_spec(s, q + 4, n as nat, resolution_reader());
    ((app.0, prefix.0, n, res.0, muzzle.0), app.1 + prefix.1 + muzzle.1 + 4 + res.1)
}

pub fn read_header_front(c: &mut Cursor, version: u32) -> (r: Result<
    (u32, Vec<u8>, u32, Vec<ResolutionCxx>, Vec<u8>),
    DecodeError,
>)
    requires
        old(c).wf(),
    ensures
        old(c).steps(final(c), r, header_front_spec(old(c).bytes(), old(c).pos as int, version).1),
        r is Ok ==> {
            let v = r->Ok_0;
            (v.0, v.1@, v.2, v.3@, v.4@) == header_front_spec(old(c).bytes(), old(c).pos as int, version).0
        },
{
    let app_id = c.read_u32_if(version, APP_ID_SINCE, 0)?;
    let prefix = if is_present(version, PREFIX_SINCE) {
        c.read_asciiz()?
    } else {
        Vec::new()
    };
    assert(prefix@ =~= header_front_spec(old(c).bytes(), old(c).pos as int, version).0.1);
    let muzzle = if is_present(version, MUZZLE_FLASH_SINCE) {
        c.read_asciiz()?
    } else {
        Vec::new()
    };
    assert(muzzle@ =~= header_front_spec(old(c).bytes(), old(c).pos as int, version).0.4);
    let n = c.read_u32()?;
    let resolutions = read_resolutions(c, n)?;
    assert(resolutions@ =~= views(resolutions@));
    Ok((app_id, prefix, n, resolutions, muzzle))
}

/// The start and end addresses, the defaults flags, and the face data of
/// the levels of detail that do not use the defaults.
pub open spec fn address_table_spec(s: Seq<u8>, p: int, version: u32, n: u32) -> (
    (Seq<u32>, Seq<u32>, Seq<bool>, Seq<FaceDataCxx>),
    nat,
) {
    let starts = seq_spec(s, p, n as nat, u32_reader());
    let ends = seq_spec(s, p + starts.1, n as nat, u32_reader());
    let flags = seq_spec(s, p + starts.1 + ends.1, n as nat, bool_reader());
    let faces = face_defaults_spec(s, p + starts.1 + ends.1 + flags.1, flags.0, version);
    ((starts.0, ends.0, flags.0, faces.0), starts.1 + ends.1 + flags.1 + faces.1)
}

pub fn read_address_table(c: &mut Cursor, version: u32, n: u32) -> (r: Result<
    (Vec<u32>, Vec<u32>, Vec<bool>, Vec<FaceDataCxx>),
    DecodeError,
>)
    requires
        old(c).wf(),
    ensures
        old(c).steps(final(c), r, address_table_spec(old(c).bytes(), old(c).pos as int, version, n).1),
        r is Ok ==> {
            let v = r->Ok_0;
            (v.0@, v.1@, v.2@, v.3@) == address_table_spec(
                old(c).bytes(),
                old(c).pos as int,
                version,
                n,
            ).0
        },
{
    let starts = c.read_u32s(n)?;
    let ends = c.read_u32s(n)?;
    let flags = read_bools(c, n)?;
    assert(flags@ =~= views(flags@));
    let faces = read_face_defaults(c, &flags, version)?;
    Ok((starts, ends, flags, faces))
}

/// The header of format `version` after its magic and version, and its
/// width.
pub open spec fn odol_spec(s: Seq<u8>, version: u32) -> (OdolView, nat) {
    let front = header_front_spec(s, 8, version);
    let info = model_info_spec(s, (8 + front.1) as int, version, front.0.2);
    let anims = animations_spec(s, (8 + front.1 + info.1) as int, front.0.2, version);
    let table = address_table_spec(s, (8 + front.1 + info.1 + anims.1) as int, version, front.0.2);
    (
        OdolView {
            version,
            prefix: front.0.1,
            app_id: front.0.0,
            muzzle_flash: front.0.4,
            lod_count: front.0.2,
            resolutions: front.0.3,
            model_info: info.0,
            has_anims: anims.0.0,
            animations: anims.0.1,
            starts: table.0.0,
            ends: table.0.1,
            use_defaults: table.0.2,
            face_defaults: table.0.3,
        },
        front.1 + info.1 + anims.1 + table.1,
    )
}

/// What decoding the header of the input `s` gives: a truncated input, an
/// unknown magic or version, an inconsistent address table, or the header.
pub open spec fn header_outcome(s: Seq<u8>) -> Result<OdolView, DecodeError> {
    if s.len() < 8 {
        Err(DecodeError::TruncatedInput)
    } else if !magic_ok(s) || !version_known(u32_at(s, 4)) {
        Err(DecodeError::MalformedHeader)
    } else {
        let h = odol_spec(s, u32_at(s, 4));
        if 8 + h.1 > s.len() {
            Err(DecodeError::TruncatedInput)
        } else if !address_table_valid(h.0.starts, h.0.ends, s.len()) {
            Err(DecodeError::MalformedHeader)
        } else {
            Ok(h.0)
        }
    }
}

/// Whether the ranges `starts[i]..ends[i]` are a valid address table for an
/// input of `len` bytes.
pub fn check_address_table(starts: &Vec<u32>, ends: &Vec<u32>, len: usize) -> (r: bool)
    requires
        starts@.len() == ends@.len(),
    ensures
        r == address_table_valid(starts@, ends@, len as nat),
{
    let n = starts.len();
    let mut i: usize = 0;
    while i < n
        invariant
            n == starts@.len() == ends@.len(),
            i <= n,
            forall|k: int| 0 <= k < i ==> #[trigger] starts@[k] <= ends@[k] && ends@[k] <= len,
        decreases n - i,
    {
        if starts[i] > ends[i] || ends[i] as usize > len {
            return false;
        }
        i = i + 1;
    }
    let mut a: usize = 0;
    while a < n
        invariant
            n == starts@.len() == ends@.len(),
            a <= n,
            forall|x: int, y: int|
                0 <= x < a && 0 <= y < n && x != y ==> ranges_disjoint(
                    #[trigger] starts@[x],
                    ends@[x],
                    #[trigger] starts@[y],
                    ends@[y],
                ),
        decreases n - a,
    {
        let mut b: usize = 0;
        while b < n
            invariant
                n == starts@.len() == ends@.len(),
                a < n,
                b <= n,
                forall|x: int, y: int|
                    0 <= x < a && 0 <= y < n && x != y ==> ranges_disjoint(
                        #[trigger] starts@[x],
                        ends@[x],
                        #[trigger] starts@[y],
                        ends@[y],
                    ),
                forall|y: int|
                    0 <= y < b && y != a ==> ranges_disjoint(
                        starts@[a as int],
                        ends@[a as int],
                        #[trigger] starts@[y],
                        ends@[y],
                    ),
            decreases n - b,
        {
            if a != b {
                let (a0, a1, b0, b1) = (starts[a], ends[a], starts[b], ends[b]);
                if !(a0 == a1 || b0 == b1 || a1 <= b0 || b1 <= a0) {
                    return false;
                }
            }
            b = b + 1;
        }
        a = a + 1;
    }
    true
}

/// Decodes the header of a model from its complete byte buffer. The bodies
/// of its levels of detail are not read.
#[verifier::rlimit(40)]
pub fn parse_header(data: &Vec<u8>) -> (r: Result<ODOLCxx, DecodeError>)
    ensures
        match r {
            Ok(o) => header_outcome(data@) == Ok::<OdolView, DecodeError>(o@) && o@.wf(
                data@.len(),
            ),
            Err(e) => header_outcome(data@) == Err::<OdolView, DecodeError>(e),
        },
{
    let len = data.len();
    if len < 8 {
        return Err(DecodeError::TruncatedInput);
    }
    if !(data[0] == 0x4f && data[1] == 0x44 && data[2] == 0x4f && data[3] == 0x4c) {
        return Err(DecodeError::MalformedHeader);
    }
    let mut vc = Cursor::new(data, 4, 8);
    let version = match vc.read_u32() {
        Ok(v) => v,
        Err(e) => return Err(e),
    };
    if version < ODOL_MIN_VERSION || version > ODOL_MAX_VERSION {
        return Err(DecodeError::MalformedHeader);
    }
    let ghost s = data@;
    let mut c = Cursor::new(data, 8, len);
    let front = read_header_front(&mut c, version)?;
    let info = read_model_info(&mut c, version, front.2)?;
    let anims = read_animations(&mut c, front.2, version)?;
    let ghost tp = c.pos as int;
    let table = read_address_table(&mut c, version, front.2)?;
    proof {
        lemma_front_length(s, 8, version);
        lemma_table_lengths(s, tp, version, front.2);
    }
    let (app_id, prefix, lod_count, resolutions, muzzle_flash) = front;
    let (start_address_of_lods, end_address_of_lods, use_defaults, face_defaults) = table;
    if !check_address_table(&start_address_of_lods, &end_address_of_lods, len) {
        return Err(DecodeError::MalformedHeader);
    }
    let (has_anims, animations) = anims;
    Ok(
        ODOLCxx {
            version,
            prefix,
            app_id,
            muzzle_flash,
            lod_count,
            resolutions,
            model_info: info,
            has_anims,
            animations,
            start_address_of_lods,
            end_address_of_lods,
            use_defaults,
            face_defaults,
        },
    )
}

/// The header's resolution list has one entry per declared level of detail.
pub proof fn lemma_front_length(s: Seq<u8>, p: int, version: u32)
    ensures
        header_front_spec(s, p, version).0.3.len() == header_front_spec(s, p, version).0.2,
{
    let app = u32_if_spec(s, p, version, APP_ID_SINCE, 0);
    let prefix: (Seq<u8>, nat) = if present(version, PREFIX_SINCE) {
        asciiz_spec(s, p + app.1)
    } else {
        (Seq::empty(), 0)
    };
    let muzzle: (Seq<u8>, nat) = if present(version, MUZZLE_FLASH_SINCE) {
        asciiz_spec(s, p + app.1 + prefix.1)
    } else {
        (Seq::empty(), 0)
    };
    let q = p + app.1 + prefix.1 + muzzle.1;
    lemma_seq_len(s, q + 4, u32_at(s, q) as nat, resolution_reader());
}

/// The address table holds `n` starts, `n` ends and `n` flags.
pub proof fn lemma_table_lengths(s: Seq<u8>, p: int, version: u32, n: u32)
    ensures
        address_table_spec(s, p, version, n).0.0.len() == n,
        address_table_spec(s, p, version, n).0.1.len() == n,
        address_table_spec(s, p, version, n).0.2.len() == n,
{
    let starts = seq_spec(s, p, n as nat, u32_reader());
    let ends = seq_spec(s, p + starts.1, n as nat, u32_reader());
    lemma_seq_len(s, p, n as nat, u32_reader());
    lemma_seq_len(s, p + starts.1, n as nat, u32_reader());
    lemma_seq_len(s, p + starts.1 + ends.1, n as nat, bool_reader());
}

} // verus!

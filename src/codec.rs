//! Fixed-width little-endian scalars and the small fixed-size aggregates
//! built from them, read through a bounded cursor. Single-precision floats
//! are kept as their IEEE-754 bit patterns, so nothing is lost or rounded.
use vstd::prelude::*;

use crate::error::DecodeError;

verus! {

/// The byte at `p`.
pub open spec fn u8_at(s: Seq<u8>, p: int) -> u8 {
    s[p]
}

/// The little-endian 16-bit value at `p`.
pub open spec fn u16_at(s: Seq<u8>, p: int) -> u16 {
    (s[p] as u16) | ((s[p + 1] as u16) << 8u16)
}

/// The little-endian 32-bit value at `p`.
pub open spec fn u32_at(s: Seq<u8>, p: int) -> u32 {
    (s[p] as u32) | ((s[p + 1] as u32) << 8u32) | ((s[p + 2] as u32) << 16u32) | ((s[p + 3] as u32)
        << 24u32)
}

pub open spec fn i16_at(s: Seq<u8>, p: int) -> i16 {
    u16_at(s, p) as i16
}

pub open spec fn i32_at(s: Seq<u8>, p: int) -> i32 {
    u32_at(s, p) as i32
}

/// A boolean is one byte; any value but zero is true.
pub open spec fn bool_at(s: Seq<u8>, p: int) -> bool {
    s[p] != 0
}

/// Three single-precision coordinates, each as its bit pattern.
#[derive(Debug, Clone, Copy, PartialEq, Eq, Structural)]
pub struct XYZTripletCxx {
    pub x: u32,
    pub y: u32,
    pub z: u32,
}

impl View for XYZTripletCxx {
    type V = XYZTripletCxx;

    open spec fn view(&self) -> XYZTripletCxx {
        *self
    }
}

pub open spec fn xyz_at(s: Seq<u8>, p: int) -> XYZTripletCxx {
    XYZTripletCxx { x: u32_at(s, p), y: u32_at(s, p + 4), z: u32_at(s, p + 8) }
}

/// A 4x3 transform: three rows of orientation followed by the translation.
#[derive(Debug, Clone, Copy, PartialEq, Eq, Structural)]
pub struct TransformMatrixCxx {
    pub _0: XYZTripletCxx,
    pub _1: XYZTripletCxx,
    pub _2: XYZTripletCxx,
    pub _3: XYZTripletCxx,
}

impl View for TransformMatrixCxx {
    type V = TransformMatrixCxx;

    open spec fn view(&self) -> TransformMatrixCxx {
        *self
    }
}

pub open spec fn matrix_at(s: Seq<u8>, p: int) -> TransformMatrixCxx {
    TransformMatrixCxx {
        _0: xyz_at(s, p),
        _1: xyz_at(s, p + 12),
        _2: xyz_at(s, p + 24),
        _3: xyz_at(s, p + 36),
    }
}

/// A colour of four single-precision channels, each as its bit pattern.
#[derive(Debug, Clone, Copy, PartialEq, Eq, Structural)]
pub struct D3DColorValueCxx {
    pub r: u32,
    pub g: u32,
    pub b: u32,
    pub a: u32,
}

impl View for D3DColorValueCxx {
    type V = D3DColorValueCxx;

    open spec fn view(&self) -> D3DColorValueCxx {
        *self
    }
}

pub open spec fn color_at(s: Seq<u8>, p: int) -> D3DColorValueCxx {
    D3DColorValueCxx { r: u32_at(s, p), g: u32_at(s, p + 4), b: u32_at(s, p + 8), a: u32_at(s, p + 12) }
}

/// A packed colour of four byte channels.
#[derive(Debug, Clone, Copy, PartialEq, Eq, Structural)]
pub struct RGBAColorCxx {
    pub a: u8,
    pub b: u8,
    pub c: u8,
    pub d: u8,
}

impl View for RGBAColorCxx {
    type V = RGBAColorCxx;

    open spec fn view(&self) -> RGBAColorCxx {
        *self
    }
}

pub open spec fn rgba_at(s: Seq<u8>, p: int) -> RGBAColorCxx {
    RGBAColorCxx { a: s[p], b: s[p + 1], c: s[p + 2], d: s[p + 3] }
}

/// The length of the zero-terminated string at `p`, without its terminator;
/// where no terminator follows, the length of what is left.
pub open spec fn asciiz_len(s: Seq<u8>, p: int) -> nat
    decreases s.len() - p,
{
    if p < 0 || p >= s.len() || s[p] == 0 {
        0
    } else {
        1 + asciiz_len(s, p + 1)
    }
}

/// A zero-terminated string: its bytes, and the width with the terminator.
pub open spec fn asciiz_spec(s: Seq<u8>, p: int) -> (Seq<u8>, nat) {
    (s.subrange(p, p + asciiz_len(s, p)), asciiz_len(s, p) + 1)
}

/// Whether a field introduced in format version `since` is present in a
/// record of format version `version`. Every optional field of every record
/// is decided here.
pub open spec fn present(version: u32, since: u32) -> bool {
    version >= since
}

pub fn is_present(version: u32, since: u32) -> (r: bool)
    ensures
        r == present(version, since),
{
    version >= since
}

/// A 32-bit field introduced in version `since`: read where present, else
/// `default` without consuming anything.
pub open spec fn u32_if_spec(s: Seq<u8>, p: int, version: u32, since: u32, default: u32) -> (
    u32,
    nat,
) {
    if present(version, since) {
        (u32_at(s, p), 4)
    } else {
        (default, 0)
    }
}


/// `n` records one after another from `p`, each read by `f`: the records and
/// their total width.
pub open spec fn seq_spec<T>(s: Seq<u8>, p: int, n: nat, f: spec_fn(Seq<u8>, int) -> (T, nat)) -> (
    Seq<T>,
    nat,
)
    decreases n,
{
    if n == 0 {
        (Seq::empty(), 0)
    } else {
        let prev = seq_spec(s, p, (n - 1) as nat, f);
        let last = f(s, p + prev.1);
        (prev.0.push(last.0), prev.1 + last.1)
    }
}

/// A 32-bit count followed by that many records, each read by `f`.
pub open spec fn counted_spec<T>(s: Seq<u8>, p: int, f: spec_fn(Seq<u8>, int) -> (T, nat)) -> (
    Seq<T>,
    nat,
) {
    let r = seq_spec(s, p + 4, u32_at(s, p) as nat, f);
    (r.0, 4 + r.1)
}

/// The width of the first `i` records never exceeds that of the first `j`.
pub proof fn lemma_seq_width_mono<T>(
    s: Seq<u8>,
    p: int,
    i: nat,
    j: nat,
    f: spec_fn(Seq<u8>, int) -> (T, nat),
)
    requires
        i <= j,
    ensures
        seq_spec(s, p, i, f).1 <= seq_spec(s, p, j, f).1,
    decreases j,
{
    if i < j {
        lemma_seq_width_mono(s, p, i, (j - 1) as nat, f);
    }
}

/// `n` records read one after another are `n` records.
pub proof fn lemma_seq_len<T>(s: Seq<u8>, p: int, n: nat, f: spec_fn(Seq<u8>, int) -> (T, nat))
    ensures
        seq_spec(s, p, n, f).0.len() == n,
    decreases n,
{
    if n > 0 {
        lemma_seq_len(s, p, (n - 1) as nat, f);
    }
}

/// The views of a sequence of values.
pub open spec fn views<T: View>(v: Seq<T>) -> Seq<T::V> {
    v.map_values(|x: T| x@)
}

pub open spec fn u32_reader() -> spec_fn(Seq<u8>, int) -> (u32, nat) {
    |s: Seq<u8>, p: int| (u32_at(s, p), 4nat)
}

pub open spec fn u8_reader() -> spec_fn(Seq<u8>, int) -> (u8, nat) {
    |s: Seq<u8>, p: int| (u8_at(s, p), 1nat)
}

pub open spec fn bool_reader() -> spec_fn(Seq<u8>, int) -> (bool, nat) {
    |s: Seq<u8>, p: int| (bool_at(s, p), 1nat)
}

pub open spec fn xyz_reader() -> spec_fn(Seq<u8>, int) -> (XYZTripletCxx, nat) {
    |s: Seq<u8>, p: int| (xyz_at(s, p), 12nat)
}

pub open spec fn asciiz_reader() -> spec_fn(Seq<u8>, int) -> (Seq<u8>, nat) {
    |s: Seq<u8>, p: int| asciiz_spec(s, p)
}

/// A boolean introduced in version `since`: read where present, else
/// `default` without consuming anything.
pub open spec fn bool_if_spec(s: Seq<u8>, p: int, version: u32, since: u32, default: bool) -> (
    bool,
    nat,
) {
    if present(version, since) {
        (bool_at(s, p), 1)
    } else {
        (default, 0)
    }
}

/// A read cursor over `data`, bounded by `limit`.
pub struct Cursor<'a> {
    pub data: &'a Vec<u8>,
    pub pos: usize,
    pub limit: usize,
}

impl<'a> Cursor<'a> {
    pub open spec fn wf(&self) -> bool {
        self.pos <= self.limit && self.limit <= self.data@.len()
    }

    pub open spec fn bytes(&self) -> Seq<u8> {
        self.data@
    }

    /// `next` is this cursor after a read that decodes to `parsed.0` and
    /// spans `parsed.1` bytes: the read succeeds exactly when that span lies
    /// before the limit, and fails only for want of bytes.
    pub open spec fn reads<T: View>(
        &self,
        next: &Cursor,
        r: Result<T, DecodeError>,
        parsed: (T::V, nat),
    ) -> bool {
        &&& next.data@ == self.data@
        &&& next.limit == self.limit
        &&& next.wf()
        &&& (r is Ok) == (self.pos + parsed.1 <= self.limit)
        &&& r is Ok ==> r->Ok_0@ == parsed.0 && next.pos == self.pos + parsed.1
        &&& r is Err ==> r->Err_0 == DecodeError::TruncatedInput
    }

    /// `next` is this cursor after a read that spans `width` bytes: it
    /// succeeds exactly when that span lies before the limit, and fails only
    /// for want of bytes. What it returns is stated beside.
    pub open spec fn steps<T>(&self, next: &Cursor, r: Result<T, DecodeError>, width: nat) -> bool {
        &&& next.data@ == self.data@
        &&& next.limit == self.limit
        &&& next.wf()
        &&& (r is Ok) == (self.pos + width <= self.limit)
        &&& r is Ok ==> next.pos == self.pos + width
        &&& r is Err ==> r->Err_0 == DecodeError::TruncatedInput
    }

    /// As `reads`, for a sequence of records compared by their views.
    pub open spec fn reads_seq<T: View>(
        &self,
        next: &Cursor,
        r: Result<Vec<T>, DecodeError>,
        parsed: (Seq<T::V>, nat),
    ) -> bool {
        &&& next.data@ == self.data@
        &&& next.limit == self.limit
        &&& next.wf()
        &&& (r is Ok) == (self.pos + parsed.1 <= self.limit)
        &&& r is Ok ==> views(r->Ok_0@) == parsed.0 && next.pos == self.pos + parsed.1
        &&& r is Err ==> r->Err_0 == DecodeError::TruncatedInput
    }

    pub fn new(data: &'a Vec<u8>, pos: usize, limit: usize) -> (c: Cursor<'a>)
        requires
            pos <= limit <= data@.len(),
        ensures
            c.data == data,
            c.pos == pos,
            c.limit == limit,
            c.wf(),
    {
        Cursor { data, pos, limit }
    }

    pub fn read_u8(&mut self) -> (r: Result<u8, DecodeError>)
        requires
            old(self).wf(),
        ensures
            old(self).reads(final(self), r, (u8_at(old(self).bytes(), old(self).pos as int), 1nat)),
    {
        if self.pos < self.limit {
            let v = self.data[self.pos];
            self.pos = self.pos + 1;
            Ok(v)
        } else {
            Err(DecodeError::TruncatedInput)
        }
    }

    pub fn read_bool(&mut self) -> (r: Result<bool, DecodeError>)
        requires
            old(self).wf(),
        ensures
            old(self).reads(final(self), r, (bool_at(old(self).bytes(), old(self).pos as int), 1nat)),
    {
        if self.pos < self.limit {
            let v = self.data[self.pos];
            self.pos = self.pos + 1;
            Ok(v != 0)
        } else {
            Err(DecodeError::TruncatedInput)
        }
    }

    pub fn read_u16(&mut self) -> (r: Result<u16, DecodeError>)
        requires
            old(self).wf(),
        ensures
            old(self).reads(final(self), r, (u16_at(old(self).bytes(), old(self).pos as int), 2nat)),
    {
        if self.limit - self.pos >= 2 {
            let p = self.pos;
            let v = (self.data[p] as u16) | ((self.data[p + 1] as u16) << 8u16);
            self.pos = p + 2;
            Ok(v)
        } else {
            Err(DecodeError::TruncatedInput)
        }
    }

    pub fn read_i16(&mut self) -> (r: Result<i16, DecodeError>)
        requires
            old(self).wf(),
        ensures
            old(self).reads(final(self), r, (i16_at(old(self).bytes(), old(self).pos as int), 2nat)),
    {
        match self.read_u16() {
            Ok(v) => Ok(v as i16),
            Err(e) => Err(e),
        }
    }

    pub fn read_u32(&mut self) -> (r: Result<u32, DecodeError>)
        requires
            old(self).wf(),
        ensures
            old(self).reads(final(self), r, (u32_at(old(self).bytes(), old(self).pos as int), 4nat)),
    {
        if self.limit - self.pos >= 4 {
            let p = self.pos;
            let v = (self.data[p] as u32) | ((self.data[p + 1] as u32) << 8u32) | ((self.data[p
                + 2] as u32) << 16u32) | ((self.data[p + 3] as u32) << 24u32);
            self.pos = p + 4;
            Ok(v)
        } else {
            Err(DecodeError::TruncatedInput)
        }
    }

    pub fn read_i32(&mut self) -> (r: Result<i32, DecodeError>)
        requires
            old(self).wf(),
        ensures
            old(self).reads(final(self), r, (i32_at(old(self).bytes(), old(self).pos as int), 4nat)),
    {
        match self.read_u32() {
            Ok(v) => Ok(v as i32),
            Err(e) => Err(e),
        }
    }

    /// A 32-bit field introduced in version `since` (see `u32_if_spec`).
    pub fn read_u32_if(&mut self, version: u32, since: u32, default: u32) -> (r: Result<
        u32,
        DecodeError,
    >)
        requires
            old(self).wf(),
        ensures
            old(self).reads(
                final(self),
                r,
                u32_if_spec(old(self).bytes(), old(self).pos as int, version, since, default),
            ),
    {
        if is_present(version, since) {
            self.read_u32()
        } else {
            Ok(default)
        }
    }

    pub fn read_xyz(&mut self) -> (r: Result<XYZTripletCxx, DecodeError>)
        requires
            old(self).wf(),
        ensures
            old(self).reads(final(self), r, (xyz_at(old(self).bytes(), old(self).pos as int), 12nat)),
    {
        if self.limit - self.pos >= 12 {
            let x = self.read_u32()?;
            let y = self.read_u32()?;
            let z = self.read_u32()?;
            Ok(XYZTripletCxx { x, y, z })
        } else {
            Err(DecodeError::TruncatedInput)
        }
    }

    pub fn read_matrix(&mut self) -> (r: Result<TransformMatrixCxx, DecodeError>)
        requires
            old(self).wf(),
        ensures
            old(self).reads(
                final(self),
                r,
                (matrix_at(old(self).bytes(), old(self).pos as int), 48nat),
            ),
    {
        if self.limit - self.pos >= 48 {
            let a = self.read_xyz()?;
            let b = self.read_xyz()?;
            let c = self.read_xyz()?;
            let d = self.read_xyz()?;
            Ok(TransformMatrixCxx { _0: a, _1: b, _2: c, _3: d })
        } else {
            Err(DecodeError::TruncatedInput)
        }
    }


    pub fn read_bool_if(&mut self, version: u32, since: u32, default: bool) -> (r: Result<
        bool,
        DecodeError,
    >)
        requires
            old(self).wf(),
        ensures
            old(self).reads(
                final(self),
                r,
                bool_if_spec(old(self).bytes(), old(self).pos as int, version, since, default),
            ),
    {
        if is_present(version, since) {
            self.read_bool()
        } else {
            Ok(default)
        }
    }

    /// `n` 32-bit values.
    pub fn read_u32s(&mut self, n: u32) -> (r: Result<Vec<u32>, DecodeError>)
        requires
            old(self).wf(),
        ensures
            old(self).reads(
                final(self),
                r,
                seq_spec(old(self).bytes(), old(self).pos as int, n as nat, u32_reader()),
            ),
    {
        let ghost s = self.data@;
        let ghost p0 = self.pos as int;
        let mut out: Vec<u32> = Vec::new();
        let mut i: u32 = 0;
        while i < n
            invariant
                self.wf(),
                self.data@ == s,
                s == old(self).data@,
                self.limit == old(self).limit,
                p0 == old(self).pos,
                i <= n,
                self.pos == p0 + seq_spec(s, p0, i as nat, u32_reader()).1,
                out@ == seq_spec(s, p0, i as nat, u32_reader()).0,
            decreases n - i,
        {
            match self.read_u32() {
                Ok(x) => {
                    out.push(x);
                    i = i + 1;
                },
                Err(e) => {
                    proof {
                        assert(seq_spec(s, p0, (i + 1) as nat, u32_reader()).1 == seq_spec(
                            s,
                            p0,
                            i as nat,
                            u32_reader(),
                        ).1 + 4);
                        lemma_seq_width_mono(s, p0, (i + 1) as nat, n as nat, u32_reader());
                    }
                    return Err(e);
                },
            }
        }
        Ok(out)
    }

    /// A 32-bit count followed by that many 32-bit values.
    pub fn read_counted_u32s(&mut self) -> (r: Result<Vec<u32>, DecodeError>)
        requires
            old(self).wf(),
        ensures
            old(self).reads(
                final(self),
                r,
                counted_spec(old(self).bytes(), old(self).pos as int, u32_reader()),
            ),
    {
        let n = self.read_u32()?;
        self.read_u32s(n)
    }

    pub fn read_color(&mut self) -> (r: Result<D3DColorValueCxx, DecodeError>)
        requires
            old(self).wf(),
        ensures
            old(self).reads(final(self), r, (color_at(old(self).bytes(), old(self).pos as int), 16nat)),
    {
        if self.limit - self.pos >= 16 {
            let r = self.read_u32()?;
            let g = self.read_u32()?;
            let b = self.read_u32()?;
            let a = self.read_u32()?;
            Ok(D3DColorValueCxx { r, g, b, a })
        } else {
            Err(DecodeError::TruncatedInput)
        }
    }

    pub fn read_rgba(&mut self) -> (r: Result<RGBAColorCxx, DecodeError>)
        requires
            old(self).wf(),
        ensures
            old(self).reads(final(self), r, (rgba_at(old(self).bytes(), old(self).pos as int), 4nat)),
    {
        if self.limit - self.pos >= 4 {
            let a = self.read_u8()?;
            let b = self.read_u8()?;
            let c = self.read_u8()?;
            let d = self.read_u8()?;
            Ok(RGBAColorCxx { a, b, c, d })
        } else {
            Err(DecodeError::TruncatedInput)
        }
    }

    /// A zero-terminated string, returned without its terminator.
    pub fn read_asciiz(&mut self) -> (r: Result<Vec<u8>, DecodeError>)
        requires
            old(self).wf(),
        ensures
            old(self).reads(final(self), r, asciiz_spec(old(self).bytes(), old(self).pos as int)),
    {
        let ghost s = self.data@;
        let start = self.pos;
        let mut out: Vec<u8> = Vec::new();
        let mut i: usize = start;
        while i < self.limit && self.data[i] != 0
            invariant
                start <= i <= self.limit <= s.len(),
                self.data@ == s,
                out@ == s.subrange(start as int, i as int),
                asciiz_len(s, start as int) == (i - start) + asciiz_len(s, i as int),
            decreases self.limit - i,
        {
            out.push(self.data[i]);
            i = i + 1;
            assert(out@ =~= s.subrange(start as int, i as int));
        }
        if i < self.limit {
            self.pos = i + 1;
            Ok(out)
        } else {
            Err(DecodeError::TruncatedInput)
        }
    }
}

} // verus!

//! Mipmap selection in a texture container. The container holds a 16-bit
//! type tag, tagged sections (`GGAT`, a four-byte name, a 32-bit length and
//! that many bytes), a palette (a 16-bit count of three-byte entries), then
//! mipmaps: a 16-bit width and height, a 24-bit payload length and the
//! payload, until a mipmap of width and height zero. The payload is returned
//! as stored; pixel decoding is left to the caller.
use vstd::prelude::*;

use crate::codec::{u16_at, u32_at};
use crate::error::DecodeError;

verus! {

/// One mipmap: its dimensions as stored and its payload.
#[derive(Debug, Clone, PartialEq, Eq)]
pub struct MipmapCxx {
    pub width: u16,
    pub height: u16,
    pub data: Vec<u8>,
}

pub ghost struct MipmapView {
    pub width: u16,
    pub height: u16,
    pub data: Seq<u8>,
}

impl View for MipmapCxx {
    type V = MipmapView;

    open spec fn view(&self) -> MipmapView {
        MipmapView { width: self.width, height: self.height, data: self.data@ }
    }
}

/// The four bytes at `p` are `GGAT`.
pub open spec fn is_tagg(s: Seq<u8>, p: int) -> bool {
    p + 4 <= s.len() && s[p] == 0x47 && s[p + 1] == 0x47 && s[p + 2] == 0x41 && s[p + 3] == 0x54
}

/// Where the tagged sections that start at `p` end; past the end of the
/// input where a section's length runs beyond it.
pub open spec fn taggs_end(s: Seq<u8>, p: int) -> int
    decreases s.len() - p,
{
    if 0 <= p && is_tagg(s, p) && p + 12 <= s.len() {
        let next = p + 12 + u32_at(s, p + 8);
        if next > s.len() {
            next
        } else {
            taggs_end(s, next)
        }
    } else {
        p
    }
}

/// The 24-bit little-endian length at `p`.
pub open spec fn u24_at(s: Seq<u8>, p: int) -> int {
    s[p] + s[p + 1] * 256 + s[p + 2] * 65536
}

/// The `k`th mipmap from `p`, or why there is none.
pub open spec fn mipmap_walk(s: Seq<u8>, p: int, k: nat) -> Result<MipmapView, DecodeError>
    decreases k,
{
    if p + 4 > s.len() {
        Err(DecodeError::TruncatedInput)
    } else if u16_at(s, p) == 0 && u16_at(s, p + 2) == 0 {
        Err(DecodeError::MipmapNotFound)
    } else if p + 7 > s.len() || p + 7 + u24_at(s, p + 4) > s.len() {
        Err(DecodeError::TruncatedInput)
    } else if k == 0 {
        Ok(
            MipmapView {
                width: u16_at(s, p),
                height: u16_at(s, p + 2),
                data: s.subrange(p + 7, p + 7 + u24_at(s, p + 4)),
            },
        )
    } else {
        mipmap_walk(s, p + 7 + u24_at(s, p + 4), (k - 1) as nat)
    }
}

/// The mipmap at `index` in the container `s`, or why there is none.
pub open spec fn mipmap_outcome(s: Seq<u8>, index: u32) -> Result<MipmapView, DecodeError> {
    if s.len() < 2 {
        Err(DecodeError::TruncatedInput)
    } else {
        let q = taggs_end(s, 2);
        if q + 2 > s.len() {
            Err(DecodeError::TruncatedInput)
        } else {
            mipmap_walk(s, q + 2 + 3 * u16_at(s, q), index as nat)
        }
    }
}

fn u16_le(buf: &Vec<u8>, p: usize) -> (r: u16)
    requires
        p + 2 <= buf.len(),
    ensures
        r == u16_at(buf@, p as int),
{
    (buf[p] as u16) | ((buf[p + 1] as u16) << 8u16)
}

/// Returns the mipmap at `index` of the texture container in `buf`.
pub fn get_mipmap_from_paa_vec(buf: &Vec<u8>, index: u32) -> (r: Result<MipmapCxx, DecodeError>)
    ensures
        match r {
            Ok(m) => mipmap_outcome(buf@, index) == Ok::<MipmapView, DecodeError>(m@),
            Err(e) => mipmap_outcome(buf@, index) == Err::<MipmapView, DecodeError>(e),
        },
{
    let ghost s = buf@;
    let len = buf.len();
    if len < 2 {
        return Err(DecodeError::TruncatedInput);
    }
    let mut p: usize = 2;
    while len >= 12 && p <= len - 12 && buf[p] == 0x47 && buf[p + 1] == 0x47 && buf[p + 2] == 0x41
        && buf[p + 3] == 0x54
        invariant
            2 <= p <= len,
            len == s.len(),
            buf@ == s,
            taggs_end(s, 2) == taggs_end(s, p as int),
        decreases len - p,
    {
        let l = (buf[p + 8] as u32) | ((buf[p + 9] as u32) << 8u32) | ((buf[p + 10] as u32)
            << 16u32) | ((buf[p + 11] as u32) << 24u32);
        if l as usize > len - p - 12 {
            return Err(DecodeError::TruncatedInput);
        }
        p = p + 12 + l as usize;
    }
    assert(taggs_end(s, p as int) == p);
    if len - p < 2 {
        return Err(DecodeError::TruncatedInput);
    }
    let count = u16_le(buf, p) as usize;
    if 3 * count > len - p - 2 {
        return Err(DecodeError::TruncatedInput);
    }
    let mut q: usize = p + 2 + 3 * count;
    let mut k: u32 = index;
    loop
        invariant
            q <= len,
            len == s.len(),
            buf@ == s,
            mipmap_outcome(s, index) == mipmap_walk(s, q as int, k as nat),
        decreases k,
    {
        if len - q < 4 {
            return Err(DecodeError::TruncatedInput);
        }
        let width = u16_le(buf, q);
        let height = u16_le(buf, q + 2);
        if width == 0 && height == 0 {
            return Err(DecodeError::MipmapNotFound);
        }
        if len - q < 7 {
            return Err(DecodeError::TruncatedInput);
        }
        let size = buf[q + 4] as usize + buf[q + 5] as usize * 256 + buf[q + 6] as usize * 65536;
        if size > len - q - 7 {
            return Err(DecodeError::TruncatedInput);
        }
        if k == 0 {
            let mut data: Vec<u8> = Vec::new();
            let mut j: usize = q + 7;
            while j < q + 7 + size
                invariant
                    q + 7 <= j <= q + 7 + size <= len,
                    len == s.len(),
                    buf@ == s,
                    data@ == s.subrange(q + 7, j as int),
                decreases q + 7 + size - j,
            {
                data.push(buf[j]);
                j = j + 1;
                assert(data@ =~= s.subrange(q + 7, j as int));
            }
            return Ok(MipmapCxx { width, height, data });
        }
        q = q + 7 + size;
        k = k - 1;
    }
}

} // verus!

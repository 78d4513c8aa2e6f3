//! The lazy reader: it holds the input and its decoded header, and decodes
//! the body of a level of detail when one is requested by resolution. Each
//! request seeks once to the recorded start, decodes forward, and checks that
//! it ended exactly at the recorded end.
use vstd::prelude::*;

use crate::body::{lod_spec, read_lod_body, LodCxx, LodView};
use crate::codec::Cursor;
use crate::enums::ResolutionEnumCxx;
use crate::error::DecodeError;
use crate::model::ResolutionCxx;
use crate::odol::{header_outcome, parse_header, ODOLCxx, OdolView};

verus! {

/// `i` is the first level of detail whose resolution has the tier `res`.
pub open spec fn is_first_tag(rs: Seq<ResolutionCxx>, res: ResolutionEnumCxx, i: int) -> bool {
    &&& 0 <= i < rs.len()
    &&& rs[i].res == res
    &&& forall|j: int| 0 <= j < i ==> #[trigger] rs[j].res != res
}

/// `i` is the first level of detail whose resolution has exactly the value
/// with bit pattern `value`.
pub open spec fn is_first_value(rs: Seq<ResolutionCxx>, value: u32, i: int) -> bool {
    &&& 0 <= i < rs.len()
    &&& rs[i].value == value
    &&& forall|j: int| 0 <= j < i ==> #[trigger] rs[j].value != value
}

/// What decoding the `i`th level of detail gives: the body decoded from its
/// start address, which must end exactly at its end address. A body that
/// runs past its end address is a length mismatch, unless that address is
/// the end of the input, where the input itself ran out.
pub open spec fn lod_at_outcome(s: Seq<u8>, o: OdolView, i: int) -> Result<LodView, DecodeError> {
    let start = o.starts[i] as int;
    let end = o.ends[i] as int;
    let b = lod_spec(s, start, o.version);
    if start + b.1 > end {
        if end == s.len() {
            Err(DecodeError::TruncatedInput)
        } else {
            Err(DecodeError::BodyLengthMismatch)
        }
    } else if start + b.1 < end {
        Err(DecodeError::BodyLengthMismatch)
    } else {
        Ok(b.0)
    }
}

/// The first level of detail of tier `res`, where there is one.
pub open spec fn tag_index(o: OdolView, res: ResolutionEnumCxx) -> int {
    choose|i: int| is_first_tag(o.resolutions, res, i)
}

/// The first level of detail whose value has the bit pattern `value`, where
/// there is one.
pub open spec fn value_index(o: OdolView, value: u32) -> int {
    choose|i: int| is_first_value(o.resolutions, value, i)
}

/// What a request by tier gives: the first level of detail of that tier, or
/// `ResolutionNotFound`.
pub open spec fn tag_outcome(s: Seq<u8>, o: OdolView, res: ResolutionEnumCxx) -> Result<
    LodView,
    DecodeError,
> {
    if exists|i: int| is_first_tag(o.resolutions, res, i) {
        lod_at_outcome(s, o, tag_index(o, res))
    } else {
        Err(DecodeError::ResolutionNotFound)
    }
}

/// What a request by numeric resolution gives: the first level of detail
/// with exactly that value, else the first of the tier that value resolves
/// to, else `ResolutionNotFound`.
pub open spec fn value_outcome(s: Seq<u8>, o: OdolView, value: u32) -> Result<
    LodView,
    DecodeError,
> {
    if exists|i: int| is_first_value(o.resolutions, value, i) {
        lod_at_outcome(s, o, value_index(o, value))
    } else {
        tag_outcome(s, o, ResolutionEnumCxx::spec_from_bits(value))
    }
}

/// `r` is the result that the outcome `o` describes.
pub open spec fn outcome_matches(r: Result<LodCxx, DecodeError>, o: Result<LodView, DecodeError>) -> bool {
    match r {
        Ok(b) => o == Ok::<LodView, DecodeError>(b@),
        Err(e) => o == Err::<LodView, DecodeError>(e),
    }
}

impl ODOLCxx {
    /// The index of the first level of detail of tier `res`.
    pub fn find_lod(&self, res: ResolutionEnumCxx) -> (r: Option<usize>)
        ensures
            match r {
                Some(i) => is_first_tag(self.resolutions@, res, i as int),
                None => forall|j: int|
                    0 <= j < self.resolutions@.len() ==> #[trigger] self.resolutions@[j].res != res,
            },
    {
        let mut i: usize = 0;
        while i < self.resolutions.len()
            invariant
                i <= self.resolutions@.len(),
                forall|j: int| 0 <= j < i ==> #[trigger] self.resolutions@[j].res != res,
            decreases self.resolutions@.len() - i,
        {
            if self.resolutions[i].res == res {
                return Some(i);
            }
            i = i + 1;
        }
        None
    }

    /// The index of the first level of detail whose resolution value has
    /// the bit pattern `value`.
    pub fn find_lod_value(&self, value: u32) -> (r: Option<usize>)
        ensures
            match r {
                Some(i) => is_first_value(self.resolutions@, value, i as int),
                None => forall|j: int|
                    0 <= j < self.resolutions@.len() ==> #[trigger] self.resolutions@[j].value
                        != value,
            },
    {
        let mut i: usize = 0;
        while i < self.resolutions.len()
            invariant
                i <= self.resolutions@.len(),
                forall|j: int| 0 <= j < i ==> #[trigger] self.resolutions@[j].value != value,
            decreases self.resolutions@.len() - i,
        {
            if self.resolutions[i].value == value {
                return Some(i);
            }
            i = i + 1;
        }
        None
    }
}

/// The first index of a tier is unique.
pub proof fn lemma_first_tag_unique(rs: Seq<ResolutionCxx>, res: ResolutionEnumCxx, i: int, k: int)
    requires
        is_first_tag(rs, res, i),
        is_first_tag(rs, res, k),
    ensures
        i == k,
{
    if i < k {
        assert(rs[i].res != res);
    } else if k < i {
        assert(rs[k].res != res);
    }
}

/// The first index of a value is unique.
pub proof fn lemma_first_value_unique(rs: Seq<ResolutionCxx>, value: u32, i: int, k: int)
    requires
        is_first_value(rs, value, i),
        is_first_value(rs, value, k),
    ensures
        i == k,
{
    if i < k {
        assert(rs[i].value != value);
    } else if k < i {
        assert(rs[k].value != value);
    }
}

/// The input of one model and its decoded header; the bodies of its levels
/// of detail are decoded on request.
pub struct OdolLazyReaderCxx<'a> {
    reader: &'a Vec<u8>,
    pos: usize,
    odol: ODOLCxx,
}

impl<'a> OdolLazyReaderCxx<'a> {
    /// The input that the reader decodes.
    pub closed spec fn bytes(&self) -> Seq<u8> {
        self.reader@
    }

    /// The header decoded from the input.
    pub closed spec fn header(&self) -> OdolView {
        self.odol@
    }

    /// Where the last decode ended.
    pub closed spec fn position(&self) -> nat {
        self.pos as nat
    }

    /// The header is the one decoded from the input, and the position lies
    /// within the input.
    pub open spec fn wf(&self) -> bool {
        &&& self.header().wf(self.bytes().len())
        &&& self.position() <= self.bytes().len()
    }

    /// The state that decides every request: the input and the header.
    pub open spec fn unchanged(&self, other: &OdolLazyReaderCxx) -> bool {
        &&& other.bytes() == self.bytes()
        &&& other.header() == self.header()
        &&& other.wf()
    }

    #[verifier::rlimit(60)]
    fn decode_at(&mut self, i: usize) -> (r: Result<LodCxx, DecodeError>)
        requires
            old(self).wf(),
            i < old(self).header().lod_count,
        ensures
            old(self).unchanged(final(self)),
            outcome_matches(r, lod_at_outcome(old(self).bytes(), old(self).header(), i as int)),
            r is Ok ==> final(self).position() == old(self).header().ends[i as int],
    {
        let start = self.odol.start_address_of_lods[i] as usize;
        let end = self.odol.end_address_of_lods[i] as usize;
        let mut c = Cursor::new(self.reader, start, end);
        match read_lod_body(&mut c, self.odol.version) {
            Ok(body) => {
                self.pos = c.pos;
                if c.pos == end {
                    Ok(body)
                } else {
                    Err(DecodeError::BodyLengthMismatch)
                }
            },
            Err(e) => {
                if end == self.reader.len() {
                    Err(e)
                } else {
                    Err(DecodeError::BodyLengthMismatch)
                }
            },
        }
    }

    /// Decodes the first level of detail of tier `resolution`.
    pub fn read_lod(&mut self, resolution: ResolutionEnumCxx) -> (r: Result<LodCxx, DecodeError>)
        requires
            old(self).wf(),
        ensures
            old(self).unchanged(final(self)),
            outcome_matches(r, tag_outcome(old(self).bytes(), old(self).header(), resolution)),
            r is Ok ==> final(self).position() == old(self).header().ends[tag_index(
                old(self).header(),
                resolution,
            )],
    {
        match self.odol.find_lod(resolution) {
            Some(i) => {
                proof {
                    let o = self.odol@;
                    assert forall|k: int| is_first_tag(o.resolutions, resolution, k) implies k
                        == i by {
                        lemma_first_tag_unique(o.resolutions, resolution, i as int, k);
                    }
                }
                self.decode_at(i)
            },
            None => Err(DecodeError::ResolutionNotFound),
        }
    }

    /// Decodes the first level of detail whose resolution value has the bit
    /// pattern `value`; where there is none, the first of the tier that the
    /// value resolves to.
    pub fn read_lod_value(&mut self, value: u32) -> (r: Result<LodCxx, DecodeError>)
        requires
            old(self).wf(),
        ensures
            old(self).unchanged(final(self)),
            outcome_matches(r, value_outcome(old(self).bytes(), old(self).header(), value)),
            r is Ok ==> final(self).position() == old(self).header().ends[if exists|i: int|
                is_first_value(old(self).header().resolutions, value, i) {
                value_index(old(self).header(), value)
            } else {
                tag_index(old(self).header(), ResolutionEnumCxx::spec_from_bits(value))
            }],
    {
        match self.odol.find_lod_value(value) {
            Some(i) => {
                proof {
                    let o = self.odol@;
                    assert forall|k: int| is_first_value(o.resolutions, value, k) implies k
                        == i by {
                        lemma_first_value_unique(o.resolutions, value, i as int, k);
                    }
                }
                self.decode_at(i)
            },
            None => self.read_lod(ResolutionEnumCxx::from_bits(value)),
        }
    }

    /// The decoded header.
    pub fn get_odol(&self) -> (r: &ODOLCxx)
        ensures
            r@ == self.header(),
    {
        &self.odol
    }

    /// Where the last decode ended.
    pub fn pos(&self) -> (r: usize)
        ensures
            r == self.position(),
    {
        self.pos
    }
}

/// Decodes the header of the model in `buf` and returns a reader that
/// decodes its levels of detail on request.
pub fn create_odol_lazy_reader_vec<'a>(buf: &'a Vec<u8>) -> (r: Result<
    OdolLazyReaderCxx<'a>,
    DecodeError,
>)
    ensures
        match r {
            Ok(rd) => rd.wf() && rd.bytes() == buf@ && header_outcome(buf@) == Ok::<
                OdolView,
                DecodeError,
            >(rd.header()),
            Err(e) => header_outcome(buf@) == Err::<OdolView, DecodeError>(e),
        },
{
    let odol = parse_header(buf)?;
    Ok(OdolLazyReaderCxx { reader: buf, pos: 0, odol })
}

} // verus!

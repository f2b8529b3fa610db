//! FastCGI record headers and the walk over the records of a payload.
use vstd::prelude::*;

use crate::bytes::{be16, read_u16_be};
use crate::Error;

verus! {

/// Length of the fixed part of every record.
pub const FCGI_RECORD_FIX_LEN: usize = 8;

pub const FCGI_BEGIN_REQUEST: u8 = 1;
pub const FCGI_ABORT_REQUEST: u8 = 2;
pub const FCGI_END_REQUEST: u8 = 3;
pub const FCGI_PARAMS: u8 = 4;
pub const FCGI_STDIN: u8 = 5;
pub const FCGI_STDOUT: u8 = 6;
pub const FCGI_STDERR: u8 = 7;
pub const FCGI_DATA: u8 = 8;
pub const FCGI_GET_VALUES: u8 = 9;
pub const FCGI_GET_VALUES_RESULT: u8 = 10;
pub const FCGI_UNKNOWN_TYPE: u8 = 11;
/// The largest record type that is accepted.
pub const FCGI_MAXTYPE: u8 = 11;

/// The fixed header of one record.
#[derive(Clone, Copy, Debug, PartialEq, Eq)]
pub struct FastCGIRecord {
    pub version: u8,
    pub record_type: u8,
    pub request_id: u16,
    pub content_len: u16,
    pub padding_len: u8,
}

/// The header at the start of `p`, if `p` holds one of a known type.
pub open spec fn spec_parse_record(p: Seq<u8>) -> Option<FastCGIRecord> {
    if p.len() < 8 || p[1] > FCGI_MAXTYPE {
        None
    } else {
        Some(
            FastCGIRecord {
                version: p[0],
                record_type: p[1],
                request_id: be16(p[2], p[3]),
                content_len: be16(p[4], p[5]),
                padding_len: p[6],
            },
        )
    }
}

/// Where the content of the record `r` at the start of `p` ends: clamped to `p`.
pub open spec fn content_end(p: Seq<u8>, r: FastCGIRecord) -> int {
    let end = 8 + r.content_len;
    if end > p.len() {
        p.len() as int
    } else {
        end
    }
}

/// The full length of the record `r`, padding included (not clamped).
pub open spec fn record_len(r: FastCGIRecord) -> int {
    8 + r.content_len + r.padding_len
}

/// What is left of `p` after the record `r` at its start: empty when the
/// record runs past the end.
pub open spec fn after_record(p: Seq<u8>, r: FastCGIRecord) -> Seq<u8> {
    if record_len(r) > p.len() {
        Seq::empty()
    } else {
        p.subrange(record_len(r), p.len() as int)
    }
}

/// The records of `p`, each with its content and its offset, the first one
/// standing at offset `off`. The walk ends at the first header that does not
/// decode; a record that runs past the end has its content clamped and is the last.
pub open spec fn spec_frames(p: Seq<u8>, off: usize) -> Seq<(FastCGIRecord, Seq<u8>, usize)>
    decreases p.len(),
{
    match spec_parse_record(p) {
        None => Seq::empty(),
        Some(r) => seq![(r, p.subrange(8, content_end(p, r)), off)] + spec_frames(
            after_record(p, r),
            (off + record_len(r)) as usize,
        ),
    }
}

/// Record `i` of the walk `fs` from offset `base` over `p` lies inside `p`:
/// its content is the bytes after its header, clamped to the end of `p`, and
/// a record whose content runs past the end is the last one.
pub open spec fn frame_fits(
    p: Seq<u8>,
    base: usize,
    fs: Seq<(FastCGIRecord, Seq<u8>, usize)>,
    i: int,
) -> bool {
    let (r, c, off) = fs[i];
    let k = off - base;
    &&& base <= off
    &&& k + 8 + c.len() <= p.len()
    &&& c == p.subrange(k + 8, k + 8 + c.len())
    &&& c.len() <= r.content_len
    &&& (c.len() == r.content_len || k + 8 + c.len() == p.len())
    &&& (k + 8 + r.content_len > p.len() ==> i == fs.len() - 1)
}

proof fn lemma_frames_from_fit(p: Seq<u8>, base: usize)
    requires
        base + p.len() <= usize::MAX,
    ensures
        spec_frames(p, base).len() * 8 <= p.len(),
        forall|i: int|
            0 <= i < spec_frames(p, base).len() ==> #[trigger] frame_fits(
                p,
                base,
                spec_frames(p, base),
                i,
            ),
    decreases p.len(),
{
    let fs = spec_frames(p, base);
    match spec_parse_record(p) {
        None => {},
        Some(r) => {
            let rest = after_record(p, r);
            let nb = (base + record_len(r)) as usize;
            let rs = spec_frames(rest, nb);
            assert(fs == seq![(r, p.subrange(8, content_end(p, r)), base)] + rs);
            if record_len(r) > p.len() {
                assert(rest.len() == 0);
                assert(spec_parse_record(rest) is None);
                assert(rs.len() == 0);
            } else {
                assert(nb == base + record_len(r));
                lemma_frames_from_fit(rest, nb);
            }
            assert forall|i: int| 0 <= i < fs.len() implies #[trigger] frame_fits(
                p,
                base,
                fs,
                i,
            ) by {
                if i > 0 {
                    assert(fs[i] == rs[i - 1]);
                    assert(frame_fits(rest, nb, rs, i - 1));
                    let (_, c, off) = rs[i - 1];
                    let k = off - nb;
                    assert(rest.subrange(k + 8, k + 8 + c.len()) == p.subrange(
                        k + record_len(r) + 8,
                        k + record_len(r) + 8 + c.len(),
                    ));
                }
            }
        },
    }
}

/// A walk over the records of `p` reads nothing past its end: every record's
/// content is the bytes after its header, clamped to the end of `p`; a record
/// whose content runs past the end is the last; and there are at most
/// `p.len() / 8` records.
pub proof fn lemma_walk_in_bounds(p: Seq<u8>)
    requires
        p.len() <= usize::MAX,
    ensures
        spec_frames(p, 0).len() * 8 <= p.len(),
        forall|i: int|
            0 <= i < spec_frames(p, 0).len() ==> #[trigger] frame_fits(
                p,
                0,
                spec_frames(p, 0),
                i,
            ),
{
    lemma_frames_from_fit(p, 0);
}

impl FastCGIRecord {
    /// Decodes the header at the start of `payload`. Fails when fewer than
    /// eight bytes are given or the type is beyond the known ones.
    pub fn parse(payload: &[u8]) -> (r: Result<FastCGIRecord, Error>)
        ensures
            match r {
                Ok(rec) => spec_parse_record(payload@) == Some(rec),
                Err(e) => spec_parse_record(payload@) is None && e == Error::L7ProtocolUnknown,
            },
            payload@.len() < 8 ==> r is Err,
    {
        if payload.len() < FCGI_RECORD_FIX_LEN {
            return Err(Error::L7ProtocolUnknown);
        }
        let r = FastCGIRecord {
            version: payload[0],
            record_type: payload[1],
            request_id: read_u16_be(vstd::slice::slice_subrange(payload, 2, payload.len())),
            content_len: read_u16_be(vstd::slice::slice_subrange(payload, 4, payload.len())),
            padding_len: payload[6],
        };
        if r.record_type > FCGI_MAXTYPE {
            return Err(Error::L7ProtocolUnknown);
        }
        Ok(r)
    }
}

/// A walk over the records of a payload, from its start.
pub struct RecordIter<'a> {
    p: &'a [u8],
    accumulate_off: usize,
}

impl<'a> RecordIter<'a> {
    /// The records that the walk has still to give.
    pub closed spec fn remaining(&self) -> Seq<(FastCGIRecord, Seq<u8>, usize)> {
        spec_frames(self.p@, self.accumulate_off)
    }

    pub closed spec fn wf(&self) -> bool {
        self.accumulate_off + self.p@.len() <= usize::MAX
    }

    /// Starts a walk over the records of `p`.
    pub fn new(p: &'a [u8]) -> (r: Self)
        ensures
            r.wf(),
            r.remaining() == spec_frames(p@, 0),
    {
        // a slice's length is a usize, so the walk's offsets fit in one
        let len: usize = p.len();
        assert(len == p@.len());
        Self { p: p, accumulate_off: 0 }
    }

    /// The next record, its content and its offset in the payload. The
    /// content is clamped to the bytes that are there.
    pub fn next(&mut self) -> (r: Option<(FastCGIRecord, &'a [u8], usize)>)
        requires
            old(self).wf(),
        ensures
            final(self).wf(),
            match r {
                Some((rec, content, off)) => {
                    &&& old(self).remaining().len() > 0
                    &&& old(self).remaining()[0] == (rec, content@, off)
                    &&& final(self).remaining() == old(self).remaining().drop_first()
                },
                None => old(self).remaining().len() == 0 && final(self).remaining().len() == 0,
            },
            final(self).remaining().len() <= old(self).remaining().len(),
    {
        let off = self.accumulate_off;
        let r = match FastCGIRecord::parse(self.p) {
            Ok(r) => r,
            Err(_) => {
                return None;
            },
        };
        let content_end = FCGI_RECORD_FIX_LEN + r.content_len as usize;
        let content = if content_end > self.p.len() {
            vstd::slice::slice_subrange(self.p, FCGI_RECORD_FIX_LEN, self.p.len())
        } else {
            vstd::slice::slice_subrange(self.p, FCGI_RECORD_FIX_LEN, content_end)
        };
        let record_end = content_end + r.padding_len as usize;
        let ghost old_p = self.p@;
        if record_end > self.p.len() {
            self.accumulate_off = self.accumulate_off + self.p.len();
            self.p = vstd::slice::slice_subrange(self.p, self.p.len(), self.p.len());
            assert(self.p@ == Seq::<u8>::empty());
        } else {
            self.p = vstd::slice::slice_subrange(self.p, record_end, self.p.len());
            self.accumulate_off = self.accumulate_off + record_end;
        }
        assert(self.p@ == after_record(old_p, r));
        assert(spec_frames(self.p@, self.accumulate_off) == spec_frames(
            after_record(old_p, r),
            (off + record_len(r)) as usize,
        ));
        Some((r, content, off))
    }
}

} // verus!

//! The length-prefixed name/value encoding of FastCGI parameters.
use vstd::prelude::*;

use vstd::string::StringSliceAdditionalSpecFns;

use crate::bytes::bytes_eq;
use crate::Error;

verus! {

/// The 31-bit big-endian length held in four bytes, the top bit of the
/// first one left out.
pub open spec fn len31(b0: u8, b1: u8, b2: u8, b3: u8) -> int {
    (b0 & 0x7f) as int * 0x1000000 + b1 as int * 0x10000 + b2 as int * 0x100 + b3 as int
}

/// One length at the start of `p`: the bytes it takes and its value. A first
/// byte whose top bit is clear is the length itself (one byte); otherwise the
/// length takes four bytes.
pub open spec fn var_len(p: Seq<u8>) -> Option<(int, int)> {
    if p.len() == 0 {
        None
    } else if p[0] < 0x80 {
        Some((1, p[0] as int))
    } else if p.len() < 4 {
        None
    } else {
        Some((4, len31(p[0], p[1], p[2], p[3])))
    }
}

/// The name length and the value length at the start of `p`, with the number
/// of bytes both take.
pub open spec fn kv_len(p: Seq<u8>) -> Option<(int, int, int)> {
    if p.len() < 2 {
        None
    } else {
        match var_len(p) {
            None => None,
            Some((koff, klen)) => match var_len(p.subrange(koff, p.len() as int)) {
                None => None,
                Some((voff, vlen)) => Some((koff + voff, klen, vlen)),
            },
        }
    }
}

/// What follows a pair's lengths when the name and the value are all there:
/// the name, the value, and the rest of `p`.
pub open spec fn kv_pair(p: Seq<u8>) -> Option<(Seq<u8>, Seq<u8>, Seq<u8>)> {
    if p.len() <= 2 {
        None
    } else {
        match kv_len(p) {
            None => None,
            Some((off, klen, vlen)) => {
                let q = p.subrange(off, p.len() as int);
                if q.len() < klen + vlen {
                    None
                } else {
                    Some(
                        (
                            q.subrange(0, klen),
                            q.subrange(klen, klen + vlen),
                            q.subrange(klen + vlen, q.len() as int),
                        ),
                    )
                }
            },
        }
    }
}

/// The name/value pairs of a parameter stream, in order, up to the first one
/// that is cut short or badly encoded.
pub open spec fn spec_params(p: Seq<u8>) -> Seq<(Seq<u8>, Seq<u8>)>
    decreases p.len(),
{
    match kv_pair(p) {
        None => Seq::empty(),
        Some((k, v, rest)) => {
            if rest.len() < p.len() {
                seq![(k, v)] + spec_params(rest)
            } else {
                Seq::empty()
            }
        },
    }
}

/// The value of the first pair named `key`, provided that every pair before it
/// and the pair itself are whole.
pub open spec fn spec_param_val(p: Seq<u8>, key: Seq<u8>) -> Option<Seq<u8>>
    decreases p.len(),
{
    match kv_pair(p) {
        None => None,
        Some((k, v, rest)) => {
            if k == key {
                Some(v)
            } else if rest.len() < p.len() {
                spec_param_val(rest, key)
            } else {
                None
            }
        },
    }
}

proof fn lemma_kv_pair_shrinks(p: Seq<u8>)
    requires
        kv_pair(p) is Some,
    ensures
        ({
            let (_, _, rest) = kv_pair(p)->0;
            rest.len() < p.len()
        }),
{
}

fn read_len_at(p: &[u8], at: usize) -> (r: Option<(usize, usize)>)
    requires
        at <= p@.len(),
    ensures
        match r {
            Some((off, len)) => var_len(p@.subrange(at as int, p@.len() as int)) == Some(
                (off as int, len as int),
            ),
            None => var_len(p@.subrange(at as int, p@.len() as int)) is None,
        },
        r matches Some((off, len)) ==> (off == 1 || off == 4) && off <= p@.len() - at && len
            < 0x80000000,
{
    let ghost q = p@.subrange(at as int, p@.len() as int);
    if at >= p.len() {
        return None;
    }
    let b0 = p[at];
    if b0 >> 7 == 0 {
        assert(b0 < 0x80) by (bit_vector)
            requires
                b0 >> 7 == 0,
        ;
        return Some((1, b0 as usize));
    }
    assert(b0 >= 0x80) by (bit_vector)
        requires
            b0 >> 7 != 0,
    ;
    if p.len() - at < 4 {
        return None;
    }
    let hi = b0 & 0x7f;
    assert(hi <= 0x7f) by (bit_vector)
        requires
            hi == b0 & 0x7f,
    ;
    assert(hi == (q[0] & 0x7f));
    let len = (hi as usize) * 0x1000000 + (p[at + 1] as usize) * 0x10000 + (p[at + 2] as usize)
        * 0x100 + p[at + 3] as usize;
    assert(q[0] == b0 && q[1] == p@[at + 1] && q[2] == p@[at + 2] && q[3] == p@[at + 3]);
    Some((4, len))
}

/// Reads the name length and the value length at the start of a parameter
/// pair: `(bytes taken, name length, value length)`.
pub fn read_param_kv_len(param_payload: &[u8]) -> (r: Result<(usize, usize, usize), Error>)
    ensures
        match r {
            Ok((off, klen, vlen)) => kv_len(param_payload@) == Some(
                (off as int, klen as int, vlen as int),
            ),
            Err(e) => kv_len(param_payload@) is None && e == Error::L7ProtocolUnknown,
        },
        r matches Ok((off, klen, vlen)) ==> {
            &&& 2 <= off <= 8
            &&& off <= param_payload@.len()
            &&& klen < 0x80000000
            &&& vlen < 0x80000000
            // a first byte with its top bit clear is the name length, in one byte
            &&& param_payload@[0] < 0x80 ==> klen == param_payload@[0]
            // otherwise the name length is the 31-bit value of four bytes
            &&& param_payload@[0] >= 0x80 ==> klen == len31(
                param_payload@[0],
                param_payload@[1],
                param_payload@[2],
                param_payload@[3],
            )
        },
{
    let p = param_payload;
    if p.len() < 2 {
        return Err(Error::L7ProtocolUnknown);
    }
    assert(p@.subrange(0, p@.len() as int) == p@);
    let (koff, klen) = match read_len_at(p, 0) {
        Some(x) => x,
        None => {
            return Err(Error::L7ProtocolUnknown);
        },
    };
    let (voff, vlen) = match read_len_at(p, koff) {
        Some(x) => x,
        None => {
            return Err(Error::L7ProtocolUnknown);
        },
    };
    Ok((koff + voff, klen, vlen))
}

/// The value of the first parameter named `key` in a parameter stream. Fails
/// when there is none, or a pair before it is cut short or badly encoded.
pub fn get_param_val<'a>(param_payload: &'a [u8], key: &str) -> (r: Result<&'a [u8], Error>)
    ensures
        match r {
            Ok(v) => spec_param_val(param_payload@, key.spec_bytes()) == Some(v@),
            Err(e) => spec_param_val(param_payload@, key.spec_bytes()) is None && e
                == Error::L7ProtocolUnknown,
        },
{
    let key_bytes = key.as_bytes();
    let mut p = param_payload;
    while p.len() > 2
        invariant
            key_bytes@ == key.spec_bytes(),
            spec_param_val(param_payload@, key.spec_bytes()) == spec_param_val(p@, key.spec_bytes()),
        ensures
            spec_param_val(p@, key.spec_bytes()) is None,
        decreases p@.len(),
    {
        let (off, key_len, val_len) = match read_param_kv_len(p) {
            Ok(x) => x,
            Err(_) => {
                break ;
            },
        };
        let ghost whole = p@;
        p = vstd::slice::slice_subrange(p, off, p.len());
        if p.len() < key_len + val_len {
            return Err(Error::L7ProtocolUnknown);
        }
        let k = vstd::slice::slice_subrange(p, 0, key_len);
        let val = vstd::slice::slice_subrange(p, key_len, key_len + val_len);
        assert(kv_pair(whole) == Some(
            (k@, val@, p@.subrange(key_len + val_len, p@.len() as int)),
        ));
        if bytes_eq(k, key_bytes) {
            assert(spec_param_val(whole, key.spec_bytes()) == Some(val@));
            return Ok(val);
        }
        p = vstd::slice::slice_subrange(p, key_len + val_len, p.len());
        proof {
            lemma_kv_pair_shrinks(whole);
        }
    }
    Err(Error::L7ProtocolUnknown)
}

} // verus!

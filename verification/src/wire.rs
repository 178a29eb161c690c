//! Little-endian wire primitives shared by every message codec: fixed-width
//! integers, tag bytes, and length-prefixed byte strings and UTF-8 strings.
//!
//! Each primitive comes in three parts: a spec-level encoder (`se_*`), a
//! spec-level decoder over a remaining-input sequence (`sd_*`), and exec
//! functions (`push_*` / `read_*`) proved to compute exactly those. The
//! `lemma_sd_*` lemmas state that each decoder inverts its encoder, which the
//! message-level round-trip proofs chain together.

use vstd::prelude::*;
use vstd::utf8::{decode_utf8, encode_utf8, valid_utf8};
use vstd::string::StrSliceExecFns;

verus! {

/// Decoding a truncated or corrupt buffer fails with this error.
#[derive(Debug, Clone, Copy, PartialEq, Eq, Structural)]
pub struct CodecError;

/// A character sequence whose UTF-8 encoding fits behind a 64-bit length
/// prefix. Every string held in an executable `String` satisfies this.
pub open spec fn wf_str(cs: Seq<char>) -> bool {
    encode_utf8(cs).len() <= u64::MAX
}

pub open spec fn se_u64(v: u64) -> Seq<u8> {
    seq![
        v as u8,
        (v >> 8) as u8,
        (v >> 16) as u8,
        (v >> 24) as u8,
        (v >> 32) as u8,
        (v >> 40) as u8,
        (v >> 48) as u8,
        (v >> 56) as u8,
    ]
}

/// The value of an 8-byte little-endian group.
pub open spec fn le_u64(b: Seq<u8>) -> u64
    recommends
        b.len() == 8,
{
    (b[0] as u64) | ((b[1] as u64) << 8) | ((b[2] as u64) << 16) | ((b[3] as u64) << 24)
        | ((b[4] as u64) << 32) | ((b[5] as u64) << 40) | ((b[6] as u64) << 48) | ((b[7]
        as u64) << 56)
}

pub open spec fn sd_u8(b: Seq<u8>) -> Option<(u8, Seq<u8>)> {
    if b.len() >= 1 {
        Some((b[0], b.skip(1)))
    } else {
        None
    }
}

pub open spec fn sd_u64(b: Seq<u8>) -> Option<(u64, Seq<u8>)> {
    if b.len() >= 8 {
        Some((le_u64(b.take(8)), b.skip(8)))
    } else {
        None
    }
}

pub open spec fn se_usize(v: usize) -> Seq<u8> {
    se_u64(v as u64)
}

pub open spec fn sd_usize(b: Seq<u8>) -> Option<(usize, Seq<u8>)> {
    match sd_u64(b) {
        Some((v, r)) => if v <= usize::MAX {
            Some((v as usize, r))
        } else {
            None
        },
        None => None,
    }
}

pub open spec fn se_bool(v: bool) -> Seq<u8> {
    seq![if v { 1u8 } else { 0u8 }]
}

pub open spec fn sd_bool(b: Seq<u8>) -> Option<(bool, Seq<u8>)> {
    match sd_u8(b) {
        Some((t, r)) => if t == 0 {
            Some((false, r))
        } else if t == 1 {
            Some((true, r))
        } else {
            None
        },
        None => None,
    }
}

pub open spec fn se_bytes(s: Seq<u8>) -> Seq<u8>
    recommends
        s.len() <= u64::MAX,
{
    se_u64(s.len() as u64) + s
}

pub open spec fn sd_bytes(b: Seq<u8>) -> Option<(Seq<u8>, Seq<u8>)> {
    match sd_u64(b) {
        Some((n, r)) => if n <= r.len() {
            Some((r.take(n as int), r.skip(n as int)))
        } else {
            None
        },
        None => None,
    }
}

pub open spec fn se_string(cs: Seq<char>) -> Seq<u8>
    recommends
        wf_str(cs),
{
    se_bytes(encode_utf8(cs))
}

pub open spec fn sd_string(b: Seq<u8>) -> Option<(Seq<char>, Seq<u8>)> {
    match sd_bytes(b) {
        Some((s, r)) => if valid_utf8(s) {
            Some((decode_utf8(s), r))
        } else {
            None
        },
        None => None,
    }
}

pub open spec fn se_opt_string(os: Option<Seq<char>>) -> Seq<u8>
    recommends
        os matches Some(cs) ==> wf_str(cs),
{
    match os {
        None => seq![0u8],
        Some(cs) => seq![1u8] + se_string(cs),
    }
}

pub open spec fn sd_opt_string(b: Seq<u8>) -> Option<(Option<Seq<char>>, Seq<u8>)> {
    match sd_u8(b) {
        Some((t, r)) => if t == 0 {
            Some((None, r))
        } else if t == 1 {
            match sd_string(r) {
                Some((cs, r2)) => Some((Some(cs), r2)),
                None => None,
            }
        } else {
            None
        },
        None => None,
    }
}

proof fn lemma_le_u64_round_trip(v: u64)
    ensures
        le_u64(se_u64(v)) == v,
{
    assert((v as u8 as u64) | ((v >> 8) as u8 as u64) << 8 | ((v >> 16) as u8 as u64) << 16 | ((v
        >> 24) as u8 as u64) << 24 | ((v >> 32) as u8 as u64) << 32 | ((v >> 40) as u8 as u64)
        << 40 | ((v >> 48) as u8 as u64) << 48 | ((v >> 56) as u8 as u64) << 56 == v)
        by (bit_vector);
}

pub proof fn lemma_sd_u8(t: u8, rest: Seq<u8>)
    ensures
        sd_u8(seq![t] + rest) == Some((t, rest)),
{
    assert((seq![t] + rest).skip(1) =~= rest);
}

pub proof fn lemma_sd_u64(v: u64, rest: Seq<u8>)
    ensures
        sd_u64(se_u64(v) + rest) == Some((v, rest)),
{
    let b = se_u64(v) + rest;
    assert(b.take(8) =~= se_u64(v));
    assert(b.skip(8) =~= rest);
    lemma_le_u64_round_trip(v);
}

pub proof fn lemma_sd_usize(v: usize, rest: Seq<u8>)
    ensures
        sd_usize(se_usize(v) + rest) == Some((v, rest)),
{
    lemma_sd_u64(v as u64, rest);
}

pub proof fn lemma_sd_bool(v: bool, rest: Seq<u8>)
    ensures
        sd_bool(se_bool(v) + rest) == Some((v, rest)),
{
    lemma_sd_u8(if v { 1u8 } else { 0u8 }, rest);
    assert(se_bool(v) + rest =~= seq![if v { 1u8 } else { 0u8 }] + rest);
}

pub proof fn lemma_sd_bytes(s: Seq<u8>, rest: Seq<u8>)
    requires
        s.len() <= u64::MAX,
    ensures
        sd_bytes(se_bytes(s) + rest) == Some((s, rest)),
{
    let b = se_bytes(s) + rest;
    assert(b =~= se_u64(s.len() as u64) + (s + rest));
    lemma_sd_u64(s.len() as u64, s + rest);
    assert((s + rest).take(s.len() as int) =~= s);
    assert((s + rest).skip(s.len() as int) =~= rest);
}

pub proof fn lemma_sd_string(cs: Seq<char>, rest: Seq<u8>)
    requires
        wf_str(cs),
    ensures
        sd_string(se_string(cs) + rest) == Some((cs, rest)),
{
    broadcast use vstd::utf8::encode_utf8_valid_utf8, vstd::utf8::encode_utf8_decode_utf8;

    lemma_sd_bytes(encode_utf8(cs), rest);
}

pub proof fn lemma_sd_opt_string(os: Option<Seq<char>>, rest: Seq<u8>)
    requires
        os matches Some(cs) ==> wf_str(cs),
    ensures
        sd_opt_string(se_opt_string(os) + rest) == Some((os, rest)),
{
    match os {
        None => {
            lemma_sd_u8(0u8, rest);
        },
        Some(cs) => {
            assert(se_opt_string(os) + rest =~= seq![1u8] + (se_string(cs) + rest));
            lemma_sd_u8(1u8, se_string(cs) + rest);
            lemma_sd_string(cs, rest);
        },
    }
}

/// Relies on `String::from_utf8`: it succeeds exactly on valid UTF-8 input
/// and returns the string whose characters are the input's UTF-8 decoding.
#[verifier::external_body]
fn vec_to_string(b: Vec<u8>) -> (r: Option<String>)
    ensures
        r is Some <==> valid_utf8(b@),
        r matches Some(s) ==> s@ == decode_utf8(b@),
{
    match String::from_utf8(b) {
        Ok(s) => Some(s),
        Err(_) => None,
    }
}

pub(crate) fn push_u8(out: &mut Vec<u8>, t: u8)
    ensures
        final(out)@ == old(out)@ + seq![t],
{
    out.push(t);
    proof {
        assert(out@ =~= old(out)@ + seq![t]);
    }
}

pub(crate) fn push_bool(out: &mut Vec<u8>, v: bool)
    ensures
        final(out)@ == old(out)@ + se_bool(v),
{
    push_u8(out, if v { 1 } else { 0 });
}

pub(crate) fn push_u64(out: &mut Vec<u8>, v: u64)
    ensures
        final(out)@ == old(out)@ + se_u64(v),
{
    out.push(#[verifier::truncate] (v as u8));
    out.push(#[verifier::truncate] ((v >> 8) as u8));
    out.push(#[verifier::truncate] ((v >> 16) as u8));
    out.push(#[verifier::truncate] ((v >> 24) as u8));
    out.push(#[verifier::truncate] ((v >> 32) as u8));
    out.push(#[verifier::truncate] ((v >> 40) as u8));
    out.push(#[verifier::truncate] ((v >> 48) as u8));
    out.push(#[verifier::truncate] ((v >> 56) as u8));
    proof {
        assert(out@ =~= old(out)@ + se_u64(v));
    }
}

pub(crate) fn push_usize(out: &mut Vec<u8>, v: usize)
    ensures
        final(out)@ == old(out)@ + se_usize(v),
{
    push_u64(out, v as u64);
}

pub(crate) fn push_bytes(out: &mut Vec<u8>, data: &Vec<u8>)
    ensures
        final(out)@ == old(out)@ + se_bytes(data@),
{
    push_u64(out, data.len() as u64);
    out.extend_from_slice(data.as_slice());
    proof {
        assert(out@ =~= old(out)@ + se_bytes(data@));
    }
}

pub(crate) fn push_string(out: &mut Vec<u8>, s: &String)
    ensures
        final(out)@ == old(out)@ + se_string(s@),
{
    let bytes = s.as_str().as_bytes_vec();
    push_bytes(out, &bytes);
}

pub(crate) fn push_opt_string(out: &mut Vec<u8>, os: &Option<String>)
    ensures
        final(out)@ == old(out)@ + se_opt_string(match *os {
            Some(ref s) => Some(s@),
            None => None,
        }),
{
    match os {
        None => {
            push_u8(out, 0);
        },
        Some(s) => {
            push_u8(out, 1);
            push_string(out, s);
            proof {
                assert(out@ =~= old(out)@ + (seq![1u8] + se_string(s@)));
            }
        },
    }
}

pub(crate) fn read_u8(b: &Vec<u8>, pos: usize) -> (r: Option<(u8, usize)>)
    requires
        pos <= b@.len(),
    ensures
        match r {
            Some(p) => pos < p.1 <= b@.len() && sd_u8(b@.skip(pos as int)) == Some(
                (p.0, b@.skip(p.1 as int)),
            ),
            None => sd_u8(b@.skip(pos as int)) is None,
        },
{
    if b.len() - pos >= 1 {
        let t = b[pos];
        proof {
            assert(b@.skip(pos as int)[0] == b@[pos as int]);
            assert(b@.skip(pos as int).skip(1) =~= b@.skip(pos as int + 1));
        }
        Some((t, pos + 1))
    } else {
        None
    }
}

pub(crate) fn read_bool(b: &Vec<u8>, pos: usize) -> (r: Option<(bool, usize)>)
    requires
        pos <= b@.len(),
    ensures
        match r {
            Some(p) => pos < p.1 <= b@.len() && sd_bool(b@.skip(pos as int)) == Some(
                (p.0, b@.skip(p.1 as int)),
            ),
            None => sd_bool(b@.skip(pos as int)) is None,
        },
{
    match read_u8(b, pos) {
        Some((t, p1)) => if t == 0 {
            Some((false, p1))
        } else if t == 1 {
            Some((true, p1))
        } else {
            None
        },
        None => None,
    }
}

pub(crate) fn read_u64(b: &Vec<u8>, pos: usize) -> (r: Option<(u64, usize)>)
    requires
        pos <= b@.len(),
    ensures
        match r {
            Some(p) => pos <= p.1 <= b@.len() && sd_u64(b@.skip(pos as int)) == Some(
                (p.0, b@.skip(p.1 as int)),
            ),
            None => sd_u64(b@.skip(pos as int)) is None,
        },
{
    if b.len() - pos >= 8 {
        let v = (b[pos] as u64) | ((b[pos + 1] as u64) << 8) | ((b[pos + 2] as u64) << 16) | ((b[pos
            + 3] as u64) << 24) | ((b[pos + 4] as u64) << 32) | ((b[pos + 5] as u64) << 40) | ((
        b[pos + 6] as u64) << 48) | ((b[pos + 7] as u64) << 56);
        proof {
            let rem = b@.skip(pos as int);
            assert(rem.take(8) =~= b@.subrange(pos as int, pos as int + 8));
            assert(le_u64(rem.take(8)) == v);
            assert(rem.skip(8) =~= b@.skip(pos as int + 8));
        }
        Some((v, pos + 8))
    } else {
        None
    }
}

pub(crate) fn read_usize(b: &Vec<u8>, pos: usize) -> (r: Option<(usize, usize)>)
    requires
        pos <= b@.len(),
    ensures
        match r {
            Some(p) => pos <= p.1 <= b@.len() && sd_usize(b@.skip(pos as int)) == Some(
                (p.0, b@.skip(p.1 as int)),
            ),
            None => sd_usize(b@.skip(pos as int)) is None,
        },
{
    match read_u64(b, pos) {
        Some((v, p1)) => if v <= usize::MAX as u64 {
            Some((v as usize, p1))
        } else {
            None
        },
        None => None,
    }
}

pub(crate) fn copy_range(b: &Vec<u8>, start: usize, end: usize) -> (r: Vec<u8>)
    requires
        start <= end <= b@.len(),
    ensures
        r@ == b@.subrange(start as int, end as int),
{
    let mut out: Vec<u8> = Vec::new();
    let mut i = start;
    while i < end
        invariant
            start <= i <= end <= b@.len(),
            out@ == b@.subrange(start as int, i as int),
        decreases end - i,
    {
        out.push(b[i]);
        i = i + 1;
        proof {
            assert(out@ =~= b@.subrange(start as int, i as int));
        }
    }
    out
}

pub(crate) fn read_bytes(b: &Vec<u8>, pos: usize) -> (r: Option<(Vec<u8>, usize)>)
    requires
        pos <= b@.len(),
    ensures
        match r {
            Some(p) => pos <= p.1 <= b@.len() && sd_bytes(b@.skip(pos as int)) == Some(
                (p.0@, b@.skip(p.1 as int)),
            ),
            None => sd_bytes(b@.skip(pos as int)) is None,
        },
{
    match read_u64(b, pos) {
        None => None,
        Some((n, p1)) => {
            if n <= (b.len() - p1) as u64 {
                let end = p1 + (n as usize);
                let data = copy_range(b, p1, end);
                proof {
                    let rem = b@.skip(p1 as int);
                    assert(rem.take(n as int) =~= b@.subrange(p1 as int, end as int));
                    assert(rem.skip(n as int) =~= b@.skip(end as int));
                }
                Some((data, end))
            } else {
                None
            }
        },
    }
}

pub(crate) fn read_string(b: &Vec<u8>, pos: usize) -> (r: Option<(String, usize)>)
    requires
        pos <= b@.len(),
    ensures
        match r {
            Some(p) => pos <= p.1 <= b@.len() && sd_string(b@.skip(pos as int)) == Some(
                (p.0@, b@.skip(p.1 as int)),
            ),
            None => sd_string(b@.skip(pos as int)) is None,
        },
{
    match read_bytes(b, pos) {
        None => None,
        Some((data, p1)) => {
            match vec_to_string(data) {
                Some(s) => Some((s, p1)),
                None => None,
            }
        },
    }
}

pub(crate) fn read_opt_string(b: &Vec<u8>, pos: usize) -> (r: Option<(Option<String>, usize)>)
    requires
        pos <= b@.len(),
    ensures
        match r {
            Some(p) => pos <= p.1 <= b@.len() && sd_opt_string(b@.skip(pos as int)) == Some(
                (
                    match p.0 {
                        Some(ref s) => Some(s@),
                        None => None,
                    },
                    b@.skip(p.1 as int),
                ),
            ),
            None => sd_opt_string(b@.skip(pos as int)) is None,
        },
{
    match read_u8(b, pos) {
        None => None,
        Some((t, p1)) => {
            if t == 0 {
                Some((None, p1))
            } else if t == 1 {
                match read_string(b, p1) {
                    Some((s, p2)) => Some((Some(s), p2)),
                    None => None,
                }
            } else {
                None
            }
        },
    }
}

} // verus!

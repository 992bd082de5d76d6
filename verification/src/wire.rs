//! Wire framing: decimal length rendering and the single header block every
//! response is written with.

use vstd::prelude::*;
use vstd::string::StringSliceAdditionalSpecFns;
use vstd::arithmetic::div_mod::lemma_fundamental_div_mod;

verus! {

/// A fully materialized response, ready to be framed for the wire.
pub struct RenderedResponse {
    pub status_line: Vec<u8>,
    pub content_type: Vec<u8>,
    pub body: Vec<u8>,
}

/// The decimal digits of `n`, most significant first, no leading zeros
/// (a lone `0` for zero).
pub open spec fn dec_of(n: nat) -> Seq<u8>
    decreases n,
{
    if n < 10 {
        seq![(48 + n) as u8]
    } else {
        dec_of(n / 10) + seq![(48 + n % 10) as u8]
    }
}

/// The number a sequence of decimal digit bytes denotes.
pub open spec fn dec_val(s: Seq<u8>) -> int
    decreases s.len(),
{
    if s.len() == 0 {
        0
    } else {
        dec_val(s.drop_last()) * 10 + s.last() - 48
    }
}

/// Rendering a number as decimal digits and reading the digits back returns
/// the number: the declared `Content-Length` is exact.
pub proof fn lemma_dec_round_trip(n: nat)
    ensures
        dec_val(dec_of(n)) == n,
    decreases n,
{
    if n < 10 {
        assert(dec_of(n).drop_last() =~= Seq::<u8>::empty());
        assert(dec_val(dec_of(n).drop_last()) == 0);
        assert(dec_of(n).last() == (48 + n) as u8);
    } else {
        lemma_dec_round_trip(n / 10);
        let d = (48 + n % 10) as u8;
        assert(dec_of(n).drop_last() =~= dec_of(n / 10));
        assert(dec_of(n).last() == d);
        assert(n % 10 < 10) by {
            vstd::arithmetic::div_mod::lemma_mod_bound(n as int, 10);
        }
        lemma_fundamental_div_mod(n as int, 10);
        assert(dec_val(dec_of(n)) == (n / 10) * 10 + n % 10);
    }
}

/// Renders `n` in decimal.
pub fn u64_to_dec(n: u64) -> (v: Vec<u8>)
    ensures
        v@ == dec_of(n as nat),
    decreases n,
{
    if n < 10 {
        let mut v: Vec<u8> = Vec::new();
        v.push(48 + n as u8);
        proof {
            assert(v@ =~= dec_of(n as nat));
        }
        v
    } else {
        let mut v = u64_to_dec(n / 10);
        v.push(48 + (n % 10) as u8);
        proof {
            assert(v@ =~= dec_of(n as nat));
        }
        v
    }
}

/// Appends every byte of `s` to `v`.
pub fn push_all(v: &mut Vec<u8>, s: &[u8])
    ensures
        final(v)@ == old(v)@ + s@,
{
    let n = s.len();
    let mut i: usize = 0;
    while i < n
        invariant
            i <= n,
            n == s@.len(),
            v@ == old(v)@ + s@.subrange(0, i as int),
        decreases n - i,
    {
        let b = s[i];
        v.push(b);
        proof {
            assert(old(v)@ + s@.subrange(0, i as int) + seq![s@[i as int]] =~= old(v)@
                + s@.subrange(0, i + 1));
        }
        i = i + 1;
    }
    proof {
        assert(old(v)@ + s@.subrange(0, n as int) =~= old(v)@ + s@);
    }
}

/// Carriage return, line feed: the header line terminator.
pub open spec fn crlf() -> Seq<u8> {
    seq![13u8, 10u8]
}

/// The header block of a response whose body is `n` bytes long.
pub open spec fn response_header(status: Seq<u8>, content_type: Seq<u8>, n: nat) -> Seq<u8> {
    status + crlf() + "Content-Type: ".spec_bytes() + content_type + crlf()
        + "Content-Length: ".spec_bytes() + dec_of(n) + crlf() + crlf()
}

/// A whole wire response: one header block, then the body, with
/// `Content-Length` set to the body's exact byte length.
pub open spec fn framed(status: Seq<u8>, content_type: Seq<u8>, body: Seq<u8>) -> Seq<u8> {
    response_header(status, content_type, body.len()) + body
}

fn push_crlf(v: &mut Vec<u8>)
    ensures
        final(v)@ == old(v)@ + crlf(),
{
    v.push(13);
    v.push(10);
    proof {
        assert(v@ =~= old(v)@ + crlf());
    }
}

/// Frames a rendered response for the wire.
pub fn frame_response(resp: &RenderedResponse) -> (out: Vec<u8>)
    ensures
        out@ == framed(resp.status_line@, resp.content_type@, resp.body@),
{
    let mut out: Vec<u8> = Vec::new();
    push_all(&mut out, resp.status_line.as_slice());
    push_crlf(&mut out);
    push_all(&mut out, "Content-Type: ".as_bytes());
    push_all(&mut out, resp.content_type.as_slice());
    push_crlf(&mut out);
    push_all(&mut out, "Content-Length: ".as_bytes());
    let digits = u64_to_dec(resp.body.len() as u64);
    push_all(&mut out, digits.as_slice());
    push_crlf(&mut out);
    push_crlf(&mut out);
    push_all(&mut out, resp.body.as_slice());
    proof {
        assert(out@ =~= framed(resp.status_line@, resp.content_type@, resp.body@));
    }
    out
}

} // verus!

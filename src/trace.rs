//! Names of the interpretations that the serf asks for, as a trace sink
//! records them: `boot`, `peek`, `play [N]` and `work [WIRE TAG]`.
use vstd::prelude::*;
use crate::noun::{Noun, NounV};

verus! {

/// The length of the longest prefix of `b` that is valid UTF-8.
pub uninterp spec fn utf8_valid_up_to(b: Seq<u8>) -> nat;

/// Relies on `std::str::from_utf8`: all of `b` where it is valid UTF-8,
/// else the error's `valid_up_to`, the length of the longest valid prefix.
#[verifier::external_body]
fn valid_up_to(b: &[u8]) -> (r: usize)
    ensures
        r as nat == utf8_valid_up_to(b@),
        r <= b@.len(),
{
    match std::str::from_utf8(b) {
        Ok(_) => b.len(),
        Err(e) => e.valid_up_to(),
    }
}

/// `"boot"`
pub open spec fn boot_name() -> Seq<u8> {
    seq![0x62u8, 0x6f, 0x6f, 0x74]
}

/// `"peek"`
pub open spec fn peek_name() -> Seq<u8> {
    seq![0x70u8, 0x65, 0x65, 0x6b]
}

/// `"play ["`
pub open spec fn play_open() -> Seq<u8> {
    seq![0x70u8, 0x6c, 0x61, 0x79, 0x20, 0x5b]
}

/// `"work ["`
pub open spec fn work_open() -> Seq<u8> {
    seq![0x77u8, 0x6f, 0x72, 0x6b, 0x20, 0x5b]
}

/// The decimal digits of `n`.
pub open spec fn decimal(n: nat) -> Seq<u8>
    decreases n,
{
    if n < 10 {
        seq![(48 + n) as u8]
    } else {
        decimal(n / 10) + seq![(48 + n % 10) as u8]
    }
}

/// `"play [N]"`
pub open spec fn play_name(n: nat) -> Seq<u8> {
    play_open() + decimal(n) + seq![0x5du8]
}

/// A path (a list of atoms) as a cord: `/` before each element's bytes; an
/// element that is a cell contributes its `/` alone.
pub open spec fn path_cord(p: NounV) -> Seq<u8>
    decreases p,
{
    match p {
        NounV::Cell(h, t) => seq![0x2fu8] + match *h {
            NounV::Atom(b) => b,
            NounV::Cell(_, _) => Seq::empty(),
        } + path_cord(*t),
        NounV::Atom(_) => Seq::empty(),
    }
}

/// `"work [WIRE TAG]"` from the wire's cord and the tag's bytes, each cut
/// to the given length.
pub open spec fn work_text(wire: Seq<u8>, wire_ok: nat, tag: Seq<u8>, tag_ok: nat) -> Seq<u8> {
    work_open() + wire.take(wire_ok as int) + seq![0x20u8] + tag.take(tag_ok as int) + seq![0x5du8]
}

/// The trace name of an event with the wire `wire` and the tag `tag`, each
/// cut at its first byte that is not valid UTF-8.
pub open spec fn work_name(wire: NounV, tag: Seq<u8>) -> Seq<u8> {
    work_text(path_cord(wire), utf8_valid_up_to(path_cord(wire)), tag, utf8_valid_up_to(tag))
}

fn push_prefix(v: &mut Vec<u8>, s: &[u8], n: usize)
    requires
        n <= s@.len(),
    ensures
        final(v)@ == old(v)@ + s@.take(n as int),
{
    let mut i: usize = 0;
    while i < n
        invariant
            n <= s@.len(),
            i <= n,
            v@ == old(v)@ + s@.take(i as int),
        decreases n - i,
    {
        v.push(s[i]);
        i = i + 1;
        proof {
            assert(v@ =~= old(v)@ + s@.take(i as int));
        }
    }
}

fn push4(v: &mut Vec<u8>, a: u8, b: u8, c: u8, e: u8)
    ensures
        final(v)@ == old(v)@ + seq![a, b, c, e],
{
    v.push(a);
    v.push(b);
    v.push(c);
    v.push(e);
    proof {
        assert(v@ =~= old(v)@ + seq![a, b, c, e]);
    }
}

/// `"boot"`
pub fn boot_trace_name() -> (r: Vec<u8>)
    ensures
        r@ == boot_name(),
{
    let mut v: Vec<u8> = Vec::new();
    push4(&mut v, 0x62, 0x6f, 0x6f, 0x74);
    proof {
        assert(v@ =~= boot_name());
    }
    v
}

/// `"peek"`
pub fn peek_trace_name() -> (r: Vec<u8>)
    ensures
        r@ == peek_name(),
{
    let mut v: Vec<u8> = Vec::new();
    push4(&mut v, 0x70, 0x65, 0x65, 0x6b);
    proof {
        assert(v@ =~= peek_name());
    }
    v
}

fn push_decimal(v: &mut Vec<u8>, n: u64)
    ensures
        final(v)@ == old(v)@ + decimal(n as nat),
    decreases n,
{
    if n >= 10 {
        push_decimal(v, n / 10);
    }
    v.push((48 + n % 10) as u8);
    proof {
        if n < 10 {
            assert(v@ =~= old(v)@ + decimal(n as nat));
        } else {
            assert(v@ =~= old(v)@ + decimal(n as nat));
        }
    }
}

/// `"play [N]"`
pub fn play_trace_name(n: u64) -> (r: Vec<u8>)
    ensures
        r@ == play_name(n as nat),
{
    let mut v: Vec<u8> = Vec::new();
    push4(&mut v, 0x70, 0x6c, 0x61, 0x79);
    v.push(0x20);
    v.push(0x5b);
    push_decimal(&mut v, n);
    v.push(0x5d);
    proof {
        assert(v@ =~= play_name(n as nat));
    }
    v
}

/// The cord of the path `p`.
pub fn path_to_cord(p: &Noun) -> (r: Vec<u8>)
    ensures
        r@ == path_cord(p@),
{
    let mut out: Vec<u8> = Vec::new();
    let mut cur: &Noun = p;
    loop
        invariant
            path_cord(p@) == out@ + path_cord(cur@),
        decreases cur@,
    {
        match cur {
            Noun::Atom(_) => {
                proof {
                    assert(out@ + path_cord(cur@) =~= out@);
                }
                return out;
            },
            Noun::Cell(h, t) => {
                let ghost before = out@;
                let ghost hv: NounV = (**h)@;
                let ghost tv: NounV = (**t)@;
                assert(cur@ == NounV::Cell(Box::new(hv), Box::new(tv)));
                let ghost seg: Seq<u8> = match hv {
                    NounV::Atom(b) => b,
                    NounV::Cell(_, _) => Seq::empty(),
                };
                assert(path_cord(cur@) == seq![0x2fu8] + seg + path_cord(tv));
                out.push(0x2f);
                match &**h {
                    Noun::Atom(b) => {
                        push_prefix(&mut out, b.as_slice(), b.len());
                        proof {
                            assert(b@.take(b@.len() as int) =~= b@);
                            assert(seg == b@);
                        }
                    },
                    Noun::Cell(_, _) => {},
                }
                proof {
                    assert(out@ =~= before + seq![0x2fu8] + seg);
                    assert(before + path_cord(cur@) =~= out@ + path_cord(tv));
                }
                cur = t;
            },
        }
    }
}

/// `"work [WIRE TAG]"` from the wire's cord and the tag's bytes, cut to
/// `wire_ok` and `tag_ok` bytes.
pub fn work_trace_text(wire: &[u8], wire_ok: usize, tag: &[u8], tag_ok: usize) -> (r: Vec<u8>)
    requires
        wire_ok <= wire@.len(),
        tag_ok <= tag@.len(),
    ensures
        r@ == work_text(wire@, wire_ok as nat, tag@, tag_ok as nat),
{
    let mut v: Vec<u8> = Vec::new();
    push4(&mut v, 0x77, 0x6f, 0x72, 0x6b);
    v.push(0x20);
    v.push(0x5b);
    push_prefix(&mut v, wire, wire_ok);
    v.push(0x20);
    push_prefix(&mut v, tag, tag_ok);
    v.push(0x5d);
    proof {
        assert(v@ =~= work_text(wire@, wire_ok as nat, tag@, tag_ok as nat));
    }
    v
}

/// The trace name of an event with the wire `wire` and the tag whose bytes
/// are `tag`.
pub fn work_trace_name(wire: &Noun, tag: &[u8]) -> (r: Vec<u8>)
    ensures
        r@ == work_name(wire@, tag@),
{
    let cord = path_to_cord(wire);
    let wire_ok = valid_up_to(cord.as_slice());
    let tag_ok = valid_up_to(tag);
    work_trace_text(cord.as_slice(), wire_ok, tag, tag_ok)
}

} // verus!

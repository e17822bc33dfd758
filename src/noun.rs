//! Nouns: an atom (an unsigned integer, held as little-endian bytes with no
//! trailing zero byte) or a cell of two nouns.
use vstd::prelude::*;

verus! {

/// The mathematical value of a noun.
pub enum NounV {
    Atom(Seq<u8>),
    Cell(Box<NounV>, Box<NounV>),
}

/// The small atom `n` (zero is the empty byte string).
pub open spec fn d(n: u8) -> NounV {
    if n == 0 {
        NounV::Atom(Seq::empty())
    } else {
        NounV::Atom(seq![n])
    }
}

/// The cell `[a b]`.
pub open spec fn c(a: NounV, b: NounV) -> NounV {
    NounV::Cell(Box::new(a), Box::new(b))
}

/// The subtree at `axis`: 1 is the root, `2a` the head and `2a + 1` the
/// tail of the subtree at `a`; none where the path runs into an atom.
pub open spec fn slot_of(n: NounV, axis: nat) -> Option<NounV>
    decreases axis,
{
    if axis == 0 {
        None
    } else if axis == 1 {
        Some(n)
    } else {
        match slot_of(n, axis / 2) {
            Some(NounV::Cell(h, t)) => if axis % 2 == 0 {
                Some(*h)
            } else {
                Some(*t)
            },
            _ => None,
        }
    }
}

/// The length of a null-terminated list; none where the noun is no such list.
pub open spec fn lent_of(n: NounV) -> Option<nat>
    decreases n,
{
    match n {
        NounV::Atom(b) => if b.len() == 0 {
            Some(0)
        } else {
            None
        },
        NounV::Cell(_, t) => match lent_of(*t) {
            Some(k) => Some(k + 1),
            None => None,
        },
    }
}

/// The successor of the atom whose little-endian bytes are `s`.
pub open spec fn inc_bytes(s: Seq<u8>) -> Seq<u8>
    decreases s.len(),
{
    if s.len() == 0 {
        seq![1u8]
    } else if s[0] == 255 {
        seq![0u8] + inc_bytes(s.drop_first())
    } else {
        seq![(s[0] + 1) as u8] + s.drop_first()
    }
}

/// The number that little-endian bytes stand for.
pub open spec fn atom_value(s: Seq<u8>) -> nat
    decreases s.len(),
{
    if s.len() == 0 {
        0
    } else {
        (s[0] + 256 * atom_value(s.drop_first())) as nat
    }
}

/// `inc_bytes` is the successor.
pub proof fn lemma_inc_value(s: Seq<u8>)
    ensures
        atom_value(inc_bytes(s)) == atom_value(s) + 1,
    decreases s.len(),
{
    if s.len() == 0 {
        assert(seq![1u8].drop_first() =~= Seq::<u8>::empty());
        assert(atom_value(seq![1u8].drop_first()) == 0);
    } else if s[0] == 255 {
        lemma_inc_value(s.drop_first());
        let r = seq![0u8] + inc_bytes(s.drop_first());
        assert(r.drop_first() =~= inc_bytes(s.drop_first()));
        assert(atom_value(r) == r[0] + 256 * atom_value(r.drop_first()));
    } else {
        let r = seq![(s[0] + 1) as u8] + s.drop_first();
        assert(r.drop_first() =~= s.drop_first());
        assert(atom_value(r) == r[0] + 256 * atom_value(r.drop_first()));
    }
}

proof fn lemma_inc_carry(s: Seq<u8>, i: int)
    requires
        0 <= i <= s.len(),
        forall|j: int| 0 <= j < i ==> s[j] == 255,
    ensures
        inc_bytes(s) == Seq::new(i as nat, |j: int| 0u8) + inc_bytes(s.subrange(i, s.len() as int)),
    decreases i,
{
    if i == 0 {
        assert(s.subrange(0, s.len() as int) =~= s);
        assert(Seq::new(0, |j: int| 0u8) + inc_bytes(s) =~= inc_bytes(s));
    } else {
        let t = s.drop_first();
        lemma_inc_carry(t, i - 1);
        assert(t.subrange(i - 1, t.len() as int) =~= s.subrange(i, s.len() as int));
        assert(seq![0u8] + (Seq::new((i - 1) as nat, |j: int| 0u8) + inc_bytes(s.subrange(i, s.len() as int)))
            =~= Seq::new(i as nat, |j: int| 0u8) + inc_bytes(s.subrange(i, s.len() as int)));
    }
}

/// The bytes of the successor of the atom `b`.
pub fn inc_atom(b: &Vec<u8>) -> (r: Vec<u8>)
    ensures
        r@ == inc_bytes(b@),
{
    let mut out: Vec<u8> = Vec::new();
    let mut i: usize = 0;
    while i < b.len() && b[i] == 255
        invariant
            i <= b@.len(),
            forall|j: int| 0 <= j < i ==> b@[j] == 255,
            out@ == Seq::new(i as nat, |j: int| 0u8),
        decreases b@.len() - i,
    {
        out.push(0);
        i = i + 1;
        proof {
            assert(out@ =~= Seq::new(i as nat, |j: int| 0u8));
        }
    }
    proof {
        lemma_inc_carry(b@, i as int);
    }
    let ghost zeros = out@;
    let ghost rest = b@.subrange(i as int, b@.len() as int);
    if i == b.len() {
        out.push(1);
        proof {
            assert(rest =~= Seq::<u8>::empty());
            assert(out@ =~= zeros + inc_bytes(rest));
        }
    } else {
        out.push(b[i] + 1);
        let mut k: usize = i + 1;
        while k < b.len()
            invariant
                i < k <= b@.len(),
                out@ == zeros + seq![(b@[i as int] + 1) as u8] + b@.subrange(i + 1, k as int),
            decreases b@.len() - k,
        {
            out.push(b[k]);
            k = k + 1;
            proof {
                assert(out@ =~= zeros + seq![(b@[i as int] + 1) as u8] + b@.subrange(i + 1, k as int));
            }
        }
        proof {
            assert(rest.drop_first() =~= b@.subrange(i + 1, b@.len() as int));
            assert(out@ =~= zeros + inc_bytes(rest));
        }
    }
    out
}

/// Whether `n` is the atom whose bytes are `t` (a tag such as `b"work"`).
pub fn is_tag(n: &Noun, t: &[u8]) -> (r: bool)
    ensures
        r == (n@ == NounV::Atom(t@)),
{
    match n {
        Noun::Cell(_, _) => false,
        Noun::Atom(b) => {
            assert(n@ == NounV::Atom(b@));
            if b.len() != t.len() {
                proof {
                    assert(b@.len() != t@.len());
                }
                return false;
            }
            let mut i: usize = 0;
            while i < b.len()
                invariant
                    i <= b@.len(),
                    b@.len() == t@.len(),
                    n@ == NounV::Atom(b@),
                    b@.subrange(0, i as int) =~= t@.subrange(0, i as int),
                decreases b@.len() - i,
            {
                if b[i] != t[i] {
                    proof {
                        assert(b@[i as int] != t@[i as int]);
                    }
                    return false;
                }
                i = i + 1;
                proof {
                    assert(b@.subrange(0, i as int) =~= t@.subrange(0, i as int));
                }
            }
            proof {
                assert(b@ =~= b@.subrange(0, i as int));
                assert(t@ =~= t@.subrange(0, i as int));
            }
            true
        },
    }
}

#[derive(Debug, PartialEq, Eq)]
pub enum Noun {
    Atom(Vec<u8>),
    Cell(Box<Noun>, Box<Noun>),
}

pub open spec fn noun_view(n: Noun) -> NounV
    decreases n,
{
    match n {
        Noun::Atom(b) => NounV::Atom(b@),
        Noun::Cell(h, t) => NounV::Cell(Box::new(noun_view(*h)), Box::new(noun_view(*t))),
    }
}

impl View for Noun {
    type V = NounV;

    open spec fn view(&self) -> NounV {
        noun_view(*self)
    }
}

impl Noun {
    /// The small atom `n`.
    pub fn small(n: u8) -> (r: Noun)
        ensures
            r@ == d(n),
    {
        if n == 0 {
            Noun::Atom(Vec::new())
        } else {
            let mut v: Vec<u8> = Vec::new();
            v.push(n);
            proof {
                assert(v@ =~= seq![n]);
            }
            Noun::Atom(v)
        }
    }

    /// The atom whose little-endian bytes are `b`.
    pub fn atom(b: Vec<u8>) -> (r: Noun)
        ensures
            r@ == NounV::Atom(b@),
    {
        Noun::Atom(b)
    }

    /// The cell `[a b]`.
    pub fn cell(a: Noun, b: Noun) -> (r: Noun)
        ensures
            r@ == c(a@, b@),
    {
        Noun::Cell(Box::new(a), Box::new(b))
    }

    pub fn is_cell(&self) -> (r: bool)
        ensures
            r == self@ is Cell,
    {
        match self {
            Noun::Atom(_) => false,
            Noun::Cell(_, _) => true,
        }
    }

    /// A copy of the noun, node for node.
    pub fn copy(&self) -> (r: Noun)
        ensures
            r@ == self@,
        decreases self,
    {
        match self {
            Noun::Atom(b) => {
                let mut v: Vec<u8> = Vec::new();
                let mut i: usize = 0;
                while i < b.len()
                    invariant
                        i <= b@.len(),
                        v@ == b@.subrange(0, i as int),
                    decreases b@.len() - i,
                {
                    v.push(b[i]);
                    i = i + 1;
                    proof {
                        assert(v@ =~= b@.subrange(0, i as int));
                    }
                }
                proof {
                    assert(v@ =~= b@);
                }
                Noun::Atom(v)
            },
            Noun::Cell(h, t) => {
                let hc = h.copy();
                let tc = t.copy();
                Noun::Cell(Box::new(hc), Box::new(tc))
            },
        }
    }
}

/// The length of `n` as a list, where it is one and the length fits.
pub fn lent(n: &Noun) -> (r: Option<u64>)
    ensures
        r matches Some(k) ==> lent_of(n@) == Some(k as nat),
        r is None ==> lent_of(n@) is None || lent_of(n@).unwrap() > u64::MAX,
{
    let mut cur: &Noun = n;
    let mut k: u64 = 0;
    loop
        invariant
            lent_of(n@) == match lent_of(cur@) {
                Some(m) => Some((m + k) as nat),
                None => None::<nat>,
            },
        decreases cur@,
    {
        match cur {
            Noun::Atom(b) => {
                if b.len() == 0 {
                    return Some(k);
                } else {
                    return None;
                }
            },
            Noun::Cell(_, t) => {
                if k == u64::MAX {
                    return None;
                }
                k = k + 1;
                cur = t;
            },
        }
    }
}

/// The subtree of `noun` at `axis`, where there is one.
pub fn slot(noun: &Noun, axis: u64) -> (r: Option<Noun>)
    ensures
        r matches Some(s) ==> slot_of(noun@, axis as nat) == Some(s@),
        r is None ==> slot_of(noun@, axis as nat) is None,
    decreases axis,
{
    if axis == 0 {
        None
    } else if axis == 1 {
        Some(noun.copy())
    } else {
        match slot(noun, axis / 2) {
            Some(p) => match p {
                Noun::Cell(h, t) => if axis % 2 == 0 {
                    Some(*h)
                } else {
                    Some(*t)
                },
                Noun::Atom(_) => None,
            },
            None => None,
        }
    }
}

} // verus!

verus! {

pub const MUG_BASIS: u32 = 0x811c9dc5;

pub const MUG_PRIME: u32 = 0x01000193;

pub const MUG_CELL: u32 = 0x9e3779b9;

/// The byte hash folded over `s`, from the state `h`.
pub open spec fn mug_bytes(s: Seq<u8>, h: u32) -> u32
    decreases s.len(),
{
    if s.len() == 0 {
        h
    } else {
        mug_bytes(s.drop_first(), (h ^ (s[0] as u32)).wrapping_mul(MUG_PRIME))
    }
}

/// The hash of a cell from the hashes of its head and tail.
pub open spec fn mug_mix(a: u32, b: u32) -> u32 {
    ((a.wrapping_mul(MUG_PRIME) ^ b) ^ MUG_CELL).wrapping_mul(MUG_PRIME)
}

/// The structural hash of a noun: it depends on the noun's value alone.
pub open spec fn mug_of(n: NounV) -> u32
    decreases n,
{
    match n {
        NounV::Atom(b) => mug_bytes(b, MUG_BASIS),
        NounV::Cell(h, t) => mug_mix(mug_of(*h), mug_of(*t)),
    }
}

/// The structural hash of `n`.
pub fn mug(n: &Noun) -> (r: u32)
    ensures
        r == mug_of(n@),
    decreases n,
{
    match n {
        Noun::Atom(b) => {
            let mut h: u32 = MUG_BASIS;
            let mut i: usize = 0;
            proof {
                assert(b@.subrange(0, b@.len() as int) =~= b@);
            }
            while i < b.len()
                invariant
                    i <= b@.len(),
                    mug_bytes(b@, MUG_BASIS) == mug_bytes(b@.subrange(i as int, b@.len() as int), h),
                decreases b@.len() - i,
            {
                proof {
                    let rest = b@.subrange(i as int, b@.len() as int);
                    assert(rest.drop_first() =~= b@.subrange(i + 1, b@.len() as int));
                }
                h = (h ^ (b[i] as u32)).wrapping_mul(MUG_PRIME);
                i = i + 1;
            }
            proof {
                assert(b@.subrange(i as int, b@.len() as int) =~= Seq::<u8>::empty());
            }
            h
        },
        Noun::Cell(h, t) => {
            let a = mug(h);
            let b = mug(t);
            ((a.wrapping_mul(MUG_PRIME) ^ b) ^ MUG_CELL).wrapping_mul(MUG_PRIME)
        },
    }
}

/// Copying a noun keeps its structural hash.
pub proof fn lemma_copy_keeps_mug(a: Noun, b: Noun)
    requires
        b@ == a@,
    ensures
        mug_of(b@) == mug_of(a@),
{
}

} // verus!

//! The layout rules of the wrapper type.
//!
//! A wrapper stores the anonymous computation in an opaque byte region of
//! exactly the computation's size, positioned by an alignment marker chosen
//! from a fixed family: one marker per supported power-of-two alignment,
//! 1 through 16384, doubling. An alignment outside the family has no
//! marker, so looking it up cannot succeed.

use vstd::arithmetic::div_mod::{lemma_fundamental_div_mod, lemma_fundamental_div_mod_converse};
use vstd::prelude::*;

verus! {

/// The alignments the marker family supports.
pub open spec fn is_supported_alignment(n: nat) -> bool {
    ||| n == 1
    ||| n == 2
    ||| n == 4
    ||| n == 8
    ||| n == 16
    ||| n == 32
    ||| n == 64
    ||| n == 128
    ||| n == 256
    ||| n == 512
    ||| n == 1024
    ||| n == 2048
    ||| n == 4096
    ||| n == 8192
    ||| n == 16384
}

/// Whether the marker family supports this alignment.
pub fn supported_alignment(n: usize) -> (r: bool)
    ensures
        r == is_supported_alignment(n as nat),
{
    n == 1 || n == 2 || n == 4 || n == 8 || n == 16 || n == 32 || n == 64 || n == 128 || n == 256
        || n == 512 || n == 1024 || n == 2048 || n == 4096 || n == 8192 || n == 16384
}

/// The size and alignment of a type: immutable, derived from the type
/// alone. For a real type the size is a multiple of the alignment, and the
/// alignment is at least one.
#[derive(Clone, Copy, Debug, PartialEq, Eq, Structural)]
pub struct LayoutFact {
    pub size: usize,
    pub align: usize,
}

/// Whether a pair of numbers can be the layout of a real type whose
/// alignment the marker family supports.
pub open spec fn layout_wf(l: LayoutFact) -> bool {
    &&& is_supported_alignment(l.align as nat)
    &&& l.align >= 1
    &&& l.size as int % l.align as int == 0
}

/// The bytes a region of `size` bytes occupies when carried at alignment
/// `align`: the size rounded up to the next multiple of the alignment.
pub open spec fn storage_size(size: int, align: int) -> int {
    ((size + align - 1) / align) * align
}

/// The storage region of a wrapper occupies exactly the anonymous
/// computation's size: the size of a real type is a multiple of its
/// alignment, so rounding it up to that alignment changes nothing.
pub proof fn lemma_storage_size_exact(l: LayoutFact)
    requires
        l.align >= 1,
        l.size as int % l.align as int == 0,
    ensures
        storage_size(l.size as int, l.align as int) == l.size as int,
{
    let s = l.size as int;
    let a = l.align as int;
    lemma_fundamental_div_mod(s, a);
    let q = s / a;
    assert(s == a * q);
    assert(s + a - 1 == q * a + (a - 1)) by (nonlinear_arith)
        requires
            s == a * q,
    ;
    lemma_fundamental_div_mod_converse(s + a - 1, a, q, a - 1);
    assert(storage_size(s, a) == q * a);
    assert(q * a == s) by (nonlinear_arith)
        requires
            s == a * q,
    ;
}

/// The layout the generated wrapper has for an anonymous computation of the
/// given layout: same size, same alignment — or nothing, when the
/// alignment has no marker in the family.
pub fn wrapper_layout(anon: LayoutFact) -> (r: Option<LayoutFact>)
    requires
        anon.align >= 1,
        anon.size as int % anon.align as int == 0,
    ensures
        match r {
            Some(w) => {
                &&& is_supported_alignment(anon.align as nat)
                &&& w.size == anon.size
                &&& w.align == anon.align
            },
            None => !is_supported_alignment(anon.align as nat),
        },
{
    if supported_alignment(anon.align) {
        Some(LayoutFact { size: anon.size, align: anon.align })
    } else {
        None
    }
}

/// Layout equivalence: a wrapper generated for a well-formed anonymous
/// layout stores it in a region of exactly its size, at an alignment at
/// least as strict as its own.
pub proof fn lemma_layout_equivalence(anon: LayoutFact, w: LayoutFact)
    requires
        layout_wf(anon),
        w.size == anon.size,
        w.align == anon.align,
    ensures
        storage_size(w.size as int, w.align as int) == anon.size as int,
        w.align >= anon.align,
{
    lemma_storage_size_exact(anon);
}

/// The marker family: one implementing type per supported alignment. The
/// family is the only source of an alignment for the storage region, so a
/// wrapper's alignment is always one of the supported values.
pub trait Aligner {
    /// The alignment this marker guarantees.
    spec fn alignment(&self) -> nat;

    /// Every marker of the family guarantees a supported alignment.
    proof fn alignment_supported(&self)
        ensures
            is_supported_alignment(self.alignment()),
    ;

    /// The alignment, as a value.
    fn align_bytes(&self) -> (r: usize)
        ensures
            r as nat == self.alignment(),
    ;
}

/// The selector of the marker family, keyed by the numeric alignment: only
/// the supported powers of two implement [`Aligner`].
#[derive(Clone, Copy)]
pub struct Int<const BYTES: usize>;

impl Aligner for Int<1> {
    open spec fn alignment(&self) -> nat {
        1
    }

    proof fn alignment_supported(&self) {
    }

    fn align_bytes(&self) -> usize {
        1
    }
}

impl Aligner for Int<2> {
    open spec fn alignment(&self) -> nat {
        2
    }

    proof fn alignment_supported(&self) {
    }

    fn align_bytes(&self) -> usize {
        2
    }
}

impl Aligner for Int<4> {
    open spec fn alignment(&self) -> nat {
        4
    }

    proof fn alignment_supported(&self) {
    }

    fn align_bytes(&self) -> usize {
        4
    }
}

impl Aligner for Int<8> {
    open spec fn alignment(&self) -> nat {
        8
    }

    proof fn alignment_supported(&self) {
    }

    fn align_bytes(&self) -> usize {
        8
    }
}

impl Aligner for Int<16> {
    open spec fn alignment(&self) -> nat {
        16
    }

    proof fn alignment_supported(&self) {
    }

    fn align_bytes(&self) -> usize {
        16
    }
}

impl Aligner for Int<32> {
    open spec fn alignment(&self) -> nat {
        32
    }

    proof fn alignment_supported(&self) {
    }

    fn align_bytes(&self) -> usize {
        32
    }
}

impl Aligner for Int<64> {
    open spec fn alignment(&self) -> nat {
        64
    }

    proof fn alignment_supported(&self) {
    }

    fn align_bytes(&self) -> usize {
        64
    }
}

impl Aligner for Int<128> {
    open spec fn alignment(&self) -> nat {
        128
    }

    proof fn alignment_supported(&self) {
    }

    fn align_bytes(&self) -> usize {
        128
    }
}

impl Aligner for Int<256> {
    open spec fn alignment(&self) -> nat {
        256
    }

    proof fn alignment_supported(&self) {
    }

    fn align_bytes(&self) -> usize {
        256
    }
}

impl Aligner for Int<512> {
    open spec fn alignment(&self) -> nat {
        512
    }

    proof fn alignment_supported(&self) {
    }

    fn align_bytes(&self) -> usize {
        512
    }
}

impl Aligner for Int<1024> {
    open spec fn alignment(&self) -> nat {
        1024
    }

    proof fn alignment_supported(&self) {
    }

    fn align_bytes(&self) -> usize {
        1024
    }
}

impl Aligner for Int<2048> {
    open spec fn alignment(&self) -> nat {
        2048
    }

    proof fn alignment_supported(&self) {
    }

    fn align_bytes(&self) -> usize {
        2048
    }
}

impl Aligner for Int<4096> {
    open spec fn alignment(&self) -> nat {
        4096
    }

    proof fn alignment_supported(&self) {
    }

    fn align_bytes(&self) -> usize {
        4096
    }
}

impl Aligner for Int<8192> {
    open spec fn alignment(&self) -> nat {
        8192
    }

    proof fn alignment_supported(&self) {
    }

    fn align_bytes(&self) -> usize {
        8192
    }
}

impl Aligner for Int<16384> {
    open spec fn alignment(&self) -> nat {
        16384
    }

    proof fn alignment_supported(&self) {
    }

    fn align_bytes(&self) -> usize {
        16384
    }
}

} // verus!

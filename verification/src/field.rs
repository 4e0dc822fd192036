//! Scalar-field elements and their 32-byte encoding.

use crate::error::Error;
use crate::numeric::{
    be_value, lemma_be_value_concat, lemma_be_value_halves, lemma_pow256_16, read_u128,
    two_pow_128, write_u128,
};
use vstd::arithmetic::div_mod::lemma_fundamental_div_mod_converse;
use vstd::prelude::*;
use vstd::slice::slice_to_vec;

verus! {

/// Width in bytes of an encoded field element.
pub const BYTES_PER_FIELD_ELEMENT: usize = 32;

const MODULUS_HI: u128 = 0x73eda753299d7d483339d80809a1d805;

const MODULUS_LO: u128 = 0x53bda402fffe5bfeffffffff00000001;

/// The prime order of the scalar field of BLS12-381.
pub open spec fn scalar_modulus() -> nat {
    0x73eda753299d7d483339d80809a1d80553bda402fffe5bfeffffffff00000001nat
}

/// Whether `bytes` is the canonical encoding of a field element: 32 bytes
/// that denote, most significant byte first, a number below the modulus.
pub open spec fn is_canonical_scalar(bytes: Seq<u8>) -> bool {
    bytes.len() == 32 && be_value(bytes) < scalar_modulus()
}

/// The outcome of decoding `bytes` as a field element: the bytes
/// themselves where they are canonical, `InvalidEncoding` otherwise.
pub open spec fn field_decoding(bytes: Seq<u8>) -> Result<Seq<u8>, Error> {
    if is_canonical_scalar(bytes) {
        Ok(bytes)
    } else {
        Err(Error::InvalidEncoding)
    }
}

proof fn lemma_modulus_halves()
    ensures
        MODULUS_HI as nat * two_pow_128() + MODULUS_LO as nat == scalar_modulus(),
{
}

/// A scalar reduced modulo [`scalar_modulus`], held in its canonical encoding.
#[derive(Debug, PartialEq, Eq)]
pub struct FieldElement {
    bytes: Vec<u8>,
}

impl View for FieldElement {
    type V = Seq<u8>;

    /// The canonical encoding.
    closed spec fn view(&self) -> Seq<u8> {
        self.bytes@
    }
}

impl FieldElement {
    /// Every field element in memory is canonically encoded.
    #[verifier::type_invariant]
    pub open spec fn wf(&self) -> bool {
        is_canonical_scalar(self@)
    }

    /// The number that the element stands for.
    pub open spec fn value(&self) -> nat {
        be_value(self@)
    }

    /// A copy of the element.
    pub fn duplicate(&self) -> (copy: FieldElement)
        ensures
            copy@ == self@,
    {
        proof {
            use_type_invariant(self);
        }
        FieldElement { bytes: slice_to_vec(self.bytes.as_slice()) }
    }

    /// The canonical encoding, borrowed.
    pub fn as_bytes(&self) -> (out: &[u8])
        ensures
            out@ == self@,
            is_canonical_scalar(out@),
    {
        proof {
            use_type_invariant(self);
        }
        self.bytes.as_slice()
    }
}

/// Whether `bytes` canonically encodes a field element.
pub fn scalar_is_canonical(bytes: &[u8]) -> (ok: bool)
    ensures
        ok == is_canonical_scalar(bytes@),
{
    if bytes.len() != BYTES_PER_FIELD_ELEMENT {
        return false;
    }
    let hi: u128 = read_u128(bytes, 0);
    let lo: u128 = read_u128(bytes, 16);
    proof {
        lemma_be_value_halves(bytes@);
        lemma_modulus_halves();
    }
    hi < MODULUS_HI || (hi == MODULUS_HI && lo < MODULUS_LO)
}

/// Decodes a field element. Anything but 32 bytes that denote a number
/// below the modulus is refused; nothing is reduced silently.
pub fn decode_field_element(bytes: &[u8]) -> (r: Result<FieldElement, Error>)
    ensures
        match r {
            Ok(x) => field_decoding(bytes@) == Ok::<Seq<u8>, Error>(x@),
            Err(e) => field_decoding(bytes@) == Err::<Seq<u8>, Error>(e),
        },
{
    if scalar_is_canonical(bytes) {
        Ok(FieldElement { bytes: slice_to_vec(bytes) })
    } else {
        Err(Error::InvalidEncoding)
    }
}

/// Encodes a field element; the result always decodes to the same element.
pub fn encode_field_element(x: &FieldElement) -> (out: Vec<u8>)
    ensures
        out@ == x@,
        is_canonical_scalar(out@),
{
    slice_to_vec(x.as_bytes())
}

/// Reads a 32-byte digest as a number, most significant byte first, and
/// reduces it into the scalar field.
pub fn hash_to_field(digest: &[u8; 32]) -> (x: FieldElement)
    ensures
        x.value() == be_value(digest@) % scalar_modulus(),
{
    let bytes: &[u8] = digest.as_slice();
    let mut hi: u128 = read_u128(bytes, 0);
    let mut lo: u128 = read_u128(bytes, 16);
    let ghost total: nat = be_value(digest@);
    let ghost mut folds: nat = 0;
    proof {
        lemma_be_value_halves(digest@);
        lemma_modulus_halves();
    }
    while !(hi < MODULUS_HI || (hi == MODULUS_HI && lo < MODULUS_LO))
        invariant
            total == hi as nat * two_pow_128() + lo as nat + folds * scalar_modulus(),
            MODULUS_HI as nat * two_pow_128() + MODULUS_LO as nat == scalar_modulus(),
        decreases hi,
    {
        proof {
            assert((folds + 1) * scalar_modulus() == folds * scalar_modulus() + scalar_modulus())
                by (nonlinear_arith);
        }
        if lo >= MODULUS_LO {
            lo = lo - MODULUS_LO;
            hi = hi - MODULUS_HI;
        } else {
            lo = lo + (u128::MAX - MODULUS_LO) + 1;
            hi = hi - MODULUS_HI - 1;
        }
        proof {
            folds = folds + 1;
        }
    }
    let mut out = write_u128(hi);
    let mut low = write_u128(lo);
    proof {
        lemma_be_value_concat(out@, low@);
        lemma_pow256_16();
        let rest = hi as nat * two_pow_128() + lo as nat;
        assert(total as int == folds as int * scalar_modulus() as int + rest as int);
        lemma_fundamental_div_mod_converse(
            total as int,
            scalar_modulus() as int,
            folds as int,
            rest as int,
        );
    }
    out.append(&mut low);
    FieldElement { bytes: out }
}

} // verus!

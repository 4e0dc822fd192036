//! The trusted setup: loaded once, then shared read-only by every
//! operation of the engine.

use crate::backend::{
    backend_load, byte_strings, check_g2_point, g2_point_status, setup_accepted, setup_g1,
    setup_g2,
};
use crate::error::Error;
use crate::hex::{decode_hex_list, texts_decoding};
use crate::point::{decode_point, is_g1_encoding, status_verdict, verdict_of_status};
use vstd::prelude::*;

verus! {

/// Width in bytes of a compressed G2 point.
pub const BYTES_PER_G2_POINT: usize = 96;

/// Whether `n` is a power of two.
pub open spec fn is_power_of_two(n: nat) -> bool
    decreases n,
{
    n == 1 || (n > 1 && n % 2 == 0 && is_power_of_two(n / 2))
}

/// Whether `bytes` encodes a point of G2 that decoding accepts.
pub open spec fn is_g2_encoding(bytes: Seq<u8>) -> bool {
    bytes.len() == 96 && status_verdict(g2_point_status(bytes)) is Ok
}

/// What a setup must satisfy before the engine is asked to take it: a
/// power-of-two number of valid G1 points, and at least two valid G2
/// points.
pub open spec fn is_well_formed_setup(g1: Seq<Seq<u8>>, g2: Seq<Seq<u8>>) -> bool {
    &&& is_power_of_two(g1.len())
    &&& g2.len() >= 2
    &&& forall|i: int| 0 <= i < g1.len() ==> is_g1_encoding(#[trigger] g1[i])
    &&& forall|i: int| 0 <= i < g2.len() ==> is_g2_encoding(#[trigger] g2[i])
}

/// Whether a setup of these points loads: it must be well formed, and
/// the engine must take it.
pub open spec fn setup_loads(g1: Seq<Seq<u8>>, g2: Seq<Seq<u8>>) -> bool {
    is_well_formed_setup(g1, g2) && setup_accepted(g1, g2)
}

/// Whether `r` is the result of loading a setup from its points: the
/// settings that hold exactly these points where the setup loads, and
/// `MalformedSetup` where it does not.
pub open spec fn is_load_result(
    g1: Seq<Seq<u8>>,
    g2: Seq<Seq<u8>>,
    r: Result<TrustedSetup, Error>,
) -> bool {
    match r {
        Ok(settings) => {
            &&& setup_loads(g1, g2)
            &&& settings.g1_points() == g1
            &&& settings.g2_points() == g2
            &&& settings.domain() == g1.len()
        },
        Err(e) => !setup_loads(g1, g2) && e == Error::MalformedSetup,
    }
}

/// Whether `n` is a power of two.
pub fn check_power_of_two(n: usize) -> (ok: bool)
    ensures
        ok == is_power_of_two(n as nat),
{
    let mut m: usize = n;
    while m > 1 && m % 2 == 0
        invariant
            is_power_of_two(m as nat) == is_power_of_two(n as nat),
        decreases m,
    {
        m = m / 2;
    }
    m == 1
}

/// A trusted setup that the engine has accepted.
pub struct TrustedSetup {
    handle: c_kzg::KzgSettings,
    domain_size: usize,
}

impl TrustedSetup {
    /// The setup's G1 points in Lagrange form, indexed by domain position.
    pub closed spec fn g1_points(&self) -> Seq<Seq<u8>> {
        setup_g1(self.handle)
    }

    /// The setup's G2 points in monomial form.
    pub closed spec fn g2_points(&self) -> Seq<Seq<u8>> {
        setup_g2(self.handle)
    }

    /// The size of the evaluation domain.
    pub closed spec fn domain(&self) -> nat {
        self.domain_size as nat
    }

    /// The domain has one position for each Lagrange point, and the points
    /// have all been decoded.
    #[verifier::type_invariant]
    pub open spec fn wf(&self) -> bool {
        &&& self.domain() == self.g1_points().len()
        &&& is_well_formed_setup(self.g1_points(), self.g2_points())
    }

    /// Builds the settings from the setup's points: `g1` the Lagrange-basis
    /// points of G1, `g2` the monomial points of G2, each compressed. Every
    /// point is decoded first, and the number of G1 points must be a power
    /// of two; the engine then takes the setup or refuses it.
    pub fn load(g1: &Vec<Vec<u8>>, g2: &Vec<Vec<u8>>) -> (r: Result<TrustedSetup, Error>)
        ensures
            is_load_result(byte_strings(g1@), byte_strings(g2@), r),
    {
        if !check_power_of_two(g1.len()) || g2.len() < 2 {
            return Err(Error::MalformedSetup);
        }
        let mut i: usize = 0;
        while i < g1.len()
            invariant
                i <= g1@.len(),
                forall|j: int| 0 <= j < i ==> is_g1_encoding(#[trigger] byte_strings(g1@)[j]),
            decreases g1@.len() - i,
        {
            assert(byte_strings(g1@)[i as int] == g1@[i as int]@);
            if decode_point(g1[i].as_slice()).is_err() {
                return Err(Error::MalformedSetup);
            }
            i = i + 1;
        }
        let mut k: usize = 0;
        while k < g2.len()
            invariant
                k <= g2@.len(),
                forall|j: int| 0 <= j < k ==> is_g2_encoding(#[trigger] byte_strings(g2@)[j]),
            decreases g2@.len() - k,
        {
            assert(byte_strings(g2@)[k as int] == g2@[k as int]@);
            if !check_g2_encoding(g2[k].as_slice()) {
                return Err(Error::MalformedSetup);
            }
            k = k + 1;
        }
        assert forall|j: int| 0 <= j < g1@.len() implies (#[trigger] g1@[j])@.len() == 48 by {
            assert(is_g1_encoding(byte_strings(g1@)[j]));
        }
        assert forall|j: int| 0 <= j < g2@.len() implies (#[trigger] g2@[j])@.len() == 96 by {
            assert(is_g2_encoding(byte_strings(g2@)[j]));
        }
        match backend_load(g1, g2) {
            Some(handle) => Ok(TrustedSetup { handle, domain_size: g1.len() }),
            None => Err(Error::MalformedSetup),
        }
    }

    /// Builds the settings from the setup's points written as hexadecimal
    /// text. One text that is not hexadecimal makes the setup malformed.
    pub fn load_from_text(g1: &Vec<String>, g2: &Vec<String>) -> (r: Result<TrustedSetup, Error>)
        ensures
            match (texts_decoding(g1@), texts_decoding(g2@)) {
                (Some(first), Some(second)) => is_load_result(first, second, r),
                _ => r matches Err(e) && e == Error::MalformedSetup,
            },
    {
        let first = match decode_hex_list(g1) {
            Some(list) => list,
            None => {
                return Err(Error::MalformedSetup);
            },
        };
        let second = match decode_hex_list(g2) {
            Some(list) => list,
            None => {
                return Err(Error::MalformedSetup);
            },
        };
        TrustedSetup::load(&first, &second)
    }

    /// The size of the evaluation domain, which a blob's element count
    /// must match.
    pub fn domain_size(&self) -> (n: usize)
        ensures
            n == self.domain(),
            n == self.g1_points().len(),
            is_power_of_two(n as nat),
    {
        proof {
            use_type_invariant(self);
        }
        self.domain_size
    }

    /// The engine's own form of the setup.
    pub(crate) fn handle(&self) -> (h: &c_kzg::KzgSettings)
        ensures
            setup_g1(*h) == self.g1_points(),
            setup_g2(*h) == self.g2_points(),
    {
        &self.handle
    }
}

/// Whether `bytes` encodes a point of G2 that decoding accepts.
pub fn check_g2_encoding(bytes: &[u8]) -> (ok: bool)
    ensures
        ok == is_g2_encoding(bytes@),
{
    if bytes.len() != BYTES_PER_G2_POINT {
        return false;
    }
    verdict_of_status(check_g2_point(bytes)).is_ok()
}

} // verus!

//! Blobs: the evaluations of a polynomial over the evaluation domain.

use crate::error::Error;
use crate::field::{decode_field_element, is_canonical_scalar, scalar_is_canonical, FieldElement};
use vstd::prelude::*;
use vstd::slice::{slice_subrange, slice_to_vec};

verus! {

/// Number of field elements in a blob.
pub const FIELD_ELEMENTS_PER_BLOB: usize = 4096;

/// Width in bytes of an encoded blob.
pub const BYTES_PER_BLOB: usize = 131072;

/// The 32 bytes of the element at position `i` of an encoded blob.
pub open spec fn blob_element(bytes: Seq<u8>, i: int) -> Seq<u8> {
    bytes.subrange(32 * i, 32 * i + 32)
}

/// Whether `bytes` encodes a blob: exactly 4096 field elements, each in
/// its canonical encoding.
pub open spec fn is_blob_encoding(bytes: Seq<u8>) -> bool {
    &&& bytes.len() == 131072
    &&& forall|i: int| 0 <= i < 4096 ==> is_canonical_scalar(#[trigger] blob_element(bytes, i))
}

/// The outcome of decoding `bytes` as a blob: the bytes themselves where
/// they encode one, `InvalidEncoding` otherwise.
pub open spec fn blob_decoding(bytes: Seq<u8>) -> Result<Seq<u8>, Error> {
    if is_blob_encoding(bytes) {
        Ok(bytes)
    } else {
        Err(Error::InvalidEncoding)
    }
}

/// The encodings of a list of blobs.
pub open spec fn blob_encodings(blobs: Seq<Blob>) -> Seq<Seq<u8>> {
    blobs.map_values(|blob: Blob| blob@)
}

/// A fixed-length sequence of field elements, held in its encoding.
#[derive(Debug, PartialEq, Eq)]
pub struct Blob {
    bytes: Vec<u8>,
}

impl View for Blob {
    type V = Seq<u8>;

    /// The encodings of the elements, one after the other.
    closed spec fn view(&self) -> Seq<u8> {
        self.bytes@
    }
}

impl Blob {
    /// A blob in memory is never partially valid.
    #[verifier::type_invariant]
    pub open spec fn wf(&self) -> bool {
        is_blob_encoding(self@)
    }

    /// Decodes a blob. It is refused as a whole unless it has the exact
    /// length and every element decodes.
    pub fn decode(bytes: &[u8]) -> (r: Result<Blob, Error>)
        ensures
            match r {
                Ok(blob) => blob_decoding(bytes@) == Ok::<Seq<u8>, Error>(blob@),
                Err(e) => blob_decoding(bytes@) == Err::<Seq<u8>, Error>(e),
            },
    {
        if bytes.len() != BYTES_PER_BLOB {
            return Err(Error::InvalidEncoding);
        }
        let mut i: usize = 0;
        while i < FIELD_ELEMENTS_PER_BLOB
            invariant
                i <= 4096,
                bytes@.len() == 131072,
                forall|j: int| 0 <= j < i ==> is_canonical_scalar(#[trigger] blob_element(bytes@, j)),
            decreases 4096 - i,
        {
            let element = slice_subrange(bytes, 32 * i, 32 * i + 32);
            assert(element@ == blob_element(bytes@, i as int));
            if !scalar_is_canonical(element) {
                return Err(Error::InvalidEncoding);
            }
            i = i + 1;
        }
        Ok(Blob { bytes: slice_to_vec(bytes) })
    }

    /// Builds a blob from its elements, if there are exactly as many as a
    /// blob holds.
    pub fn from_elements(elements: &Vec<FieldElement>) -> (r: Option<Blob>)
        ensures
            match r {
                Some(blob) => {
                    &&& elements@.len() == 4096
                    &&& forall|i: int|
                        0 <= i < 4096 ==> blob_element(blob@, i) == (#[trigger] elements@[i])@
                },
                None => elements@.len() != 4096,
            },
    {
        if elements.len() != FIELD_ELEMENTS_PER_BLOB {
            return None;
        }
        let mut bytes: Vec<u8> = Vec::new();
        let mut i: usize = 0;
        while i < FIELD_ELEMENTS_PER_BLOB
            invariant
                i <= 4096,
                elements@.len() == 4096,
                bytes@.len() == 32 * i,
                forall|j: int| 0 <= j < i ==> blob_element(bytes@, j) == (#[trigger] elements@[j])@,
                forall|j: int|
                    0 <= j < i ==> is_canonical_scalar(#[trigger] blob_element(bytes@, j)),
            decreases 4096 - i,
        {
            let ghost before = bytes@;
            let element = elements[i].as_bytes();
            bytes.extend_from_slice(element);
            proof {
                assert forall|j: int| 0 <= j < i + 1 implies blob_element(bytes@, j) == (
                #[trigger] elements@[j])@ by {
                    if j < i {
                        assert(blob_element(bytes@, j) =~= blob_element(before, j));
                    } else {
                        assert(blob_element(bytes@, j) =~= element@);
                    }
                }
                assert forall|j: int| 0 <= j < i + 1 implies is_canonical_scalar(
                    #[trigger] blob_element(bytes@, j),
                ) by {
                    if j < i {
                        assert(blob_element(bytes@, j) =~= blob_element(before, j));
                    } else {
                        assert(blob_element(bytes@, j) =~= element@);
                    }
                }
            }
            i = i + 1;
        }
        Some(Blob { bytes })
    }

    /// Encodes the blob; the result always decodes to the same blob.
    pub fn encode(&self) -> (out: Vec<u8>)
        ensures
            out@ == self@,
            is_blob_encoding(out@),
    {
        slice_to_vec(self.as_bytes())
    }

    /// The encoding, borrowed.
    pub fn as_bytes(&self) -> (out: &[u8])
        ensures
            out@ == self@,
            is_blob_encoding(out@),
    {
        proof {
            use_type_invariant(self);
        }
        self.bytes.as_slice()
    }

    /// The number of field elements, which is the same for every blob.
    pub fn len(&self) -> (n: usize)
        ensures
            n == FIELD_ELEMENTS_PER_BLOB,
            n * 32 == self@.len(),
    {
        proof {
            use_type_invariant(self);
        }
        FIELD_ELEMENTS_PER_BLOB
    }

    /// The element at position `i`, if the blob has that many.
    pub fn element(&self, i: usize) -> (r: Option<FieldElement>)
        ensures
            match r {
                Some(x) => i < 4096 && x@ == blob_element(self@, i as int),
                None => i >= 4096,
            },
    {
        if i >= FIELD_ELEMENTS_PER_BLOB {
            return None;
        }
        let bytes = self.as_bytes();
        let element = slice_subrange(bytes, 32 * i, 32 * i + 32);
        assert(element@ == blob_element(bytes@, i as int));
        match decode_field_element(element) {
            Ok(x) => Some(x),
            Err(_) => None,
        }
    }

    /// A copy of the blob.
    pub fn duplicate(&self) -> (copy: Blob)
        ensures
            copy@ == self@,
    {
        Blob { bytes: slice_to_vec(self.as_bytes()) }
    }
}

} // verus!

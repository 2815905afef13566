//! References to blobs attached to a transaction manifest.
use vstd::prelude::*;

use crate::crypto::copy_u8_array;

verus! {

/// A reference to a blob: the hash of its content.
#[derive(Clone, Copy, Debug, PartialEq, Eq, Hash)]
pub struct ManifestBlobRef(pub crate::crypto::Hash);

/// Represents an error when parsing ManifestBlobRef.
#[derive(Clone, Copy, Debug, PartialEq, Eq, Structural)]
pub enum ParseManifestBlobRefError {
    InvalidLength,
}

impl ParseManifestBlobRefError {
    /// The error as text: the name of its variant.
    pub fn to_string(&self) -> (r: String)
        ensures
            r@ == "InvalidLength"@,
    {
        match self {
            ParseManifestBlobRefError::InvalidLength => "InvalidLength".to_owned(),
        }
    }
}

impl ManifestBlobRef {
    /// The reference whose hash is `slice`, which must be 32 bytes long.
    pub fn try_from_slice(slice: &[u8]) -> (r: Result<ManifestBlobRef, ParseManifestBlobRefError>)
        ensures
            r is Ok <==> slice@.len() == 32,
            match r {
                Ok(blob) => blob.0.0@ == slice@,
                Err(e) => e == ParseManifestBlobRefError::InvalidLength,
            },
    {
        if slice.len() != 32 {
            return Err(ParseManifestBlobRefError::InvalidLength);
        }
        Ok(ManifestBlobRef(crate::crypto::Hash(copy_u8_array(slice))))
    }

    /// The bytes of the referenced hash.
    pub fn to_vec(&self) -> (r: Vec<u8>)
        ensures
            r@ == self.0.0@,
    {
        self.0.to_vec()
    }
}

impl<'a> TryFrom<&'a [u8]> for ManifestBlobRef {
    type Error = ParseManifestBlobRefError;

    fn try_from(slice: &'a [u8]) -> (r: Result<Self, Self::Error>)
        ensures
            match r {
                Ok(blob) => blob.0.0@ == slice@,
                Err(e) => e == ParseManifestBlobRefError::InvalidLength && slice@.len() != 32,
            },
    {
        let r = Self::try_from_slice(slice);
        proof {
            broadcast use vstd::array::group_array_axioms;

            if let Ok(blob) = r {
                let chosen = choose|b: ManifestBlobRef| b.0.0@ == slice@;
                assert(chosen.0.0@ == blob.0.0@);
                assert(chosen.0.0 =~= blob.0.0);
            }
        }
        r
    }
}

impl<'a> vstd::std_specs::convert::TryFromSpecImpl<&'a [u8]> for ManifestBlobRef {
    open spec fn obeys_try_from_spec() -> bool {
        true
    }

    /// A slice of 32 bytes gives the reference to the hash made of them.
    open spec fn try_from_spec(slice: &'a [u8]) -> Result<Self, ParseManifestBlobRefError> {
        if slice@.len() == 32 {
            Ok(choose|b: ManifestBlobRef| b.0.0@ == slice@)
        } else {
            Err(ParseManifestBlobRefError::InvalidLength)
        }
    }
}

/// A reference is determined by its bytes: parsing the bytes that
/// `to_vec` gives back yields the same reference, and they are always 32.
pub proof fn law_blob_ref_bytes_round_trip(blob: ManifestBlobRef, parsed: ManifestBlobRef)
    requires
        parsed.0.0@ == blob.0.0@,
    ensures
        parsed == blob,
        blob.0.0@.len() == 32,
{
    broadcast use vstd::array::group_array_axioms;

    assert(parsed.0.0 =~= blob.0.0);
}

} // verus!

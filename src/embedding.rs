use vstd::prelude::*;
use crate::error::FaceError;

verus! {

/// Length of an embedding.
pub const EMBEDDING_DIM: usize = 128;

/// Bytes in an identity hash.
pub const HASH_BYTES: usize = 8;

/// The perceptual hash of a face region: the stable identity key of a face.
#[derive(Debug, Clone, Copy)]
pub struct FaceHash {
    pub bytes: [u8; 8],
}

/// The id of the index point that stands for a hash: a name-based UUID
/// (version 3, OID namespace) over the hash bytes, in hyphenated form.
pub uninterp spec fn oid_name_uuid(name: Seq<u8>) -> Seq<char>;

/// Relies on uuid's `Uuid::new_v3` with `Uuid::NAMESPACE_OID` (an MD5
/// digest of namespace and name, so a function of the name alone), and on
/// its `Display`, which writes the 36-character hyphenated form.
#[verifier::external_body]
fn name_uuid(name: &[u8]) -> (r: String)
    ensures
        r@ == oid_name_uuid(name@),
        r@.len() == 36,
{
    uuid::Uuid::new_v3(&uuid::Uuid::NAMESPACE_OID, name).to_string()
}

impl FaceHash {
    pub fn new(bytes: [u8; 8]) -> (r: FaceHash)
        ensures
            r.bytes@ == bytes@,
    {
        FaceHash { bytes }
    }

    /// Reads a hash out of the hasher's output, which must have shape
    /// `[1, 8]` with eight bytes; else `InferenceShapeMismatch`.
    pub fn from_output(dims: &Vec<usize>, data: &Vec<u8>) -> (r: Result<FaceHash, FaceError>)
        ensures
            r is Ok <==> (dims@ == seq![1usize, HASH_BYTES] && data.len() == HASH_BYTES),
            r is Ok ==> r->Ok_0.bytes@ == data@,
            r is Err ==> r->Err_0 == FaceError::InferenceShapeMismatch,
    {
        if dims.len() != 2 || dims[0] != 1 || dims[1] != HASH_BYTES || data.len() != HASH_BYTES {
            proof {
                if dims@ == seq![1usize, HASH_BYTES] {
                    assert(dims@[0] == 1 && dims@[1] == HASH_BYTES);
                }
            }
            return Err(FaceError::InferenceShapeMismatch);
        }
        assert(dims@ =~= seq![1usize, HASH_BYTES]);
        let bytes: [u8; 8] = [data[0], data[1], data[2], data[3], data[4], data[5], data[6], data[7]];
        assert(bytes@ =~= data@);
        Ok(FaceHash { bytes })
    }

    /// The id of the hash's index point.
    pub open spec fn point_id(self) -> Seq<char> {
        oid_name_uuid(self.bytes@)
    }

    /// The id of the index point that stands for this hash: the same bytes
    /// always give the same id.
    pub fn to_string(&self) -> (r: String)
        ensures
            r@ == self.point_id(),
            r@.len() == 36,
    {
        name_uuid(self.bytes.as_slice())
    }
}

/// A face's embedding: `EMBEDDING_DIM` values of the embedding network's
/// output, each kept as the bit pattern of the network's 32-bit float, so
/// that it is carried bit for bit.
#[derive(Debug)]
pub struct FaceEmbedding {
    values: Vec<u32>,
}

impl View for FaceEmbedding {
    type V = Seq<u32>;

    closed spec fn view(&self) -> Seq<u32> {
        self.values@
    }
}

impl FaceEmbedding {
    #[verifier::type_invariant]
    spec fn sized(&self) -> bool {
        self.values.len() == EMBEDDING_DIM
    }

    /// Takes the embedding network's output, which must have shape
    /// `[1, 128]` with 128 values; else `InferenceShapeMismatch`. The values
    /// are kept as they are: no scaling, clipping or rounding.
    pub fn from_output(dims: &Vec<usize>, data: Vec<u32>) -> (r: Result<FaceEmbedding, FaceError>)
        ensures
            r is Ok <==> (dims@ == seq![1usize, EMBEDDING_DIM] && data.len() == EMBEDDING_DIM),
            r is Ok ==> r->Ok_0@ == data@,
            r is Err ==> r->Err_0 == FaceError::InferenceShapeMismatch,
    {
        if dims.len() != 2 || dims[0] != 1 || dims[1] != EMBEDDING_DIM || data.len() != EMBEDDING_DIM {
            proof {
                if dims@ == seq![1usize, EMBEDDING_DIM] {
                    assert(dims@[0] == 1 && dims@[1] == EMBEDDING_DIM);
                }
            }
            return Err(FaceError::InferenceShapeMismatch);
        }
        assert(dims@ =~= seq![1usize, EMBEDDING_DIM]);
        Ok(FaceEmbedding { values: data })
    }

    /// The values, as float bit patterns.
    pub fn data(&self) -> (r: &Vec<u32>)
        ensures
            r@ == self@,
            r@.len() == EMBEDDING_DIM,
    {
        proof { use_type_invariant(self); }
        &self.values
    }
}

} // verus!

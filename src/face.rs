use vstd::prelude::*;
use crate::embedding::{FaceEmbedding, FaceHash};

verus! {

/// One identified face: what is stored in, or matched against, the index.
/// Built once per pipeline run and never changed.
pub struct Face {
    pub hash: FaceHash,
    pub embedding: FaceEmbedding,
    pub celebrity: String,
    pub year_taken: Option<u16>,
}

/// A point of the similarity index: its id, its vector (float bit
/// patterns), and the payload fields `celebrity` and `year_taken`.
#[derive(Debug)]
pub struct IndexPoint {
    pub id: String,
    pub vector: Vec<u32>,
    pub celebrity: String,
    pub year_taken: Option<u16>,
}

/// The point that a face with these parts becomes, as plain values:
/// id, vector, label, year.
pub open spec fn point_of(
    hash: FaceHash,
    embedding: Seq<u32>,
    celebrity: Seq<char>,
    year_taken: Option<u16>,
) -> (Seq<char>, Seq<u32>, Seq<char>, Option<u16>) {
    (hash.point_id(), embedding, celebrity, year_taken)
}

impl IndexPoint {
    /// The point as plain values: id, vector, label, year.
    pub open spec fn parts(&self) -> (Seq<char>, Seq<u32>, Seq<char>, Option<u16>) {
        (self.id@, self.vector@, self.celebrity@, self.year_taken)
    }
}

impl Face {
    pub fn new(hash: FaceHash, embedding: FaceEmbedding, celebrity: String, year_taken: Option<u16>) -> (r: Face)
        ensures
            r.hash == hash,
            r.embedding@ == embedding@,
            r.celebrity@ == celebrity@,
            r.year_taken == year_taken,
    {
        Face { hash, embedding, celebrity, year_taken }
    }

    /// The index point for this face: its id comes from the hash alone, its
    /// vector is the embedding, its payload the label and the year.
    pub fn to_point(self) -> (r: IndexPoint)
        ensures
            r.parts() == point_of(self.hash, self.embedding@, self.celebrity@, self.year_taken),
            r.vector@.len() == crate::embedding::EMBEDDING_DIM,
    {
        let id = self.hash.to_string();
        let vector = self.embedding.data().clone();
        IndexPoint { id, vector, celebrity: self.celebrity, year_taken: self.year_taken }
    }
}

/// A face's point id is a function of its hash bytes alone: two faces
/// whose regions hash alike get the same id, so storing the second updates
/// the first instead of adding a duplicate.
pub proof fn lemma_same_hash_same_id(a: FaceHash, b: FaceHash)
    requires
        a.bytes@ == b.bytes@,
    ensures
        a.point_id() == b.point_id(),
{
}

/// Building a point is deterministic: equal hash, embedding, label and year
/// give equal points, field by field.
pub proof fn lemma_point_deterministic(
    h1: FaceHash, e1: Seq<u32>, c1: Seq<char>, y1: Option<u16>,
    h2: FaceHash, e2: Seq<u32>, c2: Seq<char>, y2: Option<u16>,
)
    requires
        h1.bytes@ == h2.bytes@,
        e1 == e2,
        c1 == c2,
        y1 == y2,
    ensures
        point_of(h1, e1, c1, y1) == point_of(h2, e2, c2, y2),
{
}

} // verus!

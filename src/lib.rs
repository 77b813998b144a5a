//! Face identification pipeline: locating a face in a canonical frame,
//! cutting out its region, and turning hash and embedding into the record
//! stored in, or matched against, a similarity index.
pub mod error;
pub mod image;
pub mod detector;
pub mod embedding;
pub mod face;
pub mod guess;
pub mod session;

use vstd::prelude::*;
use crate::error::FaceError;
use crate::image::FaceLocation;

verus! {

/// A detection is accepted only with a confidence strictly above this
/// (0.9, in units of `UNIT`).
pub const MIN_CONFIDENCE: i64 = 900_000_000;

/// The detection network reports at most this many candidates.
pub const MAX_DETECTIONS: usize = 200;

/// Values per candidate: image id, class, confidence, x1, y1, x2, y2.
pub const DETECTION_FIELDS: usize = 7;

/// The detection network's output has shape `[1, 1, n, 7]` with
/// `n <= MAX_DETECTIONS`, and `len` values in all.
pub open spec fn detection_layout(dims: Seq<usize>, len: int) -> bool {
    &&& dims.len() == 4
    &&& dims[0] == 1
    &&& dims[1] == 1
    &&& dims[2] <= MAX_DETECTIONS
    &&& dims[3] == DETECTION_FIELDS
    &&& len == DETECTION_FIELDS * dims[2]
}

/// Candidate `i` of a flat detection output: its confidence, and its box
/// with `x = x1`, `y = y1`, `width = x2 - x1`, `height = y2 - y1`.
pub open spec fn detection_at(data: Seq<i32>, i: int) -> (i64, FaceLocation) {
    let b = DETECTION_FIELDS * i;
    (
        data[b + 2] as i64,
        FaceLocation {
            x: data[b + 3] as i64,
            y: data[b + 4] as i64,
            width: (data[b + 5] - data[b + 3]) as i64,
            height: (data[b + 6] - data[b + 4]) as i64,
        },
    )
}

/// The first candidate's box, when its confidence is above `MIN_CONFIDENCE`.
/// Candidates are taken in the network's order and not sorted again here:
/// this relies on the network ranking them by confidence.
pub open spec fn best_of(detections: Seq<(i64, FaceLocation)>) -> Option<FaceLocation> {
    if detections.len() > 0 && detections[0].0 > MIN_CONFIDENCE {
        Some(detections[0].1)
    } else {
        None
    }
}

/// Reads the candidates out of the detection network's output, given as its
/// shape `dims` and its values `data` (each in units of `UNIT`), in the
/// network's order. Any other layout is `InferenceShapeMismatch`: nothing is
/// truncated or read past the end.
pub fn detect(dims: &Vec<usize>, data: &Vec<i32>) -> (r: Result<Vec<(i64, FaceLocation)>, FaceError>)
    ensures
        r is Ok <==> detection_layout(dims@, data.len() as int),
        r is Ok ==> r->Ok_0.len() == dims@[2]
            && forall|i: int| 0 <= i < dims@[2] ==> (#[trigger] r->Ok_0@[i]) == detection_at(data@, i),
        r is Err ==> r->Err_0 == FaceError::InferenceShapeMismatch,
{
    if dims.len() != 4 || dims[0] != 1 || dims[1] != 1 || dims[2] > MAX_DETECTIONS
        || dims[3] != DETECTION_FIELDS || data.len() != DETECTION_FIELDS * dims[2] {
        return Err(FaceError::InferenceShapeMismatch);
    }
    let n = dims[2];
    let mut out: Vec<(i64, FaceLocation)> = Vec::new();
    let mut i: usize = 0;
    while i < n
        invariant
            n <= MAX_DETECTIONS,
            data.len() == DETECTION_FIELDS * n,
            0 <= i <= n,
            out.len() == i,
            forall|k: int| 0 <= k < i ==> (#[trigger] out@[k]) == detection_at(data@, k),
        decreases n - i,
    {
        let b = DETECTION_FIELDS * i;
        let x1 = data[b + 3] as i64;
        let y1 = data[b + 4] as i64;
        let x2 = data[b + 5] as i64;
        let y2 = data[b + 6] as i64;
        let location = FaceLocation::new(x1, y1, x2 - x1, y2 - y1);
        out.push((data[b + 2] as i64, location));
        i = i + 1;
    }
    Ok(out)
}

/// The first candidate's box if its confidence is strictly above
/// `MIN_CONFIDENCE`; at or below it counts as no face.
pub fn best(detections: &Vec<(i64, FaceLocation)>) -> (r: Option<FaceLocation>)
    ensures
        r == best_of(detections@),
{
    if detections.len() > 0 && detections[0].0 > MIN_CONFIDENCE {
        Some(detections[0].1)
    } else {
        None
    }
}

/// `detect`, then `best`: the accepted face of a detection output, if any.
pub fn detect_best(dims: &Vec<usize>, data: &Vec<i32>) -> (r: Result<Option<FaceLocation>, FaceError>)
    ensures
        r is Ok <==> detection_layout(dims@, data.len() as int),
        r is Ok ==> r->Ok_0 == (if dims@[2] > 0 && data@[2] > MIN_CONFIDENCE {
            Some(detection_at(data@, 0).1)
        } else {
            None::<FaceLocation>
        }),
        r is Err ==> r->Err_0 == FaceError::InferenceShapeMismatch,
{
    let detections = detect(dims, data)?;
    Ok(best(&detections))
}

} // verus!

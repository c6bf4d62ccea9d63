//! What is decided about detected faces once the detector has run.

use crate::error::YuNetError;
use crate::scalar::lemma_order_total;
use crate::scalar::Scalar;
use vstd::prelude::*;

verus! {

/// The bounding box of a face, in pixels.
#[derive(Debug, Clone, Copy, PartialEq, Eq, Structural)]
pub struct FaceBox {
    pub x: i32,
    pub y: i32,
    pub width: i32,
    pub height: i32,
}

/// Face detection result.
#[derive(Debug, Clone)]
pub struct FaceDetection {
    /// Bounding box of the detected face.
    pub bbox: FaceBox,
    /// Detection confidence.
    pub confidence: Scalar,
    /// Facial landmarks: two eyes, nose, two mouth corners.
    pub landmarks: Vec<(i32, i32)>,
}

/// The areas by which two boxes are compared: that of their intersection
/// and that of their union.
#[derive(Debug, Clone, Copy, PartialEq, Eq, Structural)]
pub struct Overlap {
    pub intersection: i128,
    pub union: i128,
}

/// The larger of two numbers.
pub open spec fn larger(a: int, b: int) -> int {
    if a >= b {
        a
    } else {
        b
    }
}

/// The smaller of two numbers.
pub open spec fn smaller(a: int, b: int) -> int {
    if a <= b {
        a
    } else {
        b
    }
}

/// The area that two boxes share; zero where they do not overlap.
pub open spec fn shared_area(a: FaceBox, b: FaceBox) -> int {
    let left = larger(a.x as int, b.x as int);
    let top = larger(a.y as int, b.y as int);
    let right = smaller(a.x + a.width, b.x + b.width);
    let bottom = smaller(a.y + a.height, b.y + b.height);
    if right <= left || bottom <= top {
        0
    } else {
        (right - left) * (bottom - top)
    }
}

/// The area that two boxes cover together.
pub open spec fn joint_area(a: FaceBox, b: FaceBox) -> int {
    a.width * a.height + b.width * b.height - shared_area(a, b)
}

/// The confidence of no detection before `end` is above that of the
/// detection at `best`, and none from `best` on is equal to or above it but
/// the detection itself: `best` is the last of the most confident.
pub open spec fn leads(detections: Seq<FaceDetection>, best: int) -> bool {
    &&& 0 <= best < detections.len()
    &&& forall|i: int|
        0 <= i < detections.len() ==> !detections[best].confidence.lt(
            (#[trigger] detections[i]).confidence,
        )
    &&& forall|i: int|
        best < i < detections.len() ==> (#[trigger] detections[i]).confidence.lt(
            detections[best].confidence,
        )
}

/// The areas of intersection and union of two bounding boxes, from which
/// their intersection over union is the quotient. Boxes that do not overlap
/// share an area of zero.
pub fn calculate_iou(bbox1: &FaceBox, bbox2: &FaceBox) -> (r: Overlap)
    ensures
        r.intersection == shared_area(*bbox1, *bbox2),
        r.union == joint_area(*bbox1, *bbox2),
{
    let left: i128 = if bbox1.x >= bbox2.x {
        bbox1.x as i128
    } else {
        bbox2.x as i128
    };
    let top: i128 = if bbox1.y >= bbox2.y {
        bbox1.y as i128
    } else {
        bbox2.y as i128
    };
    let right1: i128 = bbox1.x as i128 + bbox1.width as i128;
    let right2: i128 = bbox2.x as i128 + bbox2.width as i128;
    let right: i128 = if right1 <= right2 {
        right1
    } else {
        right2
    };
    let bottom1: i128 = bbox1.y as i128 + bbox1.height as i128;
    let bottom2: i128 = bbox2.y as i128 + bbox2.height as i128;
    let bottom: i128 = if bottom1 <= bottom2 {
        bottom1
    } else {
        bottom2
    };
    let w1: i128 = bbox1.width as i128;
    let h1: i128 = bbox1.height as i128;
    let w2: i128 = bbox2.width as i128;
    let h2: i128 = bbox2.height as i128;
    assert(-0x4000_0000_0000_0000 <= w1 * h1 <= 0x4000_0000_0000_0000) by (nonlinear_arith)
        requires
            -0x8000_0000 <= w1 <= 0x7fff_ffff,
            -0x8000_0000 <= h1 <= 0x7fff_ffff,
    ;
    assert(-0x4000_0000_0000_0000 <= w2 * h2 <= 0x4000_0000_0000_0000) by (nonlinear_arith)
        requires
            -0x8000_0000 <= w2 <= 0x7fff_ffff,
            -0x8000_0000 <= h2 <= 0x7fff_ffff,
    ;
    let shared: i128 = if right <= left || bottom <= top {
        0
    } else {
        let dx: i128 = right - left;
        let dy: i128 = bottom - top;
        assert(0 < dx * dy <= 0x1_0000_0000_0000_0000_0000) by (nonlinear_arith)
            requires
                0 < dx <= 0x2_0000_0000,
                0 < dy <= 0x2_0000_0000,
        ;
        dx * dy
    };
    Overlap { intersection: shared, union: w1 * h1 + w2 * h2 - shared }
}

/// Get the most confident of the detections. Of several that are equally
/// confident the last is taken. No detection at all is an error.
pub fn get_largest_face(detections: &Vec<FaceDetection>) -> (r: Result<usize, YuNetError>)
    requires
        forall|i: int| 0 <= i < detections@.len() ==> !(#[trigger] detections@[i]).confidence.is_nan(),
    ensures
        r.is_ok() <==> detections@.len() > 0,
        r matches Err(e) ==> e is NoFacesDetected,
        r matches Ok(best) ==> leads(detections@, best as int),
{
    if detections.len() == 0 {
        return Err(YuNetError::NoFacesDetected);
    }
    let mut best: usize = 0;
    let mut i: usize = 1;
    while i < detections.len()
        invariant
            1 <= i <= detections@.len(),
            best < i,
            forall|j: int|
                0 <= j < detections@.len() ==> !(#[trigger] detections@[j]).confidence.is_nan(),
            forall|j: int|
                0 <= j < i ==> !detections@[best as int].confidence.lt(
                    (#[trigger] detections@[j]).confidence,
                ),
            forall|j: int|
                best < j < i ==> (#[trigger] detections@[j]).confidence.lt(
                    detections@[best as int].confidence,
                ),
        decreases detections@.len() - i,
    {
        if !detections[i].confidence.less_than(detections[best].confidence) {
            proof {
                let top = detections@[i as int].confidence;
                let old_top = detections@[best as int].confidence;
                assert forall|j: int| 0 <= j < i + 1 implies !top.lt(
                    (#[trigger] detections@[j]).confidence,
                ) by {
                    lemma_order_total(top, old_top);
                }
            }
            best = i;
        }
        i = i + 1;
    }
    Ok(best)
}

} // verus!

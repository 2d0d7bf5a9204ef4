//! The inbound conversion request.

use vstd::prelude::*;

verus! {

/// A conversion request: the source object to convert and the destination
/// object to write. Immutable once received; consumed once by the
/// pipeline's driver.
pub struct ConvertRequest {
    /// Bucket the input source file is within.
    pub source_bucket: String,
    /// Key within the source bucket for the source file.
    pub source_key: String,
    /// Bucket to store the output file.
    pub dest_bucket: String,
    /// Key within the `dest_bucket` for the output file.
    pub dest_key: String,
}

/// Mathematical model of a request: the four names as character
/// sequences.
pub struct ConvertRequestV {
    pub source_bucket: Seq<char>,
    pub source_key: Seq<char>,
    pub dest_bucket: Seq<char>,
    pub dest_key: Seq<char>,
}

impl View for ConvertRequest {
    type V = ConvertRequestV;

    open spec fn view(&self) -> ConvertRequestV {
        ConvertRequestV {
            source_bucket: self.source_bucket@,
            source_key: self.source_key@,
            dest_bucket: self.dest_bucket@,
            dest_key: self.dest_key@,
        }
    }
}

} // verus!

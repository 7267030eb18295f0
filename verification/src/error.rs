//! Why a file operation may fail.
use vstd::prelude::*;

verus! {

/// `std::io::ErrorKind`: the kind of a filesystem failure. It is carried
/// through as it comes; nothing here looks into it.
#[verifier::external_type_specification]
#[verifier::external_body]
pub struct ExErrorKind(std::io::ErrorKind);

/// `ErrorKind::clone`: the kind is `Copy`, so its clone is the kind itself.
pub assume_specification[ <std::io::ErrorKind as Clone>::clone ](kind: &std::io::ErrorKind) -> (copy: std::io::ErrorKind)
    ensures
        copy == *kind,
;

/// Why opening or saving a file ended without a result.
#[derive(Debug, Clone)]
pub enum Error {
    /// The user closed the file dialog without choosing anything.
    DialogClosed,
    /// The filesystem refused the read or the write.
    IoError(std::io::ErrorKind),
}

} // verus!

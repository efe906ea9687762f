//! Failure classifier: maps a downstream outcome to one of Success,
//! TransientFailure, or BusinessRejection.
//!
//! Only transient failures feed the circuit breaker's failure count;
//! business rejections — legitimate domain outcomes such as a wrong password
//! or a duplicate email — must leave the breaker untouched, otherwise a burst
//! of user errors would open the circuit and lock out valid users. A
//! category outside the fixed set classifies as transient: the conservative
//! default is to trip the breaker rather than to ignore the failure.

use vstd::prelude::*;

verus! {

/// Category code carried by a failed downstream call, drawn from the fixed
/// set the wire protocol can report. `Unknown` stands for any code outside
/// that set.
#[derive(Clone, Copy, Debug, PartialEq, Eq, Structural)]
pub enum ErrorCategory {
    /// The downstream service could not be reached.
    Unavailable,
    /// The call ran out of time.
    DeadlineExceeded,
    /// The downstream service failed internally.
    Internal,
    /// The request was malformed.
    InvalidArgument,
    /// The addressed entity does not exist.
    NotFound,
    /// The entity to be created already exists.
    AlreadyExists,
    /// The caller may not perform the operation.
    PermissionDenied,
    /// The caller's credentials were missing or rejected.
    Unauthenticated,
    /// A code outside the fixed set.
    Unknown,
}

/// What a downstream outcome means to the resilience layer.
#[derive(Clone, Copy, Debug, PartialEq, Eq, Structural)]
pub enum Classification {
    /// The call succeeded.
    Success,
    /// An infrastructure fault; feeds the breaker's failure count.
    TransientFailure,
    /// A legitimate domain rejection; recorded nowhere.
    BusinessRejection,
}

/// A downstream outcome: success, or a failure carrying its category.
#[derive(Clone, Copy, Debug, PartialEq, Eq, Structural)]
pub enum Outcome {
    /// The call returned normally.
    Success,
    /// The call failed with the given category.
    Failed(ErrorCategory),
}

/// Whether a failure category counts as a transient infrastructure fault.
/// Categories outside the fixed set default to transient.
pub open spec fn spec_transient(c: ErrorCategory) -> bool {
    match c {
        ErrorCategory::Unavailable => true,
        ErrorCategory::DeadlineExceeded => true,
        ErrorCategory::Internal => true,
        ErrorCategory::Unknown => true,
        ErrorCategory::InvalidArgument => false,
        ErrorCategory::NotFound => false,
        ErrorCategory::AlreadyExists => false,
        ErrorCategory::PermissionDenied => false,
        ErrorCategory::Unauthenticated => false,
    }
}

/// The classification of a downstream outcome.
pub open spec fn spec_classify(o: Outcome) -> Classification {
    match o {
        Outcome::Success => Classification::Success,
        Outcome::Failed(c) => if spec_transient(c) {
            Classification::TransientFailure
        } else {
            Classification::BusinessRejection
        },
    }
}

/// Classify a downstream outcome. A success classifies as Success; a failure
/// whose category is Unavailable, DeadlineExceeded, Internal, or outside the
/// fixed set classifies as TransientFailure; every other failure is a
/// BusinessRejection.
pub fn classify(o: &Outcome) -> (r: Classification)
    ensures
        r == spec_classify(*o),
{
    match o {
        Outcome::Success => Classification::Success,
        Outcome::Failed(c) => match c {
            ErrorCategory::Unavailable => Classification::TransientFailure,
            ErrorCategory::DeadlineExceeded => Classification::TransientFailure,
            ErrorCategory::Internal => Classification::TransientFailure,
            ErrorCategory::Unknown => Classification::TransientFailure,
            ErrorCategory::InvalidArgument => Classification::BusinessRejection,
            ErrorCategory::NotFound => Classification::BusinessRejection,
            ErrorCategory::AlreadyExists => Classification::BusinessRejection,
            ErrorCategory::PermissionDenied => Classification::BusinessRejection,
            ErrorCategory::Unauthenticated => Classification::BusinessRejection,
        },
    }
}

/// Exactly the three infrastructure categories, together with codes outside
/// the fixed set, classify as TransientFailure; every failure in the fixed
/// set outside those three is a BusinessRejection; only a success classifies
/// as Success.
pub proof fn lemma_classification_exact(o: Outcome)
    ensures
        spec_classify(o) is TransientFailure <==> (o matches Outcome::Failed(c) && (
            c == ErrorCategory::Unavailable
            || c == ErrorCategory::DeadlineExceeded
            || c == ErrorCategory::Internal
            || c == ErrorCategory::Unknown
        )),
        spec_classify(o) is Success <==> o is Success,
        spec_classify(o) is BusinessRejection <==> (o matches Outcome::Failed(c) && (
            c == ErrorCategory::InvalidArgument
            || c == ErrorCategory::NotFound
            || c == ErrorCategory::AlreadyExists
            || c == ErrorCategory::PermissionDenied
            || c == ErrorCategory::Unauthenticated
        )),
{
}

} // verus!

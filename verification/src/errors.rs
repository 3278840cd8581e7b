//! The failure taxonomy of the core.
//!
//! Every command ends in exactly one success or exactly one of these
//! categories; validation failures stay field-addressable so a consumer can
//! highlight several fields at once.

use vstd::prelude::*;

verus! {

/// The payload field a validation failure points at.
#[derive(Clone, Copy, Debug, PartialEq, Eq, Structural)]
pub enum Field {
    Title,
    Description,
    Body,
    TagList,
}

/// One field-addressable validation failure.
#[derive(Debug)]
pub struct FieldError {
    pub field: Field,
    pub reason: String,
}

/// Ghost mirror of [`FieldError`].
pub ghost struct FieldErrorV {
    pub field: Field,
    pub reason: Seq<char>,
}

impl View for FieldError {
    type V = FieldErrorV;

    open spec fn view(&self) -> FieldErrorV {
        FieldErrorV { field: self.field, reason: self.reason@ }
    }
}

/// Every way a command can fail.
///
/// `Validation` is reported before any store access; `Unauthorized` means a
/// required identity was absent; `Forbidden` means a valid identity that does
/// not own the target; `NotFound` means the slug does not exist; `Conflict`
/// is reserved for uniqueness violations (a slug already taken at creation);
/// `Transient` marks store-side resource exhaustion, distinguishable from
/// every domain error so the boundary can retry instead of misreporting.
#[derive(Debug)]
pub enum DomainError {
    Validation(Vec<FieldError>),
    Unauthorized,
    Forbidden,
    NotFound,
    Conflict,
    Transient,
}

/// Ghost mirror of [`DomainError`].
pub ghost enum ErrV {
    Validation(Seq<FieldErrorV>),
    Unauthorized,
    Forbidden,
    NotFound,
    Conflict,
    Transient,
}

impl View for DomainError {
    type V = ErrV;

    open spec fn view(&self) -> ErrV {
        match self {
            DomainError::Validation(v) => ErrV::Validation(v@.map_values(|e: FieldError| e@)),
            DomainError::Unauthorized => ErrV::Unauthorized,
            DomainError::Forbidden => ErrV::Forbidden,
            DomainError::NotFound => ErrV::NotFound,
            DomainError::Conflict => ErrV::Conflict,
            DomainError::Transient => ErrV::Transient,
        }
    }
}

impl DomainError {
    /// A short stable label for the category, for boundary-side reporting.
    pub fn category(&self) -> (r: &'static str)
        ensures
            r@ == self.spec_category(),
    {
        proof {
            reveal_strlit("validation");
            reveal_strlit("unauthorized");
            reveal_strlit("forbidden");
            reveal_strlit("not found");
            reveal_strlit("conflict");
            reveal_strlit("transient");
        }
        match self {
            DomainError::Validation(_) => "validation",
            DomainError::Unauthorized => "unauthorized",
            DomainError::Forbidden => "forbidden",
            DomainError::NotFound => "not found",
            DomainError::Conflict => "conflict",
            DomainError::Transient => "transient",
        }
    }

    pub open spec fn spec_category(&self) -> Seq<char> {
        match self {
            DomainError::Validation(_) => "validation"@,
            DomainError::Unauthorized => "unauthorized"@,
            DomainError::Forbidden => "forbidden"@,
            DomainError::NotFound => "not found"@,
            DomainError::Conflict => "conflict"@,
            DomainError::Transient => "transient"@,
        }
    }
}

} // verus!

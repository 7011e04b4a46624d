//! The error values of the library, and their mathematical model.

use vstd::prelude::*;

verus! {

/// One failed attempt of the fallback loop: the variant that was tried and
/// the error it gave.
#[derive(Debug, PartialEq)]
pub struct VariantFailure {
    pub variant_name: String,
    pub error: BatchError,
}

/// What went wrong.
#[derive(Debug, PartialEq)]
pub enum ErrorDetails {
    /// Every candidate variant was tried and failed. The failures stand in
    /// the order in which they happened, one for each variant name.
    AllVariantsFailed { errors: Vec<VariantFailure> },
    /// The item at `index` of the batch was refused.
    BatchInputValidation { index: usize, message: String },
    /// A variant could not serve the batch.
    Inference { message: String },
    /// The function has no variant to serve the batch.
    InvalidFunctionVariants { message: String },
    /// The request as a whole is malformed.
    InvalidRequest { message: String },
    /// A structured field could not be encoded.
    Serialization { message: String },
    /// The pinned variant is not one of the function's variants.
    UnknownVariant { name: String },
}

/// An error of the batch pipeline.
#[derive(Debug, PartialEq)]
pub struct BatchError {
    pub details: Box<ErrorDetails>,
}

/// The model of one [`VariantFailure`].
pub struct FailureView {
    pub variant_name: Seq<char>,
    pub error: ErrorView,
}

/// The model of a [`BatchError`]: the same cases, with texts as sequences of
/// characters.
pub enum ErrorView {
    AllVariantsFailed { errors: Seq<FailureView> },
    BatchInputValidation { index: nat, message: Seq<char> },
    Inference { message: Seq<char> },
    InvalidFunctionVariants { message: Seq<char> },
    InvalidRequest { message: Seq<char> },
    Serialization { message: Seq<char> },
    UnknownVariant { name: Seq<char> },
}

/// The model of `details`.
pub open spec fn details_model(details: ErrorDetails) -> ErrorView
    decreases details,
{
    match details {
        ErrorDetails::AllVariantsFailed { errors } => ErrorView::AllVariantsFailed {
            errors: Seq::new(
                errors@.len(),
                |i: int|
                    FailureView {
                        variant_name: errors@[i].variant_name@,
                        error: if 0 <= i < errors@.len() {
                            details_model(*errors@[i].error.details)
                        } else {
                            arbitrary()
                        },
                    },
            ),
        },
        ErrorDetails::BatchInputValidation { index, message } => ErrorView::BatchInputValidation {
            index: index as nat,
            message: message@,
        },
        ErrorDetails::Inference { message } => ErrorView::Inference { message: message@ },
        ErrorDetails::InvalidFunctionVariants { message } => ErrorView::InvalidFunctionVariants {
            message: message@,
        },
        ErrorDetails::InvalidRequest { message } => ErrorView::InvalidRequest { message: message@ },
        ErrorDetails::Serialization { message } => ErrorView::Serialization { message: message@ },
        ErrorDetails::UnknownVariant { name } => ErrorView::UnknownVariant { name: name@ },
    }
}

impl View for ErrorDetails {
    type V = ErrorView;

    open spec fn view(&self) -> ErrorView {
        details_model(*self)
    }
}

impl View for BatchError {
    type V = ErrorView;

    open spec fn view(&self) -> ErrorView {
        self.details.view()
    }
}

impl BatchError {
    /// Wraps `details` into an error.
    pub fn new(details: ErrorDetails) -> (e: BatchError)
        ensures
            e@ == details@,
    {
        BatchError { details: Box::new(details) }
    }

    /// The details of this error.
    pub fn get_details(&self) -> (d: &ErrorDetails)
        ensures
            d@ == self@,
    {
        &*self.details
    }
}

impl From<ErrorDetails> for BatchError {
    fn from(details: ErrorDetails) -> (e: BatchError) {
        BatchError { details: Box::new(details) }
    }
}

impl vstd::std_specs::convert::FromSpecImpl<ErrorDetails> for BatchError {
    open spec fn obeys_from_spec() -> bool {
        true
    }

    open spec fn from_spec(details: ErrorDetails) -> BatchError {
        BatchError { details: Box::new(details) }
    }
}

} // verus!

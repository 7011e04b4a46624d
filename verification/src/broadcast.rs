//! Optional per-item override arrays, as the request carries them for each
//! field: absent, or one optional entry per item of the batch.

use crate::error::{BatchError, ErrorDetails, ErrorView};
use crate::text::{vector_length_message, vector_length_message_string};
use vstd::prelude::*;

verus! {

/// Whether an override array is absent or has exactly `n` entries.
pub open spec fn field_fits<T>(field: Option<Vec<Option<T>>>, n: nat) -> bool {
    field matches Some(v) ==> v@.len() == n
}

/// The override that `field` holds for item `i`: its `i`-th entry, and
/// `None` where the array is absent.
pub open spec fn entry_at<T>(field: Option<Vec<Option<T>>>, i: int) -> Option<T> {
    match field {
        Some(v) => v@[i],
        None => None,
    }
}

/// Checks one override array against the batch size `n`; the error names
/// the field, the array's length and `n`.
pub fn check_field_len<T>(name: &str, field: &Option<Vec<Option<T>>>, n: usize) -> (r: Result<
    (),
    BatchError,
>)
    ensures
        r is Ok <==> field_fits(*field, n as nat),
        r matches Err(e) ==> e@ == (ErrorView::InvalidRequest {
            message: vector_length_message(name@, field->0@.len(), n as nat),
        }),
{
    match field {
        Some(v) => {
            if v.len() != n {
                let message = vector_length_message_string(name, v.len(), n);
                Err(BatchError::new(ErrorDetails::InvalidRequest { message }))
            } else {
                Ok(())
            }
        },
        None => Ok(()),
    }
}

/// Reads the override that `field` holds for item `i`.
pub fn entry_of<T: Copy>(field: &Option<Vec<Option<T>>>, i: usize) -> (entry: Option<T>)
    requires
        field matches Some(v) ==> i < v@.len(),
    ensures
        entry == entry_at(*field, i as int),
{
    match field {
        Some(v) => v[i],
        None => None,
    }
}

/// Moves the override for item `i` out of `field`. The entry's place is left
/// empty; every other entry stays.
pub fn take_entry<T>(field: &mut Option<Vec<Option<T>>>, i: usize) -> (entry: Option<T>)
    requires
        *old(field) matches Some(v) ==> i < v@.len(),
    ensures
        entry == entry_at(*old(field), i as int),
        *old(field) is None ==> *final(field) is None,
        *old(field) matches Some(v) ==> (*final(field) matches Some(w) && w@ == v@.update(
            i as int,
            None,
        )),
{
    match field {
        Some(v) => v[i].take(),
        None => None,
    }
}

} // verus!

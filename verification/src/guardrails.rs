//! Convenience validators built on the text guard.
use vstd::prelude::*;
use crate::text_guard::{analysis, result_is, Guard, ValidationResult, DEFAULT_MAX_LEN};

verus! {

/// Validates `input` with the default guard (4096-byte limit).
pub fn validate_input(input: &str) -> (r: ValidationResult)
    ensures
        result_is(r, analysis(DEFAULT_MAX_LEN as nat, input@)),
{
    Guard::new().analyze(input)
}

/// Validates `input` with a guard limited to `max_len` bytes.
pub fn validate_input_with_max_len(input: &str, max_len: usize) -> (r: ValidationResult)
    ensures
        result_is(r, analysis(max_len as nat, input@)),
{
    Guard::new().max_len(max_len).analyze(input)
}

} // verus!

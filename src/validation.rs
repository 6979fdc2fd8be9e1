use vstd::prelude::*;

use crate::models::error::ApplicationError;

verus! {

pub open spec fn len_within(s: Seq<char>, min: int, max: int) -> bool {
    min <= s.len() <= max
}

/// An absent optional field meets any length constraint.
pub open spec fn opt_len_within(o: Option<Seq<char>>, min: int, max: int) -> bool {
    match o {
        Some(s) => len_within(s, min, max),
        None => true,
    }
}

/// Checks that a field holds between `min` and `max` characters.
pub fn check_length(s: &String, min: usize, max: usize, field: &str) -> (r: Result<
    (),
    ApplicationError,
>)
    ensures
        r is Ok <==> len_within(s@, min as int, max as int),
        r matches Err(e) ==> e is ValidationError,
{
    let n = s.as_str().unicode_len();
    if n < min || n > max {
        return Err(ApplicationError::ValidationError(String::from_str(field)));
    }
    Ok(())
}

/// Checks the length of an optional field when it is present.
pub fn check_optional_length(o: &Option<String>, min: usize, max: usize, field: &str) -> (r:
    Result<(), ApplicationError>)
    ensures
        r is Ok <==> opt_len_within(
            match o {
                Some(s) => Some(s@),
                None => None,
            },
            min as int,
            max as int,
        ),
        r matches Err(e) ==> e is ValidationError,
{
    match o {
        Some(s) => check_length(s, min, max, field),
        None => Ok(()),
    }
}

} // verus!

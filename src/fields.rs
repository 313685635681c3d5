use vstd::prelude::*;
use vstd::utf8::encode_utf8;
use crate::error::SoarError;

verus! {

/// Largest length, in bytes, of a title.
pub const MAX_TITLE_LEN: usize = 30;

/// Largest length, in bytes, of a description.
pub const MAX_DESCRIPTION_LEN: usize = 200;

/// Length in bytes of the UTF-8 encoding of `s`, as `str::len` reports it.
pub open spec fn text_len(s: &String) -> usize {
    encode_utf8(s@).len() as usize
}

/// Length in bytes of the UTF-8 encoding of `s`.
pub fn byte_len(s: &String) -> (r: usize)
    ensures
        r == text_len(s),
{
    s.as_str().len()
}

/// Checks that text fields do not exceed the room their storage has.
pub trait FieldsCheck {
    /// Every text field is within its length limit.
    spec fn fields_within_limits(&self) -> bool;

    /// Succeeds exactly when every text field is within its length limit,
    /// and fails with [`SoarError::InvalidFieldLength`] otherwise.
    fn check(&self) -> (r: Result<(), SoarError>)
        ensures
            r is Ok <==> self.fields_within_limits(),
            r is Err ==> r == Err::<(), SoarError>(SoarError::InvalidFieldLength),
    ;
}

} // verus!

//! Text as the wire and the stores see it: UTF-8 bytes.

use vstd::prelude::*;

verus! {

/// `String::len` returns the length of the string in bytes, that is the
/// length of its UTF-8 encoding.
pub assume_specification[ String::len ](text: &String) -> (length: usize)
    ensures
        length == vstd::utf8::encode_utf8(text@).len(),
;

} // verus!

//! What the encoder needs from `String` beyond the specifications of vstd.

use vstd::prelude::*;

verus! {

/// `String::with_capacity`: the new string is empty, whatever room was asked
/// for. The call panics above `isize::MAX` bytes, so such a request is left out.
pub assume_specification[ String::with_capacity ](capacity: usize) -> (r: String)
    requires
        capacity <= isize::MAX,
    ensures
        r@ == Seq::<char>::empty(),
;

/// `String::push`: the character is appended at the end.
pub assume_specification[ String::push ](s: &mut String, ch: char)
    ensures
        final(s)@ == old(s)@.push(ch),
;

} // verus!

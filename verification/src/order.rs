//! The order of names: byte by byte, as strings are ordered.

use vstd::prelude::*;
use vstd::string::StringSliceAdditionalSpecFns;
use vstd::utf8::{encode_utf8, encode_utf8_decode_utf8};

verus! {

/// Whether `left` comes before `right`, byte by byte: at the first byte in
/// which they differ the smaller byte decides, and a beginning of a sequence
/// comes before the whole.
pub open spec fn bytes_before(left: Seq<u8>, right: Seq<u8>) -> bool
    decreases left.len(),
{
    if right.len() == 0 {
        false
    } else if left.len() == 0 {
        true
    } else if left[0] != right[0] {
        left[0] < right[0]
    } else {
        bytes_before(left.drop_first(), right.drop_first())
    }
}

/// Whether the name `left` comes before the name `right`.
pub open spec fn name_before(left: Seq<char>, right: Seq<char>) -> bool {
    bytes_before(encode_utf8(left), encode_utf8(right))
}

pub proof fn bytes_before_is_strict(left: Seq<u8>)
    ensures
        !bytes_before(left, left),
    decreases left.len(),
{
    if left.len() > 0 {
        bytes_before_is_strict(left.drop_first());
    }
}

pub proof fn bytes_before_is_transitive(left: Seq<u8>, middle: Seq<u8>, right: Seq<u8>)
    requires
        bytes_before(left, middle),
        bytes_before(middle, right),
    ensures
        bytes_before(left, right),
    decreases left.len(),
{
    if left.len() > 0 && left[0] == middle[0] && middle[0] == right[0] {
        bytes_before_is_transitive(left.drop_first(), middle.drop_first(), right.drop_first());
    }
}

pub proof fn bytes_before_is_total(left: Seq<u8>, right: Seq<u8>)
    ensures
        bytes_before(left, right) || bytes_before(right, left) || left == right,
    decreases left.len(),
{
    if left.len() > 0 && right.len() > 0 && left[0] == right[0] {
        bytes_before_is_total(left.drop_first(), right.drop_first());
        if left.drop_first() == right.drop_first() {
            assert(left =~= seq![left[0]] + left.drop_first());
            assert(right =~= seq![right[0]] + right.drop_first());
        }
    } else if left.len() == 0 && right.len() == 0 {
        assert(left =~= right);
    }
}

/// No name comes before itself, a name that comes before a second that comes
/// before a third comes before the third, and of two different names one
/// comes before the other.
pub proof fn name_before_is_an_order(left: Seq<char>, middle: Seq<char>, right: Seq<char>)
    ensures
        !name_before(left, left),
        name_before(left, middle) && name_before(middle, right) ==> name_before(left, right),
        name_before(left, right) || name_before(right, left) || left == right,
{
    bytes_before_is_strict(encode_utf8(left));
    if name_before(left, middle) && name_before(middle, right) {
        bytes_before_is_transitive(encode_utf8(left), encode_utf8(middle), encode_utf8(right));
    }
    bytes_before_is_total(encode_utf8(left), encode_utf8(right));
    encode_utf8_decode_utf8(left);
    encode_utf8_decode_utf8(right);
}

/// Whether the name `left` comes before the name `right`.
pub fn name_less(left: &str, right: &str) -> (before: bool)
    ensures
        before == name_before(left@, right@),
{
    let left_bytes = left.as_bytes();
    let right_bytes = right.as_bytes();
    let mut at: usize = 0;
    assert(left_bytes@.skip(0) =~= left_bytes@);
    assert(right_bytes@.skip(0) =~= right_bytes@);
    while at < left_bytes.len() && at < right_bytes.len()
        invariant
            at <= left_bytes.len(),
            at <= right_bytes.len(),
            left_bytes@ == left.spec_bytes(),
            right_bytes@ == right.spec_bytes(),
            name_before(left@, right@) == bytes_before(
                left_bytes@.skip(at as int),
                right_bytes@.skip(at as int),
            ),
        decreases left_bytes.len() - at,
    {
        if left_bytes[at] != right_bytes[at] {
            return left_bytes[at] < right_bytes[at];
        }
        assert(left_bytes@.skip(at as int).drop_first() =~= left_bytes@.skip(at as int + 1));
        assert(right_bytes@.skip(at as int).drop_first() =~= right_bytes@.skip(at as int + 1));
        at += 1;
    }
    at < right_bytes.len()
}

} // verus!

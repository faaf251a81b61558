//! The firmware version and how its text is read.
//!
//! A version reads `major.minor.patch`, optionally followed by `-a` and the
//! number of an alpha release. It is reported as four bytes, the last of
//! which is 0xff for a stable release.

use vstd::prelude::*;

verus! {

/// The version of this firmware as text.
pub const FW_VERSION_STR: &'static str = "3.1.2-a1";

/// The version of this firmware: major, minor, patch, alpha.
pub const FW_VERSION: [u8; 4] = [3, 1, 2, 1];

/// Whether a byte is a decimal digit.
pub open spec fn is_digit(byte: u8) -> bool {
    0x30 <= byte <= 0x39
}

/// Where a component that starts at `from` ends: at the first `stop` at or
/// behind `from`, or at the end of the text. A start behind the end of the
/// text is its own end.
pub open spec fn component_end(bytes: Seq<u8>, from: int, stop: u8) -> int
    decreases bytes.len() - from,
{
    if from >= bytes.len() {
        from
    } else if bytes[from] == stop {
        from
    } else {
        component_end(bytes, from + 1, stop)
    }
}

/// Whether the text has a digit at position `i`.
pub open spec fn digit_at(bytes: Seq<u8>, i: int) -> bool {
    0 <= i < bytes.len() && is_digit(bytes[i])
}

/// Whether the bytes from `from` up to `to` are all digits.
pub open spec fn all_digits(bytes: Seq<u8>, from: int, to: int) -> bool {
    forall|i: int| from <= i < to ==> #[trigger] digit_at(bytes, i)
}

/// The number that the digits from `from` up to `to` spell; zero for none.
pub open spec fn number(bytes: Seq<u8>, from: int, to: int) -> int
    decreases to - from,
{
    if to <= from {
        0
    } else {
        number(bytes, from, to - 1) * 10 + (bytes[to - 1] - 0x30)
    }
}

/// Whether the bytes from `from` up to `to` spell a number that fits in a
/// byte.
pub open spec fn is_component(bytes: Seq<u8>, from: int, to: int) -> bool {
    all_digits(bytes, from, to) && number(bytes, from, to) <= 0xff
}

/// Where the number of the alpha release starts, if the text has one: two
/// bytes behind a `-` that ends the patch number and is followed by `a` and
/// at least one more byte.
pub open spec fn alpha_start(bytes: Seq<u8>, patch_end: int) -> Option<int> {
    if patch_end + 2 < bytes.len() && bytes[patch_end + 1] == 0x61 {
        Some(patch_end + 2)
    } else {
        None
    }
}

/// The four bytes that a version text stands for, or `None` where one of
/// its numbers has a byte that is no digit or does not fit in a byte.
pub open spec fn parsed_version(bytes: Seq<u8>) -> Option<Seq<u8>> {
    let major_end = component_end(bytes, 0, 0x2e);
    let minor_end = component_end(bytes, major_end + 1, 0x2e);
    let patch_end = component_end(bytes, minor_end + 1, 0x2d);
    let alpha = alpha_start(bytes, patch_end);
    if is_component(bytes, 0, major_end) && is_component(bytes, major_end + 1, minor_end)
        && is_component(bytes, minor_end + 1, patch_end) && (alpha is Some ==> is_component(
        bytes,
        alpha->Some_0,
        bytes.len() as int,
    )) {
        Some(
            seq![
                number(bytes, 0, major_end) as u8,
                number(bytes, major_end + 1, minor_end) as u8,
                number(bytes, minor_end + 1, patch_end) as u8,
                if alpha is Some {
                    number(bytes, alpha->Some_0, bytes.len() as int) as u8
                } else {
                    0xffu8
                },
            ],
        )
    } else {
        None
    }
}

/// Digits that go on never spell a smaller number.
proof fn number_grows(bytes: Seq<u8>, from: int, mid: int, to: int)
    requires
        from <= mid <= to,
        all_digits(bytes, from, to),
    ensures
        0 <= number(bytes, from, mid) <= number(bytes, from, to),
    decreases to - from,
{
    if mid < to {
        number_grows(bytes, from, mid, to - 1);
        assert(digit_at(bytes, to - 1));
    } else if from < mid {
        number_grows(bytes, from, mid - 1, mid - 1);
        assert(digit_at(bytes, mid - 1));
    }
}

/// A component ends at or behind its start, and no byte before its end is
/// the stop.
proof fn component_end_is_first_stop(bytes: Seq<u8>, from: int, stop: u8)
    requires
        0 <= from,
    ensures
        from <= component_end(bytes, from, stop),
        from <= bytes.len() ==> component_end(bytes, from, stop) <= bytes.len(),
        component_end(bytes, from, stop) < bytes.len() ==> bytes[component_end(bytes, from, stop)]
            == stop,
        forall|i: int| from <= i < component_end(bytes, from, stop) ==> bytes[i] != stop,
    decreases bytes.len() - from,
{
    if from < bytes.len() && bytes[from] != stop {
        component_end_is_first_stop(bytes, from + 1, stop);
    }
}

/// What reading one number found.
struct Component {
    /// Where the number ends.
    end: usize,
    /// The number, unless it is malformed.
    value: Option<u8>,
}

/// Reads the number that starts at `from` and ends before the first `stop`,
/// or at the end of the text where `to_end` is set.
fn read_component(bytes: &[u8], from: usize, stop: u8, to_end: bool) -> (found: Component)
    requires
        from <= bytes@.len(),
    ensures
        found.end == if to_end {
            bytes@.len() as int
        } else {
            component_end(bytes@, from as int, stop)
        },
        from <= found.end <= bytes@.len(),
        found.value is Some <==> is_component(bytes@, from as int, found.end as int),
        found.value is Some ==> found.value->Some_0 == number(
            bytes@,
            from as int,
            found.end as int,
        ),
{
    let ghost end = if to_end {
        bytes@.len() as int
    } else {
        component_end(bytes@, from as int, stop)
    };
    proof {
        component_end_is_first_stop(bytes@, from as int, stop);
    }
    let mut i: usize = from;
    let mut value: u8 = 0;
    let mut valid = true;
    while i < bytes.len() && (to_end || bytes[i] != stop)
        invariant
            from <= i <= end <= bytes@.len(),
            end == if to_end {
                bytes@.len() as int
            } else {
                component_end(bytes@, from as int, stop)
            },
            !to_end ==> component_end(bytes@, i as int, stop) == end,
            valid ==> all_digits(bytes@, from as int, i as int) && value == number(
                bytes@,
                from as int,
                i as int,
            ),
            !valid ==> !is_component(bytes@, from as int, end),
        decreases bytes@.len() - i,
    {
        let byte = bytes[i];
        proof {
            component_end_is_first_stop(bytes@, i as int + 1, stop);
        }
        if valid {
            if byte < 0x30 || byte > 0x39 {
                valid = false;
                assert(!digit_at(bytes@, i as int));
            } else {
                let digit: u8 = byte - 0x30;
                assert(digit_at(bytes@, i as int));
                if value > 25 || (value == 25 && digit > 5) {
                    valid = false;
                    proof {
                        if all_digits(bytes@, from as int, end) {
                            number_grows(bytes@, from as int, i as int + 1, end);
                        }
                    }
                } else {
                    value = value * 10 + digit;
                }
            }
        }
        i += 1;
    }
    Component { end: i, value: if valid { Some(value) } else { None } }
}

/// Reads a version text.
pub fn parse_version(bytes: &[u8]) -> (version: Option<[u8; 4]>)
    ensures
        match (version, parsed_version(bytes@)) {
            (Some(found), Some(expected)) => found@ == expected,
            (None, None) => true,
            _ => false,
        },
{
    let len = bytes.len();
    let major = read_component(bytes, 0, 0x2e, false);
    let ghost major_end = major.end as int;
    let ghost minor_end = component_end(bytes@, major_end + 1, 0x2e);
    let ghost patch_end = component_end(bytes@, minor_end + 1, 0x2d);
    let mut minor = Component { end: major.end, value: Some(0) };
    let mut patch = Component { end: major.end, value: Some(0) };
    let mut alpha: Option<u8> = Some(0xff);
    let ghost mut alpha_from: Option<int> = None;
    if major.end < len {
        minor = read_component(bytes, major.end + 1, 0x2e, false);
        if minor.end < len {
            patch = read_component(bytes, minor.end + 1, 0x2d, false);
            proof {
                component_end_is_first_stop(bytes@, minor_end + 1, 0x2d);
                alpha_from = alpha_start(bytes@, patch_end);
            }
            if patch.end < len && len - patch.end > 2 && bytes[patch.end + 1] == 0x61 {
                alpha = read_component(bytes, patch.end + 2, 0, true).value;
            }
        }
    }
    proof {
        assert(alpha_from == alpha_start(bytes@, patch_end));
        assert(minor.value is Some <==> is_component(bytes@, major_end + 1, minor_end));
        assert(minor.value is Some ==> minor.value->Some_0 == number(
            bytes@,
            major_end + 1,
            minor_end,
        ));
        assert(patch.value is Some <==> is_component(bytes@, minor_end + 1, patch_end));
        assert(patch.value is Some ==> patch.value->Some_0 == number(
            bytes@,
            minor_end + 1,
            patch_end,
        ));
    }
    match (major.value, minor.value, patch.value, alpha) {
        (Some(major), Some(minor), Some(patch), Some(alpha)) => {
            let version = [major, minor, patch, alpha];
            assert(version@ =~= parsed_version(bytes@)->Some_0);
            Some(version)
        },
        _ => None,
    }
}

} // verus!

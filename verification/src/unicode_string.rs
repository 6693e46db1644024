//! A plain-value model of the transport's counted string descriptor.
//!
//! The descriptor the transport consumes carries a byte length up to the
//! first terminator unit, a capacity, and the code-unit buffer itself; here
//! the buffer is owned and the two lengths are computed by a verified scan.

use vstd::prelude::*;

use crate::wide::encode_wide;
use crate::wide::wide_units_of;

verus! {

/// The index of the first terminator (zero) unit of `units`, or their
/// number where none occurs.
pub open spec fn spec_first_terminator(units: Seq<u16>) -> int
    decreases units.len(),
{
    if units.len() == 0 {
        0
    } else if units[0] == 0 {
        0
    } else {
        1 + spec_first_terminator(units.drop_first())
    }
}

proof fn lemma_first_terminator_at(units: Seq<u16>, i: int)
    requires
        0 <= i <= units.len(),
        forall|j: int| 0 <= j < i ==> units[j] != 0,
        i == units.len() || units[i] == 0,
    ensures
        spec_first_terminator(units) == i,
    decreases i,
{
    if i == 0 {
    } else {
        assert(units[0] != 0);
        let rest = units.drop_first();
        assert(forall|j: int| 0 <= j < i - 1 ==> rest[j] == units[j + 1] && rest[j] != 0);
        lemma_first_terminator_at(rest, i - 1);
    }
}

/// A counted-string descriptor: the byte length of the content up to its
/// first terminator unit, the byte capacity including one terminator, and
/// the owned code-unit buffer.
pub struct UnicodeString {
    /// The content's size in bytes, counted up to the first terminator
    /// unit.
    pub length: u16,
    /// The buffer's claimed capacity in bytes: the content and one
    /// terminator unit.
    pub maximum_length: u16,
    /// The owned code units, terminator included.
    pub buffer: Vec<u16>,
}

/// The largest number of code units a counted-string descriptor can
/// describe: its byte lengths are 16-bit, and the capacity counts one
/// terminator unit beyond the content.
pub const UNICODE_STRING_MAX_UNITS: usize = 32766;

impl UnicodeString {
    /// Builds the descriptor of an existing code-unit buffer, scanning for
    /// the first terminator unit as the transport's initializer does.
    ///
    /// The unit count is bounded so that the byte lengths fit their 16-bit
    /// fields.
    pub fn from_units(units: &Vec<u16>) -> (r: UnicodeString)
        requires
            units@.len() <= UNICODE_STRING_MAX_UNITS,
        ensures
            r.buffer@ == units@,
            r.length == 2 * spec_first_terminator(units@),
            r.maximum_length == r.length + 2,
    {
        let n = units.len();
        let mut i: usize = 0;
        while i < n && units[i] != 0
            invariant
                n == units@.len(),
                i <= n,
                forall|j: int| 0 <= j < i ==> units@[j] != 0,
            decreases n - i,
        {
            i += 1;
        }
        proof {
            lemma_first_terminator_at(units@, i as int);
        }
        let length: u16 = (2 * i) as u16;
        UnicodeString {
            length,
            maximum_length: length + 2,
            buffer: crate::wide::copy_units(units),
        }
    }

    /// Builds the descriptor of a text: its code units followed by two
    /// terminator units, as the transport's initializer is fed.
    ///
    /// Returns `None` where the encoded text does not fit the descriptor's
    /// 16-bit byte lengths.
    pub fn from_text(s: &str) -> (r: Option<UnicodeString>)
        ensures
            match r {
                Some(u) => {
                    &&& u.buffer@ == wide_units_of(s@) + seq![0u16, 0u16]
                    &&& u.length == 2 * spec_first_terminator(u.buffer@)
                    &&& u.maximum_length == u.length + 2
                },
                None => wide_units_of(s@).len() + 2 > UNICODE_STRING_MAX_UNITS,
            },
    {
        let mut units = encode_wide(s);
        units.push(0);
        units.push(0);
        if units.len() <= UNICODE_STRING_MAX_UNITS {
            proof {
                assert(units@ =~= wide_units_of(s@) + seq![0u16, 0u16]);
            }
            Some(Self::from_units(&units))
        } else {
            None
        }
    }
}

impl Default for UnicodeString {
    /// An empty descriptor: zero lengths over an empty buffer.
    fn default() -> (r: UnicodeString)
        ensures
            r.length == 0,
            r.maximum_length == 0,
            r.buffer@ == Seq::<u16>::empty(),
    {
        UnicodeString { length: 0, maximum_length: 0, buffer: Vec::new() }
    }
}

} // verus!

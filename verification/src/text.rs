//! Building the human-readable error messages: a verified decimal
//! rendering of an id, spliced between fixed message parts.

use vstd::prelude::*;
use vstd::string::StringExecFns;
use crate::codec::string_push_char;

verus! {

/// The character for one decimal digit.
pub open spec fn digit_char(d: nat) -> char
    recommends
        d < 10,
{
    ((48 + d) as u32) as char
}

/// The decimal digits of `n`, most significant first, no leading zeros
/// (just "0" for zero).
pub open spec fn spec_digits(n: nat) -> Seq<char>
    decreases n,
{
    if n < 10 {
        seq![digit_char(n)]
    } else {
        spec_digits(n / 10) + seq![digit_char(n % 10)]
    }
}

/// Renders `n` in decimal.
pub fn u64_to_string(n: u64) -> (s: String)
    ensures
        s@ == spec_digits(n as nat),
{
    let mut digits: Vec<char> = Vec::new();
    let ghost mut acc = Seq::<char>::empty();
    let mut m = n;
    proof {
        assert(spec_digits(n as nat) =~= spec_digits(m as nat) + acc);
    }
    while m >= 10
        invariant
            spec_digits(n as nat) == spec_digits(m as nat) + acc,
            digits@.len() == acc.len(),
            forall|k: int| 0 <= k < acc.len() ==> digits@[k] == acc[acc.len() - 1 - k],
        decreases m,
    {
        let d = m % 10;
        let c = (48u8 + (d as u8)) as char;
        proof {
            assert(c == digit_char(d as nat));
        }
        digits.push(c);
        proof {
            assert(spec_digits(m as nat) == spec_digits((m as nat) / 10) + seq![
                digit_char((m as nat) % 10),
            ]);
            assert((m / 10) as nat == (m as nat) / 10);
            assert((spec_digits((m as nat) / 10) + seq![digit_char((m as nat) % 10)]) + acc
                =~= spec_digits((m as nat) / 10) + (seq![digit_char((m as nat) % 10)] + acc));
            acc = seq![c] + acc;
        }
        m = m / 10;
    }
    let c = (48u8 + (m as u8)) as char;
    proof {
        assert(c == digit_char(m as nat));
        assert(spec_digits(m as nat) == seq![digit_char(m as nat)]);
    }
    digits.push(c);
    proof {
        acc = seq![c] + acc;
        assert(spec_digits(n as nat) =~= acc);
    }
    let mut s = String::new();
    let mut i = digits.len();
    while i > 0
        invariant
            i <= digits.len(),
            digits@.len() == acc.len(),
            forall|k: int| 0 <= k < acc.len() ==> digits@[k] == acc[acc.len() - 1 - k],
            s@.len() == digits@.len() - i,
            forall|k: int| 0 <= k < s@.len() ==> s@[k] == acc[k],
        decreases i,
    {
        i = i - 1;
        let c = digits[i];
        string_push_char(&mut s, c);
    }
    proof {
        assert(s@ =~= acc);
    }
    s
}

/// The message `get` returns for an absent id.
pub open spec fn spec_get_not_found_msg(id: u64) -> Seq<char> {
    "Sensor data with id="@ + spec_digits(id as nat) + " not found"@
}

/// The message `update` returns for an absent id.
pub open spec fn spec_update_not_found_msg(id: u64) -> Seq<char> {
    "Couldn't update sensor data with id="@ + spec_digits(id as nat) + ". Data not found"@
}

/// The message `delete` returns for an absent id.
pub open spec fn spec_delete_not_found_msg(id: u64) -> Seq<char> {
    "Couldn't delete sensor data with id="@ + spec_digits(id as nat) + ". Data not found."@
}

/// A fixed prefix, the id in decimal, and a fixed suffix.
fn build_id_message(prefix: &str, id: u64, suffix: &str) -> (s: String)
    ensures
        s@ == prefix@ + spec_digits(id as nat) + suffix@,
{
    let mut s = String::from_str(prefix);
    let num = u64_to_string(id);
    s.append(num.as_str());
    s.append(suffix);
    s
}

/// Builds the message `get` uses for an absent id.
pub fn get_not_found_message(id: u64) -> (s: String)
    ensures
        s@ == spec_get_not_found_msg(id),
{
    build_id_message("Sensor data with id=", id, " not found")
}

/// Builds the message `update` uses for an absent id.
pub fn update_not_found_message(id: u64) -> (s: String)
    ensures
        s@ == spec_update_not_found_msg(id),
{
    build_id_message("Couldn't update sensor data with id=", id, ". Data not found")
}

/// Builds the message `delete` uses for an absent id.
pub fn delete_not_found_message(id: u64) -> (s: String)
    ensures
        s@ == spec_delete_not_found_msg(id),
{
    build_id_message("Couldn't delete sensor data with id=", id, ". Data not found.")
}

} // verus!

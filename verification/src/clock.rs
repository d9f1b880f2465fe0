// The local wall-clock time as the interface stamps messages and log records with it.
use vstd::prelude::*;

verus! {

/// Whether a text has the shape `HH:MM:SS` of a clock time: two digits, a colon, two
/// digits, a colon, two digits.
pub open spec fn is_clock_time(s: Seq<char>) -> bool {
    &&& s.len() == 8
    &&& s[2] == ':' && s[5] == ':'
    &&& forall|i: int| 0 <= i < 8 && i != 2 && i != 5 ==> '0' <= #[trigger] s[i] && s[i] <= '9'
}

/// `chrono::Local::now().format("%H:%M:%S")` written out: the local wall-clock time, which
/// chrono writes as zero-padded hours, minutes and seconds. Which time is left open.
#[verifier::external_body]
pub(crate) fn local_clock_time() -> (r: String)
    ensures
        is_clock_time(r@),
{
    chrono::Local::now().format("%H:%M:%S").to_string()
}

} // verus!

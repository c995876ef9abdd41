use vstd::prelude::*;

use crate::decimal::{decimal, push_decimal};

verus! {

/// A line of the diagnostic log: the time, in seconds since the Unix epoch,
/// in brackets, then the message.
pub open spec fn log_entry(unix_secs: u64, msg: Seq<char>) -> Seq<char> {
    "["@ + decimal(unix_secs as nat) + "] "@ + msg
}

/// Stamps a diagnostic message with the time at which it is written.
pub fn log_entry_text(unix_secs: u64, msg: &str) -> (r: String)
    ensures
        r@ == log_entry(unix_secs, msg@),
{
    let mut s = String::from_str("[");
    push_decimal(&mut s, unix_secs);
    s.append("] ");
    s.append(msg);
    s
}

} // verus!

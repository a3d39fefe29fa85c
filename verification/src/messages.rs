//! The texts the command surface hands back: the greeting, and the
//! message that reports a failed file read.

use vstd::prelude::*;

verus! {

/// The greeting for `name`: the fixed template around the caller's
/// text, taken as it came — no escaping, no trimming.
pub fn greet(name: &str) -> (r: String)
    ensures
        r@ == "Hello, "@ + name@ + "! You've been greeted from Rust!"@,
{
    let mut r = String::from_str("Hello, ");
    r.append(name);
    r.append("! You've been greeted from Rust!");
    r
}

/// The message carried by a failed byte read: it names the path that
/// was attempted, then describes the underlying failure.
pub fn read_failure_message(path: &str, reason: &str) -> (r: String)
    ensures
        r@ == "Failed to read '"@ + path@ + "': "@ + reason@,
{
    let mut r = String::from_str("Failed to read '");
    r.append(path);
    r.append("': ");
    r.append(reason);
    r
}

} // verus!

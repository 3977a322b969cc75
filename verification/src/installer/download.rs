//! Progress of an installer download. The transfer itself happens outside
//! the library; here are the size cap, the percentage shown and the line
//! it is shown on.

use vstd::prelude::*;

use crate::text::{concat, dec, pad_left, pad_left_exec, u128_to_string, u64_to_string};

verus! {

/// The most a download may be: large enough for the biggest archive, small
/// enough never to stream an unbounded response into memory.
pub const MAX_DOWNLOAD_SIZE: u64 = 314572800;

/// The percentage received, when the total is known and not zero.
pub open spec fn spec_percent(received: u64, total: Option<u64>) -> Option<nat> {
    match total {
        Some(t) => if t > 0 {
            Some(((received as nat) * 100 / (t as nat)) as nat)
        } else {
            None
        },
        None => None,
    }
}

pub fn progress_percent(received: u64, total: Option<u64>) -> (r: Option<u128>)
    ensures
        match (r, spec_percent(received, total)) {
            (Some(a), Some(b)) => a as nat == b,
            (None, None) => true,
            _ => false,
        },
{
    match total {
        Some(t) => if t > 0 {
            let n: u128 = received as u128 * 100;
            Some(n / t as u128)
        } else {
            None
        },
        None => None,
    }
}

/// The progress line: carriage return, the percentage right-aligned in
/// three columns, and both sizes in KiB (rounded down).
pub open spec fn spec_progress_line(pct: nat, received: u64, total: u64) -> Seq<char> {
    "\r   "@ + pad_left(dec(pct), 3) + "%  ("@ + dec((received / 1024) as nat) + " / "@ + dec(
        (total / 1024) as nat,
    ) + " KiB)"@
}

pub fn progress_line(pct: u128, received: u64, total: u64) -> (r: String)
    ensures
        r@ == spec_progress_line(pct as nat, received, total),
{
    let p = pad_left_exec(u128_to_string(pct), 3);
    let a = concat("\r   ", p.as_str());
    let b = concat(a.as_str(), "%  (");
    let c = concat(b.as_str(), u64_to_string(received / 1024).as_str());
    let d = concat(c.as_str(), " / ");
    let e = concat(d.as_str(), u64_to_string(total / 1024).as_str());
    concat(e.as_str(), " KiB)")
}

} // verus!

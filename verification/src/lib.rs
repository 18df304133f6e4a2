//! A verified model of an isolated-worker lifecycle: handle creation and
//! splitting, two-phase cancellation (cooperative signal plus forced
//! fallback), the cooperative run-loop state machine, and the exactly-once
//! termination guarantee, together with the terminal control events a worker
//! reports to its host.

pub mod control;
pub mod errors;
pub mod handles;
pub mod publish;
pub mod run_loop;
pub mod termination;
mod thread_type;

pub use thread_type::WorkerThreadType;

use vstd::prelude::*;
use vstd::string::StringExecFns;

verus! {

/// The character for a single decimal digit.
pub open spec fn digit_char(d: nat) -> char {
    if d == 0 {
        '0'
    } else if d == 1 {
        '1'
    } else if d == 2 {
        '2'
    } else if d == 3 {
        '3'
    } else if d == 4 {
        '4'
    } else if d == 5 {
        '5'
    } else if d == 6 {
        '6'
    } else if d == 7 {
        '7'
    } else if d == 8 {
        '8'
    } else {
        '9'
    }
}

/// The decimal digits of `n`, most significant first.
pub open spec fn dec_digits(n: nat) -> Seq<char>
    decreases n,
{
    if n < 10 {
        seq![digit_char(n)]
    } else {
        dec_digits(n / 10) + seq![digit_char(n % 10)]
    }
}

fn digit_str(d: u32) -> (r: &'static str)
    requires
        d < 10,
    ensures
        r@ == seq![digit_char(d as nat)],
{
    proof {
        reveal_strlit("0");
        reveal_strlit("1");
        reveal_strlit("2");
        reveal_strlit("3");
        reveal_strlit("4");
        reveal_strlit("5");
        reveal_strlit("6");
        reveal_strlit("7");
        reveal_strlit("8");
        reveal_strlit("9");
    }
    let r: &'static str = match d {
        0 => "0",
        1 => "1",
        2 => "2",
        3 => "3",
        4 => "4",
        5 => "5",
        6 => "6",
        7 => "7",
        8 => "8",
        _ => "9",
    };
    proof {
        assert(r@ =~= seq![digit_char(d as nat)]);
    }
    r
}

/// Renders `n` in decimal.
pub fn u32_to_decimal(n: u32) -> (r: String)
    ensures
        r@ == dec_digits(n as nat),
    decreases n,
{
    if n < 10 {
        let r = digit_str(n).to_owned();
        r
    } else {
        let mut prefix = u32_to_decimal(n / 10);
        prefix.append(digit_str(n % 10));
        prefix
    }
}

/// A worker is identified by a small integer, assigned once at creation and
/// never reused.
#[derive(Debug, Copy, Clone, PartialEq, Eq, Structural, Hash)]
pub struct WorkerId(pub u32);

/// Hands out [`WorkerId`]s, strictly increasing and never reused.
pub struct WorkerIdCounter {
    next: u32,
}

impl WorkerIdCounter {
    /// The identifier the next call of [`WorkerId::new`] will assign.
    pub closed spec fn next_id(&self) -> u32 {
        self.next
    }

    /// A fresh counter; the first worker gets identifier 1.
    pub fn new() -> (c: WorkerIdCounter)
        ensures
            c.next_id() == 1u32,
    {
        WorkerIdCounter { next: 1 }
    }
}

impl WorkerId {
    /// Assigns the next identifier and advances the counter, so no two calls
    /// on the same counter ever return the same identifier.
    pub fn new(counter: &mut WorkerIdCounter) -> (id: WorkerId)
        requires
            old(counter).next_id() < u32::MAX,
        ensures
            id.0 == old(counter).next_id(),
            final(counter).next_id() == old(counter).next_id() + 1,
    {
        let id = counter.next;
        counter.next = counter.next + 1;
        WorkerId(id)
    }

    /// The textual form a host uses for this worker in diagnostics —
    /// `worker-` followed by the decimal identifier — since a worker's name
    /// may be the empty string.
    pub fn to_display_string(&self) -> (r: String)
        ensures
            r@ == "worker-"@ + dec_digits(self.0 as nat),
    {
        let mut out = String::from_str("worker-");
        let digits = u32_to_decimal(self.0);
        out.append(digits.as_str());
        out
    }
}

} // verus!

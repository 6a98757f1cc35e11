//! The port binder's decisions: which port to try next when a bind
//! fails, and whether a failure means "address already in use".
//!
//! The bind itself is a socket operation and stays outside the library;
//! the caller reports each failure here and follows the step returned.

use vstd::prelude::*;

verus! {

/// What one error in a failure's source chain shows: an I/O error of
/// kind "address in use", some other I/O error, or not an I/O error.
#[derive(Clone, Copy, PartialEq, Eq, Structural, Debug)]
pub enum ChainEntry {
    AddrInUse,
    OtherIo,
    NotIo,
}

/// A bind failure means "address already in use" exactly when some
/// error in its source chain is an I/O error of that kind.
pub fn is_addr_in_use(chain: &Vec<ChainEntry>) -> (r: bool)
    ensures
        r == chain@.contains(ChainEntry::AddrInUse),
{
    let mut i: usize = 0;
    while i < chain.len()
        invariant
            i <= chain@.len(),
            forall|j: int| 0 <= j < i ==> chain@[j] != ChainEntry::AddrInUse,
        decreases chain@.len() - i,
    {
        if matches!(chain[i], ChainEntry::AddrInUse) {
            return true;
        }
        i += 1;
    }
    false
}

/// The step after a failed bind attempt: retry the next port in the
/// range, or give up one way or the other.
#[derive(Clone, Copy, PartialEq, Eq, Structural, Debug)]
pub enum BindStep {
    Retry { port: u16 },
    FailRange,
    FailOther,
}

/// Retries are spent only on "address in use": any other failure gives
/// up at once; within the retry budget the next port up is tried; at
/// the range's end the whole range is reported occupied.
pub open spec fn spec_next_bind_step(
    base_port: u16,
    max_retries: u16,
    offset: u16,
    addr_in_use: bool,
) -> BindStep {
    if !addr_in_use {
        BindStep::FailOther
    } else if offset < max_retries {
        BindStep::Retry { port: (base_port + offset + 1) as u16 }
    } else {
        BindStep::FailRange
    }
}

/// Decides what follows the failed bind of port `base_port + offset`,
/// given whether the failure was "address already in use".
pub fn next_bind_step(base_port: u16, max_retries: u16, offset: u16, addr_in_use: bool) -> (r:
    BindStep)
    requires
        offset <= max_retries,
        base_port + max_retries <= u16::MAX,
    ensures
        r == spec_next_bind_step(base_port, max_retries, offset, addr_in_use),
{
    if !addr_in_use {
        BindStep::FailOther
    } else if offset < max_retries {
        BindStep::Retry { port: base_port + offset + 1 }
    } else {
        BindStep::FailRange
    }
}

} // verus!

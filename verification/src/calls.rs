//! The calls that the watcher asks of the platform's scanning session.

use crate::error::WatcherError;
use crate::guid::Guid;
use vstd::prelude::*;

verus! {

/// How the radio listens: passively, or actively asking advertisers for their scan
/// response as well.
#[derive(Clone, Copy, Debug, PartialEq, Eq)]
pub enum ScanningMode {
    Passive,
    Active,
}

/// One call on the platform's scanning session. Each may fail.
#[derive(Clone, Copy, Debug, PartialEq, Eq)]
pub enum NativeCall {
    /// Empty the list of service identifiers in the session's advertisement filter.
    ClearServiceUuids,
    /// Add one service identifier to the end of that list.
    AppendServiceUuid(Guid),
    /// Set how the radio listens.
    SetScanningMode(ScanningMode),
    /// Allow or refuse extended advertisements.
    SetAllowExtendedAdvertisements(bool),
    /// Have every advertisement that the session receives handed to the watcher, once
    /// each, whatever was registered on the session before.
    RegisterReceivedHandler,
    /// Arm the session: begin listening.
    Start,
    /// Disarm the session: stop listening.
    Stop,
}

/// The calls that replace the session's service identifiers by `services`: one that
/// empties the list, then one per identifier, in order.
pub open spec fn filter_calls(services: Seq<u128>) -> Seq<NativeCall> {
    seq![NativeCall::ClearServiceUuids] + Seq::new(
        services.len(),
        |i: int| NativeCall::AppendServiceUuid(Guid::of(services[i])),
    )
}

/// The calls that follow the filter in every start: active scanning, extended
/// advertisements, the handler, and last the arming itself.
pub open spec fn arming_calls() -> Seq<NativeCall> {
    seq![
        NativeCall::SetScanningMode(ScanningMode::Active),
        NativeCall::SetAllowExtendedAdvertisements(true),
        NativeCall::RegisterReceivedHandler,
        NativeCall::Start,
    ]
}

/// The calls of a start with the filter `services`, in the order in which they are made.
/// A watcher that is armed is disarmed first.
pub open spec fn start_calls(armed: bool, services: Seq<u128>) -> Seq<NativeCall> {
    if armed {
        seq![NativeCall::Stop] + filter_calls(services) + arming_calls()
    } else {
        filter_calls(services) + arming_calls()
    }
}

/// The error that a failure of `call` stands for: the disarming call fails a stop, every
/// other call fails the configuration of a scan.
pub open spec fn failure_of(call: NativeCall, description: String) -> WatcherError {
    if call == NativeCall::Stop {
        WatcherError::ScanStop(description)
    } else {
        WatcherError::ScanConfig(description)
    }
}

/// A start never asks for fewer than five calls, and asks for one more per identifier.
pub proof fn lemma_start_calls_len(armed: bool, services: Seq<u128>)
    ensures
        start_calls(armed, services).len() == services.len() + 5 + (if armed { 1int } else { 0 }),
{
}

/// The disarming call stands at the head of a restart and nowhere else in a start.
pub proof fn lemma_stop_only_leads(armed: bool, services: Seq<u128>, i: int)
    requires
        0 <= i < start_calls(armed, services).len(),
    ensures
        start_calls(armed, services)[i] == NativeCall::Stop <==> armed && i == 0,
{
}

} // verus!

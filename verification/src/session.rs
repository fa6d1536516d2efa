//! A model of the platform's scanning session: what it holds, and what each call does to
//! it once the platform reports the call complete. No executable code runs on the model;
//! it is what the laws on filters are stated in.

use crate::calls::{arming_calls, filter_calls, start_calls, NativeCall, ScanningMode};
use crate::guid::Guid;
use vstd::prelude::*;

verus! {

/// What a scanning session holds, as far as the watcher sets it.
pub struct NativeSession {
    /// The service identifiers of the advertisement filter, in the order they were added.
    pub service_uuids: Seq<Guid>,
    /// How the radio listens.
    pub scanning_mode: ScanningMode,
    /// Whether extended advertisements are received.
    pub extended_advertisements: bool,
    /// Whether received advertisements are handed to the watcher.
    pub handler_registered: bool,
    /// Whether the session is armed.
    pub listening: bool,
}

/// The identifiers of `services` in the platform's layout, in the same order.
pub open spec fn guids(services: Seq<u128>) -> Seq<Guid> {
    Seq::new(services.len(), |i: int| Guid::of(services[i]))
}

impl NativeSession {
    /// The session after `call` has taken effect.
    pub open spec fn after(self, call: NativeCall) -> NativeSession {
        match call {
            NativeCall::ClearServiceUuids => NativeSession { service_uuids: Seq::empty(), ..self },
            NativeCall::AppendServiceUuid(guid) => NativeSession {
                service_uuids: self.service_uuids.push(guid),
                ..self
            },
            NativeCall::SetScanningMode(mode) => NativeSession { scanning_mode: mode, ..self },
            NativeCall::SetAllowExtendedAdvertisements(allow) => NativeSession {
                extended_advertisements: allow,
                ..self
            },
            NativeCall::RegisterReceivedHandler => NativeSession { handler_registered: true, ..self },
            NativeCall::Start => NativeSession { listening: true, ..self },
            NativeCall::Stop => NativeSession { listening: false, ..self },
        }
    }

    /// The session after every call of `calls` has taken effect, first to last.
    pub open spec fn after_all(self, calls: Seq<NativeCall>) -> NativeSession
        decreases calls.len(),
    {
        if calls.len() == 0 {
            self
        } else {
            self.after_all(calls.drop_last()).after(calls.last())
        }
    }

    /// The identifiers that the session's advertisement filter names.
    pub open spec fn identifiers(self) -> Set<u128> {
        Set::new(|uuid: u128| self.service_uuids.contains(Guid::of(uuid)))
    }

    /// Making one list of calls and then another is making the two lists end to end.
    pub proof fn lemma_after_all_concat(self, first: Seq<NativeCall>, second: Seq<NativeCall>)
        ensures
            self.after_all(first + second) == self.after_all(first).after_all(second),
        decreases second.len(),
    {
        if second.len() > 0 {
            assert((first + second).drop_last() =~= first + second.drop_last());
            self.lemma_after_all_concat(first, second.drop_last());
        }
    }

    /// A list of one call does what the call does.
    pub proof fn lemma_after_all_single(self, call: NativeCall)
        ensures
            self.after_all(seq![call]) == self.after(call),
    {
        assert(seq![call].drop_last() =~= Seq::<NativeCall>::empty());
        assert(self.after_all(Seq::<NativeCall>::empty()) == self);
    }

    /// The calls that install a filter leave the session with the identifiers of the
    /// filter, one per entry and in the filter's order, whatever it held before, and
    /// touch nothing else of it.
    pub proof fn lemma_filter_calls_replace(self, services: Seq<u128>)
        ensures
            self.after_all(filter_calls(services)) == (NativeSession {
                service_uuids: guids(services),
                ..self
            }),
        decreases services.len(),
    {
        let calls = filter_calls(services);
        let after = self.after_all(calls);
        if services.len() == 0 {
            self.lemma_after_all_single(NativeCall::ClearServiceUuids);
            assert(after.service_uuids =~= guids(services));
        } else {
            let shorter = services.drop_last();
            assert(calls.drop_last() =~= filter_calls(shorter));
            self.lemma_filter_calls_replace(shorter);
            assert(after.service_uuids =~= guids(services));
        }
    }

    /// The calls that end a start leave the session scanning actively, with extended
    /// advertisements, with the handler registered, and listening; the filter stays.
    pub proof fn lemma_arming_calls_arm(self)
        ensures
            self.after_all(arming_calls()) == (NativeSession {
                service_uuids: self.service_uuids,
                scanning_mode: ScanningMode::Active,
                extended_advertisements: true,
                handler_registered: true,
                listening: true,
            }),
    {
        let mode = NativeCall::SetScanningMode(ScanningMode::Active);
        let extended = NativeCall::SetAllowExtendedAdvertisements(true);
        let handler = NativeCall::RegisterReceivedHandler;
        let arm = NativeCall::Start;
        assert(arming_calls() =~= seq![mode] + seq![extended] + seq![handler] + seq![arm]);
        self.lemma_after_all_concat(seq![mode] + seq![extended] + seq![handler], seq![arm]);
        self.lemma_after_all_concat(seq![mode] + seq![extended], seq![handler]);
        self.lemma_after_all_concat(seq![mode], seq![extended]);
        self.lemma_after_all_single(mode);
        self.after(mode).lemma_after_all_single(extended);
        self.after(mode).after(extended).lemma_after_all_single(handler);
        self.after(mode).after(extended).after(handler).lemma_after_all_single(arm);
    }

    /// The calls of a start leave the session with the identifiers of the filter and
    /// nothing of what it held before, listening actively, with extended advertisements
    /// and with the handler registered; and this whether or not the session listened
    /// before.
    pub proof fn lemma_start_calls_install(self, armed: bool, services: Seq<u128>)
        ensures
            self.after_all(start_calls(armed, services)) == (NativeSession {
                service_uuids: guids(services),
                scanning_mode: ScanningMode::Active,
                extended_advertisements: true,
                handler_registered: true,
                listening: true,
            }),
            self.after_all(start_calls(armed, services)).identifiers() == services.to_set(),
    {
        let disarmed = if armed {
            self.after(NativeCall::Stop)
        } else {
            self
        };
        if armed {
            assert(start_calls(armed, services) =~= seq![NativeCall::Stop] + (filter_calls(services)
                + arming_calls()));
            self.lemma_after_all_concat(
                seq![NativeCall::Stop],
                filter_calls(services) + arming_calls(),
            );
            self.lemma_after_all_single(NativeCall::Stop);
        }
        disarmed.lemma_after_all_concat(filter_calls(services), arming_calls());
        disarmed.lemma_filter_calls_replace(services);
        disarmed.after_all(filter_calls(services)).lemma_arming_calls_arm();
        lemma_guids_name(services);
    }
}

/// A filter that holds the GUIDs of `services` names the identifiers of `services` and
/// no other.
pub proof fn lemma_guids_name(services: Seq<u128>)
    ensures
        Set::new(|uuid: u128| guids(services).contains(Guid::of(uuid))) == services.to_set(),
{
    let named = Set::new(|uuid: u128| guids(services).contains(Guid::of(uuid)));
    assert forall|uuid: u128| named.contains(uuid) <==> services.to_set().contains(uuid) by {
        if guids(services).contains(Guid::of(uuid)) {
            let i = choose|i: int|
                0 <= i < guids(services).len() && guids(services)[i] == Guid::of(uuid);
            Guid::lemma_of_injective(services[i], uuid);
        }
        if services.contains(uuid) {
            let i = choose|i: int| 0 <= i < services.len() && services[i] == uuid;
            assert(guids(services)[i] == Guid::of(uuid));
        }
    }
}

} // verus!

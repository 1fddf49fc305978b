//! Setting a client up: which lookups to make on the server, in which order, and what
//! each answer means.
//!
//! The caller performs one step at a time and reports how it went; `Setup::advance`
//! answers with the next step.  The service comes first, then the feature characteristic
//! and its value, then the other characteristics, and last the adapter that knows the
//! device.  A characteristic that the server lacks ends the setup where it is mandatory
//! and is noted as absent where it is optional.

use vstd::prelude::*;

use crate::client::{
    addresses, decode_features, spec_addresses, spec_decode_features, ClientConfig, OtsClient,
    Presence,
};
use crate::error::Error;
use crate::flags::{ActionFeature, ListFeature};
use crate::ids::Characteristic;
use crate::l2cap::{AddressType, L2capSockAddr, L2capSockAddrView, MacAddress};

verus! {

/// What the caller is to do next.
#[derive(Debug, Clone, Copy, PartialEq, Eq, Hash, Structural)]
pub enum SetupStep {
    /// Look the Object Transfer service up on the device.
    FindService,
    /// Look the characteristic up in the service.
    Lookup(Characteristic),
    /// Read the value of the feature characteristic.
    ReadFeature,
    /// Find the adapter that knows the device, and the addresses of both.
    FindAdapter,
    /// Nothing: the client is ready.
    Done,
}

/// How a step went.
#[derive(Debug, Clone, PartialEq, Eq)]
pub enum SetupEvent {
    /// What was looked up is there.
    Found,
    /// The server has nothing of the UUID that was looked up.
    Missing,
    /// The step failed in another way.
    Failed,
    /// The value that was read.
    Value(Vec<u8>),
    /// The addresses of the adapter and of the device.
    Adapter {
        adapter_mac: MacAddress,
        adapter_type: AddressType,
        device_mac: MacAddress,
        device_type: AddressType,
    },
    /// No adapter knows the device.
    NoAdapter,
}

/// What follows from the way a step went.
#[derive(Debug, Clone, Copy, PartialEq, Eq, Hash, Structural)]
pub enum SetupOutcome {
    /// The setup goes on with this step.
    Next(SetupStep),
    /// The setup ends with the failure that the step reported.
    Propagate,
    /// The setup ends with this error.
    Fail(Error),
    /// The event is none that the step in progress can end with; nothing has changed.
    Rejected,
}

/// A setup in progress.
#[derive(Debug, Clone, Copy, PartialEq, Eq)]
pub struct Setup {
    /// The step in progress.
    pub step: SetupStep,
    /// Whether data channels are to be bound with privileges.
    pub privileged: bool,
    /// What is known of the server so far.
    pub client: OtsClient,
}

impl SetupStep {
    /// The step that follows the lookup of a characteristic.
    pub open spec fn spec_after(c: Characteristic) -> SetupStep {
        match c {
            Characteristic::Feature => SetupStep::ReadFeature,
            Characteristic::ActionControl => SetupStep::Lookup(Characteristic::ListControl),
            Characteristic::ListControl => SetupStep::Lookup(Characteristic::Id),
            Characteristic::Id => SetupStep::Lookup(Characteristic::Name),
            Characteristic::Name => SetupStep::Lookup(Characteristic::Type),
            Characteristic::Type => SetupStep::Lookup(Characteristic::Size),
            Characteristic::Size => SetupStep::Lookup(Characteristic::Properties),
            Characteristic::Properties => SetupStep::Lookup(Characteristic::FirstCreated),
            Characteristic::FirstCreated => SetupStep::Lookup(Characteristic::LastModified),
            Characteristic::LastModified => SetupStep::FindAdapter,
        }
    }

    /// The step that follows the lookup of a characteristic.
    pub fn after(c: &Characteristic) -> (r: SetupStep)
        ensures
            r == Self::spec_after(*c),
    {
        match c {
            Characteristic::Feature => SetupStep::ReadFeature,
            Characteristic::ActionControl => SetupStep::Lookup(Characteristic::ListControl),
            Characteristic::ListControl => SetupStep::Lookup(Characteristic::Id),
            Characteristic::Id => SetupStep::Lookup(Characteristic::Name),
            Characteristic::Name => SetupStep::Lookup(Characteristic::Type),
            Characteristic::Type => SetupStep::Lookup(Characteristic::Size),
            Characteristic::Size => SetupStep::Lookup(Characteristic::Properties),
            Characteristic::Properties => SetupStep::Lookup(Characteristic::FirstCreated),
            Characteristic::FirstCreated => SetupStep::Lookup(Characteristic::LastModified),
            Characteristic::LastModified => SetupStep::FindAdapter,
        }
    }
}

impl Setup {
    /// What follows from an event in the step in progress.
    pub open spec fn spec_outcome(&self, event: &SetupEvent) -> SetupOutcome {
        match (self.step, event) {
            (SetupStep::FindService, SetupEvent::Found) => SetupOutcome::Next(
                SetupStep::Lookup(Characteristic::Feature),
            ),
            (SetupStep::FindService, SetupEvent::Missing) => SetupOutcome::Propagate,
            (SetupStep::FindService, SetupEvent::Failed) => SetupOutcome::Propagate,
            (SetupStep::Lookup(c), SetupEvent::Found) => SetupOutcome::Next(
                SetupStep::spec_after(c),
            ),
            (SetupStep::Lookup(c), SetupEvent::Missing) => if c.spec_is_mandatory() {
                SetupOutcome::Propagate
            } else {
                SetupOutcome::Next(SetupStep::spec_after(c))
            },
            (SetupStep::Lookup(_), SetupEvent::Failed) => SetupOutcome::Propagate,
            (SetupStep::ReadFeature, SetupEvent::Value(v)) => match spec_decode_features(v@) {
                Ok(_) => SetupOutcome::Next(SetupStep::Lookup(Characteristic::ActionControl)),
                Err(e) => SetupOutcome::Fail(e),
            },
            (SetupStep::ReadFeature, SetupEvent::Failed) => SetupOutcome::Propagate,
            (SetupStep::FindAdapter, SetupEvent::Adapter { .. }) => SetupOutcome::Next(
                SetupStep::Done,
            ),
            (SetupStep::FindAdapter, SetupEvent::NoAdapter) => SetupOutcome::Fail(Error::NotFound),
            (SetupStep::FindAdapter, SetupEvent::Failed) => SetupOutcome::Propagate,
            _ => SetupOutcome::Rejected,
        }
    }

    /// The optional characteristics known after an event: a lookup that was answered
    /// and lets the setup go on notes its characteristic as found or missing.
    pub open spec fn spec_present(&self, event: &SetupEvent) -> Presence {
        match (self.step, self.spec_outcome(event)) {
            (SetupStep::Lookup(c), SetupOutcome::Next(_)) => self.client.present.spec_with(
                c,
                event is Found,
            ),
            _ => self.client.present,
        }
    }

    /// The features known after an event: those that the value read holds.
    pub open spec fn spec_features(&self, event: &SetupEvent) -> (ActionFeature, ListFeature) {
        match (self.step, event) {
            (SetupStep::ReadFeature, SetupEvent::Value(v)) => match spec_decode_features(v@) {
                Ok(f) => f,
                Err(_) => (self.client.action_features, self.client.list_features),
            },
            _ => (self.client.action_features, self.client.list_features),
        }
    }

    /// The addresses known after an event: those that follow from the adapter found.
    pub open spec fn spec_addresses(&self, event: &SetupEvent) -> (
        L2capSockAddrView,
        L2capSockAddrView,
    ) {
        match (self.step, event) {
            (
                SetupStep::FindAdapter,
                SetupEvent::Adapter { adapter_mac, adapter_type, device_mac, device_type },
            ) => spec_addresses(
                self.privileged,
                (adapter_mac@, *adapter_type),
                (device_mac@, *device_type),
            ),
            _ => (self.client.adapter_addr@, self.client.device_addr@),
        }
    }

    /// A setup that has made no step yet.
    pub fn new(config: &ClientConfig) -> (r: Self)
        ensures
            r.step == SetupStep::FindService,
            r.privileged == config.privileged,
            r.client.sock_security == config.security,
            r.client.action_features.bits == 0,
            r.client.list_features.bits == 0,
            r.client.wf(),
            r.client.present == (Presence {
                list_control: false,
                id: false,
                first_created: false,
                last_modified: false,
            }),
    {
        let zero: [u8; 6] = [0, 0, 0, 0, 0, 0];
        Setup {
            step: SetupStep::FindService,
            privileged: config.privileged,
            client: OtsClient {
                action_features: ActionFeature::empty(),
                list_features: ListFeature::empty(),
                present: Presence::none(),
                adapter_addr: L2capSockAddr::new(zero, AddressType::Public, 0),
                device_addr: L2capSockAddr::new(zero, AddressType::Public, 0),
                sock_security: config.security,
            },
        }
    }

    /// The step in progress.
    pub fn step(&self) -> (r: SetupStep)
        ensures
            r == self.step,
    {
        self.step
    }

    /// Takes in how the step in progress went and says what follows.  Where the setup
    /// goes on, what the event taught is kept; else nothing changes.
    pub fn advance(&mut self, event: &SetupEvent) -> (r: SetupOutcome)
        ensures
            r == old(self).spec_outcome(event),
            final(self).step == (match r {
                SetupOutcome::Next(s) => s,
                _ => old(self).step,
            }),
            final(self).privileged == old(self).privileged,
            final(self).client.sock_security == old(self).client.sock_security,
            final(self).client.present == old(self).spec_present(event),
            (final(self).client.action_features, final(self).client.list_features) == old(
                self,
            ).spec_features(event),
            (final(self).client.adapter_addr@, final(self).client.device_addr@) == old(
                self,
            ).spec_addresses(event),
            old(self).client.wf() ==> final(self).client.wf(),
    {
        let step: SetupStep = self.step;
        let outcome: SetupOutcome = match (step, event) {
            (SetupStep::FindService, SetupEvent::Found) => SetupOutcome::Next(
                SetupStep::Lookup(Characteristic::Feature),
            ),
            (SetupStep::FindService, SetupEvent::Missing) => SetupOutcome::Propagate,
            (SetupStep::FindService, SetupEvent::Failed) => SetupOutcome::Propagate,
            (SetupStep::Lookup(c), SetupEvent::Found) => {
                self.client.present = self.client.present.with(&c, true);
                SetupOutcome::Next(SetupStep::after(&c))
            },
            (SetupStep::Lookup(c), SetupEvent::Missing) => {
                if c.is_mandatory() {
                    SetupOutcome::Propagate
                } else {
                    self.client.present = self.client.present.with(&c, false);
                    SetupOutcome::Next(SetupStep::after(&c))
                }
            },
            (SetupStep::Lookup(_), SetupEvent::Failed) => SetupOutcome::Propagate,
            (SetupStep::ReadFeature, SetupEvent::Value(v)) => {
                match decode_features(v.as_slice()) {
                    Ok((action, list)) => {
                        self.client.action_features = action;
                        self.client.list_features = list;
                        SetupOutcome::Next(SetupStep::Lookup(Characteristic::ActionControl))
                    },
                    Err(e) => SetupOutcome::Fail(e),
                }
            },
            (SetupStep::ReadFeature, SetupEvent::Failed) => SetupOutcome::Propagate,
            (
                SetupStep::FindAdapter,
                SetupEvent::Adapter { adapter_mac, adapter_type, device_mac, device_type },
            ) => {
                let (adapter, device): (L2capSockAddr, L2capSockAddr) = addresses(
                    self.privileged,
                    *adapter_mac,
                    *adapter_type,
                    *device_mac,
                    *device_type,
                );
                self.client.adapter_addr = adapter;
                self.client.device_addr = device;
                SetupOutcome::Next(SetupStep::Done)
            },
            (SetupStep::FindAdapter, SetupEvent::NoAdapter) => SetupOutcome::Fail(Error::NotFound),
            (SetupStep::FindAdapter, SetupEvent::Failed) => SetupOutcome::Propagate,
            _ => SetupOutcome::Rejected,
        };
        match outcome {
            SetupOutcome::Next(s) => {
                self.step = s;
            },
            _ => {},
        }
        outcome
    }

    /// The client, once the setup is done.
    pub fn finish(&self) -> (r: Option<OtsClient>)
        ensures
            r == (if self.step == SetupStep::Done {
                Some(self.client)
            } else {
                None
            }),
    {
        match self.step {
            SetupStep::Done => Some(self.client),
            _ => None,
        }
    }

    /// A characteristic that is looked up and found is present afterwards; an optional
    /// one that is missing is absent afterwards and the setup goes on; a mandatory one
    /// that is missing ends the setup.
    pub proof fn lemma_lookup(&self, c: Characteristic)
        requires
            self.step == SetupStep::Lookup(c),
        ensures
            self.spec_present(&SetupEvent::Found).spec_has(c),
            !c.spec_is_mandatory() ==> !self.spec_present(&SetupEvent::Missing).spec_has(c)
                && self.spec_outcome(&SetupEvent::Missing) is Next,
            c.spec_is_mandatory() ==> self.spec_outcome(&SetupEvent::Missing)
                == SetupOutcome::Propagate,
    {
    }
}

} // verus!

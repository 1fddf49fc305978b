//! A bulk transfer: the steps by which a part of the selected object is read or written
//! through a data channel.
//!
//! The data channel is opened first and the request to the action control point goes out
//! only when the channel is connected: the server expects a channel to be waiting when
//! it grants the transfer.  A transfer that the server does not offer is refused before
//! any step is taken.

use vstd::prelude::*;

use crate::client::{spec_window, window, OtsClient};
use crate::control::ActionReq;
use crate::error::Error;
use crate::flags::{ActionFeature, WriteMode};
use crate::l2cap::{L2capSockAddr, L2capSockAddrView, Security, CONNECT_TIMEOUT_MS};
use crate::types::Sizes;

verus! {

/// The direction of a transfer.
#[derive(Debug, Clone, Copy, PartialEq, Eq, Hash, Structural)]
pub enum TransferKind {
    /// From the object to the client.
    Read,
    /// From the client to the object, in the given mode.
    Write(WriteMode),
}

/// One step of a transfer.
#[derive(Debug, Clone, PartialEq, Eq)]
pub enum TransferStep {
    /// Create a sequenced-packet socket of the L2CAP protocol.
    Open,
    /// Set the security of the socket.
    SetSecurity(Security),
    /// Bind the socket to the local address.
    Bind(L2capSockAddr),
    /// Connect the socket to the remote address; no connection within the time given
    /// is `Timeout`.
    Connect { peer: L2capSockAddr, timeout_ms: u64 },
    /// Write the request to the action control point and take the response.
    Request(Vec<u8>),
    /// Move so many bytes through the channel.
    Stream { length: usize },
}

/// A `TransferStep` with its addresses and bytes as sequences.
pub enum TransferStepView {
    Open,
    SetSecurity(Security),
    Bind(L2capSockAddrView),
    Connect { peer: L2capSockAddrView, timeout_ms: u64 },
    Request(Seq<u8>),
    Stream { length: usize },
}

impl View for TransferStep {
    type V = TransferStepView;

    open spec fn view(&self) -> TransferStepView {
        match self {
            TransferStep::Open => TransferStepView::Open,
            TransferStep::SetSecurity(s) => TransferStepView::SetSecurity(*s),
            TransferStep::Bind(a) => TransferStepView::Bind(a@),
            TransferStep::Connect { peer, timeout_ms } => TransferStepView::Connect {
                peer: peer@,
                timeout_ms: *timeout_ms,
            },
            TransferStep::Request(b) => TransferStepView::Request(b@),
            TransferStep::Stream { length } => TransferStepView::Stream { length: *length },
        }
    }
}

/// The steps of a plan seen through their views.
pub open spec fn steps_view(steps: Seq<TransferStep>) -> Seq<TransferStepView> {
    steps.map_values(|s: TransferStep| s@)
}

impl TransferKind {
    /// The feature that the server must advertise for the transfer.
    pub open spec fn spec_feature(self) -> u32 {
        match self {
            TransferKind::Read => ActionFeature::READ,
            TransferKind::Write(_) => ActionFeature::WRITE,
        }
    }

    /// The size that bounds the transfer: what the object holds for a read, what it can
    /// hold for a write.
    pub open spec fn spec_bound(self, size: Sizes) -> usize {
        match self {
            TransferKind::Read => size.current,
            TransferKind::Write(_) => size.allocated,
        }
    }

    /// The request that asks the server for the transfer.
    pub open spec fn spec_request(self, offset: usize, length: usize) -> ActionReq {
        match self {
            TransferKind::Read => ActionReq::Read { offset, length },
            TransferKind::Write(mode) => ActionReq::Write { offset, length, mode },
        }
    }

    /// The request that asks the server for the transfer.
    pub fn request(&self, offset: usize, length: usize) -> (r: ActionReq)
        ensures
            r == self.spec_request(offset, length),
    {
        match self {
            TransferKind::Read => ActionReq::Read { offset, length },
            TransferKind::Write(mode) => ActionReq::Write { offset, length, mode: *mode },
        }
    }
}

impl OtsClient {
    /// How many bytes a transfer covers.
    pub open spec fn spec_transfer_length(
        kind: TransferKind,
        size: Sizes,
        offset: usize,
        length: Option<usize>,
    ) -> usize {
        spec_window(length, kind.spec_bound(size), offset)
    }

    /// The steps of a transfer, or `NotSupported` where the server does not advertise
    /// reading or writing.
    ///
    /// The socket is opened, secured where the client was given a security, bound to the
    /// adapter and connected to the device; then the request goes out, and then the
    /// bytes move.
    pub open spec fn spec_transfer(
        &self,
        kind: TransferKind,
        size: Sizes,
        offset: usize,
        length: Option<usize>,
    ) -> Result<Seq<TransferStepView>, Error> {
        let n = Self::spec_transfer_length(kind, size, offset, length);
        if !self.action_features.spec_contains(kind.spec_feature()) {
            Err(Error::NotSupported)
        } else {
            Ok(
                seq![TransferStepView::Open] + (match self.sock_security {
                    Some(s) => seq![TransferStepView::SetSecurity(s)],
                    None => Seq::empty(),
                }) + seq![
                    TransferStepView::Bind(self.adapter_addr@),
                    TransferStepView::Connect {
                        peer: self.device_addr@,
                        timeout_ms: CONNECT_TIMEOUT_MS,
                    },
                    TransferStepView::Request(kind.spec_request(offset, n).spec_encode()),
                    TransferStepView::Stream { length: n },
                ],
            )
        }
    }

    /// Whether the server offers transfers of the kind; `NotSupported` where it does not.
    pub fn supports(&self, kind: TransferKind) -> (r: Result<(), Error>)
        ensures
            r == (if self.action_features.spec_contains(kind.spec_feature()) {
                Ok::<(), Error>(())
            } else {
                Err(Error::NotSupported)
            }),
    {
        let mask: u32 = match kind {
            TransferKind::Read => ActionFeature::READ,
            TransferKind::Write(_) => ActionFeature::WRITE,
        };
        if self.action_features.contains(mask) {
            Ok(())
        } else {
            Err(Error::NotSupported)
        }
    }

    /// Plans a transfer of the selected object, whose sizes were read before.
    pub fn transfer(
        &self,
        kind: TransferKind,
        size: &Sizes,
        offset: usize,
        length: Option<usize>,
    ) -> (r: Result<Vec<TransferStep>, Error>)
        ensures
            match self.spec_transfer(kind, *size, offset, length) {
                Ok(steps) => r matches Ok(v) && steps_view(v@) == steps,
                Err(e) => r matches Err(f) && f == e,
            },
    {
        let bound: usize = match kind {
            TransferKind::Read => size.current,
            TransferKind::Write(_) => size.allocated,
        };
        let n: usize = window(length, bound, offset);
        let req: ActionReq = kind.request(offset, n);
        let bytes: Vec<u8> = match self.action_request(&req) {
            Ok(b) => b,
            Err(e) => {
                return Err(e);
            },
        };
        let mut steps: Vec<TransferStep> = Vec::with_capacity(6);
        steps.push(TransferStep::Open);
        match self.sock_security {
            Some(s) => {
                steps.push(TransferStep::SetSecurity(s));
            },
            None => {},
        }
        steps.push(TransferStep::Bind(self.adapter_addr));
        steps.push(
            TransferStep::Connect { peer: self.device_addr, timeout_ms: CONNECT_TIMEOUT_MS },
        );
        steps.push(TransferStep::Request(bytes));
        steps.push(TransferStep::Stream { length: n });
        proof {
            assert(steps_view(steps@) =~= self.spec_transfer(kind, *size, offset, length)->Ok_0);
        }
        Ok(steps)
    }

    /// In every plan the request to the control point comes behind the connection of
    /// the channel and before the bytes move, and a server that does not offer the
    /// transfer gets no plan at all.
    pub proof fn lemma_connect_before_request(
        &self,
        kind: TransferKind,
        size: Sizes,
        offset: usize,
        length: Option<usize>,
    )
        ensures
            match self.spec_transfer(kind, size, offset, length) {
                Ok(steps) => {
                    let n = steps.len() as int;
                    &&& self.action_features.spec_contains(kind.spec_feature())
                    &&& n >= 5
                    &&& steps[0] == TransferStepView::Open
                    &&& steps[n - 4] is Bind
                    &&& steps[n - 3] is Connect
                    &&& steps[n - 2] is Request
                    &&& steps[n - 1] is Stream
                    &&& forall|i: int| 0 <= i < n - 2 ==> !(#[trigger] steps[i] is Request)
                },
                Err(e) => e == Error::NotSupported && !self.action_features.spec_contains(
                    kind.spec_feature(),
                ),
            },
    {
    }
}

/// How many bytes of a transfer are yet to move after a chunk of `moved` bytes.
pub open spec fn spec_remaining(length: usize, moved: usize) -> usize {
    if moved <= length {
        (length - moved) as usize
    } else {
        0
    }
}

/// How many bytes of a transfer are yet to move after a chunk of `moved` bytes; the
/// transfer is complete when none are.
pub fn remaining(length: usize, moved: usize) -> (r: usize)
    ensures
        r == spec_remaining(length, moved),
{
    if moved <= length {
        length - moved
    } else {
        0
    }
}

} // verus!

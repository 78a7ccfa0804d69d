//! The collaborator interfaces the bridge is composed with, and the
//! requests it hands them.
//!
//! Per the bridge's architecture, the asset ledger and the address mapping
//! are capabilities chosen at composition time: [`AssetLedger`] carries the
//! dispatch/execution engine (including its weight metering and its
//! weight-to-gas conversion), [`AddressMapper`] the total, deterministic
//! conversion between external addresses and internal account identifiers.
//! The bridge never mutates ledger state itself; it only builds a
//! [`Request`] and forwards it.

use vstd::prelude::*;

use crate::domain::{AccountId, AssetId, Balance, EvmAddress};
use crate::revert::LedgerError;

verus! {

/// One of the ledger's asset state-transition calls, in internal form:
/// every field already converted and validated by the bridge.
#[derive(Clone, PartialEq, Eq, Debug)]
pub enum AssetCall {
    Create { id: AssetId, admin: AccountId, min_balance: Balance },
    SetMetadata { id: AssetId, name: Vec<u8>, symbol: Vec<u8>, decimals: u8 },
    SetMinBalance { id: AssetId, min_balance: Balance },
    SetTeam { id: AssetId, issuer: AccountId, admin: AccountId, freezer: AccountId },
    TransferOwnership { id: AssetId, owner: AccountId },
    StartDestroy { id: AssetId },
    FinishDestroy { id: AssetId },
}

/// The mathematical form of an [`AssetCall`].
pub ghost enum AssetCallV {
    Create { id: u32, admin: Seq<u8>, min_balance: u64 },
    SetMetadata { id: u32, name: Seq<u8>, symbol: Seq<u8>, decimals: u8 },
    SetMinBalance { id: u32, min_balance: u64 },
    SetTeam { id: u32, issuer: Seq<u8>, admin: Seq<u8>, freezer: Seq<u8> },
    TransferOwnership { id: u32, owner: Seq<u8> },
    StartDestroy { id: u32 },
    FinishDestroy { id: u32 },
}

impl View for AssetCall {
    type V = AssetCallV;

    open spec fn view(&self) -> AssetCallV {
        match self {
            AssetCall::Create { id, admin, min_balance } => AssetCallV::Create {
                id: id.0,
                admin: admin@,
                min_balance: *min_balance,
            },
            AssetCall::SetMetadata { id, name, symbol, decimals } => AssetCallV::SetMetadata {
                id: id.0,
                name: name@,
                symbol: symbol@,
                decimals: *decimals,
            },
            AssetCall::SetMinBalance { id, min_balance } => AssetCallV::SetMinBalance {
                id: id.0,
                min_balance: *min_balance,
            },
            AssetCall::SetTeam { id, issuer, admin, freezer } => AssetCallV::SetTeam {
                id: id.0,
                issuer: issuer@,
                admin: admin@,
                freezer: freezer@,
            },
            AssetCall::TransferOwnership { id, owner } => AssetCallV::TransferOwnership {
                id: id.0,
                owner: owner@,
            },
            AssetCall::StartDestroy { id } => AssetCallV::StartDestroy { id: id.0 },
            AssetCall::FinishDestroy { id } => AssetCallV::FinishDestroy { id: id.0 },
        }
    }
}

/// A fully-formed state-transition request: the call together with the
/// origin it executes on behalf of.
#[derive(Clone, PartialEq, Eq, Debug)]
pub struct Request {
    pub origin: AccountId,
    pub call: AssetCall,
}

/// The mathematical form of a [`Request`].
pub ghost struct RequestV {
    pub origin: Seq<u8>,
    pub call: AssetCallV,
}

impl View for Request {
    type V = RequestV;

    open spec fn view(&self) -> RequestV {
        RequestV { origin: self.origin@, call: self.call@ }
    }
}

/// The asset ledger together with its dispatch/execution engine.
///
/// The interface promises exactly what the bridge relies on: dispatching
/// appends the request, as handed over, to the ledger's dispatch history,
/// and yields the ledger's own verdict; the engine meters each request in
/// its native weight unit and owns the conversion from weight to gas.
/// What a dispatched request does to asset state is the ledger's business
/// and is deliberately not specified here.
pub trait AssetLedger: Sized {
    /// Every request dispatched so far, oldest first.
    spec fn history(&self) -> Seq<RequestV>;

    /// The ledger's verdict on a request dispatched in the current state:
    /// nothing on success, its own error otherwise.
    spec fn verdict(&self, req: RequestV) -> Option<LedgerError>;

    /// The metered weight of executing a request, in the engine's native
    /// unit.
    spec fn weight_of(&self, req: RequestV) -> u64;

    /// The engine's conversion from its native weight unit to gas.
    spec fn weight_to_gas(&self, w: u64) -> u64;

    /// The gas the engine requires for a request: its metered weight,
    /// converted.
    fn required_gas(&self, req: &Request) -> (g: u64)
        ensures
            g == self.weight_to_gas(self.weight_of(req@)),
    ;

    /// Executes a request, appending it to the history and returning the
    /// ledger's verdict.
    fn dispatch(&mut self, req: Request) -> (v: Option<LedgerError>)
        ensures
            v == old(self).verdict(req@),
            final(self).history() == old(self).history().push(req@),
    ;
}

/// The address-mapping collaborator: total, deterministic conversions
/// between the external address space and internal identifiers.
pub trait AddressMapper {
    /// The internal account identifier an external address maps to.
    spec fn account_of(addr: Seq<u8>) -> Seq<u8>;

    /// The external address derived from an asset id.
    spec fn address_of_asset(id: u32) -> Seq<u8>;

    /// Resolves an external address to its internal account identifier;
    /// total: unknown addresses map to a deterministic identifier too.
    fn into_account_id(addr: &EvmAddress) -> (r: AccountId)
        ensures
            r@ == Self::account_of(addr@),
    ;

    /// Derives the external address under which an asset is reachable.
    fn asset_id_to_address(id: AssetId) -> (r: EvmAddress)
        ensures
            r@ == Self::address_of_asset(id.0),
    ;
}

/// The byte an embedding-mapped asset address holds at position `i`:
/// a four-byte marker prefix, twelve zero bytes, then the id big-endian.
pub open spec fn embedded_asset_byte(id: u32, i: int) -> u8 {
    if i < 4 {
        0xFFu8
    } else if i < 16 {
        0u8
    } else if i == 16 {
        (id >> 24) as u8
    } else if i == 17 {
        (id >> 16) as u8
    } else if i == 18 {
        (id >> 8) as u8
    } else {
        id as u8
    }
}

/// An [`AddressMapper`] that embeds: an external address becomes the first
/// twenty bytes of the account identifier, zero-padded; an asset id becomes
/// an address made of a fixed marker prefix and the id in big-endian form.
pub struct EmbeddingAddressMapper;

impl AddressMapper for EmbeddingAddressMapper {
    open spec fn account_of(addr: Seq<u8>) -> Seq<u8> {
        addr + Seq::new(12, |i: int| 0u8)
    }

    open spec fn address_of_asset(id: u32) -> Seq<u8> {
        Seq::new(20, |i: int| embedded_asset_byte(id, i))
    }

    fn into_account_id(addr: &EvmAddress) -> (r: AccountId) {
        let mut b = [0u8; 32];
        let mut i: usize = 0;
        while i < 20
            invariant
                i <= 20,
                b@.len() == 32,
                forall|j: int| 0 <= j < i ==> b@[j] == addr@[j],
                forall|j: int| i <= j < 32 ==> b@[j] == 0u8,
            decreases 20 - i,
        {
            b[i] = addr.0[i];
            i += 1;
        }
        proof {
            assert(b@ =~= Self::account_of(addr@));
        }
        AccountId(b)
    }

    fn asset_id_to_address(id: AssetId) -> (r: EvmAddress) {
        let mut a = [0u8; 20];
        a[0] = 0xFFu8;
        a[1] = 0xFFu8;
        a[2] = 0xFFu8;
        a[3] = 0xFFu8;
        a[16] = (id.0 >> 24) as u8;
        a[17] = (id.0 >> 16) as u8;
        a[18] = (id.0 >> 8) as u8;
        a[19] = id.0 as u8;
        proof {
            assert(a@ =~= Self::address_of_asset(id.0));
        }
        EvmAddress(a)
    }
}

/// An [`AssetLedger`] whose ledger side is a pure recorder: it keeps every
/// dispatched request and answers each with a configured verdict. It is the
/// composition stub for driving the bridge without a real ledger, and the
/// harness every end-to-end test runs against.
pub struct RecordingLedger {
    /// The weight the engine meters for any request.
    pub dispatch_weight: u64,
    /// The verdict every dispatched request is answered with.
    pub fail_with: Option<LedgerError>,
    /// Every request dispatched so far, oldest first.
    pub requests: Vec<Request>,
}

impl RecordingLedger {
    /// A recorder whose engine meters `dispatch_weight` per request and
    /// whose ledger accepts every request.
    pub fn new(dispatch_weight: u64) -> (l: RecordingLedger)
        ensures
            l.history() == Seq::<RequestV>::empty(),
            l.dispatch_weight == dispatch_weight,
            l.fail_with is None,
    {
        let l = RecordingLedger { dispatch_weight, fail_with: None, requests: Vec::new() };
        proof {
            assert(l.history() =~= Seq::<RequestV>::empty());
        }
        l
    }

    /// A recorder whose ledger rejects every request with `err`.
    pub fn rejecting(dispatch_weight: u64, err: LedgerError) -> (l: RecordingLedger)
        ensures
            l.history() == Seq::<RequestV>::empty(),
            l.dispatch_weight == dispatch_weight,
            l.fail_with == Some(err),
    {
        let l = RecordingLedger { dispatch_weight, fail_with: Some(err), requests: Vec::new() };
        proof {
            assert(l.history() =~= Seq::<RequestV>::empty());
        }
        l
    }
}

impl AssetLedger for RecordingLedger {
    open spec fn history(&self) -> Seq<RequestV> {
        self.requests@.map_values(|r: Request| r@)
    }

    open spec fn verdict(&self, req: RequestV) -> Option<LedgerError> {
        self.fail_with
    }

    open spec fn weight_of(&self, req: RequestV) -> u64 {
        self.dispatch_weight
    }

    open spec fn weight_to_gas(&self, w: u64) -> u64 {
        w
    }

    fn required_gas(&self, req: &Request) -> (g: u64) {
        self.dispatch_weight
    }

    fn dispatch(&mut self, req: Request) -> (v: Option<LedgerError>) {
        let ghost pre = self.requests@;
        let ghost reqv = req@;
        let v = self.fail_with;
        self.requests.push(req);
        proof {
            assert(self.requests@.map_values(|r: Request| r@) =~= pre.map_values(|r: Request| r@)
                .push(reqv));
        }
        v
    }
}

} // verus!

//! The access-control contract client: granting addresses access to a
//! document key and querying permissions, plus the one-time bootstrap
//! decision for the contract address. Granting is a two-step sequence —
//! estimate gas for diagnostics, then submit with a fixed generous
//! ceiling — with no local retry. The contract's documented grant
//! semantics are modelled here so the gating law can be stated and
//! proved.

use vstd::prelude::*;
use vstd::string::*;
use crate::errors::Error;
use crate::hexcodec::{bytes_of_hex, hex_str_of, is_hex_seq};
use crate::ident::is_canonical_id;
use crate::types::Address;

verus! {

/// The fixed gas ceiling every grant transaction is submitted with,
/// regardless of the estimate.
pub const GRANT_GAS_LIMIT: u64 = 8000000;

/// Whether a character sequence is a bare 40-digit hex address.
pub open spec fn is_address_hex(s: Seq<char>) -> bool {
    s.len() == 40 && is_hex_seq(s)
}

/// Where a grant run stands.
pub enum GrantState {
    /// Gas is being estimated; the estimate is diagnostic only.
    AwaitGasEstimate,
    /// The transaction is being submitted with the fixed ceiling.
    AwaitSubmission,
    /// The transaction was accepted with this receipt.
    Done { receipt: String },
    /// The run failed; the caller must resubmit, nothing retries.
    Failed { error: Error },
}

/// The next chain call a grant run asks its driver to perform. Both
/// calls carry the id and the grantee addresses as bare hex, and are
/// freshly authorized with the run's address and password.
pub enum GrantAction {
    /// Estimate gas for the grant call.
    EstimateGas { document_id: String, addresses: Vec<String> },
    /// Submit the grant transaction with the fixed gas ceiling.
    SubmitGrant { document_id: String, addresses: Vec<String>, gas: u64 },
    /// The run is over; nothing remains to be called.
    Halt,
}

/// One access-grant run.
pub struct GrantFlow {
    pub address: Address,
    pub password: String,
    pub document_id: String,
    pub addresses: Vec<Address>,
    pub state: GrantState,
}

/// The hex renderings of a list of addresses, in order.
pub open spec fn addresses_hex(addrs: Seq<Address>) -> Seq<Seq<char>> {
    addrs.map(|i: int, a: Address| hex_str_of(a.bytes@))
}

/// Whether an action's address list renders the flow's, pointwise.
pub open spec fn renders_addresses(rendered: Seq<String>, addrs: Seq<Address>) -> bool {
    rendered.len() == addrs.len() && forall|i: int|
        0 <= i < addrs.len() ==> #[trigger] rendered[i]@ == hex_str_of(addrs[i].bytes@)
}

fn render_addresses(addrs: &Vec<Address>) -> (r: Vec<String>)
    ensures
        renders_addresses(r@, addrs@),
{
    let mut r: Vec<String> = Vec::new();
    let mut i: usize = 0;
    while i < addrs.len()
        invariant
            i <= addrs@.len(),
            r@.len() == i,
            forall|k: int| 0 <= k < i ==> #[trigger] r@[k]@ == hex_str_of(addrs@[k].bytes@),
        decreases addrs@.len() - i,
    {
        r.push(addrs[i].to_hex());
        i = i + 1;
    }
    r
}

/// The per-run configuration never changes after the run starts.
pub open spec fn same_grant_config(a: &GrantFlow, b: &GrantFlow) -> bool {
    a.address == b.address && a.password == b.password && a.document_id == b.document_id
        && a.addresses == b.addresses
}

impl GrantFlow {
    /// A well-formed run carries a canonical 64-digit hex id.
    pub open spec fn wf(&self) -> bool {
        is_canonical_id(self.document_id@)
    }

    /// Starts a grant run. The first call is the diagnostic gas
    /// estimate for the same call that will be submitted.
    pub fn new(
        address: Address,
        password: String,
        document_id: String,
        addresses: Vec<Address>,
    ) -> (r: (GrantFlow, GrantAction))
        requires
            is_canonical_id(document_id@),
        ensures
            r.0.wf(),
            r.0.address == address,
            r.0.password == password,
            r.0.document_id == document_id,
            r.0.addresses == addresses,
            r.0.state is AwaitGasEstimate,
            (r.1 matches GrantAction::EstimateGas { document_id: d, addresses: a } && d
                == document_id && renders_addresses(a@, addresses@)),
    {
        let d = document_id.clone();
        let rendered = render_addresses(&addresses);
        let flow = GrantFlow {
            address,
            password,
            document_id,
            addresses,
            state: GrantState::AwaitGasEstimate,
        };
        (flow, GrantAction::EstimateGas { document_id: d, addresses: rendered })
    }

    /// Consumes the gas estimate. The estimate itself is discarded:
    /// whatever it was, the submission carries the fixed ceiling. An
    /// estimation failure ends the run as a chain error.
    pub fn on_gas_estimate(self, result: Result<String, String>) -> (r: (GrantFlow, GrantAction))
        requires
            self.wf(),
            self.state is AwaitGasEstimate,
        ensures
            r.0.wf(),
            same_grant_config(&self, &r.0),
            match result {
                Ok(_) => {
                    &&& r.0.state is AwaitSubmission
                    &&& (r.1 matches GrantAction::SubmitGrant { document_id: d, addresses: a, gas }
                        && d == self.document_id && renders_addresses(a@, self.addresses@) && gas
                        == GRANT_GAS_LIMIT)
                },
                Err(m) => {
                    &&& (r.0.state matches GrantState::Failed { error: Error::Chain(t) } && t
                        == m)
                    &&& r.1 is Halt
                },
            },
    {
        let GrantFlow { address, password, document_id, addresses, state: _ } = self;
        match result {
            Ok(_) => {
                let d = document_id.clone();
                let rendered = render_addresses(&addresses);
                let flow = GrantFlow {
                    address,
                    password,
                    document_id,
                    addresses,
                    state: GrantState::AwaitSubmission,
                };
                (
                    flow,
                    GrantAction::SubmitGrant {
                        document_id: d,
                        addresses: rendered,
                        gas: GRANT_GAS_LIMIT,
                    },
                )
            },
            Err(m) => {
                let flow = GrantFlow {
                    address,
                    password,
                    document_id,
                    addresses,
                    state: GrantState::Failed { error: Error::Chain(m) },
                };
                (flow, GrantAction::Halt)
            },
        }
    }

    /// Consumes the submission result, ending the run: a receipt on
    /// success, a chain error otherwise, never a local resubmission.
    pub fn on_submitted(self, result: Result<String, String>) -> (r: (GrantFlow, GrantAction))
        requires
            self.wf(),
            self.state is AwaitSubmission,
        ensures
            r.0.wf(),
            same_grant_config(&self, &r.0),
            r.1 is Halt,
            match result {
                Ok(receipt) => r.0.state matches GrantState::Done { receipt: rc } && rc
                    == receipt,
                Err(m) => r.0.state matches GrantState::Failed { error: Error::Chain(t) } && t
                    == m,
            },
    {
        let GrantFlow { address, password, document_id, addresses, state: _ } = self;
        let new_state = match result {
            Ok(receipt) => GrantState::Done { receipt },
            Err(m) => GrantState::Failed { error: Error::Chain(m) },
        };
        let flow = GrantFlow { address, password, document_id, addresses, state: new_state };
        (flow, GrantAction::Halt)
    }

    /// Whether the run has reached a terminal state.
    pub fn finished(&self) -> (b: bool)
        ensures
            b == (self.state is Done || self.state is Failed),
    {
        match &self.state {
            GrantState::Done { .. } => true,
            GrantState::Failed { .. } => true,
            _ => false,
        }
    }

    /// The outcome of a finished run: the receipt, or the one typed
    /// error the run failed with.
    pub fn into_result(self) -> (r: Result<String, Error>)
        requires
            self.state is Done || self.state is Failed,
        ensures
            (self.state matches GrantState::Done { receipt } ==> r == Ok::<String, Error>(
                receipt,
            )),
            (self.state matches GrantState::Failed { error } ==> r == Err::<String, Error>(error)),
    {
        match self.state {
            GrantState::Done { receipt } => Ok(receipt),
            GrantState::Failed { error } => Err(error),
            _ => {
                proof {
                    assert(false);
                }
                Err(Error::Encoding)
            },
        }
    }
}

/// One read-only permission query: no transaction, no side effect. The
/// call is sent from the queried address itself.
pub struct PermissionQuery {
    pub address: Address,
    pub document_id: String,
}

/// Maps the raw outcome of the read-only permission call: the boolean
/// passes through untouched, a transport fault surfaces as such.
pub fn interpret_permission_result(result: Result<bool, String>) -> (r: Result<bool, Error>)
    ensures
        match result {
            Ok(b) => r == Ok::<bool, Error>(b),
            Err(m) => r matches Err(e) && e == Error::Transport(m),
        },
{
    match result {
        Ok(b) => Ok(b),
        Err(m) => Err(Error::Transport(m)),
    }
}

/// The bootstrap decision for the contract binding: reuse a previously
/// persisted address, or deploy a new contract and persist its address.
pub enum BootstrapAction {
    /// Bind to the contract at this address, without further checks.
    UseExisting { address: Address },
    /// No address is persisted: deploy a new contract.
    Deploy,
}

/// Decides the one-time bootstrap from the persisted address, if any.
/// A persisted file must hold a bare 40-digit hex address; anything
/// else stops the process, so a caller checks before handing it in.
pub fn resolve_contract_address(stored: Option<&str>) -> (r: BootstrapAction)
    requires
        stored matches Some(s) ==> is_address_hex(s@),
    ensures
        match stored {
            Some(s) => r matches BootstrapAction::UseExisting { address } && address.wf()
                && address.bytes@ == bytes_of_hex(s@),
            None => r is Deploy,
        },
{
    match stored {
        Some(s) => {
            match Address::from_hex(s) {
                Some(address) => BootstrapAction::UseExisting { address },
                None => {
                    proof {
                        assert(false);
                    }
                    BootstrapAction::Deploy
                },
            }
        },
        None => BootstrapAction::Deploy,
    }
}

/// The contract's documented permission state: the set of (id, address)
/// pairs ever granted. Grants accumulate; no revoke exists.
pub struct AclModel {
    pub granted: Set<(Seq<char>, Seq<u8>)>,
}

/// The model before any grant: nothing is permitted.
pub open spec fn empty_acl() -> AclModel {
    AclModel { granted: Set::empty() }
}

/// A grant transaction adds every listed address for the id.
pub open spec fn grant_model(m: AclModel, id: Seq<char>, addrs: Seq<Seq<u8>>) -> AclModel {
    AclModel {
        granted: m.granted + Set::new(|p: (Seq<char>, Seq<u8>)| p.0 == id && addrs.contains(p.1)),
    }
}

/// A permission query reads the set, mutating nothing.
pub open spec fn check_model(m: AclModel, addr: Seq<u8>, id: Seq<char>) -> bool {
    m.granted.contains((id, addr))
}

/// Access gating: before any grant a query is false; immediately after
/// a successful grant it is true for every listed address; earlier
/// grants survive, and no pair outside the grant appears.
pub proof fn lemma_access_gating(m: AclModel, id: Seq<char>, addrs: Seq<Seq<u8>>, a: Seq<u8>)
    ensures
        !check_model(empty_acl(), a, id),
        addrs.contains(a) ==> check_model(grant_model(m, id, addrs), a, id),
        check_model(m, a, id) ==> check_model(grant_model(m, id, addrs), a, id),
        forall|id2: Seq<char>, a2: Seq<u8>|
            #[trigger] check_model(grant_model(m, id, addrs), a2, id2) ==> (check_model(
                m,
                a2,
                id2,
            ) || (id2 == id && addrs.contains(a2))),
{
}

} // verus!

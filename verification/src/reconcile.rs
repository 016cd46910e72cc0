use vstd::prelude::*;

use crate::config::{ContractSpec, ContractSpecView, MutationPolicy};
use crate::errors::PolicyError;
use crate::store::{FingerprintRecord, FingerprintRecordView};

verus! {

/// What the pipeline will do for one contract, decided by comparing the
/// fresh artifact fingerprint against the recorded deployment state.
pub enum ContractAction {
    /// An explicit `id` is configured: no build, install or instantiate;
    /// bind and import against the pinned identifier.
    Pinned { id: String },
    /// No record exists for (environment, alias): first deployment.
    Install,
    /// A record exists but the fingerprint changed, and the environment
    /// allows mutation: redeploy and replace the stored identifier.
    Update,
    /// The recorded fingerprint matches the fresh one: nothing to deploy;
    /// bind and import against the stored identifier.
    Skip { id: String },
}

pub ghost enum ContractActionView {
    Pinned { id: Seq<char> },
    Install,
    Update,
    Skip { id: Seq<char> },
}

impl View for ContractAction {
    type V = ContractActionView;

    open spec fn view(&self) -> ContractActionView {
        match self {
            ContractAction::Pinned { id } => ContractActionView::Pinned { id: id@ },
            ContractAction::Install => ContractActionView::Install,
            ContractAction::Update => ContractActionView::Update,
            ContractAction::Skip { id } => ContractActionView::Skip { id: id@ },
        }
    }
}

pub open spec fn opt_str_view(s: Option<&String>) -> Option<Seq<char>> {
    match s {
        Some(x) => Some(x@),
        None => None,
    }
}

pub open spec fn opt_rec_view(r: Option<&FingerprintRecord>) -> Option<FingerprintRecordView> {
    match r {
        Some(x) => Some(x@),
        None => None,
    }
}

/// The registration alias under which a contract is reconciled: the
/// configured alias, defaulting to the contract name.
pub open spec fn alias_model(c: ContractSpecView) -> Seq<char> {
    match c.alias {
        Some(a) => a,
        None => c.name,
    }
}

/// The decision rule, as a mathematical function.  `Err` carries the name of
/// the contract that demands an explicitly pinned identifier.
pub open spec fn reconcile_model(
    c: ContractSpecView,
    fresh: Option<Seq<char>>,
    stored: Option<FingerprintRecordView>,
    policy: MutationPolicy,
) -> Result<ContractActionView, Seq<char>> {
    match c.id {
        Some(i) => Ok(ContractActionView::Pinned { id: i }),
        None => match stored {
            None => Ok(ContractActionView::Install),
            Some(rec) => if Some(rec.artifact_hash) == fresh {
                Ok(ContractActionView::Skip { id: rec.on_chain_id })
            } else if policy is MutationAllowed {
                Ok(ContractActionView::Update)
            } else {
                Err(c.name)
            },
        },
    }
}

/// Does this contract need a build (compile + fingerprint) before its action
/// can be decided?  A pinned contract never does.
pub fn needs_build(c: &ContractSpec) -> (b: bool)
    ensures
        b == (c@.id is None),
{
    c.id.is_none()
}

pub fn resolve_alias(c: &ContractSpec) -> (a: String)
    ensures
        a@ == alias_model(c@),
{
    match &c.alias {
        Some(a) => a.clone(),
        None => c.name.clone(),
    }
}

/// Decide the action for one contract.
///
/// `fresh` is the fingerprint of the freshly built artifact; it is only
/// consulted (and only required) when the contract has no pinned identifier,
/// since a pinned contract skips the build entirely.  `stored` is the record
/// found for (environment, alias).  The decision is exactly
/// `reconcile_model`; this function has no side effects, so a failed
/// decision leaves every record untouched.
pub fn reconcile_contract(
    c: &ContractSpec,
    fresh: Option<&String>,
    stored: Option<&FingerprintRecord>,
    policy: MutationPolicy,
) -> (r: Result<ContractAction, PolicyError>)
    requires
        c@.id is Some || fresh is Some,
    ensures
        r matches Ok(a) ==> reconcile_model(c@, opt_str_view(fresh), opt_rec_view(stored), policy)
            == Ok::<ContractActionView, Seq<char>>(a@),
        r matches Err(e) ==> (e matches PolicyError::MissingExplicitId(n) && n@ == c@.name
            && reconcile_model(c@, opt_str_view(fresh), opt_rec_view(stored), policy)
            == Err::<ContractActionView, Seq<char>>(c@.name)),
        (r is Ok) == (reconcile_model(c@, opt_str_view(fresh), opt_rec_view(stored), policy)
            is Ok),
{
    match &c.id {
        Some(i) => Ok(ContractAction::Pinned { id: i.clone() }),
        None => {
            let fresh_hash = match fresh {
                Some(h) => h,
                None => unreached(),
            };
            match stored {
                None => Ok(ContractAction::Install),
                Some(rec) => {
                    if rec.artifact_hash == *fresh_hash {
                        Ok(ContractAction::Skip { id: rec.on_chain_id.clone() })
                    } else {
                        match policy {
                            MutationPolicy::MutationAllowed => Ok(ContractAction::Update),
                            MutationPolicy::RequiresExplicitId => Err(
                                PolicyError::MissingExplicitId(c.name.clone()),
                            ),
                        }
                    }
                },
            }
        },
    }
}

/// The record persisted after a successful install or update: keyed by the
/// resolved alias, carrying the deployed fingerprint and the identifier the
/// network returned.
pub fn deployment_record(c: &ContractSpec, fresh_hash: &String, new_id: &String) -> (r:
    FingerprintRecord)
    ensures
        r@.contract_name == c@.name,
        r@.alias == alias_model(c@),
        r@.artifact_hash == fresh_hash@,
        r@.on_chain_id == new_id@,
{
    FingerprintRecord {
        contract_name: c.name.clone(),
        alias: resolve_alias(c),
        artifact_hash: fresh_hash.clone(),
        on_chain_id: new_id.clone(),
    }
}

/// Idempotence of the decision: when the stored fingerprint equals the fresh
/// one, the action is Skip with the previously recorded identifier — a rerun
/// with no changes deploys nothing and reuses the same on-chain identifier.
pub proof fn lemma_unchanged_fingerprint_skips(
    c: ContractSpecView,
    fresh: Seq<char>,
    rec: FingerprintRecordView,
    policy: MutationPolicy,
)
    requires
        c.id is None,
        rec.artifact_hash == fresh,
    ensures
        reconcile_model(c, Some(fresh), Some(rec), policy) == Ok::<
            ContractActionView,
            Seq<char>,
        >(ContractActionView::Skip { id: rec.on_chain_id }),
{
}

/// Policy enforcement: in an environment without mutation-allowed policy, a
/// changed fingerprint with no pinned identifier is always refused, whatever
/// the stored record holds.
pub proof fn lemma_policy_refuses_silent_redeploy(
    c: ContractSpecView,
    fresh: Seq<char>,
    rec: FingerprintRecordView,
)
    requires
        c.id is None,
        rec.artifact_hash != fresh,
    ensures
        reconcile_model(c, Some(fresh), Some(rec), MutationPolicy::RequiresExplicitId) == Err::<
            ContractActionView,
            Seq<char>,
        >(c.name),
{
}

/// Relocation: with no stored record — as after copying a project directory
/// without its fingerprint store — the decision is a fresh Install, never a
/// Skip, whatever the fingerprint.
pub proof fn lemma_no_record_installs(c: ContractSpecView, fresh: Seq<char>, policy: MutationPolicy)
    requires
        c.id is None,
    ensures
        reconcile_model(c, Some(fresh), None, policy) == Ok::<ContractActionView, Seq<char>>(
            ContractActionView::Install,
        ),
{
}

/// Pinned identifier: an explicit `id` decides the action by itself —
/// fingerprint state and policy are never consulted.
pub proof fn lemma_pinned_id_decides(
    c: ContractSpecView,
    i: Seq<char>,
    fresh: Option<Seq<char>>,
    stored: Option<FingerprintRecordView>,
    policy: MutationPolicy,
)
    requires
        c.id == Some(i),
    ensures
        reconcile_model(c, fresh, stored, policy) == Ok::<ContractActionView, Seq<char>>(
            ContractActionView::Pinned { id: i },
        ),
{
}

} // verus!

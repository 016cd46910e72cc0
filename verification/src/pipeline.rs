use vstd::prelude::*;

use crate::config::{ContractSpec, ContractSpecView, Environment, MutationPolicy};
use crate::reconcile::{alias_model, reconcile_model, ContractAction, ContractActionView};
use crate::store::{FingerprintRecordView, FingerprintStore};
use vstd::string::StrSliceExecFns;

verus! {

/// One step of a contract's pipeline, executed strictly in order; a step's
/// failure aborts only that contract's remaining steps.
#[derive(Clone, Copy, PartialEq, Eq, Structural, Debug)]
pub enum StepKind {
    Compile,
    Install,
    Instantiate,
    Bind,
    Import,
}

/// The steps owed to a contract once its action is decided.  Bind and import
/// always run — even on Skip — so generated client artifacts stay fresh;
/// install and instantiate run only for Install and Update.
pub open spec fn steps_model(a: ContractActionView) -> Seq<StepKind> {
    match a {
        ContractActionView::Pinned { .. } => seq![StepKind::Bind, StepKind::Import],
        ContractActionView::Skip { .. } => seq![StepKind::Bind, StepKind::Import],
        ContractActionView::Install => seq![
            StepKind::Install,
            StepKind::Instantiate,
            StepKind::Bind,
            StepKind::Import,
        ],
        ContractActionView::Update => seq![
            StepKind::Install,
            StepKind::Instantiate,
            StepKind::Bind,
            StepKind::Import,
        ],
    }
}

/// The whole per-contract sequence, compile included: a contract without a
/// pinned identifier is compiled first (its fingerprint feeds the decision);
/// a pinned contract is never compiled.
pub open spec fn plan_model(c: ContractSpecView, a: ContractActionView) -> Seq<StepKind> {
    if c.id is None {
        seq![StepKind::Compile] + steps_model(a)
    } else {
        steps_model(a)
    }
}

pub fn contract_steps(a: &ContractAction) -> (v: Vec<StepKind>)
    ensures
        v@ == steps_model(a@),
{
    let mut v: Vec<StepKind> = Vec::new();
    match a {
        ContractAction::Install | ContractAction::Update => {
            v.push(StepKind::Install);
            v.push(StepKind::Instantiate);
        },
        _ => (),
    }
    v.push(StepKind::Bind);
    v.push(StepKind::Import);
    proof {
        assert(v@ =~= steps_model(a@));
    }
    v
}

pub fn planned_steps(c: &ContractSpec, a: &ContractAction) -> (v: Vec<StepKind>)
    ensures
        v@ == plan_model(c@, a@),
{
    let mut v: Vec<StepKind> = Vec::new();
    if c.id.is_none() {
        v.push(StepKind::Compile);
    }
    let mut rest = contract_steps(a);
    v.append(&mut rest);
    proof {
        assert(v@ =~= plan_model(c@, a@));
    }
    v
}

/// The fingerprint record is written if and only if the contract's action
/// deployed something and every step of it succeeded: persistence is the
/// commit point, after on-chain confirmation.
pub open spec fn should_persist_model(a: ContractActionView, steps_ok: bool) -> bool {
    steps_ok && (a is Install || a is Update)
}

pub fn should_persist(a: &ContractAction, steps_ok: bool) -> (b: bool)
    ensures
        b == should_persist_model(a@, steps_ok),
{
    steps_ok && match a {
        ContractAction::Install | ContractAction::Update => true,
        _ => false,
    }
}

/// Commit point of one contract's pipeline run.  When the action deployed
/// something and all its steps succeeded, the new record replaces the stored
/// one; in every other case — skip, pinned, or any step failure — the store
/// is left exactly as it was.
pub fn commit_contract(
    store: &mut FingerprintStore,
    environment: &String,
    c: &ContractSpec,
    a: &ContractAction,
    fresh_hash: &String,
    new_id: &String,
    steps_ok: bool,
)
    requires
        old(store).wf(),
    ensures
        final(store).wf(),
        should_persist_model(a@, steps_ok) ==> {
            &&& crate::store::stored_at(final(store)@, environment@, alias_model(c@)) == Some(
                crate::store::FingerprintRecordView {
                    contract_name: c@.name,
                    alias: alias_model(c@),
                    artifact_hash: fresh_hash@,
                    on_chain_id: new_id@,
                },
            )
            &&& forall|e: Seq<char>, al: Seq<char>|
                !(e == environment@ && al == alias_model(c@)) ==> crate::store::stored_at(
                    final(store)@,
                    e,
                    al,
                ) == crate::store::stored_at(old(store)@, e, al)
        },
        !should_persist_model(a@, steps_ok) ==> final(store)@ == old(store)@,
{
    if should_persist(a, steps_ok) {
        let record = crate::reconcile::deployment_record(c, fresh_hash, new_id);
        store.put(environment, record);
    }
}

/// The outcome of one contract within a pipeline invocation.  Skip is a
/// successful outcome, not an error.
pub struct ContractReport {
    pub name: String,
    pub failed: bool,
    pub message: String,
}

/// A pipeline invocation is reported failed if any contract failed; one
/// contract's failure does not abort the others.
#[verifier::loop_isolation(false)]
pub fn run_failed(reports: &Vec<ContractReport>) -> (b: bool)
    ensures
        b == exists|i: int| 0 <= i < reports@.len() && reports@[i].failed,
{
    let mut k: usize = 0;
    let n = reports.len();
    while k < n
        invariant
            k <= n,
            forall|i: int| 0 <= i < k ==> !reports@[i].failed,
        decreases n - k,
    {
        if reports[k].failed {
            return true;
        }
        k += 1;
    }
    false
}

/// A one-shot invocation's process exit code: zero exactly on full success.
pub fn exit_code(reports: &Vec<ContractReport>) -> (c: i32)
    ensures
        (c == 0) == !(exists|i: int| 0 <= i < reports@.len() && reports@[i].failed),
        c == 0 || c == 1,
{
    if run_failed(reports) {
        1
    } else {
        0
    }
}

/// The contracts an invocation processes: exactly those opted in with
/// `client = true`, in configuration order (deterministic across reruns).
pub open spec fn with_client(s: Seq<ContractSpecView>) -> Seq<ContractSpecView>
    decreases s.len(),
{
    if s.len() == 0 {
        Seq::empty()
    } else if s.last().client {
        with_client(s.drop_last()).push(s.last())
    } else {
        with_client(s.drop_last())
    }
}

#[verifier::loop_isolation(false)]
pub fn contracts_to_process(env: &Environment) -> (v: Vec<ContractSpec>)
    ensures
        v@.map_values(|c: ContractSpec| c@) == with_client(
            env.contracts@.map_values(|c: ContractSpec| c@),
        ),
{
    let mut v: Vec<ContractSpec> = Vec::new();
    let mut k: usize = 0;
    let n = env.contracts.len();
    while k < n
        invariant
            k <= n,
            v@.map_values(|c: ContractSpec| c@) == with_client(
                env.contracts@.take(k as int).map_values(|c: ContractSpec| c@),
            ),
        decreases n - k,
    {
        let ghost pre = env.contracts@.take(k as int).map_values(|c: ContractSpec| c@);
        let ghost post = env.contracts@.take(k as int + 1).map_values(|c: ContractSpec| c@);
        proof {
            assert(post.drop_last() =~= pre);
            assert(post.last() == env.contracts@[k as int]@);
        }
        if env.contracts[k].client {
            v.push(crate::config::clone_contract_spec(&env.contracts[k]));
        }
        k += 1;
        proof {
            assert(v@.map_values(|c: ContractSpec| c@) =~= with_client(post));
        }
    }
    proof {
        assert(env.contracts@.take(n as int) =~= env.contracts@);
    }
    v
}

/// Lexicographic order on contract names, by code point: the deterministic
/// processing order of one pipeline run.
pub open spec fn name_le(x: Seq<char>, y: Seq<char>) -> bool
    decreases x.len(),
{
    if x.len() == 0 {
        true
    } else if y.len() == 0 {
        false
    } else if (x[0] as u32) == (y[0] as u32) {
        name_le(x.skip(1), y.skip(1))
    } else {
        (x[0] as u32) < (y[0] as u32)
    }
}

pub proof fn lemma_name_le_refl(x: Seq<char>)
    ensures
        name_le(x, x),
    decreases x.len(),
{
    if x.len() > 0 {
        lemma_name_le_refl(x.skip(1));
    }
}

pub proof fn lemma_name_le_total(x: Seq<char>, y: Seq<char>)
    ensures
        name_le(x, y) || name_le(y, x),
    decreases x.len(),
{
    if x.len() > 0 && y.len() > 0 && (x[0] as u32) == (y[0] as u32) {
        lemma_name_le_total(x.skip(1), y.skip(1));
    }
}

pub proof fn lemma_name_le_trans(x: Seq<char>, y: Seq<char>, z: Seq<char>)
    requires
        name_le(x, y),
        name_le(y, z),
    ensures
        name_le(x, z),
    decreases x.len(),
{
    if x.len() > 0 && y.len() > 0 && z.len() > 0 && (x[0] as u32) == (y[0] as u32) && (y[0] as u32)
        == (z[0] as u32) {
        lemma_name_le_trans(x.skip(1), y.skip(1), z.skip(1));
    }
}

#[verifier::loop_isolation(false)]
fn str_name_le(a: &str, b: &str) -> (r: bool)
    ensures
        r == name_le(a@, b@),
{
    let na = a.unicode_len();
    let nb = b.unicode_len();
    proof {
        assert(a@.skip(0) =~= a@);
        assert(b@.skip(0) =~= b@);
    }
    let mut i: usize = 0;
    while i < na && i < nb
        invariant
            i <= na,
            i <= nb,
            name_le(a@, b@) == name_le(a@.skip(i as int), b@.skip(i as int)),
        decreases na - i,
    {
        let ca = a.get_char(i);
        let cb = b.get_char(i);
        if (ca as u32) == (cb as u32) {
            proof {
                assert(a@.skip(i as int).skip(1) =~= a@.skip(i as int + 1));
                assert(b@.skip(i as int).skip(1) =~= b@.skip(i as int + 1));
            }
            i += 1;
        } else {
            return (ca as u32) < (cb as u32);
        }
    }
    i >= na
}

pub open spec fn sorted_by_name(s: Seq<ContractSpecView>) -> bool {
    forall|i: int, j: int| 0 <= i < j < s.len() ==> name_le(s[i].name, s[j].name)
}

/// The contracts of one run in their processing order: those opted in with
/// `client = true`, sorted by contract name — deterministic, for
/// reproducible logs and reruns.
#[verifier::loop_isolation(false)]
pub fn ordered_contracts_to_process(env: &Environment) -> (r: Vec<ContractSpec>)
    ensures
        sorted_by_name(r@.map_values(|c: ContractSpec| c@)),
        r@.map_values(|c: ContractSpec| c@).to_multiset() == with_client(
            env.contracts@.map_values(|c: ContractSpec| c@),
        ).to_multiset(),
{
    let selected = contracts_to_process(env);
    sort_contracts_by_name(selected)
}

#[verifier::loop_isolation(false)]
fn min_name_index(rest: &Vec<ContractSpec>) -> (m: usize)
    requires
        rest@.len() > 0,
    ensures
        m < rest@.len(),
        forall|j: int| 0 <= j < rest@.len() ==> name_le(rest@[m as int]@.name, rest@[j]@.name),
{
    let mut m: usize = 0;
    let mut k: usize = 1;
    let n = rest.len();
    proof {
        lemma_name_le_refl(rest@[0]@.name);
    }
    while k < n
        invariant
            m < k <= n,
            forall|j: int| 0 <= j < k ==> name_le(rest@[m as int]@.name, rest@[j]@.name),
        decreases n - k,
    {
        if !str_name_le(rest[m].name.as_str(), rest[k].name.as_str()) {
            proof {
                lemma_name_le_total(rest@[m as int]@.name, rest@[k as int]@.name);
                lemma_name_le_refl(rest@[k as int]@.name);
                assert forall|j: int| 0 <= j < k + 1 implies name_le(
                    rest@[k as int]@.name,
                    rest@[j]@.name,
                ) by {
                    if j < k {
                        lemma_name_le_trans(
                            rest@[k as int]@.name,
                            rest@[m as int]@.name,
                            rest@[j]@.name,
                        );
                    }
                }
            }
            m = k;
        }
        k += 1;
    }
    m
}

#[verifier::loop_isolation(false)]
fn sort_contracts_by_name(v: Vec<ContractSpec>) -> (r: Vec<ContractSpec>)
    ensures
        sorted_by_name(r@.map_values(|c: ContractSpec| c@)),
        r@.map_values(|c: ContractSpec| c@).to_multiset() == v@.map_values(
            |c: ContractSpec| c@,
        ).to_multiset(),
{
    broadcast use vstd::seq_lib::group_to_multiset_ensures;

    let mut rest = v;
    let mut out: Vec<ContractSpec> = Vec::new();
    let ghost all = rest@.map_values(|c: ContractSpec| c@).to_multiset();
    while rest.len() > 0
        invariant
            sorted_by_name(out@.map_values(|c: ContractSpec| c@)),
            out@.map_values(|c: ContractSpec| c@).to_multiset().add(
                rest@.map_values(|c: ContractSpec| c@).to_multiset(),
            ) == all,
            forall|i: int, j: int|
                0 <= i < out@.len() && 0 <= j < rest@.len() ==> name_le(
                    out@[i]@.name,
                    rest@[j]@.name,
                ),
        decreases rest@.len(),
    {
        let ghost out0 = out@.map_values(|c: ContractSpec| c@);
        let ghost rest0 = rest@.map_values(|c: ContractSpec| c@);
        let m = min_name_index(&rest);
        let x = rest.remove(m);
        out.push(x);
        proof {
            let out1 = out@.map_values(|c: ContractSpec| c@);
            let rest1 = rest@.map_values(|c: ContractSpec| c@);
            assert(out1 =~= out0.push(x@));
            assert(rest1 =~= rest0.remove(m as int));
            assert(out1.to_multiset().add(rest1.to_multiset()) =~= out0.to_multiset().add(
                rest0.to_multiset(),
            ));
            assert forall|i: int, j: int|
                0 <= i < out1.len() && 0 <= j < rest1.len() implies name_le(
                out1[i].name,
                rest1[j].name,
            ) by {
                let j0: int = if j < m { j } else { j + 1 };
                assert(rest1[j] == rest0[j0]);
                if i < out0.len() {
                    assert(out1[i] == out0[i]);
                } else {
                    assert(out1[i] == x@);
                }
            }
            assert forall|i: int, j: int|
                0 <= i < j < out1.len() implies name_le(out1[i].name, out1[j].name) by {
                if j == out1.len() - 1 {
                    assert(out1[j] == x@);
                    assert(out1[i] == out0[i]);
                    assert(name_le(out0[i].name, rest0[m as int].name));
                }
            }
        }
    }
    proof {
        broadcast use vstd::multiset::group_multiset_axioms;

        let rest1 = rest@.map_values(|c: ContractSpec| c@);
        let out1 = out@.map_values(|c: ContractSpec| c@);
        assert(rest1.to_multiset().len() == rest1.len());
        vstd::multiset::lemma_multiset_empty_len(rest1.to_multiset());
        assert(out1.to_multiset() =~= out1.to_multiset().add(rest1.to_multiset()));
    }
    out
}

/// Bind output paths are deterministic per contract: the generated client
/// package directory and the typed import source file.
pub fn client_package_path(name: &String) -> (r: String)
    ensures
        r@ == "packages/"@ + name@,
{
    let mut r = String::from_str("packages/");
    r.append(name.as_str());
    r
}

pub fn client_import_path(name: &String) -> (r: String)
    ensures
        r@ == "src/contracts/"@ + name@ + ".ts"@,
{
    let mut r = String::from_str("src/contracts/");
    r.append(name.as_str());
    r.append(".ts");
    r
}

/// Pinned identifier bypass, over the whole per-contract plan: a pinned
/// contract's steps never include compile, install or instantiate, yet bind
/// and import are both present.
pub proof fn lemma_pinned_plan_bypasses_deploy(c: ContractSpecView, i: Seq<char>)
    requires
        c.id == Some(i),
    ensures
        forall|k: int|
            0 <= k < plan_model(c, ContractActionView::Pinned { id: i }).len() ==> plan_model(
                c,
                ContractActionView::Pinned { id: i },
            )[k] != StepKind::Compile && plan_model(c, ContractActionView::Pinned { id: i })[k]
                != StepKind::Install && plan_model(c, ContractActionView::Pinned { id: i })[k]
                != StepKind::Instantiate,
        plan_model(c, ContractActionView::Pinned { id: i }).contains(StepKind::Bind),
        plan_model(c, ContractActionView::Pinned { id: i }).contains(StepKind::Import),
{
    let p = plan_model(c, ContractActionView::Pinned { id: i });
    assert(p == seq![StepKind::Bind, StepKind::Import]);
    assert(p[0] == StepKind::Bind);
    assert(p[1] == StepKind::Import);
}

/// Idempotence, end to end: once a deploy of fingerprint `h` is recorded, a
/// rerun that builds the same fingerprint decides Skip with the recorded
/// identifier, its steps hold no install and no instantiate, and nothing is
/// persisted — so the stored state after the rerun is identical too.
pub proof fn lemma_idempotent_rerun(
    c: ContractSpecView,
    h: Seq<char>,
    rec: FingerprintRecordView,
    policy: MutationPolicy,
    steps_ok: bool,
)
    requires
        c.id is None,
        rec.artifact_hash == h,
    ensures
        reconcile_model(c, Some(h), Some(rec), policy) == Ok::<ContractActionView, Seq<char>>(
            ContractActionView::Skip { id: rec.on_chain_id },
        ),
        steps_model(ContractActionView::Skip { id: rec.on_chain_id }) == seq![
            StepKind::Bind,
            StepKind::Import,
        ],
        !should_persist_model(ContractActionView::Skip { id: rec.on_chain_id }, steps_ok),
{
    lemma_skip_steps_deploy_nothing(rec.on_chain_id);
}

/// Policy enforcement, end to end: in an environment that forbids silent
/// mutation, a changed fingerprint with no pinned identifier yields no
/// action at all — and since only a successful Install or Update ever
/// persists, the previously recorded state is left untouched.
pub proof fn lemma_policy_failure_writes_nothing(
    c: ContractSpecView,
    h: Seq<char>,
    rec: FingerprintRecordView,
)
    requires
        c.id is None,
        rec.artifact_hash != h,
    ensures
        reconcile_model(c, Some(h), Some(rec), MutationPolicy::RequiresExplicitId) == Err::<
            ContractActionView,
            Seq<char>,
        >(c.name),
        forall|a: ContractActionView, ok: bool|
            reconcile_model(c, Some(h), Some(rec), MutationPolicy::RequiresExplicitId) == Ok::<
                ContractActionView,
                Seq<char>,
            >(a) ==> !should_persist_model(a, ok),
{
}

/// Idempotence, over the steps: a Skip action runs no install and no
/// instantiate — only bind and import are re-run.
pub proof fn lemma_skip_steps_deploy_nothing(id: Seq<char>)
    ensures
        steps_model(ContractActionView::Skip { id }) == seq![StepKind::Bind, StepKind::Import],
        forall|k: int|
            0 <= k < steps_model(ContractActionView::Skip { id }).len() ==> steps_model(
                ContractActionView::Skip { id },
            )[k] != StepKind::Install && steps_model(ContractActionView::Skip { id })[k]
                != StepKind::Instantiate,
{
    let s = steps_model(ContractActionView::Skip { id });
    assert(s[0] == StepKind::Bind);
    assert(s[1] == StepKind::Import);
}

} // verus!

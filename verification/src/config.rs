use vstd::prelude::*;

use crate::errors::ConfigError;

verus! {

/// The reconciliation policy attached to an environment: development and
/// staging environments may redeploy a changed contract silently, while
/// production-like environments demand an explicitly pinned identifier.
#[derive(Clone, Copy, PartialEq, Eq, Structural, Debug)]
pub enum MutationPolicy {
    MutationAllowed,
    RequiresExplicitId,
}

/// Where the pipeline talks to: an RPC endpoint, its passphrase, and whether
/// a local disposable test network should be started instead.
pub struct NetworkDescriptor {
    pub rpc_url: String,
    pub network_passphrase: String,
    pub run_locally: bool,
}

pub ghost struct NetworkDescriptorView {
    pub rpc_url: Seq<char>,
    pub network_passphrase: Seq<char>,
    pub run_locally: bool,
}

impl View for NetworkDescriptor {
    type V = NetworkDescriptorView;

    open spec fn view(&self) -> NetworkDescriptorView {
        NetworkDescriptorView {
            rpc_url: self.rpc_url@,
            network_passphrase: self.network_passphrase@,
            run_locally: self.run_locally,
        }
    }
}

/// One contract as configured for an environment: whether a typed client is
/// generated and deployed, an optional pinned on-chain identifier, and an
/// optional registration alias (defaults to the contract name).
pub struct ContractSpec {
    pub name: String,
    pub client: bool,
    pub id: Option<String>,
    pub alias: Option<String>,
}

pub ghost struct ContractSpecView {
    pub name: Seq<char>,
    pub client: bool,
    pub id: Option<Seq<char>>,
    pub alias: Option<Seq<char>>,
}

impl View for ContractSpec {
    type V = ContractSpecView;

    open spec fn view(&self) -> ContractSpecView {
        ContractSpecView {
            name: self.name@,
            client: self.client,
            id: match self.id {
                Some(i) => Some(i@),
                None => None,
            },
            alias: match self.alias {
                Some(a) => Some(a@),
                None => None,
            },
        }
    }
}

/// A build unit discovered in the workspace at build time.
pub struct WorkspaceContract {
    pub name: String,
    pub build_unit: String,
}

pub ghost struct WorkspaceContractView {
    pub name: Seq<char>,
    pub build_unit: Seq<char>,
}

impl View for WorkspaceContract {
    type V = WorkspaceContractView;

    open spec fn view(&self) -> WorkspaceContractView {
        WorkspaceContractView { name: self.name@, build_unit: self.build_unit@ }
    }
}

/// One environment section as it stands in the configuration source, before
/// validation. `contracts` is `None` when the contracts table is absent
/// entirely, which is different from an empty table.
pub struct EnvironmentSection {
    pub name: String,
    pub policy: MutationPolicy,
    pub network: NetworkDescriptor,
    pub accounts: Vec<String>,
    pub contracts: Option<Vec<ContractSpec>>,
}

/// A validated environment: every listed contract matches a workspace
/// contract, and an absent contracts table has been expanded to the
/// build-everything default.
pub struct Environment {
    pub name: String,
    pub policy: MutationPolicy,
    pub network: NetworkDescriptor,
    pub accounts: Vec<String>,
    pub contracts: Vec<ContractSpec>,
}

/// The workspace knows a contract of this name.
pub open spec fn contract_known(ws: Seq<WorkspaceContract>, name: Seq<char>) -> bool {
    exists|i: int| 0 <= i < ws.len() && ws[i]@.name == name
}

/// The first environment section whose name matches, if any.
pub open spec fn section_index(sections: Seq<EnvironmentSection>, name: Seq<char>) -> Option<
    int,
>
    decreases sections.len(),
{
    if sections.len() == 0 {
        None
    } else if sections[0].name@ == name {
        Some(0)
    } else {
        match section_index(sections.skip(1), name) {
            Some(i) => Some(i + 1),
            None => None,
        }
    }
}

/// The default contract list when the contracts table is absent: every
/// discovered workspace contract, opted in with `client = true`, no pinned
/// identifier and no alias override.
pub open spec fn default_contracts(ws: Seq<WorkspaceContract>) -> Seq<ContractSpecView> {
    Seq::new(
        ws.len(),
        |i: int|
            ContractSpecView { name: ws[i]@.name, client: true, id: None, alias: None },
    )
}

/// The first listed contract name, in list order, that matches no workspace
/// contract, if any.
pub open spec fn first_unknown(
    list: Seq<ContractSpec>,
    ws: Seq<WorkspaceContract>,
) -> Option<Seq<char>>
    decreases list.len(),
{
    if list.len() == 0 {
        None
    } else if !contract_known(ws, list[0]@.name) {
        Some(list[0]@.name)
    } else {
        first_unknown(list.skip(1), ws)
    }
}

proof fn lemma_section_index_bounds(sections: Seq<EnvironmentSection>, name: Seq<char>)
    ensures
        section_index(sections, name) matches Some(i) ==> 0 <= i < sections.len()
            && sections[i].name@ == name,
        section_index(sections, name) is None ==> forall|i: int|
            0 <= i < sections.len() ==> sections[i].name@ != name,
    decreases sections.len(),
{
    if sections.len() > 0 {
        lemma_section_index_bounds(sections.skip(1), name);
        if sections[0].name@ != name {
            if section_index(sections, name) is None {
                assert forall|i: int| 0 <= i < sections.len() implies sections[i].name@
                    != name by {
                    if i > 0 {
                        assert(sections.skip(1)[i - 1] == sections[i]);
                    }
                }
            } else {
                let j = choose|j: int|
                    section_index(sections.skip(1), name) == Some(j) && 0 <= j < sections.skip(
                        1,
                    ).len() && sections.skip(1)[j].name@ == name;
                assert(sections.skip(1)[j] == sections[j + 1]);
            }
        }
    }
}

proof fn lemma_first_unknown(list: Seq<ContractSpec>, ws: Seq<WorkspaceContract>)
    ensures
        first_unknown(list, ws) matches Some(n) ==> exists|j: int|
            0 <= j < list.len() && list[j]@.name == n && !contract_known(ws, n),
        first_unknown(list, ws) is None ==> forall|j: int|
            0 <= j < list.len() ==> contract_known(ws, list[j]@.name),
    decreases list.len(),
{
    if list.len() > 0 {
        lemma_first_unknown(list.skip(1), ws);
        if contract_known(ws, list[0]@.name) {
            if first_unknown(list, ws) is None {
                assert forall|j: int| 0 <= j < list.len() implies contract_known(
                    ws,
                    list[j]@.name,
                ) by {
                    if j > 0 {
                        assert(list.skip(1)[j - 1] == list[j]);
                    }
                }
            } else {
                let j = choose|j: int|
                    0 <= j < list.skip(1).len() && list.skip(1)[j]@.name == first_unknown(
                        list.skip(1),
                        ws,
                    ).unwrap() && !contract_known(ws, list.skip(1)[j]@.name);
                assert(list.skip(1)[j] == list[j + 1]);
            }
        } else {
            assert(list[0]@.name == first_unknown(list, ws).unwrap());
        }
    }
}

/// Clone a contract spec field by field, preserving its view.
pub fn clone_contract_spec(c: &ContractSpec) -> (r: ContractSpec)
    ensures
        r@ == c@,
{
    ContractSpec {
        name: c.name.clone(),
        client: c.client,
        id: match &c.id {
            Some(i) => Some(i.clone()),
            None => None,
        },
        alias: match &c.alias {
            Some(a) => Some(a.clone()),
            None => None,
        },
    }
}

fn clone_string_vec(v: &Vec<String>) -> (r: Vec<String>)
    ensures
        r@.len() == v@.len(),
        forall|i: int| 0 <= i < v@.len() ==> r@[i]@ == v@[i]@,
{
    let mut r: Vec<String> = Vec::new();
    let mut k: usize = 0;
    while k < v.len()
        invariant
            k <= v@.len(),
            r@.len() == k,
            forall|i: int| 0 <= i < k ==> r@[i]@ == v@[i]@,
        decreases v@.len() - k,
    {
        r.push(v[k].clone());
        k += 1;
    }
    r
}

fn clone_network(n: &NetworkDescriptor) -> (r: NetworkDescriptor)
    ensures
        r@ == n@,
{
    NetworkDescriptor {
        rpc_url: n.rpc_url.clone(),
        network_passphrase: n.network_passphrase.clone(),
        run_locally: n.run_locally,
    }
}

/// Is `name` the name of some discovered workspace contract?  Exact match
/// only; no fuzzy matching.
pub fn workspace_has_contract(ws: &Vec<WorkspaceContract>, name: &String) -> (r: bool)
    ensures
        r == contract_known(ws@, name@),
{
    let mut k: usize = 0;
    while k < ws.len()
        invariant
            k <= ws@.len(),
            forall|i: int| 0 <= i < k ==> ws@[i]@.name != name@,
        decreases ws@.len() - k,
    {
        if ws[k].name == *name {
            assert(ws@[k as int]@.name == name@);
            return true;
        }
        k += 1;
    }
    false
}

/// Resolve and validate the environment named `requested` against the
/// configuration sections and the discovered workspace contracts.
///
/// Fails with `UnknownEnvironment` when no section of that name exists, and
/// with `UnknownContract` when the section lists a contract name that matches
/// no workspace contract — before any build or deploy side effect, since this
/// function has none.  An absent contracts table expands to every workspace
/// contract with `client = true`; a present table is taken verbatim, so a
/// workspace contract it does not mention is excluded.
#[verifier::loop_isolation(false)]
pub fn resolve_environment(
    requested: &String,
    sections: &Vec<EnvironmentSection>,
    workspace: &Vec<WorkspaceContract>,
) -> (r: Result<Environment, ConfigError>)
    ensures
        section_index(sections@, requested@) is None <==> (r matches Err(e) && e matches
            ConfigError::UnknownEnvironment(n) && n@ == requested@),
        r matches Err(e) ==> e matches ConfigError::UnknownContract(n) ==> (
        section_index(sections@, requested@) matches Some(i)
            && sections@[i].contracts matches Some(list) && first_unknown(list@, workspace@)
            == Some(n@)),
        r matches Ok(env) ==> (section_index(sections@, requested@) matches Some(i) && {
            let sec = sections@[i];
            &&& env.name@ == sec.name@
            &&& env.policy == sec.policy
            &&& env.network@ == sec.network@
            &&& env.accounts@.len() == sec.accounts@.len()
            &&& forall|j: int|
                0 <= j < sec.accounts@.len() ==> env.accounts@[j]@ == sec.accounts@[j]@
            &&& match sec.contracts {
                None => env.contracts@.map_values(|c: ContractSpec| c@) == default_contracts(
                    workspace@,
                ),
                Some(list) => {
                    &&& env.contracts@.len() == list@.len()
                    &&& forall|j: int| 0 <= j < list@.len() ==> env.contracts@[j]@ == list@[j]@
                    &&& first_unknown(list@, workspace@) is None
                },
            }
        }),
        r is Ok <==> (section_index(sections@, requested@) matches Some(i) && match sections@[i].contracts {
            None => true,
            Some(list) => first_unknown(list@, workspace@) is None,
        }),
{
    proof {
        lemma_section_index_bounds(sections@, requested@);
    }
    let mut k: usize = 0;
    let n = sections.len();
    while k < n
        invariant
            n == sections@.len(),
            k <= n,
            forall|i: int| 0 <= i < k ==> sections@[i].name@ != requested@,
            section_index(sections@, requested@) matches Some(i) ==> 0 <= i < sections@.len()
                && sections@[i].name@ == requested@,
            section_index(sections@, requested@) is None ==> forall|i: int|
                0 <= i < sections@.len() ==> sections@[i].name@ != requested@,
        decreases n - k,
    {
        if sections[k].name == *requested {
            proof {
                lemma_index_is_first(sections@, requested@, k as int);
            }
            return resolve_section(&sections[k], workspace);
        }
        k += 1;
    }
    Err(ConfigError::UnknownEnvironment(requested.clone()))
}

proof fn lemma_index_is_first(sections: Seq<EnvironmentSection>, name: Seq<char>, k: int)
    requires
        0 <= k < sections.len(),
        sections[k].name@ == name,
        forall|i: int| 0 <= i < k ==> sections[i].name@ != name,
    ensures
        section_index(sections, name) == Some(k),
    decreases k,
{
    if k == 0 {
    } else {
        lemma_index_is_first(sections.skip(1), name, k - 1);
        assert(sections.skip(1)[k - 1] == sections[k]);
        assert(forall|i: int| 0 <= i < k - 1 ==> sections.skip(1)[i] == sections[i + 1]);
    }
}

#[verifier::loop_isolation(false)]
fn resolve_section(sec: &EnvironmentSection, workspace: &Vec<WorkspaceContract>) -> (r: Result<
    Environment,
    ConfigError,
>)
    ensures
        r matches Err(e) ==> e matches ConfigError::UnknownContract(n) ==> (
        sec.contracts matches Some(list) && first_unknown(list@, workspace@) == Some(n@)),
        r matches Err(e) ==> e is UnknownContract,
        r matches Ok(env) ==> {
            &&& env.name@ == sec.name@
            &&& env.policy == sec.policy
            &&& env.network@ == sec.network@
            &&& env.accounts@.len() == sec.accounts@.len()
            &&& forall|j: int|
                0 <= j < sec.accounts@.len() ==> env.accounts@[j]@ == sec.accounts@[j]@
            &&& match sec.contracts {
                None => env.contracts@.map_values(|c: ContractSpec| c@) == default_contracts(
                    workspace@,
                ),
                Some(list) => {
                    &&& env.contracts@.len() == list@.len()
                    &&& forall|j: int| 0 <= j < list@.len() ==> env.contracts@[j]@ == list@[j]@
                    &&& first_unknown(list@, workspace@) is None
                },
            }
        },
        r is Ok <==> match sec.contracts {
            None => true,
            Some(list) => first_unknown(list@, workspace@) is None,
        },
{
    proof {
        match &sec.contracts {
            Some(list) => lemma_first_unknown(list@, workspace@),
            None => (),
        }
    }
    let contracts: Vec<ContractSpec> = match &sec.contracts {
        None => {
            let mut out: Vec<ContractSpec> = Vec::new();
            let mut k: usize = 0;
            while k < workspace.len()
                invariant
                    k <= workspace@.len(),
                    out@.len() == k,
                    forall|i: int|
                        0 <= i < k ==> out@[i]@ == (ContractSpecView {
                            name: workspace@[i]@.name,
                            client: true,
                            id: None,
                            alias: None,
                        }),
                decreases workspace@.len() - k,
            {
                out.push(
                    ContractSpec {
                        name: workspace[k].name.clone(),
                        client: true,
                        id: None,
                        alias: None,
                    },
                );
                k += 1;
            }
            proof {
                assert(out@.map_values(|c: ContractSpec| c@) =~= default_contracts(workspace@));
            }
            out
        },
        Some(list) => {
            let mut out: Vec<ContractSpec> = Vec::new();
            let mut k: usize = 0;
            while k < list.len()
                invariant
                    k <= list@.len(),
                    out@.len() == k,
                    forall|i: int| 0 <= i < k ==> out@[i]@ == list@[i]@,
                    forall|i: int| 0 <= i < k ==> contract_known(workspace@, list@[i]@.name),
                decreases list@.len() - k,
            {
                if !workspace_has_contract(workspace, &list[k].name) {
                    proof {
                        lemma_first_unknown_at(list@, workspace@, k as int);
                    }
                    return Err(ConfigError::UnknownContract(list[k].name.clone()));
                }
                out.push(clone_contract_spec(&list[k]));
                k += 1;
            }
            proof {
                lemma_first_unknown(list@, workspace@);
                assert(first_unknown(list@, workspace@) is None) by {
                    lemma_first_unknown(list@, workspace@);
                };
            }
            out
        },
    };
    Ok(
        Environment {
            name: sec.name.clone(),
            policy: sec.policy,
            network: clone_network(&sec.network),
            accounts: clone_string_vec(&sec.accounts),
            contracts,
        },
    )
}

proof fn lemma_first_unknown_at(list: Seq<ContractSpec>, ws: Seq<WorkspaceContract>, k: int)
    requires
        0 <= k < list.len(),
        !contract_known(ws, list[k]@.name),
        forall|i: int| 0 <= i < k ==> contract_known(ws, list[i]@.name),
    ensures
        first_unknown(list, ws) == Some(list[k]@.name),
    decreases k,
{
    if k == 0 {
    } else {
        assert(contract_known(ws, list[0]@.name));
        lemma_first_unknown_at(list.skip(1), ws, k - 1);
        assert(list.skip(1)[k - 1] == list[k]);
        assert(forall|i: int| 0 <= i < k - 1 ==> list.skip(1)[i] == list[i + 1]);
    }
}

} // verus!

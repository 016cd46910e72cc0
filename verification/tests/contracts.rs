use stellar_scaffold::{
    clone_record, commit_contract, needs_build, ordered_contracts_to_process, planned_steps,
    policy_error_message, reconcile_contract, resolve_alias, resolve_environment,
    unknown_contract_message, ConfigError, ContractAction, ContractSpec, Environment,
    EnvironmentSection, FingerprintStore, MutationPolicy, NetworkDescriptor, PolicyError,
    StepKind, WorkspaceContract,
};

fn boilerplate_workspace() -> Vec<WorkspaceContract> {
    // the build units discovered in the soroban-init-boilerplate workspace
    [
        "soroban_auth_contract",
        "soroban_custom_types_contract",
        "hello_world",
        "soroban_increment_contract",
        "soroban_token_contract",
    ]
    .iter()
    .map(|n| WorkspaceContract {
        name: n.to_string(),
        build_unit: format!("contracts/{n}"),
    })
    .collect()
}

fn dev_network() -> NetworkDescriptor {
    NetworkDescriptor {
        rpc_url: "http://localhost:8000/rpc".to_string(),
        network_passphrase: "Standalone Network ; February 2017".to_string(),
        run_locally: false,
    }
}

fn client_spec(name: &str, client: bool) -> ContractSpec {
    ContractSpec {
        name: name.to_string(),
        client,
        id: None,
        alias: None,
    }
}

fn section(
    name: &str,
    policy: MutationPolicy,
    contracts: Option<Vec<ContractSpec>>,
) -> EnvironmentSection {
    EnvironmentSection {
        name: name.to_string(),
        policy,
        network: dev_network(),
        accounts: vec!["alice".to_string()],
        contracts,
    }
}

/// One simulated pipeline run over an already-resolved environment: builds
/// yield `hash`, instantiation yields identifiers from `mint_id`, every step
/// succeeds.  Returns the per-contract (name, action, steps, identifier) and
/// the log a run would print.
fn run_pipeline(
    env: &Environment,
    store: &mut FingerprintStore,
    hash: &str,
    mint_id: &mut impl FnMut(&str) -> String,
) -> (Vec<(String, ContractAction, Vec<StepKind>, String)>, Vec<String>) {
    let mut log: Vec<String> = Vec::new();
    for account in &env.accounts {
        log.push(format!("creating keys for \"{account}\"\n"));
    }
    log.push(format!("using network at {}\n", env.network.rpc_url));
    let mut results = Vec::new();
    for c in ordered_contracts_to_process(env) {
        let fresh: Option<String> = if needs_build(&c) {
            Some(hash.to_string())
        } else {
            None
        };
        let alias = resolve_alias(&c);
        let stored = store.get(&env.name, &alias).map(|r| clone_record(r));
        let decided = reconcile_contract(&c, fresh.as_ref(), stored.as_ref(), env.policy);
        let action = match decided {
            Ok(a) => a,
            Err(PolicyError::MissingExplicitId(_)) => {
                log.push(policy_error_message().to_string());
                continue;
            }
        };
        let steps = planned_steps(&c, &action);
        let new_id = mint_id(&c.name);
        for step in &steps {
            match step {
                StepKind::Compile => log.push(format!("compiling \"{}\"", c.name)),
                StepKind::Install => {
                    log.push(format!("installing \"{}\" wasm bytecode on-chain", c.name))
                }
                StepKind::Instantiate => {
                    log.push(format!("instantiating \"{}\" smart contract", c.name))
                }
                StepKind::Bind => log.push(format!("binding \"{}\" contract", c.name)),
                StepKind::Import => log.push(format!("importing \"{}\" contract", c.name)),
            }
        }
        let id_used = match &action {
            ContractAction::Pinned { id } => id.clone(),
            ContractAction::Skip { id } => id.clone(),
            ContractAction::Install | ContractAction::Update => new_id.clone(),
        };
        let fresh_for_commit = fresh.clone().unwrap_or_default();
        commit_contract(store, &env.name, &c, &action, &fresh_for_commit, &new_id, true);
        results.push((c.name.clone(), action, steps, id_used));
    }
    (results, log)
}

#[test]
fn contracts_built() {
    let contracts = [
        "soroban_auth_contract",
        "soroban_custom_types_contract",
        "hello_world",
        "soroban_increment_contract",
    ];
    let sections = vec![section(
        "development",
        MutationPolicy::MutationAllowed,
        Some(contracts.iter().map(|c| client_spec(c, true)).collect()),
    )];
    let env = resolve_environment(
        &"development".to_string(),
        &sections,
        &boilerplate_workspace(),
    )
    .expect("config must resolve");

    let mut store = FingerprintStore::new_store();
    let mut n = 0usize;
    let mut mint = |name: &str| {
        n += 1;
        format!("C_{name}_{n}")
    };
    let (results, log) = run_pipeline(&env, &mut store, "hash-v1", &mut mint);

    assert!(log.contains(&"creating keys for \"alice\"\n".to_string()));
    assert!(log.contains(&"using network at http://localhost:8000/rpc\n".to_string()));
    assert_eq!(results.len(), contracts.len());
    for c in contracts {
        assert!(log.contains(&format!("installing \"{c}\" wasm bytecode on-chain")));
        assert!(log.contains(&format!("instantiating \"{c}\" smart contract")));
        assert!(log.contains(&format!("binding \"{c}\" contract")));
        assert!(log.contains(&format!("importing \"{c}\" contract")));

        // the deterministic client artifact paths for each bound contract
        let name = c.to_string();
        assert_eq!(
            stellar_scaffold::client_package_path(&name),
            format!("packages/{c}")
        );
        assert_eq!(
            stellar_scaffold::client_import_path(&name),
            format!("src/contracts/{c}.ts")
        );

        // every contract got a first deployment and a recorded identifier
        let (_, action, _, id) = results.iter().find(|(n, ..)| n == c).unwrap();
        assert!(matches!(action, ContractAction::Install));
        let rec = store.get(&"development".to_string(), &name).unwrap();
        assert_eq!(&rec.on_chain_id, id);
        assert_eq!(rec.artifact_hash, "hash-v1");
    }
}

#[test]
fn contracts_built_by_default() {
    let contracts = [
        "soroban_auth_contract",
        "soroban_custom_types_contract",
        "hello_world",
        "soroban_increment_contract",
    ];
    // the contracts table is absent entirely: every discovered workspace
    // contract is included with client = true
    let sections = vec![section("development", MutationPolicy::MutationAllowed, None)];
    let env = resolve_environment(
        &"development".to_string(),
        &sections,
        &boilerplate_workspace(),
    )
    .expect("config must resolve");
    assert_eq!(env.contracts.len(), boilerplate_workspace().len());
    assert!(env.contracts.iter().all(|c| c.client));

    let mut store = FingerprintStore::new_store();
    let mut n = 0usize;
    let mut mint = |name: &str| {
        n += 1;
        format!("C_{name}_{n}")
    };
    let (results, log) = run_pipeline(&env, &mut store, "hash-v1", &mut mint);

    assert!(log.contains(&"creating keys for \"alice\"\n".to_string()));
    assert!(log.contains(&"using network at http://localhost:8000/rpc\n".to_string()));
    for c in contracts {
        assert!(log.contains(&format!("installing \"{c}\" wasm bytecode on-chain")));
        assert!(log.contains(&format!("instantiating \"{c}\" smart contract")));
        assert!(log.contains(&format!("binding \"{c}\" contract")));
        assert!(log.contains(&format!("importing \"{c}\" contract")));
        let name = c.to_string();
        assert_eq!(
            stellar_scaffold::client_package_path(&name),
            format!("packages/{c}")
        );
        assert_eq!(
            stellar_scaffold::client_import_path(&name),
            format!("src/contracts/{c}.ts")
        );
    }
    assert_eq!(results.len(), boilerplate_workspace().len());
}

#[test]
fn contract_with_bad_name_prints_useful_error() {
    let sections = vec![section(
        "development",
        MutationPolicy::MutationAllowed,
        Some(vec![
            client_spec("hello", true),
            client_spec("soroban_increment_contract", false),
            client_spec("soroban_custom_types_contract", false),
            client_spec("soroban_auth_contract", false),
            client_spec("soroban_token_contract", false),
        ]),
    )];
    let r = resolve_environment(
        &"development".to_string(),
        &sections,
        &boilerplate_workspace(),
    );
    // config resolution fails before any build or deploy call is made
    match r {
        Err(ConfigError::UnknownContract(name)) => {
            assert_eq!(name, "hello");
            let message = unknown_contract_message(&name);
            assert!(message.contains("No contract named \"hello"));
        }
        _ => panic!("expected an unknown-contract error"),
    }
}

#[test]
fn contract_alias_skips_install() {
    let dev_sections = vec![section(
        "development",
        MutationPolicy::MutationAllowed,
        Some(vec![
            client_spec("hello_world", true),
            client_spec("soroban_increment_contract", false),
            client_spec("soroban_custom_types_contract", false),
            client_spec("soroban_auth_contract", false),
            client_spec("soroban_token_contract", false),
        ]),
    )];
    let env = resolve_environment(
        &"development".to_string(),
        &dev_sections,
        &boilerplate_workspace(),
    )
    .expect("config must resolve");

    let mut store = FingerprintStore::new_store();
    let mut n = 0usize;
    let mut mint = |name: &str| {
        n += 1;
        format!("C_{name}_{n}")
    };

    // first run: fresh deploy, imported
    let (results, log) = run_pipeline(&env, &mut store, "hash-v1", &mut mint);
    assert_eq!(results.len(), 1);
    assert!(matches!(results[0].1, ContractAction::Install));
    assert!(log.contains(&"importing \"hello_world\" contract".to_string()));
    let first_id = results[0].3.clone();

    // second run, nothing changed: alias retrieval works, contract is up to
    // date, nothing installed or instantiated
    let (results2, log2) = run_pipeline(&env, &mut store, "hash-v1", &mut mint);
    assert!(matches!(results2[0].1, ContractAction::Skip { .. }));
    assert_eq!(results2[0].3, first_id);
    assert!(!log2.iter().any(|l| l.contains("installing")));
    assert!(!log2.iter().any(|l| l.contains("instantiating")));

    // third run with a changed artifact: updates in development
    let (results3, _log3) = run_pipeline(&env, &mut store, "hash-v2", &mut mint);
    assert!(matches!(results3[0].1, ContractAction::Update));
    let contract_id = results3[0].3.clone();
    assert_ne!(contract_id, first_id);

    // production with the id pinned: identified via the contract id, no
    // deploy steps at all
    let prod_pinned = vec![EnvironmentSection {
        name: "production".to_string(),
        policy: MutationPolicy::RequiresExplicitId,
        network: dev_network(),
        accounts: vec!["alice".to_string()],
        contracts: Some(vec![ContractSpec {
            name: "hello_world".to_string(),
            client: true,
            id: Some(contract_id.clone()),
            alias: None,
        }]),
    }];
    let penv = resolve_environment(
        &"production".to_string(),
        &prod_pinned,
        &boilerplate_workspace(),
    )
    .expect("config must resolve");
    let (presults, plog) = run_pipeline(&penv, &mut store, "hash-v3", &mut mint);
    assert!(matches!(presults[0].1, ContractAction::Pinned { .. }));
    assert_eq!(presults[0].3, contract_id);
    assert!(!plog.iter().any(|l| l.contains("installing")));

    // production without a pinned id and with a changed fingerprint: fails
    let prod_sections = vec![section(
        "production",
        MutationPolicy::RequiresExplicitId,
        Some(vec![
            client_spec("hello_world", true),
            client_spec("soroban_custom_types_contract", false),
            client_spec("soroban_auth_contract", false),
            client_spec("soroban_token_contract", false),
        ]),
    )];
    let penv2 = resolve_environment(
        &"production".to_string(),
        &prod_sections,
        &boilerplate_workspace(),
    )
    .expect("config must resolve");
    // the development runs wrote under "development"; seed production state
    // at hash-v2, then build hash-v3
    let (seed, _) = run_pipeline(
        &resolve_environment(
            &"production".to_string(),
            &vec![section(
                "production",
                MutationPolicy::MutationAllowed,
                Some(vec![client_spec("hello_world", true)]),
            )],
            &boilerplate_workspace(),
        )
        .unwrap(),
        &mut store,
        "hash-v2",
        &mut mint,
    );
    assert!(matches!(seed[0].1, ContractAction::Install));
    let (presults2, plog2) = run_pipeline(&penv2, &mut store, "hash-v3", &mut mint);
    assert!(presults2.is_empty());
    assert!(plog2
        .iter()
        .any(|l| l.contains("An ID must be set for a contract in production or staging")));
    // and the previously recorded state is left untouched
    let rec = store
        .get(&"production".to_string(), &"hello_world".to_string())
        .unwrap();
    assert_eq!(rec.artifact_hash, "hash-v2");
}

#[test]
fn contract_redeployed_in_new_directory() {
    let sections = vec![section(
        "development",
        MutationPolicy::MutationAllowed,
        Some(vec![
            client_spec("hello_world", true),
            client_spec("soroban_custom_types_contract", false),
            client_spec("soroban_auth_contract", false),
            client_spec("soroban_token_contract", false),
        ]),
    )];
    let env = resolve_environment(
        &"development".to_string(),
        &sections,
        &boilerplate_workspace(),
    )
    .expect("config must resolve");

    // initial setup and build
    let mut store = FingerprintStore::new_store();
    let mut n = 0usize;
    let mut mint = |name: &str| {
        n += 1;
        format!("C_{name}_{n}")
    };
    let (results, log) = run_pipeline(&env, &mut store, "hash-v1", &mut mint);
    assert!(log.contains(&"installing \"hello_world\" wasm bytecode on-chain".to_string()));
    assert!(log.contains(&"instantiating \"hello_world\" smart contract".to_string()));
    assert!(log.contains(&"binding \"hello_world\" contract".to_string()));
    let first_id = results[0].3.clone();

    // switch to a new directory: the source comes along, the fingerprint
    // store does not — identity is scoped to the project directory
    let mut new_dir_store = FingerprintStore::new_store();
    let (results2, log2) = run_pipeline(&env, &mut new_dir_store, "hash-v1", &mut mint);
    assert!(log2.contains(&"installing \"hello_world\" wasm bytecode on-chain".to_string()));
    assert!(log2.contains(&"instantiating \"hello_world\" smart contract".to_string()));
    assert!(log2.contains(&"binding \"hello_world\" contract".to_string()));
    // a fresh Install with a new identifier, not a Skip
    assert!(matches!(results2[0].1, ContractAction::Install));
    assert_ne!(results2[0].3, first_id);

    let name = "hello_world".to_string();
    assert_eq!(
        stellar_scaffold::client_package_path(&name),
        "packages/hello_world"
    );
    assert_eq!(
        stellar_scaffold::client_import_path(&name),
        "src/contracts/hello_world.ts"
    );
}

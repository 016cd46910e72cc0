use vstd::prelude::*;

verus! {

/// Configuration is rejected before any build or deploy side effect.
#[derive(Debug)]
pub enum ConfigError {
    UnknownEnvironment(String),
    UnknownContract(String),
}

/// A changed contract in an environment that forbids silent mutation must
/// carry an explicitly pinned identifier.
#[derive(Debug)]
pub enum PolicyError {
    MissingExplicitId(String),
}

/// The external compiler failed for one contract.
pub struct BuildError {
    pub contract: String,
    pub message: String,
}

/// A network submission (install or instantiate) failed for one contract; no
/// fingerprint record is written in that case.
pub enum DeployError {
    InstallFailed { contract: String, message: String },
    InstantiateFailed { contract: String, message: String },
}

/// The local test network never became healthy within the bounded timeout.
#[derive(Clone, Copy, PartialEq, Eq, Structural, Debug)]
pub enum NetworkError {
    HealthCheckTimeout,
}

/// Everything that can stop one contract's pipeline steps; other contracts
/// continue, and the run as a whole is reported failed.
pub enum ContractFailure {
    Policy(PolicyError),
    Build(BuildError),
    Deploy(DeployError),
}

/// The message reported for one failed contract, with contract-name
/// attribution, stage by stage.  A policy failure carries the safety-rail
/// sentence; build and deploy failures name the stage, the contract and the
/// underlying message.
pub fn contract_failure_message(f: &ContractFailure) -> (r: String)
    ensures
        f matches ContractFailure::Policy(p) ==> r@
            == "An ID must be set for a contract in production or staging"@,
        f matches ContractFailure::Build(b) ==> r@ == "compiling \""@ + b.contract@
            + "\" failed: "@ + b.message@,
        f matches ContractFailure::Deploy(d) ==> match d {
            DeployError::InstallFailed { contract, message } => r@ == "installing \""@ + contract@
                + "\" failed: "@ + message@,
            DeployError::InstantiateFailed { contract, message } => r@ == "instantiating \""@
                + contract@ + "\" failed: "@ + message@,
        },
{
    match f {
        ContractFailure::Policy(_) => String::from_str(
            "An ID must be set for a contract in production or staging",
        ),
        ContractFailure::Build(b) => {
            let mut r = String::from_str("compiling \"");
            r.append(b.contract.as_str());
            r.append("\" failed: ");
            r.append(b.message.as_str());
            r
        },
        ContractFailure::Deploy(DeployError::InstallFailed { contract, message }) => {
            let mut r = String::from_str("installing \"");
            r.append(contract.as_str());
            r.append("\" failed: ");
            r.append(message.as_str());
            r
        },
        ContractFailure::Deploy(DeployError::InstantiateFailed { contract, message }) => {
            let mut r = String::from_str("instantiating \"");
            r.append(contract.as_str());
            r.append("\" failed: ");
            r.append(message.as_str());
            r
        },
    }
}

/// The message shown when reconciliation demands a pinned identifier.
pub fn policy_error_message() -> (r: &'static str)
    ensures
        r@ == "An ID must be set for a contract in production or staging"@,
{
    "An ID must be set for a contract in production or staging"
}

/// The message for a configured contract name that matches no workspace
/// contract.
pub fn unknown_contract_message(name: &String) -> (r: String)
    ensures
        r@ == "No contract named \""@ + name@ + "\""@,
{
    let mut r = String::from_str("No contract named \"");
    r.append(name.as_str());
    r.append("\"");
    r
}

/// The message for a requested environment with no configuration section.
pub fn unknown_environment_message(name: &String) -> (r: String)
    ensures
        r@ == "No environment named \""@ + name@ + "\""@,
{
    let mut r = String::from_str("No environment named \"");
    r.append(name.as_str());
    r.append("\"");
    r
}

} // verus!

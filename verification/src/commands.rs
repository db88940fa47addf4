//! The commands of the deployer, and what each deploy command deploys.
use vstd::prelude::*;

use crate::config::{configuration, variable, Config, ConfigError, ConfigView};
use crate::text::{join_text, same_text};

verus! {

/// A command of the deployer.
#[derive(Debug, Clone, Copy, PartialEq, Eq, Structural)]
pub enum Command {
    DeploySudt,
    DeploySimpleLock,
    CreateLockedCell,
    SpendSimpleLock,
    DeployTimelockLock,
    CreateTimelockCell,
    SpendTimelockLock,
}

impl Command {
    /// The word that selects the command.
    pub open spec fn word(self) -> Seq<char> {
        match self {
            Command::DeploySudt => "deploy-sudt"@,
            Command::DeploySimpleLock => "deploy-simple-lock"@,
            Command::CreateLockedCell => "create-locked-cell"@,
            Command::SpendSimpleLock => "spend-simple-lock"@,
            Command::DeployTimelockLock => "deploy-timelock-lock"@,
            Command::CreateTimelockCell => "create-timelock-cell"@,
            Command::SpendTimelockLock => "spend-timelock-lock"@,
        }
    }

    /// The word that selects the command.
    pub fn name(self) -> (name: &'static str)
        ensures
            name@ == self.word(),
    {
        match self {
            Command::DeploySudt => "deploy-sudt",
            Command::DeploySimpleLock => "deploy-simple-lock",
            Command::CreateLockedCell => "create-locked-cell",
            Command::SpendSimpleLock => "spend-simple-lock",
            Command::DeployTimelockLock => "deploy-timelock-lock",
            Command::CreateTimelockCell => "create-timelock-cell",
            Command::SpendTimelockLock => "spend-timelock-lock",
        }
    }

    /// The command that a word selects, if it selects one.
    pub fn from_word(word: &str) -> (command: Option<Command>)
        ensures
            command matches Some(c) ==> word@ == c.word(),
            command is None ==> forall|c: Command| word@ != #[trigger] c.word(),
    {
        if same_text(word, Command::DeploySudt.name()) {
            Some(Command::DeploySudt)
        } else if same_text(word, Command::DeploySimpleLock.name()) {
            Some(Command::DeploySimpleLock)
        } else if same_text(word, Command::CreateLockedCell.name()) {
            Some(Command::CreateLockedCell)
        } else if same_text(word, Command::SpendSimpleLock.name()) {
            Some(Command::SpendSimpleLock)
        } else if same_text(word, Command::DeployTimelockLock.name()) {
            Some(Command::DeployTimelockLock)
        } else if same_text(word, Command::CreateTimelockCell.name()) {
            Some(Command::CreateTimelockCell)
        } else if same_text(word, Command::SpendTimelockLock.name()) {
            Some(Command::SpendTimelockLock)
        } else {
            None
        }
    }
}

/// No two commands share a word.
pub proof fn words_identify_commands(a: Command, b: Command)
    ensures
        a.word() == b.word() ==> a == b,
{
    reveal_strlit("deploy-sudt");
    reveal_strlit("deploy-simple-lock");
    reveal_strlit("create-locked-cell");
    reveal_strlit("spend-simple-lock");
    reveal_strlit("deploy-timelock-lock");
    reveal_strlit("create-timelock-cell");
    reveal_strlit("spend-timelock-lock");
    if a != b && a.word() == b.word() {
        assert(a.word().len() == b.word().len());
        assert(a.word()[0] == b.word()[0]);
        assert(a.word()[7] == b.word()[7]);
    }
}

/// Why the deployer does not run a command.
#[derive(Debug, PartialEq, Eq)]
pub enum StartError {
    /// There is no configuration.
    Config(ConfigError),
    /// No command has this name.
    UnknownCommand(String),
}

impl StartError {
    /// The text for the user.
    pub open spec fn text(self) -> Seq<char> {
        match self {
            StartError::Config(e) => e.text(),
            StartError::UnknownCommand(name) => "unknown command: "@ + name@,
        }
    }

    /// The message for the user.
    pub fn message(&self) -> (text: String)
        ensures
            text@ == self.text(),
    {
        match self {
            StartError::Config(e) => e.message().to_owned(),
            StartError::UnknownCommand(name) => join_text("unknown command: ", name.as_str()),
        }
    }
}

/// Reads the configuration and selects the command: the first word on the
/// command line, or `deploy-sudt` where there is none. Without a configuration
/// no command is looked at.
pub fn start(
    word: Option<String>,
    private_key: Option<String>,
    address: Option<String>,
    ckb_rpc: Option<String>,
) -> (result: Result<(Command, Config), StartError>)
    ensures
        match result {
            Ok((command, config)) => configuration(
                variable(private_key),
                variable(address),
                variable(ckb_rpc),
            ) == Ok::<ConfigView, ConfigError>(config@) && command.word() == (match word {
                Some(word) => word@,
                None => "deploy-sudt"@,
            }),
            Err(StartError::Config(e)) => configuration(
                variable(private_key),
                variable(address),
                variable(ckb_rpc),
            ) == Err::<ConfigView, ConfigError>(e),
            Err(StartError::UnknownCommand(name)) => configuration(
                variable(private_key),
                variable(address),
                variable(ckb_rpc),
            ) is Ok && (word matches Some(word) && name@ == word@ && forall|c: Command|
                word@ != #[trigger] c.word()),
        },
{
    let config: Config = match Config::from_env(private_key, address, ckb_rpc) {
        Ok(config) => config,
        Err(e) => {
            return Err(StartError::Config(e));
        },
    };
    match word {
        None => Ok((Command::DeploySudt, config)),
        Some(word) => match Command::from_word(word.as_str()) {
            Some(command) => Ok((command, config)),
            None => Err(StartError::UnknownCommand(word)),
        },
    }
}

/// The files that a deploy command reads.
#[derive(Debug, Clone, Copy, PartialEq, Eq)]
pub struct Deployment {
    /// The script binary.
    pub script_path: &'static str,
    /// The IDL file, if the script has one.
    pub idl_path: Option<&'static str>,
}

/// What `deploy-simple-lock` deploys: the simple-lock binary, with its IDL file.
pub fn deploy_simple_lock() -> (deployment: Deployment)
    ensures
        deployment.script_path@ == "./build/release/simple-lock"@,
        deployment.idl_path matches Some(path) && path@ == "./contracts/simple-lock/idl.json"@,
{
    Deployment {
        script_path: "./build/release/simple-lock",
        idl_path: Some("./contracts/simple-lock/idl.json"),
    }
}

/// What `deploy-timelock-lock` deploys: the timelock-lock binary, with its IDL
/// file.
pub fn deploy_timelock_lock() -> (deployment: Deployment)
    ensures
        deployment.script_path@ == "./build/release/timelock-lock"@,
        deployment.idl_path matches Some(path) && path@ == "./contracts/timelock-lock/idl.json"@,
{
    Deployment {
        script_path: "./build/release/timelock-lock",
        idl_path: Some("./contracts/timelock-lock/idl.json"),
    }
}

/// What `deploy-sudt` deploys: the sUDT binary, which has no IDL.
pub fn deploy_sudt() -> (deployment: Deployment)
    ensures
        deployment.script_path@ == "./build/release/ckb_sudt_script"@,
        deployment.idl_path is None,
{
    Deployment { script_path: "./build/release/ckb_sudt_script", idl_path: None }
}

/// The word of each command.
pub proof fn words_are_fixed()
    ensures
        Command::DeploySudt.word() == "deploy-sudt"@,
        Command::DeploySimpleLock.word() == "deploy-simple-lock"@,
        Command::CreateLockedCell.word() == "create-locked-cell"@,
        Command::SpendSimpleLock.word() == "spend-simple-lock"@,
        Command::DeployTimelockLock.word() == "deploy-timelock-lock"@,
        Command::CreateTimelockCell.word() == "create-timelock-cell"@,
        Command::SpendTimelockLock.word() == "spend-timelock-lock"@,
{
}

/// The messages for a command that does not run.
pub proof fn start_messages_tell_the_fault(name: String, e: ConfigError)
    ensures
        StartError::UnknownCommand(name).text() == "unknown command: "@ + name@,
        StartError::Config(e).text() == e.text(),
{
}

} // verus!

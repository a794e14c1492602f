//! From the parsed command line to the one action of an invocation.

use vstd::prelude::*;
use vstd::string::*;
use crate::chain::Chain;
use crate::error::Failure;
use crate::hints::SearchHintsConfig;
use crate::url::{AddressOpenConfig, BlockOpenConfig, TxOpenConfig};

verus! {

/// The editor to open the hints file with.
#[derive(Clone, Debug, PartialEq, Eq)]
pub struct ShowHintsConfig {
    pub editor: String,
}

/// A subcommand of `hint`, with its arguments as parsed.
#[derive(Clone, Debug, PartialEq, Eq)]
pub enum HintCommand {
    Search { pattern: String, clean: bool },
    /// `editor` is `None` where the command line names none.
    Show { editor: Option<String> },
}

/// A subcommand, with its arguments as parsed.
#[derive(Clone, Debug, PartialEq, Eq)]
pub enum Subcommand {
    Tx(String),
    Address(String),
    Block(String),
    /// `hint`, with its own subcommand if the command line holds one.
    Hint(Option<HintCommand>),
}

/// What an invocation does.
#[derive(Clone, Debug, PartialEq, Eq)]
pub enum Action {
    /// The chain's name is none of the supported ones.
    InvalidChain,
    /// The command line holds no subcommand that can be carried out.
    NoSubcommand,
    OpenTx(TxOpenConfig),
    OpenAddress(AddressOpenConfig),
    OpenBlock(BlockOpenConfig),
    SearchHints(SearchHintsConfig),
    ShowHints(ShowHintsConfig),
}

/// The editor used where the command line names none.
pub open spec fn spec_default_editor() -> Seq<char> {
    "nano"@
}

/// Returns the editor used where the command line names none.
pub fn default_editor() -> (editor: &'static str)
    ensures
        editor@ == spec_default_editor(),
{
    "nano"
}

/// Whether `action` is what the given subcommand asks for on `chain`.
pub open spec fn carries_out(action: Action, chain: Chain, subcommand: Option<Subcommand>) -> bool {
    match subcommand {
        Some(Subcommand::Tx(tx_hash)) => action == Action::OpenTx(TxOpenConfig { tx_hash, chain }),
        Some(Subcommand::Address(address)) => action == Action::OpenAddress(
            AddressOpenConfig { address, chain },
        ),
        Some(Subcommand::Block(block)) => action == Action::OpenBlock(
            BlockOpenConfig { block, chain },
        ),
        Some(Subcommand::Hint(Some(HintCommand::Search { pattern, clean }))) => action
            == Action::SearchHints(SearchHintsConfig { pattern, clean }),
        Some(Subcommand::Hint(Some(HintCommand::Show { editor: Some(editor) }))) => action
            == Action::ShowHints(ShowHintsConfig { editor }),
        Some(Subcommand::Hint(Some(HintCommand::Show { editor: None }))) => action matches Action::ShowHints(
            config,
        ) && config.editor@ == spec_default_editor(),
        Some(Subcommand::Hint(None)) => action == Action::NoSubcommand,
        None => action == Action::NoSubcommand,
    }
}

/// Decides what an invocation does. The chain is looked at first: with a
/// name that is none of the supported ones, or with none, nothing else is
/// considered.
pub fn dispatch(chain: Option<&str>, subcommand: Option<Subcommand>) -> (action: Action)
    ensures
        match chain {
            Some(name) => match Chain::spec_from_name(name@) {
                Some(chain) => carries_out(action, chain, subcommand),
                None => action == Action::InvalidChain,
            },
            None => action == Action::InvalidChain,
        },
{
    let resolved = match chain {
        Some(name) => Chain::from_name(name),
        None => None,
    };
    let chain = match resolved {
        Some(chain) => chain,
        None => {
            return Action::InvalidChain;
        },
    };
    match subcommand {
        Some(Subcommand::Tx(tx_hash)) => Action::OpenTx(TxOpenConfig { tx_hash, chain }),
        Some(Subcommand::Address(address)) => Action::OpenAddress(
            AddressOpenConfig { address, chain },
        ),
        Some(Subcommand::Block(block)) => Action::OpenBlock(BlockOpenConfig { block, chain }),
        Some(Subcommand::Hint(Some(HintCommand::Search { pattern, clean }))) => Action::SearchHints(
            SearchHintsConfig { pattern, clean },
        ),
        Some(Subcommand::Hint(Some(HintCommand::Show { editor }))) => {
            let editor = match editor {
                Some(editor) => editor,
                None => String::from_str(default_editor()),
            };
            Action::ShowHints(ShowHintsConfig { editor })
        },
        Some(Subcommand::Hint(None)) => Action::NoSubcommand,
        None => Action::NoSubcommand,
    }
}

impl Action {
    /// The failure that this action stands for, if it stands for one.
    pub open spec fn spec_failure(self) -> Option<Failure> {
        match self {
            Action::InvalidChain => Some(Failure::InvalidChain),
            Action::NoSubcommand => Some(Failure::NoSubcommand),
            _ => None,
        }
    }

    /// Returns the failure to report in place of carrying this action out,
    /// or `None` where there is something to carry out.
    pub fn failure(&self) -> (failure: Option<Failure>)
        ensures
            failure == self.spec_failure(),
    {
        match self {
            Action::InvalidChain => Some(Failure::InvalidChain),
            Action::NoSubcommand => Some(Failure::NoSubcommand),
            _ => None,
        }
    }
}

} // verus!

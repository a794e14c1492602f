use blsct::chain::Chain;
use blsct::cli::{default_editor, dispatch, Action, HintCommand, ShowHintsConfig, Subcommand};
use blsct::error::{ErrorKind, Failure};
use blsct::hints::{HintsError, SearchHintsConfig};
use blsct::url::{AddressOpenConfig, BlockOpenConfig, TxOpenConfig};

#[test]
fn tx_subcommand_opens_a_transaction() {
    let action = dispatch(Some("flare"), Some(Subcommand::Tx("0xabc123".to_string())));
    assert_eq!(
        action,
        Action::OpenTx(TxOpenConfig { tx_hash: "0xabc123".to_string(), chain: Chain::Flare })
    );
    assert_eq!(action.failure(), None);
}

#[test]
fn address_subcommand_opens_an_address() {
    assert_eq!(
        dispatch(Some("coston"), Some(Subcommand::Address("0xaaa".to_string()))),
        Action::OpenAddress(AddressOpenConfig { address: "0xaaa".to_string(), chain: Chain::Coston })
    );
}

#[test]
fn block_subcommand_opens_a_block() {
    assert_eq!(
        dispatch(Some("coston2"), Some(Subcommand::Block("17".to_string()))),
        Action::OpenBlock(BlockOpenConfig { block: "17".to_string(), chain: Chain::Coston2 })
    );
}

#[test]
fn hint_search_keeps_pattern_and_mode() {
    let search = HintCommand::Search { pattern: "al".to_string(), clean: true };
    assert_eq!(
        dispatch(Some("songbird"), Some(Subcommand::Hint(Some(search)))),
        Action::SearchHints(SearchHintsConfig { pattern: "al".to_string(), clean: true })
    );
}

#[test]
fn hint_show_uses_named_editor() {
    let show = HintCommand::Show { editor: Some("vim".to_string()) };
    assert_eq!(
        dispatch(Some("flare"), Some(Subcommand::Hint(Some(show)))),
        Action::ShowHints(ShowHintsConfig { editor: "vim".to_string() })
    );
}

#[test]
fn hint_show_defaults_to_nano() {
    assert_eq!(default_editor(), "nano");
    let show = HintCommand::Show { editor: None };
    assert_eq!(
        dispatch(Some("flare"), Some(Subcommand::Hint(Some(show)))),
        Action::ShowHints(ShowHintsConfig { editor: "nano".to_string() })
    );
}

#[test]
fn unknown_chain_is_refused_before_anything_else() {
    let action = dispatch(Some("mainnet"), Some(Subcommand::Tx("0x1".to_string())));
    assert_eq!(action, Action::InvalidChain);
    assert_eq!(action.failure(), Some(Failure::InvalidChain));
    assert_eq!(dispatch(None, None), Action::InvalidChain);
    assert_eq!(dispatch(Some("Flare"), None), Action::InvalidChain);
}

#[test]
fn missing_subcommand_is_reported() {
    let action = dispatch(Some("flare"), None);
    assert_eq!(action, Action::NoSubcommand);
    assert_eq!(action.failure(), Some(Failure::NoSubcommand));
    assert_eq!(dispatch(Some("flare"), Some(Subcommand::Hint(None))), Action::NoSubcommand);
}

#[test]
fn failures_fall_into_three_classes() {
    let config = [Failure::InvalidChain, Failure::NoSubcommand];
    let environment = [
        Failure::HomeNotFound,
        Failure::CreateProjectDir,
        Failure::CreateHintsFile,
        Failure::ReadHints,
        Failure::ParseHints,
        Failure::HintsNotObject,
    ];
    let action = [Failure::OpenUrl, Failure::StartEditor];
    for failure in config {
        assert_eq!(failure.kind(), ErrorKind::Config);
        assert!(!failure.is_fatal());
    }
    for failure in environment {
        assert_eq!(failure.kind(), ErrorKind::Environment);
        assert!(failure.is_fatal());
    }
    for failure in action {
        assert_eq!(failure.kind(), ErrorKind::Action);
        assert!(!failure.is_fatal());
    }
}

#[test]
fn failure_messages() {
    assert_eq!(Failure::InvalidChain.message(), "Invalid chain provided.");
    assert_eq!(
        Failure::NoSubcommand.message(),
        "No valid subcommand was provided.\nUse --help for more information."
    );
    assert_eq!(Failure::HomeNotFound.message(), "Home directory not found");
    assert_eq!(Failure::CreateProjectDir.message(), "Failed to create project directory");
    assert_eq!(Failure::CreateHintsFile.message(), "Failed to create address hints file");
    assert_eq!(Failure::ReadHints.message(), "Failed to read address hints file");
    assert_eq!(Failure::ParseHints.message(), "Failed to parse hints");
    assert_eq!(Failure::HintsNotObject.message(), "Hints should be an object");
    assert_eq!(Failure::OpenUrl.message(), "Failed to open the URL");
    assert_eq!(Failure::StartEditor.message(), "Failed to open address hints file");
}

#[test]
fn hints_errors_are_environment_failures() {
    assert_eq!(HintsError::NotAnObject.failure(), Failure::HintsNotObject);
    assert_eq!(HintsError::Malformed("x".to_string()).failure(), Failure::ParseHints);
    assert!(HintsError::NotAnObject.failure().is_fatal());
}

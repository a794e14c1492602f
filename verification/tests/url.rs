use blsct::chain::Chain;
use blsct::url::{
    explorer_url, open_address, open_block, open_page, open_report, open_tx, AddressOpenConfig,
    BlockOpenConfig, PageKind, Report, TxOpenConfig,
};

#[test]
fn flare_tx_url() {
    assert_eq!(
        explorer_url(Chain::Flare, PageKind::Tx, "0xabc123"),
        "https://flare-explorer.flare.network/tx/0xabc123"
    );
}

#[test]
fn url_is_base_kind_identifier() {
    let chains = [Chain::Coston, Chain::Coston2, Chain::Flare, Chain::Songbird];
    let kinds = [(PageKind::Tx, "tx"), (PageKind::Address, "address"), (PageKind::Block, "block")];
    for chain in chains {
        for (kind, segment) in kinds {
            let expected = format!("{}/{}/{}", chain.base_url(), segment, "42");
            assert_eq!(explorer_url(chain, kind, "42"), expected);
        }
    }
}

#[test]
fn identifier_is_not_validated() {
    assert_eq!(
        explorer_url(Chain::Coston, PageKind::Address, ""),
        "https://coston-explorer.flare.network/address/"
    );
    assert_eq!(
        explorer_url(Chain::Coston2, PageKind::Block, "not a block/?x=1"),
        "https://coston2-explorer.flare.network/block/not a block/?x=1"
    );
}

#[test]
fn open_tx_announces_and_builds_url() {
    let request = open_tx(&TxOpenConfig { tx_hash: "0xabc123".to_string(), chain: Chain::Flare });
    assert_eq!(request.notice, "Opening transaction with hash: 0xabc123");
    assert_eq!(request.url, "https://flare-explorer.flare.network/tx/0xabc123");
}

#[test]
fn open_address_announces_and_builds_url() {
    let request =
        open_address(&AddressOpenConfig { address: "0xdead".to_string(), chain: Chain::Songbird });
    assert_eq!(request.notice, "Opening address with hash: 0xdead");
    assert_eq!(request.url, "https://songbird-explorer.flare.network/address/0xdead");
}

#[test]
fn open_block_announces_and_builds_url() {
    let request = open_block(&BlockOpenConfig { block: "1234".to_string(), chain: Chain::Coston2 });
    assert_eq!(request.notice, "Opening block with hash: 1234");
    assert_eq!(request.url, "https://coston2-explorer.flare.network/block/1234");
}

#[test]
fn open_page_agrees_with_the_three_openers() {
    let request = open_page(Chain::Flare, PageKind::Tx, "0x1");
    let same = open_tx(&TxOpenConfig { tx_hash: "0x1".to_string(), chain: Chain::Flare });
    assert_eq!(request, same);
}

#[test]
fn success_is_reported_on_standard_output() {
    assert_eq!(open_report(Ok(())), Report::Success("Successfully opened the URL.".to_string()));
}

#[test]
fn failure_is_reported_on_standard_error_with_its_reason() {
    assert_eq!(
        open_report(Err("no browser".to_string())),
        Report::Failure("Failed to open the URL: no browser".to_string())
    );
}

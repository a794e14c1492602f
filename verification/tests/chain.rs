use blsct::chain::Chain;

#[test]
fn base_urls_are_the_fixed_table() {
    assert_eq!(Chain::Coston.base_url(), "https://coston-explorer.flare.network");
    assert_eq!(Chain::Coston2.base_url(), "https://coston2-explorer.flare.network");
    assert_eq!(Chain::Flare.base_url(), "https://flare-explorer.flare.network");
    assert_eq!(Chain::Songbird.base_url(), "https://songbird-explorer.flare.network");
}

#[test]
fn names_resolve_to_their_chains() {
    assert_eq!(Chain::from_name("coston"), Some(Chain::Coston));
    assert_eq!(Chain::from_name("coston2"), Some(Chain::Coston2));
    assert_eq!(Chain::from_name("flare"), Some(Chain::Flare));
    assert_eq!(Chain::from_name("songbird"), Some(Chain::Songbird));
}

#[test]
fn each_chain_is_found_by_its_own_name() {
    for chain in [Chain::Coston, Chain::Coston2, Chain::Flare, Chain::Songbird] {
        assert_eq!(Chain::from_name(chain.name()), Some(chain));
    }
}

#[test]
fn resolved_name_gives_documented_url() {
    let chain = Chain::from_name("songbird").unwrap();
    assert_eq!(chain.base_url(), "https://songbird-explorer.flare.network");
}

#[test]
fn other_names_are_rejected() {
    assert_eq!(Chain::from_name(""), None);
    assert_eq!(Chain::from_name("Flare"), None);
    assert_eq!(Chain::from_name("FLARE"), None);
    assert_eq!(Chain::from_name("coston3"), None);
    assert_eq!(Chain::from_name("flare "), None);
    assert_eq!(Chain::from_name("ethereum"), None);
}

//! The supported chains and the explorer each one is served by.

use vstd::prelude::*;
use crate::text::str_eq;

verus! {

/// One of the supported networks.
#[derive(Clone, Copy, Debug, PartialEq, Eq, Structural)]
pub enum Chain {
    Coston,
    Coston2,
    Flare,
    Songbird,
}

impl Chain {
    /// The explorer's base URL for this chain, without a trailing slash.
    pub open spec fn spec_base_url(self) -> Seq<char> {
        match self {
            Chain::Coston => "https://coston-explorer.flare.network"@,
            Chain::Coston2 => "https://coston2-explorer.flare.network"@,
            Chain::Flare => "https://flare-explorer.flare.network"@,
            Chain::Songbird => "https://songbird-explorer.flare.network"@,
        }
    }

    /// The name by which this chain is selected on the command line.
    pub open spec fn spec_name(self) -> Seq<char> {
        match self {
            Chain::Coston => "coston"@,
            Chain::Coston2 => "coston2"@,
            Chain::Flare => "flare"@,
            Chain::Songbird => "songbird"@,
        }
    }

    /// The chain selected by `name`, if `name` is one of the four names.
    pub open spec fn spec_from_name(name: Seq<char>) -> Option<Chain> {
        if name == Chain::Coston.spec_name() {
            Some(Chain::Coston)
        } else if name == Chain::Coston2.spec_name() {
            Some(Chain::Coston2)
        } else if name == Chain::Flare.spec_name() {
            Some(Chain::Flare)
        } else if name == Chain::Songbird.spec_name() {
            Some(Chain::Songbird)
        } else {
            None
        }
    }

    /// Returns the explorer's base URL for this chain.
    pub fn base_url(&self) -> (url: &'static str)
        ensures
            url@ == self.spec_base_url(),
    {
        match self {
            Chain::Coston => "https://coston-explorer.flare.network",
            Chain::Coston2 => "https://coston2-explorer.flare.network",
            Chain::Flare => "https://flare-explorer.flare.network",
            Chain::Songbird => "https://songbird-explorer.flare.network",
        }
    }

    /// Resolves a command-line name to its chain. Names are matched exactly:
    /// anything but the four lower-case names gives `None`.
    pub fn from_name(name: &str) -> (chain: Option<Chain>)
        ensures
            chain == Chain::spec_from_name(name@),
    {
        if str_eq(name, Chain::Coston.name()) {
            Some(Chain::Coston)
        } else if str_eq(name, Chain::Coston2.name()) {
            Some(Chain::Coston2)
        } else if str_eq(name, Chain::Flare.name()) {
            Some(Chain::Flare)
        } else if str_eq(name, Chain::Songbird.name()) {
            Some(Chain::Songbird)
        } else {
            None
        }
    }

    /// Returns the command-line name of this chain.
    pub fn name(&self) -> (name: &'static str)
        ensures
            name@ == self.spec_name(),
    {
        match self {
            Chain::Coston => "coston",
            Chain::Coston2 => "coston2",
            Chain::Flare => "flare",
            Chain::Songbird => "songbird",
        }
    }
}

/// Each chain is found again by its own name, so the four names select four
/// different chains.
pub proof fn lemma_name_selects_chain(chain: Chain)
    ensures
        Chain::spec_from_name(chain.spec_name()) == Some(chain),
{
    reveal_strlit("coston");
    reveal_strlit("coston2");
    reveal_strlit("flare");
    reveal_strlit("songbird");
    assert("coston"@.len() == 6);
    assert("coston2"@.len() == 7);
    assert("flare"@.len() == 5);
    assert("songbird"@.len() == 8);
}

/// The table of names and explorers: each of the four names selects the
/// chain whose base URL is the one given here.
pub proof fn lemma_named_chain_urls()
    ensures
        Chain::spec_from_name("coston"@) matches Some(chain) && chain.spec_base_url()
            == "https://coston-explorer.flare.network"@,
        Chain::spec_from_name("coston2"@) matches Some(chain) && chain.spec_base_url()
            == "https://coston2-explorer.flare.network"@,
        Chain::spec_from_name("flare"@) matches Some(chain) && chain.spec_base_url()
            == "https://flare-explorer.flare.network"@,
        Chain::spec_from_name("songbird"@) matches Some(chain) && chain.spec_base_url()
            == "https://songbird-explorer.flare.network"@,
{
    lemma_name_selects_chain(Chain::Coston);
    lemma_name_selects_chain(Chain::Coston2);
    lemma_name_selects_chain(Chain::Flare);
    lemma_name_selects_chain(Chain::Songbird);
}

/// A name selects a chain only if it is that chain's name.
pub proof fn lemma_chain_only_by_name(name: Seq<char>, chain: Chain)
    requires
        Chain::spec_from_name(name) == Some(chain),
    ensures
        name == chain.spec_name(),
{
}

} // verus!

//! Explorer pages: which address a page has, and what is said to the user
//! around opening it.

use vstd::prelude::*;
use vstd::string::*;
use crate::chain::Chain;
use crate::error::Failure;

verus! {

/// The kinds of page an explorer serves.
#[derive(Clone, Copy, Debug, PartialEq, Eq, Structural)]
pub enum PageKind {
    Tx,
    Address,
    Block,
}

/// A transaction to open.
#[derive(Clone, Debug, PartialEq, Eq)]
pub struct TxOpenConfig {
    pub tx_hash: String,
    pub chain: Chain,
}

/// An address to open.
#[derive(Clone, Debug, PartialEq, Eq)]
pub struct AddressOpenConfig {
    pub address: String,
    pub chain: Chain,
}

/// A block to open.
#[derive(Clone, Debug, PartialEq, Eq)]
pub struct BlockOpenConfig {
    pub block: String,
    pub chain: Chain,
}

/// A page to open, with the line that announces it.
#[derive(Clone, Debug, PartialEq, Eq)]
pub struct OpenRequest {
    pub notice: String,
    pub url: String,
}

/// A line for the user, and the stream it goes to.
#[derive(Clone, Debug, PartialEq, Eq)]
pub enum Report {
    /// A line for standard output.
    Success(String),
    /// A line for standard error.
    Failure(String),
}

impl PageKind {
    /// The path segment under which the explorer serves this kind of page.
    pub open spec fn spec_segment(self) -> Seq<char> {
        match self {
            PageKind::Tx => "tx"@,
            PageKind::Address => "address"@,
            PageKind::Block => "block"@,
        }
    }

    /// How the announcement of this kind of page begins.
    pub open spec fn spec_notice_prefix(self) -> Seq<char> {
        match self {
            PageKind::Tx => "Opening transaction with hash: "@,
            PageKind::Address => "Opening address with hash: "@,
            PageKind::Block => "Opening block with hash: "@,
        }
    }

    /// Returns the path segment of this kind of page.
    pub fn segment(&self) -> (segment: &'static str)
        ensures
            segment@ == self.spec_segment(),
    {
        match self {
            PageKind::Tx => "tx",
            PageKind::Address => "address",
            PageKind::Block => "block",
        }
    }

    /// Returns the beginning of the announcement of this kind of page.
    pub fn notice_prefix(&self) -> (prefix: &'static str)
        ensures
            prefix@ == self.spec_notice_prefix(),
    {
        match self {
            PageKind::Tx => "Opening transaction with hash: ",
            PageKind::Address => "Opening address with hash: ",
            PageKind::Block => "Opening block with hash: ",
        }
    }
}

/// The address of a page: the chain's base URL, the kind's segment and the
/// identifier, joined by slashes. The identifier is taken as it is.
pub open spec fn page_url(chain: Chain, kind: PageKind, identifier: Seq<char>) -> Seq<char> {
    chain.spec_base_url() + "/"@ + kind.spec_segment() + "/"@ + identifier
}

/// The line that announces a page.
pub open spec fn page_notice(kind: PageKind, identifier: Seq<char>) -> Seq<char> {
    kind.spec_notice_prefix() + identifier
}

/// Builds the address of a page.
pub fn explorer_url(chain: Chain, kind: PageKind, identifier: &str) -> (url: String)
    ensures
        url@ == page_url(chain, kind, identifier@),
{
    let mut url = String::new();
    url.append(chain.base_url());
    url.append("/");
    url.append(kind.segment());
    url.append("/");
    url.append(identifier);
    proof {
        assert(url@ =~= page_url(chain, kind, identifier@));
    }
    url
}

/// Builds the request to open a page of the given kind.
pub fn open_page(chain: Chain, kind: PageKind, identifier: &str) -> (request: OpenRequest)
    ensures
        request.notice@ == page_notice(kind, identifier@),
        request.url@ == page_url(chain, kind, identifier@),
{
    let mut notice = String::new();
    notice.append(kind.notice_prefix());
    notice.append(identifier);
    proof {
        assert(notice@ =~= page_notice(kind, identifier@));
    }
    OpenRequest { notice, url: explorer_url(chain, kind, identifier) }
}

/// The request to open a transaction's page.
pub fn open_tx(config: &TxOpenConfig) -> (request: OpenRequest)
    ensures
        request.notice@ == page_notice(PageKind::Tx, config.tx_hash@),
        request.url@ == page_url(config.chain, PageKind::Tx, config.tx_hash@),
{
    open_page(config.chain, PageKind::Tx, config.tx_hash.as_str())
}

/// The request to open an address's page.
pub fn open_address(config: &AddressOpenConfig) -> (request: OpenRequest)
    ensures
        request.notice@ == page_notice(PageKind::Address, config.address@),
        request.url@ == page_url(config.chain, PageKind::Address, config.address@),
{
    open_page(config.chain, PageKind::Address, config.address.as_str())
}

/// The request to open a block's page.
pub fn open_block(config: &BlockOpenConfig) -> (request: OpenRequest)
    ensures
        request.notice@ == page_notice(PageKind::Block, config.block@),
        request.url@ == page_url(config.chain, PageKind::Block, config.block@),
{
    open_page(config.chain, PageKind::Block, config.block.as_str())
}

/// What is reported once the browser was asked to open a page: success on
/// standard output, a failure with its reason on standard error.
pub open spec fn report_of(outcome: Result<(), Seq<char>>) -> (bool, Seq<char>) {
    match outcome {
        Ok(_) => (true, "Successfully opened the URL."@),
        Err(reason) => (false, Failure::OpenUrl.spec_message() + ": "@ + reason),
    }
}

impl Report {
    /// This report as a pair: whether it goes to standard output, and its
    /// line.
    pub open spec fn spec_pair(self) -> (bool, Seq<char>) {
        match self {
            Report::Success(line) => (true, line@),
            Report::Failure(line) => (false, line@),
        }
    }
}

/// Reports how opening a page went. `outcome` carries the reason of a
/// failure as text.
pub fn open_report(outcome: Result<(), String>) -> (report: Report)
    ensures
        report.spec_pair() == report_of(
            match outcome {
                Ok(_) => Ok(()),
                Err(reason) => Err(reason@),
            },
        ),
{
    match outcome {
        Ok(_) => Report::Success(String::from_str("Successfully opened the URL.")),
        Err(reason) => {
            let mut line = String::from_str(Failure::OpenUrl.message());
            line.append(": ");
            line.append(reason.as_str());
            Report::Failure(line)
        },
    }
}

} // verus!

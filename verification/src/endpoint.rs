use crate::query::distinct;
use vstd::prelude::*;

verus! {

/// The address of the public server, to which every path is appended.
pub const BASE_URL: &'static str = "https://www.oklink.com/";

/// The key under which every query names its chain.
pub const CHAIN_KEY: &'static str = "chainShortName";

/// The chain that a client asks about unless it is told another.
pub const CHAIN_SHORT_NAME: &'static str = "KLAYTN";

/// The endpoints of the explorer, one for each kind of query.
///
/// An endpoint fixes the path of its requests and the keys of its arguments.
/// One that takes a list of identifiers also fixes how many it takes in one
/// query.
#[derive(Clone, Copy, Debug, PartialEq, Eq)]
pub enum Endpoint {
    /// The summary of one address.
    AddressInfo,
    /// The summary of one address of an EVM chain.
    EvmAddressInfo,
    /// The chains on which an address is active.
    AddressActiveChain,
    /// The token balances of an address.
    AddressTokenBalance,
    /// The token balances of an address, in detail.
    AddressBalanceDetails,
    /// The balance of an address at a block height.
    AddressBalanceHistory,
    /// The transactions of an address.
    AddressTransactionList,
    /// The normal transactions of an address.
    AddressNormalTransactionList,
    /// The internal transactions of an address.
    AddressInternalTransactionList,
    /// The token transactions of an address.
    AddressTokenTransactionList,
    /// The entity labels of an address.
    AddressEntityLabels,
    /// The balances of several addresses.
    BatchAddressBalances,
    /// The token balances of several addresses.
    BatchAddressTokenBalances,
    /// The normal transactions of several addresses.
    BatchAddressNormalTransactionList,
    /// The internal transactions of several addresses.
    BatchAddressInternalTransactionList,
    /// The token transactions of several addresses.
    BatchAddressTokenTransactionList,
    /// The addresses with the largest balances.
    RichList,
    /// The ranking of the holders of the native token.
    NativeTokenRanking,
    /// The transactions of the chain.
    TransactionList,
    /// The large transactions of the chain.
    LargeTransactionList,
    /// The transactions that are not yet confirmed.
    UnconfirmedTransactionList,
    /// The internal transactions of one transaction.
    InternalTransactionDetails,
    /// The token transfers of one transaction.
    TokenTransactionDetails,
    /// The details of one transaction.
    TransactionDetails,
    /// The details of several transactions.
    BatchTransactionDetails,
    /// The internal transactions of several transactions.
    BatchInternalTransactionDetails,
    /// The token transfers of several transactions.
    BatchTokenTransactionDetails,
    /// The tokens of the chain.
    TokenList,
    /// The holders of a token.
    TokenPositionList,
    /// Statistics on the holders of a token.
    TokenPositionStatistics,
    /// The transfers of a token.
    TokenTransferDetails,
    /// The transfers of a token over a range of blocks.
    BatchTokenTransaction,
    /// The supply of a token at a block height.
    TokenSupplyHistory,
    /// Statistics on the transfers of a token.
    TokenTransactionStatistics,
}

impl Endpoint {
    /// The path of the endpoint, relative to the address of the server.
    pub open spec fn spec_path(self) -> Seq<char> {
        match self {
            Endpoint::AddressInfo => "api/v5/explorer/address/address-summary"@,
            Endpoint::EvmAddressInfo => "api/v5/explorer/address/information-evm"@,
            Endpoint::AddressActiveChain => "api/v5/explorer/address/address-active-chain"@,
            Endpoint::AddressTokenBalance => "api/v5/explorer/address/token-balance"@,
            Endpoint::AddressBalanceDetails => "api/v5/explorer/address/address-balance-fills"@,
            Endpoint::AddressBalanceHistory => "api/v5/explorer/block/address-balance-history"@,
            Endpoint::AddressTransactionList => "api/v5/explorer/address/transaction-list"@,
            Endpoint::AddressNormalTransactionList => {
                "api/v5/explorer/address/normal-transaction-list"@
            },
            Endpoint::AddressInternalTransactionList => {
                "api/v5/explorer/address/internal-transaction-list"@
            },
            Endpoint::AddressTokenTransactionList => {
                "api/v5/explorer/address/token-transaction-list"@
            },
            Endpoint::AddressEntityLabels => "api/v5/explorer/address/entity-labels"@,
            Endpoint::BatchAddressBalances => "api/v5/explorer/address/balance-multi"@,
            Endpoint::BatchAddressTokenBalances => "api/v5/explorer/address/token-balance-multi"@,
            Endpoint::BatchAddressNormalTransactionList => {
                "api/v5/explorer/address/normal-transaction-list-multi"@
            },
            Endpoint::BatchAddressInternalTransactionList => {
                "api/v5/explorer/address/internal-transaction-list-multi"@
            },
            Endpoint::BatchAddressTokenTransactionList => {
                "api/v5/explorer/address/token-transaction-list-multi"@
            },
            Endpoint::RichList => "api/v5/explorer/address/rich-list"@,
            Endpoint::NativeTokenRanking => "api/v5/explorer/address/native-token-position-list"@,
            Endpoint::TransactionList => "api/v5/explorer/transaction/transaction-list"@,
            Endpoint::LargeTransactionList => "api/v5/explorer/transaction/large-transaction-list"@,
            Endpoint::UnconfirmedTransactionList => {
                "api/v5/explorer/transaction/unconfirmed-transaction-list"@
            },
            Endpoint::InternalTransactionDetails => {
                "api/v5/explorer/transaction/internal-transaction-detail"@
            },
            Endpoint::TokenTransactionDetails => {
                "api/v5/explorer/transaction/token-transaction-detail"@
            },
            Endpoint::TransactionDetails => "api/v5/explorer/transaction/transaction-fills"@,
            Endpoint::BatchTransactionDetails => "api/v5/explorer/transaction/transaction-multi"@,
            Endpoint::BatchInternalTransactionDetails => {
                "api/v5/explorer/transaction/internal-transaction-multi"@
            },
            Endpoint::BatchTokenTransactionDetails => {
                "api/v5/explorer/transaction/token-transfer-multi"@
            },
            Endpoint::TokenList => "api/v5/explorer/token/token-list"@,
            Endpoint::TokenPositionList => "api/v5/explorer/token/position-list"@,
            Endpoint::TokenPositionStatistics => "api/v5/explorer/token/position-statistics"@,
            Endpoint::TokenTransferDetails => "api/v5/explorer/token/transaction-list"@,
            Endpoint::BatchTokenTransaction => {
                "api/v5/explorer/token/token-transaction-list-multi"@
            },
            Endpoint::TokenSupplyHistory => "api/v5/explorer/token/supply-history"@,
            Endpoint::TokenTransactionStatistics => "api/v5/explorer/token/transaction-stats"@,
        }
    }

    /// The keys of the endpoint's arguments, in the order in which a query
    /// carries them. A list of identifiers is one argument.
    pub open spec fn spec_keys(self) -> Seq<Seq<char>> {
        match self {
            Endpoint::AddressInfo => seq!["address"@],
            Endpoint::EvmAddressInfo => seq!["address"@],
            Endpoint::AddressActiveChain => seq!["address"@],
            Endpoint::AddressTokenBalance => seq![
                "address"@,
                "protocolType"@,
                "tokenContractAddress"@,
                "page"@,
                "limit"@,
            ],
            Endpoint::AddressBalanceDetails => seq![
                "address"@,
                "protocolType"@,
                "tokenContractAddress"@,
                "page"@,
                "limit"@,
            ],
            Endpoint::AddressBalanceHistory => seq!["address"@, "height"@, "tokenContractAddress"@],
            Endpoint::AddressTransactionList => seq![
                "address"@,
                "protocolType"@,
                "symbol"@,
                "startBlockHeight"@,
                "endBlockHeight"@,
                "isFromOrTo"@,
                "page"@,
                "limit"@,
            ],
            Endpoint::AddressNormalTransactionList => seq![
                "address"@,
                "startBlockHeight"@,
                "endBlockHeight"@,
                "isFromOrTo"@,
                "page"@,
                "limit"@,
            ],
            Endpoint::AddressInternalTransactionList => seq![
                "address"@,
                "startBlockHeight"@,
                "endBlockHeight"@,
                "isFromOrTo"@,
                "page"@,
                "limit"@,
            ],
            Endpoint::AddressTokenTransactionList => seq![
                "address"@,
                "protocolType"@,
                "tokenContractAddress"@,
                "page"@,
                "limit"@,
            ],
            Endpoint::AddressEntityLabels => seq!["address"@],
            Endpoint::BatchAddressBalances => seq!["addresses"@],
            Endpoint::BatchAddressTokenBalances => seq![
                "addresses"@,
                "protocolType"@,
                "page"@,
                "limit"@,
            ],
            Endpoint::BatchAddressNormalTransactionList => seq![
                "addresses"@,
                "startBlockHeight"@,
                "endBlockHeight"@,
                "isFromOrTo"@,
                "page"@,
                "limit"@,
            ],
            Endpoint::BatchAddressInternalTransactionList => seq![
                "addresses"@,
                "startBlockHeight"@,
                "endBlockHeight"@,
                "isFromOrTo"@,
                "page"@,
                "limit"@,
            ],
            Endpoint::BatchAddressTokenTransactionList => seq![
                "addresses"@,
                "startBlockHeight"@,
                "endBlockHeight"@,
                "page"@,
                "limit"@,
                "protocolType"@,
                "tokenContractAddress"@,
                "isFromOrTo"@,
            ],
            Endpoint::RichList => seq!["address"@],
            Endpoint::NativeTokenRanking => seq!["page"@, "limit"@],
            Endpoint::TransactionList => seq!["blockHash"@, "height"@, "page"@, "limit"@],
            Endpoint::LargeTransactionList => seq!["type"@, "height"@, "page"@, "limit"@],
            Endpoint::UnconfirmedTransactionList => seq!["page"@, "limit"@],
            Endpoint::InternalTransactionDetails => seq!["txId"@, "page"@, "limit"@],
            Endpoint::TokenTransactionDetails => seq!["txId"@, "protocolType"@, "page"@, "limit"@],
            Endpoint::TransactionDetails => seq!["txId"@],
            Endpoint::BatchTransactionDetails => seq!["txIds"@],
            Endpoint::BatchInternalTransactionDetails => seq!["txIds"@],
            Endpoint::BatchTokenTransactionDetails => seq![
                "txIds"@,
                "protocolType"@,
                "page"@,
                "limit"@,
            ],
            Endpoint::TokenList => seq![
                "protocolType"@,
                "tokenContractAddress"@,
                "startTime"@,
                "endTime"@,
                "orderBy"@,
                "page"@,
                "limit"@,
            ],
            Endpoint::TokenPositionList => seq![
                "tokenContractAddress"@,
                "holderAddress"@,
                "page"@,
                "limit"@,
            ],
            Endpoint::TokenPositionStatistics => seq![
                "tokenContractAddress"@,
                "holderAddress"@,
                "page"@,
                "limit"@,
            ],
            Endpoint::TokenTransferDetails => seq![
                "tokenContractAddress"@,
                "maxAmount"@,
                "minAmount"@,
                "page"@,
                "limit"@,
            ],
            Endpoint::BatchTokenTransaction => seq![
                "tokenContractAddress"@,
                "startBlockHeight"@,
                "endBlockHeight"@,
                "page"@,
                "limit"@,
            ],
            Endpoint::TokenSupplyHistory => seq!["tokenContractAddress"@, "height"@],
            Endpoint::TokenTransactionStatistics => seq![
                "tokenContractAddress"@,
                "orderBy"@,
                "page"@,
                "limit"@,
            ],
        }
    }

    /// The largest number of identifiers that the endpoint takes in one
    /// query, for an endpoint that takes a list of them.
    pub open spec fn spec_ceiling(self) -> Option<usize> {
        match self {
            Endpoint::BatchAddressBalances => Some(100),
            Endpoint::BatchAddressTokenBalances => Some(50),
            Endpoint::BatchAddressNormalTransactionList => Some(50),
            Endpoint::BatchAddressInternalTransactionList => Some(20),
            Endpoint::BatchAddressTokenTransactionList => Some(20),
            Endpoint::BatchTransactionDetails => Some(20),
            Endpoint::BatchInternalTransactionDetails => Some(20),
            Endpoint::BatchTokenTransactionDetails => Some(20),
            _ => None,
        }
    }

    /// A list of `given` identifiers is more than the endpoint takes.
    pub open spec fn refuses(self, given: nat) -> bool {
        self.spec_ceiling() matches Some(limit) && given > limit
    }

    /// Gives the path of the endpoint.
    pub fn path(self) -> (path: &'static str)
        ensures
            path@ == self.spec_path(),
    {
        match self {
            Endpoint::AddressInfo => "api/v5/explorer/address/address-summary",
            Endpoint::EvmAddressInfo => "api/v5/explorer/address/information-evm",
            Endpoint::AddressActiveChain => "api/v5/explorer/address/address-active-chain",
            Endpoint::AddressTokenBalance => "api/v5/explorer/address/token-balance",
            Endpoint::AddressBalanceDetails => "api/v5/explorer/address/address-balance-fills",
            Endpoint::AddressBalanceHistory => "api/v5/explorer/block/address-balance-history",
            Endpoint::AddressTransactionList => "api/v5/explorer/address/transaction-list",
            Endpoint::AddressNormalTransactionList => {
                "api/v5/explorer/address/normal-transaction-list"
            },
            Endpoint::AddressInternalTransactionList => {
                "api/v5/explorer/address/internal-transaction-list"
            },
            Endpoint::AddressTokenTransactionList => {
                "api/v5/explorer/address/token-transaction-list"
            },
            Endpoint::AddressEntityLabels => "api/v5/explorer/address/entity-labels",
            Endpoint::BatchAddressBalances => "api/v5/explorer/address/balance-multi",
            Endpoint::BatchAddressTokenBalances => "api/v5/explorer/address/token-balance-multi",
            Endpoint::BatchAddressNormalTransactionList => {
                "api/v5/explorer/address/normal-transaction-list-multi"
            },
            Endpoint::BatchAddressInternalTransactionList => {
                "api/v5/explorer/address/internal-transaction-list-multi"
            },
            Endpoint::BatchAddressTokenTransactionList => {
                "api/v5/explorer/address/token-transaction-list-multi"
            },
            Endpoint::RichList => "api/v5/explorer/address/rich-list",
            Endpoint::NativeTokenRanking => "api/v5/explorer/address/native-token-position-list",
            Endpoint::TransactionList => "api/v5/explorer/transaction/transaction-list",
            Endpoint::LargeTransactionList => "api/v5/explorer/transaction/large-transaction-list",
            Endpoint::UnconfirmedTransactionList => {
                "api/v5/explorer/transaction/unconfirmed-transaction-list"
            },
            Endpoint::InternalTransactionDetails => {
                "api/v5/explorer/transaction/internal-transaction-detail"
            },
            Endpoint::TokenTransactionDetails => {
                "api/v5/explorer/transaction/token-transaction-detail"
            },
            Endpoint::TransactionDetails => "api/v5/explorer/transaction/transaction-fills",
            Endpoint::BatchTransactionDetails => "api/v5/explorer/transaction/transaction-multi",
            Endpoint::BatchInternalTransactionDetails => {
                "api/v5/explorer/transaction/internal-transaction-multi"
            },
            Endpoint::BatchTokenTransactionDetails => {
                "api/v5/explorer/transaction/token-transfer-multi"
            },
            Endpoint::TokenList => "api/v5/explorer/token/token-list",
            Endpoint::TokenPositionList => "api/v5/explorer/token/position-list",
            Endpoint::TokenPositionStatistics => "api/v5/explorer/token/position-statistics",
            Endpoint::TokenTransferDetails => "api/v5/explorer/token/transaction-list",
            Endpoint::BatchTokenTransaction => "api/v5/explorer/token/token-transaction-list-multi",
            Endpoint::TokenSupplyHistory => "api/v5/explorer/token/supply-history",
            Endpoint::TokenTransactionStatistics => "api/v5/explorer/token/transaction-stats",
        }
    }

    /// Gives the keys of the endpoint's arguments.
    pub fn keys(self) -> (keys: Vec<&'static str>)
        ensures
            keys.deep_view() == self.spec_keys(),
    {
        let keys = match self {
            Endpoint::AddressInfo => vec!["address"],
            Endpoint::EvmAddressInfo => vec!["address"],
            Endpoint::AddressActiveChain => vec!["address"],
            Endpoint::AddressTokenBalance => vec![
                "address",
                "protocolType",
                "tokenContractAddress",
                "page",
                "limit",
            ],
            Endpoint::AddressBalanceDetails => vec![
                "address",
                "protocolType",
                "tokenContractAddress",
                "page",
                "limit",
            ],
            Endpoint::AddressBalanceHistory => vec!["address", "height", "tokenContractAddress"],
            Endpoint::AddressTransactionList => vec![
                "address",
                "protocolType",
                "symbol",
                "startBlockHeight",
                "endBlockHeight",
                "isFromOrTo",
                "page",
                "limit",
            ],
            Endpoint::AddressNormalTransactionList => vec![
                "address",
                "startBlockHeight",
                "endBlockHeight",
                "isFromOrTo",
                "page",
                "limit",
            ],
            Endpoint::AddressInternalTransactionList => vec![
                "address",
                "startBlockHeight",
                "endBlockHeight",
                "isFromOrTo",
                "page",
                "limit",
            ],
            Endpoint::AddressTokenTransactionList => vec![
                "address",
                "protocolType",
                "tokenContractAddress",
                "page",
                "limit",
            ],
            Endpoint::AddressEntityLabels => vec!["address"],
            Endpoint::BatchAddressBalances => vec!["addresses"],
            Endpoint::BatchAddressTokenBalances => vec![
                "addresses",
                "protocolType",
                "page",
                "limit",
            ],
            Endpoint::BatchAddressNormalTransactionList => vec![
                "addresses",
                "startBlockHeight",
                "endBlockHeight",
                "isFromOrTo",
                "page",
                "limit",
            ],
            Endpoint::BatchAddressInternalTransactionList => vec![
                "addresses",
                "startBlockHeight",
                "endBlockHeight",
                "isFromOrTo",
                "page",
                "limit",
            ],
            Endpoint::BatchAddressTokenTransactionList => vec![
                "addresses",
                "startBlockHeight",
                "endBlockHeight",
                "page",
                "limit",
                "protocolType",
                "tokenContractAddress",
                "isFromOrTo",
            ],
            Endpoint::RichList => vec!["address"],
            Endpoint::NativeTokenRanking => vec!["page", "limit"],
            Endpoint::TransactionList => vec!["blockHash", "height", "page", "limit"],
            Endpoint::LargeTransactionList => vec!["type", "height", "page", "limit"],
            Endpoint::UnconfirmedTransactionList => vec!["page", "limit"],
            Endpoint::InternalTransactionDetails => vec!["txId", "page", "limit"],
            Endpoint::TokenTransactionDetails => vec!["txId", "protocolType", "page", "limit"],
            Endpoint::TransactionDetails => vec!["txId"],
            Endpoint::BatchTransactionDetails => vec!["txIds"],
            Endpoint::BatchInternalTransactionDetails => vec!["txIds"],
            Endpoint::BatchTokenTransactionDetails => vec![
                "txIds",
                "protocolType",
                "page",
                "limit",
            ],
            Endpoint::TokenList => vec![
                "protocolType",
                "tokenContractAddress",
                "startTime",
                "endTime",
                "orderBy",
                "page",
                "limit",
            ],
            Endpoint::TokenPositionList => vec![
                "tokenContractAddress",
                "holderAddress",
                "page",
                "limit",
            ],
            Endpoint::TokenPositionStatistics => vec![
                "tokenContractAddress",
                "holderAddress",
                "page",
                "limit",
            ],
            Endpoint::TokenTransferDetails => vec![
                "tokenContractAddress",
                "maxAmount",
                "minAmount",
                "page",
                "limit",
            ],
            Endpoint::BatchTokenTransaction => vec![
                "tokenContractAddress",
                "startBlockHeight",
                "endBlockHeight",
                "page",
                "limit",
            ],
            Endpoint::TokenSupplyHistory => vec!["tokenContractAddress", "height"],
            Endpoint::TokenTransactionStatistics => vec![
                "tokenContractAddress",
                "orderBy",
                "page",
                "limit",
            ],
        };
        assert(keys.deep_view() =~= self.spec_keys());
        keys
    }

    /// Gives the endpoint's limit on a list of identifiers, if it takes one.
    pub fn ceiling(self) -> (ceiling: Option<usize>)
        ensures
            ceiling == self.spec_ceiling(),
    {
        match self {
            Endpoint::BatchAddressBalances => Some(100),
            Endpoint::BatchAddressTokenBalances => Some(50),
            Endpoint::BatchAddressNormalTransactionList => Some(50),
            Endpoint::BatchAddressInternalTransactionList => Some(20),
            Endpoint::BatchAddressTokenTransactionList => Some(20),
            Endpoint::BatchTransactionDetails => Some(20),
            Endpoint::BatchInternalTransactionDetails => Some(20),
            Endpoint::BatchTokenTransactionDetails => Some(20),
            _ => None,
        }
    }
}

/// The key of the chain and the keys of an endpoint's arguments are all
/// different: no query carries one key for two things.
pub proof fn lemma_keys_distinct(endpoint: Endpoint)
    ensures
        distinct(seq![CHAIN_KEY@] + endpoint.spec_keys()),
{
    reveal_strlit("chainShortName");
    reveal_strlit("address");
    reveal_strlit("protocolType");
    reveal_strlit("tokenContractAddress");
    reveal_strlit("page");
    reveal_strlit("limit");
    reveal_strlit("height");
    reveal_strlit("symbol");
    reveal_strlit("startBlockHeight");
    reveal_strlit("endBlockHeight");
    reveal_strlit("isFromOrTo");
    reveal_strlit("addresses");
    reveal_strlit("blockHash");
    reveal_strlit("type");
    reveal_strlit("txId");
    reveal_strlit("txIds");
    reveal_strlit("startTime");
    reveal_strlit("endTime");
    reveal_strlit("orderBy");
    reveal_strlit("holderAddress");
    reveal_strlit("maxAmount");
    reveal_strlit("minAmount");
    let keys = seq![CHAIN_KEY@] + endpoint.spec_keys();
    assert forall|i: int, j: int| 0 <= i < j < keys.len() implies keys[i] != keys[j] by {
        // Two keys of one endpoint differ in length or in one of their first two letters.
        assert(keys[i].len() != keys[j].len() || keys[i][0] != keys[j][0] || keys[i][1]
            != keys[j][1]);
    }
}

} // verus!

use crate::endpoint::{Endpoint, BASE_URL, CHAIN_KEY, CHAIN_SHORT_NAME};
use crate::error::{ClientError, ClientErrorView, DecodeError};
use crate::json::{
    flag_member, flag_of, json_document, json_value, member, member_of, parse_document,
    text_member, text_of, Json,
};
use crate::query::{join, joined, present};
use crate::request::{
    headers_for, request_to, Request, Settings, ACCESS_KEY_HEADER, CONTENT_TYPE,
    CONTENT_TYPE_HEADER,
};
use crate::types::ProtocolType;
use vstd::prelude::*;

verus! {

/// What the explorer knows of one address on one chain. Every amount, count
/// and time is kept as the text that the server sent.
#[derive(Clone, Debug, PartialEq, Eq)]
pub struct AddressData {
    pub chain_full_name: String,
    pub chain_short_name: String,
    pub address: String,
    pub contract_address: String,
    pub balance: String,
    pub balance_symbol: String,
    pub transaction_count: String,
    pub verifying: String,
    pub send_amount: String,
    pub receive_amount: String,
    pub token_amount: String,
    pub total_token_value: String,
    pub create_contract_address: String,
    pub create_contract_transaction_hash: String,
    pub first_transaction_time: String,
    pub last_transaction_time: String,
    pub token: String,
    pub bandwidth: String,
    pub energy: String,
    pub voting_rights: String,
    pub unclaimed_voting_rewards: String,
    pub is_aa_address: bool,
}

/// An `AddressData` with its texts as sequences of characters.
pub struct AddressDataView {
    pub chain_full_name: Seq<char>,
    pub chain_short_name: Seq<char>,
    pub address: Seq<char>,
    pub contract_address: Seq<char>,
    pub balance: Seq<char>,
    pub balance_symbol: Seq<char>,
    pub transaction_count: Seq<char>,
    pub verifying: Seq<char>,
    pub send_amount: Seq<char>,
    pub receive_amount: Seq<char>,
    pub token_amount: Seq<char>,
    pub total_token_value: Seq<char>,
    pub create_contract_address: Seq<char>,
    pub create_contract_transaction_hash: Seq<char>,
    pub first_transaction_time: Seq<char>,
    pub last_transaction_time: Seq<char>,
    pub token: Seq<char>,
    pub bandwidth: Seq<char>,
    pub energy: Seq<char>,
    pub voting_rights: Seq<char>,
    pub unclaimed_voting_rewards: Seq<char>,
    pub is_aa_address: bool,
}

impl View for AddressData {
    type V = AddressDataView;

    open spec fn view(&self) -> AddressDataView {
        AddressDataView {
            chain_full_name: self.chain_full_name@,
            chain_short_name: self.chain_short_name@,
            address: self.address@,
            contract_address: self.contract_address@,
            balance: self.balance@,
            balance_symbol: self.balance_symbol@,
            transaction_count: self.transaction_count@,
            verifying: self.verifying@,
            send_amount: self.send_amount@,
            receive_amount: self.receive_amount@,
            token_amount: self.token_amount@,
            total_token_value: self.total_token_value@,
            create_contract_address: self.create_contract_address@,
            create_contract_transaction_hash: self.create_contract_transaction_hash@,
            first_transaction_time: self.first_transaction_time@,
            last_transaction_time: self.last_transaction_time@,
            token: self.token@,
            bandwidth: self.bandwidth@,
            energy: self.energy@,
            voting_rights: self.voting_rights@,
            unclaimed_voting_rewards: self.unclaimed_voting_rewards@,
            is_aa_address: self.is_aa_address,
        }
    }
}

impl DeepView for AddressData {
    type V = AddressDataView;

    open spec fn deep_view(&self) -> AddressDataView {
        self@
    }
}

/// The envelope in which every endpoint answers: a status code, a message
/// for people, and the payload. A `code` of `"0"` stands for success; the
/// library hands the code on as it came.
#[derive(Clone, Debug, PartialEq, Eq)]
pub struct AddressInformation {
    pub code: String,
    pub msg: String,
    pub data: AddressData,
}

/// An `AddressInformation` with its texts as sequences of characters.
pub struct AddressInformationView {
    pub code: Seq<char>,
    pub msg: Seq<char>,
    pub data: AddressDataView,
}

impl View for AddressInformation {
    type V = AddressInformationView;

    open spec fn view(&self) -> AddressInformationView {
        AddressInformationView { code: self.code@, msg: self.msg@, data: self.data@ }
    }
}

impl DeepView for AddressInformation {
    type V = AddressInformationView;

    open spec fn deep_view(&self) -> AddressInformationView {
        self@
    }
}

/// A JSON value has every member of the payload: each text as a JSON string
/// and the one flag as a JSON boolean.
pub open spec fn holds_address_data(json: Json) -> bool {
    &&& text_of(json, "chain_full_name"@) is Some
    &&& text_of(json, "chain_short_name"@) is Some
    &&& text_of(json, "address"@) is Some
    &&& text_of(json, "contract_address"@) is Some
    &&& text_of(json, "balance"@) is Some
    &&& text_of(json, "balance_symbol"@) is Some
    &&& text_of(json, "transaction_count"@) is Some
    &&& text_of(json, "verifying"@) is Some
    &&& text_of(json, "send_amount"@) is Some
    &&& text_of(json, "receive_amount"@) is Some
    &&& text_of(json, "token_amount"@) is Some
    &&& text_of(json, "total_token_value"@) is Some
    &&& text_of(json, "create_contract_address"@) is Some
    &&& text_of(json, "create_contract_transaction_hash"@) is Some
    &&& text_of(json, "first_transaction_time"@) is Some
    &&& text_of(json, "last_transaction_time"@) is Some
    &&& text_of(json, "token"@) is Some
    &&& text_of(json, "bandwidth"@) is Some
    &&& text_of(json, "energy"@) is Some
    &&& text_of(json, "voting_rights"@) is Some
    &&& text_of(json, "unclaimed_voting_rewards"@) is Some
    &&& flag_of(json, "is_aa_address"@) is Some
}

/// The payload that a JSON value holds: each field is the member of that
/// name. There is none where a member is missing or of another type; members
/// of other names are passed over.
pub open spec fn address_data_of(json: Json) -> Option<AddressDataView> {
    if holds_address_data(json) {
        Some(
            AddressDataView {
                chain_full_name: text_of(json, "chain_full_name"@)->0,
                chain_short_name: text_of(json, "chain_short_name"@)->0,
                address: text_of(json, "address"@)->0,
                contract_address: text_of(json, "contract_address"@)->0,
                balance: text_of(json, "balance"@)->0,
                balance_symbol: text_of(json, "balance_symbol"@)->0,
                transaction_count: text_of(json, "transaction_count"@)->0,
                verifying: text_of(json, "verifying"@)->0,
                send_amount: text_of(json, "send_amount"@)->0,
                receive_amount: text_of(json, "receive_amount"@)->0,
                token_amount: text_of(json, "token_amount"@)->0,
                total_token_value: text_of(json, "total_token_value"@)->0,
                create_contract_address: text_of(json, "create_contract_address"@)->0,
                create_contract_transaction_hash: text_of(
                    json,
                    "create_contract_transaction_hash"@,
                )->0,
                first_transaction_time: text_of(json, "first_transaction_time"@)->0,
                last_transaction_time: text_of(json, "last_transaction_time"@)->0,
                token: text_of(json, "token"@)->0,
                bandwidth: text_of(json, "bandwidth"@)->0,
                energy: text_of(json, "energy"@)->0,
                voting_rights: text_of(json, "voting_rights"@)->0,
                unclaimed_voting_rewards: text_of(json, "unclaimed_voting_rewards"@)->0,
                is_aa_address: flag_of(json, "is_aa_address"@)->0,
            },
        )
    } else {
        None
    }
}

/// The envelope that a JSON value holds: `code` and `msg` are its members of
/// these names, both JSON strings, and `data` is the payload that its member
/// `data` holds.
pub open spec fn envelope_of(json: Json) -> Option<AddressInformationView> {
    match (text_of(json, "code"@), text_of(json, "msg"@), member_of(json, "data"@)) {
        (Some(code), Some(msg), Some(inner)) => match address_data_of(inner) {
            Some(data) => Some(AddressInformationView { code, msg, data }),
            None => None,
        },
        _ => None,
    }
}

/// What a response body decodes to: the envelope that it holds as JSON, or
/// the reason why it holds none.
pub open spec fn decoded(body: Seq<u8>) -> Result<AddressInformationView, ClientErrorView> {
    match json_document(body) {
        Some(json) => match envelope_of(json) {
            Some(envelope) => Ok(envelope),
            None => Err(ClientErrorView::Decode(DecodeError::Shape)),
        },
        None => Err(ClientErrorView::Decode(DecodeError::Malformed)),
    }
}

/// What a call comes to, given how the exchange went: a failure of the
/// transport is handed on with the transport's account of it, and a body is
/// decoded.
pub open spec fn concluded(exchange: Result<Seq<u8>, Seq<char>>) -> Result<
    AddressInformationView,
    ClientErrorView,
> {
    match exchange {
        Ok(body) => decoded(body),
        Err(why) => Err(ClientErrorView::Transport(why)),
    }
}

/// The outcome of a call with its texts as sequences of characters.
pub open spec fn viewed(outcome: Result<AddressInformation, ClientError>) -> Result<
    AddressInformationView,
    ClientErrorView,
> {
    match outcome {
        Ok(record) => Ok(record@),
        Err(error) => Err(error@),
    }
}

/// Decoding makes nothing up. A body decodes to a record only if it is a
/// JSON document, and then every field of the record is the member of that
/// name in the document. Every other body gives a `Decode` error, which says
/// whether the body was JSON at all.
pub proof fn lemma_decoded_is_read_from_body(body: Seq<u8>)
    ensures
        match decoded(body) {
            Ok(record) => {
                &&& json_document(body) matches Some(json)
                &&& text_of(json, "code"@) == Some(record.code)
                &&& text_of(json, "msg"@) == Some(record.msg)
                &&& member_of(json, "data"@) matches Some(data)
                &&& address_data_of(data) == Some(record.data)
                &&& text_of(data, "chain_full_name"@) == Some(record.data.chain_full_name)
                &&& text_of(data, "chain_short_name"@) == Some(record.data.chain_short_name)
                &&& text_of(data, "address"@) == Some(record.data.address)
                &&& text_of(data, "contract_address"@) == Some(record.data.contract_address)
                &&& text_of(data, "balance"@) == Some(record.data.balance)
                &&& text_of(data, "balance_symbol"@) == Some(record.data.balance_symbol)
                &&& text_of(data, "transaction_count"@) == Some(record.data.transaction_count)
                &&& text_of(data, "verifying"@) == Some(record.data.verifying)
                &&& text_of(data, "send_amount"@) == Some(record.data.send_amount)
                &&& text_of(data, "receive_amount"@) == Some(record.data.receive_amount)
                &&& text_of(data, "token_amount"@) == Some(record.data.token_amount)
                &&& text_of(data, "total_token_value"@) == Some(record.data.total_token_value)
                &&& text_of(data, "create_contract_address"@) == Some(
                    record.data.create_contract_address,
                )
                &&& text_of(data, "create_contract_transaction_hash"@) == Some(
                    record.data.create_contract_transaction_hash,
                )
                &&& text_of(data, "first_transaction_time"@) == Some(
                    record.data.first_transaction_time,
                )
                &&& text_of(data, "last_transaction_time"@) == Some(
                    record.data.last_transaction_time,
                )
                &&& text_of(data, "token"@) == Some(record.data.token)
                &&& text_of(data, "bandwidth"@) == Some(record.data.bandwidth)
                &&& text_of(data, "energy"@) == Some(record.data.energy)
                &&& text_of(data, "voting_rights"@) == Some(record.data.voting_rights)
                &&& text_of(data, "unclaimed_voting_rewards"@) == Some(
                    record.data.unclaimed_voting_rewards,
                )
                &&& flag_of(data, "is_aa_address"@) == Some(record.data.is_aa_address)
            },
            Err(error) => {
                &&& error is Decode
                &&& json_document(body) is None <==> error == ClientErrorView::Decode(
                    DecodeError::Malformed,
                )
            },
        },
{
}

impl AddressData {
    /// Reads the payload out of a parsed JSON value.
    pub fn from_value(value: &serde_json::Value) -> (data: Option<AddressData>)
        ensures
            data.deep_view() == address_data_of(json_value(*value)),
    {
        let chain_full_name = text_member(value, "chain_full_name")?;
        let chain_short_name = text_member(value, "chain_short_name")?;
        let address = text_member(value, "address")?;
        let contract_address = text_member(value, "contract_address")?;
        let balance = text_member(value, "balance")?;
        let balance_symbol = text_member(value, "balance_symbol")?;
        let transaction_count = text_member(value, "transaction_count")?;
        let verifying = text_member(value, "verifying")?;
        let send_amount = text_member(value, "send_amount")?;
        let receive_amount = text_member(value, "receive_amount")?;
        let token_amount = text_member(value, "token_amount")?;
        let total_token_value = text_member(value, "total_token_value")?;
        let create_contract_address = text_member(value, "create_contract_address")?;
        let create_contract_transaction_hash = text_member(
            value,
            "create_contract_transaction_hash",
        )?;
        let first_transaction_time = text_member(value, "first_transaction_time")?;
        let last_transaction_time = text_member(value, "last_transaction_time")?;
        let token = text_member(value, "token")?;
        let bandwidth = text_member(value, "bandwidth")?;
        let energy = text_member(value, "energy")?;
        let voting_rights = text_member(value, "voting_rights")?;
        let unclaimed_voting_rewards = text_member(value, "unclaimed_voting_rewards")?;
        let is_aa_address = flag_member(value, "is_aa_address")?;
        Some(
            AddressData {
                chain_full_name,
                chain_short_name,
                address,
                contract_address,
                balance,
                balance_symbol,
                transaction_count,
                verifying,
                send_amount,
                receive_amount,
                token_amount,
                total_token_value,
                create_contract_address,
                create_contract_transaction_hash,
                first_transaction_time,
                last_transaction_time,
                token,
                bandwidth,
                energy,
                voting_rights,
                unclaimed_voting_rewards,
                is_aa_address,
            },
        )
    }
}

impl AddressInformation {
    /// Reads the envelope out of a parsed JSON value.
    pub fn from_value(value: &serde_json::Value) -> (envelope: Option<AddressInformation>)
        ensures
            envelope.deep_view() == envelope_of(json_value(*value)),
    {
        let code = text_member(value, "code")?;
        let msg = text_member(value, "msg")?;
        let inner = member(value, "data")?;
        let data = AddressData::from_value(inner)?;
        Some(AddressInformation { code, msg, data })
    }

    /// Decodes a response body. The body has to be a JSON document that
    /// holds the envelope; anything else is a `Decode` error.
    pub fn decode(body: &[u8]) -> (outcome: Result<AddressInformation, ClientError>)
        ensures
            viewed(outcome) == decoded(body@),
    {
        match parse_document(body) {
            Ok(value) => match AddressInformation::from_value(&value) {
                Some(record) => Ok(record),
                None => Err(ClientError::Decode(DecodeError::Shape)),
            },
            Err(_) => Err(ClientError::Decode(DecodeError::Malformed)),
        }
    }
}

/// A client of the explorer. It holds the API key, the address of the
/// server and the chain it asks about, and makes for each endpoint the
/// request that asks it.
#[derive(Clone, Debug)]
pub struct Oklink {
    api_key: String,
    base_url: String,
    chain_short_name: String,
}

impl View for Oklink {
    type V = Settings;

    closed spec fn view(&self) -> Settings {
        Settings {
            api_key: self.api_key@,
            base_url: self.base_url@,
            chain_short_name: self.chain_short_name@,
        }
    }
}

impl Oklink {
    /// Makes a client of the public server and its default chain that signs
    /// its requests with `api_key`. The key is taken as it is; whether the
    /// server accepts it shows in its answers.
    pub fn new(api_key: String) -> (client: Oklink)
        ensures
            client@ == (Settings {
                api_key: api_key@,
                base_url: BASE_URL@,
                chain_short_name: CHAIN_SHORT_NAME@,
            }),
    {
        Oklink {
            api_key,
            base_url: BASE_URL.to_owned(),
            chain_short_name: CHAIN_SHORT_NAME.to_owned(),
        }
    }

    /// Makes a client of the server at `base_url`, to which every path is
    /// appended as it is, that asks about the chain `chain_short_name`.
    pub fn for_chain(api_key: String, base_url: String, chain_short_name: String) -> (client:
        Oklink)
        ensures
            client@ == (Settings {
                api_key: api_key@,
                base_url: base_url@,
                chain_short_name: chain_short_name@,
            }),
    {
        Oklink { api_key, base_url, chain_short_name }
    }

    /// Gives the headers of every request of this client.
    fn headers(&self) -> (headers: Vec<(String, String)>)
        ensures
            headers.deep_view() == headers_for(self@.api_key),
    {
        let mut headers: Vec<(String, String)> = Vec::new();
        headers.push((CONTENT_TYPE_HEADER.to_owned(), CONTENT_TYPE.to_owned()));
        headers.push((ACCESS_KEY_HEADER.to_owned(), self.api_key.clone()));
        headers
    }

    /// Makes the request that asks `endpoint` with `values`, one for each of
    /// the endpoint's keys.
    fn compose(&self, endpoint: Endpoint, values: &Vec<Option<&str>>) -> (request: Request)
        requires
            values.len() == endpoint.spec_keys().len(),
        ensures
            request@ == request_to(self@, endpoint, values.deep_view()),
    {
        let keys = endpoint.keys();
        let mut query: Vec<(String, String)> = Vec::new();
        query.push((CHAIN_KEY.to_owned(), self.chain_short_name.clone()));
        let mut i: usize = 0;
        while i < keys.len()
            invariant
                i <= keys.len(),
                keys.len() == values.len(),
                query.deep_view() =~= seq![(CHAIN_KEY@, self@.chain_short_name)] + present(
                    keys.deep_view().take(i as int),
                    values.deep_view().take(i as int),
                ),
            decreases keys.len() - i,
        {
            let ghost before = query.deep_view();
            if let Some(value) = values[i] {
                query.push((keys[i].to_owned(), value.to_owned()));
                assert(query.deep_view() =~= before.push((keys[i as int]@, value@)));
            }
            proof {
                let keys_done = keys.deep_view().take(i + 1);
                let values_done = values.deep_view().take(i + 1);
                assert(keys_done.drop_last() =~= keys.deep_view().take(i as int));
                assert(values_done.drop_last() =~= values.deep_view().take(i as int));
            }
            i += 1;
        }
        assert(keys.deep_view().take(keys.len() as int) =~= keys.deep_view());
        assert(values.deep_view().take(values.len() as int) =~= values.deep_view());
        let url = self.base_url.clone().concat(endpoint.path());
        Request { url, headers: self.headers(), query }
    }

    /// Makes the request that asks `endpoint` about the identifiers `ids`,
    /// written as one list, with `rest` for the endpoint's other keys.
    /// Refuses a list that is longer than the endpoint takes.
    fn compose_batch(&self, endpoint: Endpoint, ids: &[&str], rest: Vec<Option<&str>>) -> (outcome:
        Result<Request, ClientError>)
        requires
            rest.len() + 1 == endpoint.spec_keys().len(),
        ensures
            match outcome {
                Ok(request) => !endpoint.refuses(ids@.len()) && request@ == request_to(
                    self@,
                    endpoint,
                    seq![Some(joined(ids.deep_view()))] + rest.deep_view(),
                ),
                Err(error) => endpoint.refuses(ids@.len()) && error@ == (
                    ClientErrorView::Validation {
                        limit: endpoint.spec_ceiling()->0 as nat,
                        given: ids@.len(),
                    }
                ),
            },
    {
        if let Some(limit) = endpoint.ceiling() {
            if ids.len() > limit {
                return Err(ClientError::Validation { limit, given: ids.len() });
            }
        }
        let list = join(ids);
        let mut values = rest;
        values.insert(0, Some(list.as_str()));
        assert(values.deep_view() =~= seq![Some(list@)] + rest.deep_view());
        Ok(self.compose(endpoint, &values))
    }

    /// Asks for the summary of `address`.
    pub fn address_info(&self, address: &str) -> (request: Request)
        ensures
            request@ == request_to(self@, Endpoint::AddressInfo, seq![Some(address@)]),
    {
        let values = vec![Some(address)];
        assert(values.deep_view() =~= seq![Some(address@)]);
        self.compose(Endpoint::AddressInfo, &values)
    }

    /// Asks for the summary of `address` on an EVM chain.
    pub fn evm_address_info(&self, address: &str) -> (request: Request)
        ensures
            request@ == request_to(self@, Endpoint::EvmAddressInfo, seq![Some(address@)]),
    {
        let values = vec![Some(address)];
        assert(values.deep_view() =~= seq![Some(address@)]);
        self.compose(Endpoint::EvmAddressInfo, &values)
    }

    /// Asks on which chains `address` is active.
    pub fn address_active_chain(&self, address: &str) -> (request: Request)
        ensures
            request@ == request_to(self@, Endpoint::AddressActiveChain, seq![Some(address@)]),
    {
        let values = vec![Some(address)];
        assert(values.deep_view() =~= seq![Some(address@)]);
        self.compose(Endpoint::AddressActiveChain, &values)
    }

    /// Asks for the token balances of `address` under one token standard,
    /// optionally for a single token contract and a page of the results.
    pub fn address_token_balance(
        &self,
        address: &str,
        protocol_type: ProtocolType,
        token_contract_address: Option<&str>,
        page: Option<&str>,
        limit: Option<&str>,
    ) -> (request: Request)
        ensures
            request@ == request_to(
                self@,
                Endpoint::AddressTokenBalance,
                seq![
                    Some(address@),
                    Some(protocol_type.wire_name()),
                    token_contract_address.deep_view(),
                    page.deep_view(),
                    limit.deep_view(),
                ],
            ),
    {
        let values = vec![
            Some(address),
            Some(protocol_type.as_str()),
            token_contract_address,
            page,
            limit,
        ];
        assert(values.deep_view() =~= seq![
            Some(address@),
            Some(protocol_type.wire_name()),
            token_contract_address.deep_view(),
            page.deep_view(),
            limit.deep_view(),
        ]);
        self.compose(Endpoint::AddressTokenBalance, &values)
    }

    /// Asks for the detailed token balances of `address` under the token
    /// standard named by `protocol_type`.
    pub fn address_balance_details(
        &self,
        address: &str,
        protocol_type: &str,
        token_contract_address: Option<&str>,
        page: Option<&str>,
        limit: Option<&str>,
    ) -> (request: Request)
        ensures
            request@ == request_to(
                self@,
                Endpoint::AddressBalanceDetails,
                seq![
                    Some(address@),
                    Some(protocol_type@),
                    token_contract_address.deep_view(),
                    page.deep_view(),
                    limit.deep_view(),
                ],
            ),
    {
        let values = vec![Some(address), Some(protocol_type), token_contract_address, page, limit];
        assert(values.deep_view() =~= seq![
            Some(address@),
            Some(protocol_type@),
            token_contract_address.deep_view(),
            page.deep_view(),
            limit.deep_view(),
        ]);
        self.compose(Endpoint::AddressBalanceDetails, &values)
    }

    /// Asks for the balance of `address` at the block `height`, of the native
    /// token or of the token of `token_contract_address`.
    pub fn address_balance_history(
        &self,
        address: &str,
        height: &str,
        token_contract_address: Option<&str>,
    ) -> (request: Request)
        ensures
            request@ == request_to(
                self@,
                Endpoint::AddressBalanceHistory,
                seq![Some(address@), Some(height@), token_contract_address.deep_view()],
            ),
    {
        let values = vec![Some(address), Some(height), token_contract_address];
        assert(values.deep_view() =~= seq![
            Some(address@),
            Some(height@),
            token_contract_address.deep_view(),
        ]);
        self.compose(Endpoint::AddressBalanceHistory, &values)
    }

    /// Asks for the transactions of `address`, with optional filters and
    /// paging.
    pub fn address_transaction_list(
        &self,
        address: &str,
        protocol_type: Option<&str>,
        symbol: Option<&str>,
        start_block_height: Option<&str>,
        end_block_height: Option<&str>,
        is_from_or_to: Option<&str>,
        page: Option<&str>,
        limit: Option<&str>,
    ) -> (request: Request)
        ensures
            request@ == request_to(
                self@,
                Endpoint::AddressTransactionList,
                seq![
                    Some(address@),
                    protocol_type.deep_view(),
                    symbol.deep_view(),
                    start_block_height.deep_view(),
                    end_block_height.deep_view(),
                    is_from_or_to.deep_view(),
                    page.deep_view(),
                    limit.deep_view(),
                ],
            ),
    {
        let values = vec![
            Some(address),
            protocol_type,
            symbol,
            start_block_height,
            end_block_height,
            is_from_or_to,
            page,
            limit,
        ];
        assert(values.deep_view() =~= seq![
            Some(address@),
            protocol_type.deep_view(),
            symbol.deep_view(),
            start_block_height.deep_view(),
            end_block_height.deep_view(),
            is_from_or_to.deep_view(),
            page.deep_view(),
            limit.deep_view(),
        ]);
        self.compose(Endpoint::AddressTransactionList, &values)
    }

    /// Asks for the normal transactions of `address`.
    pub fn address_normal_transaction_list(
        &self,
        address: &str,
        start_block_height: Option<&str>,
        end_block_height: Option<&str>,
        is_from_or_to: Option<&str>,
        page: Option<&str>,
        limit: Option<&str>,
    ) -> (request: Request)
        ensures
            request@ == request_to(
                self@,
                Endpoint::AddressNormalTransactionList,
                seq![
                    Some(address@),
                    start_block_height.deep_view(),
                    end_block_height.deep_view(),
                    is_from_or_to.deep_view(),
                    page.deep_view(),
                    limit.deep_view(),
                ],
            ),
    {
        let values = vec![
            Some(address),
            start_block_height,
            end_block_height,
            is_from_or_to,
            page,
            limit,
        ];
        assert(values.deep_view() =~= seq![
            Some(address@),
            start_block_height.deep_view(),
            end_block_height.deep_view(),
            is_from_or_to.deep_view(),
            page.deep_view(),
            limit.deep_view(),
        ]);
        self.compose(Endpoint::AddressNormalTransactionList, &values)
    }

    /// Asks for the internal transactions of `address`.
    pub fn address_internal_transaction_list(
        &self,
        address: &str,
        start_block_height: Option<&str>,
        end_block_height: Option<&str>,
        is_from_or_to: Option<&str>,
        page: Option<&str>,
        limit: Option<&str>,
    ) -> (request: Request)
        ensures
            request@ == request_to(
                self@,
                Endpoint::AddressInternalTransactionList,
                seq![
                    Some(address@),
                    start_block_height.deep_view(),
                    end_block_height.deep_view(),
                    is_from_or_to.deep_view(),
                    page.deep_view(),
                    limit.deep_view(),
                ],
            ),
    {
        let values = vec![
            Some(address),
            start_block_height,
            end_block_height,
            is_from_or_to,
            page,
            limit,
        ];
        assert(values.deep_view() =~= seq![
            Some(address@),
            start_block_height.deep_view(),
            end_block_height.deep_view(),
            is_from_or_to.deep_view(),
            page.deep_view(),
            limit.deep_view(),
        ]);
        self.compose(Endpoint::AddressInternalTransactionList, &values)
    }

    /// Asks for the token transactions of `address` under the token standard
    /// named by `protocol_type`.
    pub fn address_token_transaction_list(
        &self,
        address: &str,
        protocol_type: &str,
        token_contract_address: Option<&str>,
        page: Option<&str>,
        limit: Option<&str>,
    ) -> (request: Request)
        ensures
            request@ == request_to(
                self@,
                Endpoint::AddressTokenTransactionList,
                seq![
                    Some(address@),
                    Some(protocol_type@),
                    token_contract_address.deep_view(),
                    page.deep_view(),
                    limit.deep_view(),
                ],
            ),
    {
        let values = vec![Some(address), Some(protocol_type), token_contract_address, page, limit];
        assert(values.deep_view() =~= seq![
            Some(address@),
            Some(protocol_type@),
            token_contract_address.deep_view(),
            page.deep_view(),
            limit.deep_view(),
        ]);
        self.compose(Endpoint::AddressTokenTransactionList, &values)
    }

    /// Asks for the entity labels of `address`.
    pub fn address_entity_labels(&self, address: &str) -> (request: Request)
        ensures
            request@ == request_to(self@, Endpoint::AddressEntityLabels, seq![Some(address@)]),
    {
        let values = vec![Some(address)];
        assert(values.deep_view() =~= seq![Some(address@)]);
        self.compose(Endpoint::AddressEntityLabels, &values)
    }

    /// Asks for the balances of up to 100 addresses in one query.
    /// A list of more than 100 addresses is refused, and there is nothing to
    /// send.
    pub fn batch_address_balances(
        &self,
        addresses: &[&str],
    ) -> (outcome: Result<Request, ClientError>)
        ensures
            match outcome {
                Ok(request) => addresses@.len() <= 100 && request@ == request_to(
                    self@,
                    Endpoint::BatchAddressBalances,
                    seq![Some(joined(addresses.deep_view()))],
                ),
                Err(error) => addresses@.len() > 100 && error@ == (ClientErrorView::Validation {
                    limit: 100,
                    given: addresses@.len(),
                }),
            },
    {
        let rest: Vec<Option<&str>> = Vec::new();
        assert(seq![Some(joined(addresses.deep_view()))] + rest.deep_view() =~= seq![
            Some(joined(addresses.deep_view())),
        ]);
        self.compose_batch(Endpoint::BatchAddressBalances, addresses, rest)
    }

    /// Asks for the token balances of up to 50 addresses in one query.
    /// A list of more than 50 addresses is refused, and there is nothing to
    /// send.
    pub fn batch_address_token_balances(
        &self,
        addresses: &[&str],
        protocol_type: Option<&str>,
        page: Option<&str>,
        limit: Option<&str>,
    ) -> (outcome: Result<Request, ClientError>)
        ensures
            match outcome {
                Ok(request) => addresses@.len() <= 50 && request@ == request_to(
                    self@,
                    Endpoint::BatchAddressTokenBalances,
                    seq![
                        Some(joined(addresses.deep_view())),
                        protocol_type.deep_view(),
                        page.deep_view(),
                        limit.deep_view(),
                    ],
                ),
                Err(error) => addresses@.len() > 50 && error@ == (ClientErrorView::Validation {
                    limit: 50,
                    given: addresses@.len(),
                }),
            },
    {
        let rest = vec![protocol_type, page, limit];
        assert(seq![Some(joined(addresses.deep_view()))] + rest.deep_view() =~= seq![
            Some(joined(addresses.deep_view())),
            protocol_type.deep_view(),
            page.deep_view(),
            limit.deep_view(),
        ]);
        self.compose_batch(Endpoint::BatchAddressTokenBalances, addresses, rest)
    }

    /// Asks for the normal transactions of up to 50 addresses in one query.
    /// A list of more than 50 addresses is refused, and there is nothing to
    /// send.
    pub fn batch_address_normal_transaction_list(
        &self,
        addresses: &[&str],
        start_block_height: Option<&str>,
        end_block_height: Option<&str>,
        is_from_or_to: Option<&str>,
        page: Option<&str>,
        limit: Option<&str>,
    ) -> (outcome: Result<Request, ClientError>)
        ensures
            match outcome {
                Ok(request) => addresses@.len() <= 50 && request@ == request_to(
                    self@,
                    Endpoint::BatchAddressNormalTransactionList,
                    seq![
                        Some(joined(addresses.deep_view())),
                        start_block_height.deep_view(),
                        end_block_height.deep_view(),
                        is_from_or_to.deep_view(),
                        page.deep_view(),
                        limit.deep_view(),
                    ],
                ),
                Err(error) => addresses@.len() > 50 && error@ == (ClientErrorView::Validation {
                    limit: 50,
                    given: addresses@.len(),
                }),
            },
    {
        let rest = vec![start_block_height, end_block_height, is_from_or_to, page, limit];
        assert(seq![Some(joined(addresses.deep_view()))] + rest.deep_view() =~= seq![
            Some(joined(addresses.deep_view())),
            start_block_height.deep_view(),
            end_block_height.deep_view(),
            is_from_or_to.deep_view(),
            page.deep_view(),
            limit.deep_view(),
        ]);
        self.compose_batch(Endpoint::BatchAddressNormalTransactionList, addresses, rest)
    }

    /// Asks for the internal transactions of up to 20 addresses in one query.
    /// A list of more than 20 addresses is refused, and there is nothing to
    /// send.
    pub fn batch_address_internal_transaction_list(
        &self,
        addresses: &[&str],
        start_block_height: Option<&str>,
        end_block_height: Option<&str>,
        is_from_or_to: Option<&str>,
        page: Option<&str>,
        limit: Option<&str>,
    ) -> (outcome: Result<Request, ClientError>)
        ensures
            match outcome {
                Ok(request) => addresses@.len() <= 20 && request@ == request_to(
                    self@,
                    Endpoint::BatchAddressInternalTransactionList,
                    seq![
                        Some(joined(addresses.deep_view())),
                        start_block_height.deep_view(),
                        end_block_height.deep_view(),
                        is_from_or_to.deep_view(),
                        page.deep_view(),
                        limit.deep_view(),
                    ],
                ),
                Err(error) => addresses@.len() > 20 && error@ == (ClientErrorView::Validation {
                    limit: 20,
                    given: addresses@.len(),
                }),
            },
    {
        let rest = vec![start_block_height, end_block_height, is_from_or_to, page, limit];
        assert(seq![Some(joined(addresses.deep_view()))] + rest.deep_view() =~= seq![
            Some(joined(addresses.deep_view())),
            start_block_height.deep_view(),
            end_block_height.deep_view(),
            is_from_or_to.deep_view(),
            page.deep_view(),
            limit.deep_view(),
        ]);
        self.compose_batch(Endpoint::BatchAddressInternalTransactionList, addresses, rest)
    }

    /// Asks for the token transactions of up to 20 addresses between two
    /// block heights.
    /// A list of more than 20 addresses is refused, and there is nothing to
    /// send.
    pub fn batch_address_token_transaction_list(
        &self,
        addresses: &[&str],
        start_block_height: &str,
        end_block_height: &str,
        page: Option<&str>,
        limit: Option<&str>,
        protocol_type: Option<&str>,
        token_contract_address: Option<&str>,
        is_from_or_to: Option<&str>,
    ) -> (outcome: Result<Request, ClientError>)
        ensures
            match outcome {
                Ok(request) => addresses@.len() <= 20 && request@ == request_to(
                    self@,
                    Endpoint::BatchAddressTokenTransactionList,
                    seq![
                        Some(joined(addresses.deep_view())),
                        Some(start_block_height@),
                        Some(end_block_height@),
                        page.deep_view(),
                        limit.deep_view(),
                        protocol_type.deep_view(),
                        token_contract_address.deep_view(),
                        is_from_or_to.deep_view(),
                    ],
                ),
                Err(error) => addresses@.len() > 20 && error@ == (ClientErrorView::Validation {
                    limit: 20,
                    given: addresses@.len(),
                }),
            },
    {
        let rest = vec![
            Some(start_block_height),
            Some(end_block_height),
            page,
            limit,
            protocol_type,
            token_contract_address,
            is_from_or_to,
        ];
        assert(seq![Some(joined(addresses.deep_view()))] + rest.deep_view() =~= seq![
            Some(joined(addresses.deep_view())),
            Some(start_block_height@),
            Some(end_block_height@),
            page.deep_view(),
            limit.deep_view(),
            protocol_type.deep_view(),
            token_contract_address.deep_view(),
            is_from_or_to.deep_view(),
        ]);
        self.compose_batch(Endpoint::BatchAddressTokenTransactionList, addresses, rest)
    }

    /// Asks for the addresses with the largest balances, or for the rank of
    /// `address` among them.
    pub fn rich_list(&self, address: Option<&str>) -> (request: Request)
        ensures
            request@ == request_to(self@, Endpoint::RichList, seq![address.deep_view()]),
    {
        let values = vec![address];
        assert(values.deep_view() =~= seq![address.deep_view()]);
        self.compose(Endpoint::RichList, &values)
    }

    /// Asks for the ranking of the holders of the native token.
    pub fn native_token_ranking(
        &self,
        page: Option<&str>,
        limit: Option<&str>,
    ) -> (request: Request)
        ensures
            request@ == request_to(
                self@,
                Endpoint::NativeTokenRanking,
                seq![page.deep_view(), limit.deep_view()],
            ),
    {
        let values = vec![page, limit];
        assert(values.deep_view() =~= seq![page.deep_view(), limit.deep_view()]);
        self.compose(Endpoint::NativeTokenRanking, &values)
    }

    /// Asks for the transactions of the chain, optionally those of one block.
    pub fn transaction_list(
        &self,
        block_hash: Option<&str>,
        height: Option<&str>,
        page: Option<&str>,
        limit: Option<&str>,
    ) -> (request: Request)
        ensures
            request@ == request_to(
                self@,
                Endpoint::TransactionList,
                seq![
                    block_hash.deep_view(),
                    height.deep_view(),
                    page.deep_view(),
                    limit.deep_view(),
                ],
            ),
    {
        let values = vec![block_hash, height, page, limit];
        assert(values.deep_view() =~= seq![
            block_hash.deep_view(),
            height.deep_view(),
            page.deep_view(),
            limit.deep_view(),
        ]);
        self.compose(Endpoint::TransactionList, &values)
    }

    /// Asks for the large transactions of the chain.
    pub fn large_transaction_list(
        &self,
        transaction_type: Option<&str>,
        height: Option<&str>,
        page: Option<&str>,
        limit: Option<&str>,
    ) -> (request: Request)
        ensures
            request@ == request_to(
                self@,
                Endpoint::LargeTransactionList,
                seq![
                    transaction_type.deep_view(),
                    height.deep_view(),
                    page.deep_view(),
                    limit.deep_view(),
                ],
            ),
    {
        let values = vec![transaction_type, height, page, limit];
        assert(values.deep_view() =~= seq![
            transaction_type.deep_view(),
            height.deep_view(),
            page.deep_view(),
            limit.deep_view(),
        ]);
        self.compose(Endpoint::LargeTransactionList, &values)
    }

    /// Asks for the transactions that are not yet confirmed.
    pub fn unconfirmed_transaction_list(
        &self,
        page: Option<&str>,
        limit: Option<&str>,
    ) -> (request: Request)
        ensures
            request@ == request_to(
                self@,
                Endpoint::UnconfirmedTransactionList,
                seq![page.deep_view(), limit.deep_view()],
            ),
    {
        let values = vec![page, limit];
        assert(values.deep_view() =~= seq![page.deep_view(), limit.deep_view()]);
        self.compose(Endpoint::UnconfirmedTransactionList, &values)
    }

    /// Asks for the internal transactions of the transaction `tx_id`.
    pub fn internal_transaction_details(
        &self,
        tx_id: &str,
        page: Option<&str>,
        limit: Option<&str>,
    ) -> (request: Request)
        ensures
            request@ == request_to(
                self@,
                Endpoint::InternalTransactionDetails,
                seq![Some(tx_id@), page.deep_view(), limit.deep_view()],
            ),
    {
        let values = vec![Some(tx_id), page, limit];
        assert(values.deep_view() =~= seq![Some(tx_id@), page.deep_view(), limit.deep_view()]);
        self.compose(Endpoint::InternalTransactionDetails, &values)
    }

    /// Asks for the token transfers of the transaction `tx_id` under the token
    /// standard named by `protocol_type`.
    pub fn token_transaction_details(
        &self,
        tx_id: &str,
        protocol_type: &str,
        page: Option<&str>,
        limit: Option<&str>,
    ) -> (request: Request)
        ensures
            request@ == request_to(
                self@,
                Endpoint::TokenTransactionDetails,
                seq![Some(tx_id@), Some(protocol_type@), page.deep_view(), limit.deep_view()],
            ),
    {
        let values = vec![Some(tx_id), Some(protocol_type), page, limit];
        assert(values.deep_view() =~= seq![
            Some(tx_id@),
            Some(protocol_type@),
            page.deep_view(),
            limit.deep_view(),
        ]);
        self.compose(Endpoint::TokenTransactionDetails, &values)
    }

    /// Asks for the details of the transaction `tx_id`.
    pub fn transaction_details(&self, tx_id: &str) -> (request: Request)
        ensures
            request@ == request_to(self@, Endpoint::TransactionDetails, seq![Some(tx_id@)]),
    {
        let values = vec![Some(tx_id)];
        assert(values.deep_view() =~= seq![Some(tx_id@)]);
        self.compose(Endpoint::TransactionDetails, &values)
    }

    /// Asks for the details of up to 20 transactions in one query.
    /// A list of more than 20 transactions is refused, and there is nothing to
    /// send.
    pub fn batch_transaction_details(
        &self,
        tx_ids: &[&str],
    ) -> (outcome: Result<Request, ClientError>)
        ensures
            match outcome {
                Ok(request) => tx_ids@.len() <= 20 && request@ == request_to(
                    self@,
                    Endpoint::BatchTransactionDetails,
                    seq![Some(joined(tx_ids.deep_view()))],
                ),
                Err(error) => tx_ids@.len() > 20 && error@ == (ClientErrorView::Validation {
                    limit: 20,
                    given: tx_ids@.len(),
                }),
            },
    {
        let rest: Vec<Option<&str>> = Vec::new();
        assert(seq![Some(joined(tx_ids.deep_view()))] + rest.deep_view() =~= seq![
            Some(joined(tx_ids.deep_view())),
        ]);
        self.compose_batch(Endpoint::BatchTransactionDetails, tx_ids, rest)
    }

    /// Asks for the internal transactions of up to 20 transactions in one
    /// query.
    /// A list of more than 20 transactions is refused, and there is nothing to
    /// send.
    pub fn batch_internal_transaction_details(
        &self,
        tx_ids: &[&str],
    ) -> (outcome: Result<Request, ClientError>)
        ensures
            match outcome {
                Ok(request) => tx_ids@.len() <= 20 && request@ == request_to(
                    self@,
                    Endpoint::BatchInternalTransactionDetails,
                    seq![Some(joined(tx_ids.deep_view()))],
                ),
                Err(error) => tx_ids@.len() > 20 && error@ == (ClientErrorView::Validation {
                    limit: 20,
                    given: tx_ids@.len(),
                }),
            },
    {
        let rest: Vec<Option<&str>> = Vec::new();
        assert(seq![Some(joined(tx_ids.deep_view()))] + rest.deep_view() =~= seq![
            Some(joined(tx_ids.deep_view())),
        ]);
        self.compose_batch(Endpoint::BatchInternalTransactionDetails, tx_ids, rest)
    }

    /// Asks for the token transfers of up to 20 transactions in one query.
    /// A list of more than 20 transactions is refused, and there is nothing to
    /// send.
    pub fn batch_token_transaction_details(
        &self,
        tx_ids: &[&str],
        protocol_type: Option<&str>,
        page: Option<&str>,
        limit: Option<&str>,
    ) -> (outcome: Result<Request, ClientError>)
        ensures
            match outcome {
                Ok(request) => tx_ids@.len() <= 20 && request@ == request_to(
                    self@,
                    Endpoint::BatchTokenTransactionDetails,
                    seq![
                        Some(joined(tx_ids.deep_view())),
                        protocol_type.deep_view(),
                        page.deep_view(),
                        limit.deep_view(),
                    ],
                ),
                Err(error) => tx_ids@.len() > 20 && error@ == (ClientErrorView::Validation {
                    limit: 20,
                    given: tx_ids@.len(),
                }),
            },
    {
        let rest = vec![protocol_type, page, limit];
        assert(seq![Some(joined(tx_ids.deep_view()))] + rest.deep_view() =~= seq![
            Some(joined(tx_ids.deep_view())),
            protocol_type.deep_view(),
            page.deep_view(),
            limit.deep_view(),
        ]);
        self.compose_batch(Endpoint::BatchTokenTransactionDetails, tx_ids, rest)
    }

    /// Asks for the tokens of the chain, with optional filters and paging.
    pub fn token_list(
        &self,
        protocol_type: Option<&str>,
        token_contract_address: Option<&str>,
        start_time: Option<&str>,
        end_time: Option<&str>,
        order_by: Option<&str>,
        page: Option<&str>,
        limit: Option<&str>,
    ) -> (request: Request)
        ensures
            request@ == request_to(
                self@,
                Endpoint::TokenList,
                seq![
                    protocol_type.deep_view(),
                    token_contract_address.deep_view(),
                    start_time.deep_view(),
                    end_time.deep_view(),
                    order_by.deep_view(),
                    page.deep_view(),
                    limit.deep_view(),
                ],
            ),
    {
        let values = vec![
            protocol_type,
            token_contract_address,
            start_time,
            end_time,
            order_by,
            page,
            limit,
        ];
        assert(values.deep_view() =~= seq![
            protocol_type.deep_view(),
            token_contract_address.deep_view(),
            start_time.deep_view(),
            end_time.deep_view(),
            order_by.deep_view(),
            page.deep_view(),
            limit.deep_view(),
        ]);
        self.compose(Endpoint::TokenList, &values)
    }

    /// Asks for the holders of the token of `token_contract_address`.
    pub fn token_position_list(
        &self,
        token_contract_address: &str,
        holder_address: Option<&str>,
        page: Option<&str>,
        limit: Option<&str>,
    ) -> (request: Request)
        ensures
            request@ == request_to(
                self@,
                Endpoint::TokenPositionList,
                seq![
                    Some(token_contract_address@),
                    holder_address.deep_view(),
                    page.deep_view(),
                    limit.deep_view(),
                ],
            ),
    {
        let values = vec![Some(token_contract_address), holder_address, page, limit];
        assert(values.deep_view() =~= seq![
            Some(token_contract_address@),
            holder_address.deep_view(),
            page.deep_view(),
            limit.deep_view(),
        ]);
        self.compose(Endpoint::TokenPositionList, &values)
    }

    /// Asks for statistics on the holders of the token of
    /// `token_contract_address`.
    pub fn token_position_statistics(
        &self,
        token_contract_address: &str,
        holder_address: Option<&str>,
        page: Option<&str>,
        limit: Option<&str>,
    ) -> (request: Request)
        ensures
            request@ == request_to(
                self@,
                Endpoint::TokenPositionStatistics,
                seq![
                    Some(token_contract_address@),
                    holder_address.deep_view(),
                    page.deep_view(),
                    limit.deep_view(),
                ],
            ),
    {
        let values = vec![Some(token_contract_address), holder_address, page, limit];
        assert(values.deep_view() =~= seq![
            Some(token_contract_address@),
            holder_address.deep_view(),
            page.deep_view(),
            limit.deep_view(),
        ]);
        self.compose(Endpoint::TokenPositionStatistics, &values)
    }

    /// Asks for the transfers of the token of `token_contract_address`,
    /// optionally within a range of amounts.
    pub fn token_transfer_details(
        &self,
        token_contract_address: &str,
        max_amount: Option<&str>,
        min_amount: Option<&str>,
        page: Option<&str>,
        limit: Option<&str>,
    ) -> (request: Request)
        ensures
            request@ == request_to(
                self@,
                Endpoint::TokenTransferDetails,
                seq![
                    Some(token_contract_address@),
                    max_amount.deep_view(),
                    min_amount.deep_view(),
                    page.deep_view(),
                    limit.deep_view(),
                ],
            ),
    {
        let values = vec![Some(token_contract_address), max_amount, min_amount, page, limit];
        assert(values.deep_view() =~= seq![
            Some(token_contract_address@),
            max_amount.deep_view(),
            min_amount.deep_view(),
            page.deep_view(),
            limit.deep_view(),
        ]);
        self.compose(Endpoint::TokenTransferDetails, &values)
    }

    /// Asks for the transfers of the token of `token_contract_address`
    /// between two block heights.
    pub fn batch_token_transaction(
        &self,
        token_contract_address: &str,
        start_block_height: &str,
        end_block_height: &str,
        page: Option<&str>,
        limit: Option<&str>,
    ) -> (request: Request)
        ensures
            request@ == request_to(
                self@,
                Endpoint::BatchTokenTransaction,
                seq![
                    Some(token_contract_address@),
                    Some(start_block_height@),
                    Some(end_block_height@),
                    page.deep_view(),
                    limit.deep_view(),
                ],
            ),
    {
        let values = vec![
            Some(token_contract_address),
            Some(start_block_height),
            Some(end_block_height),
            page,
            limit,
        ];
        assert(values.deep_view() =~= seq![
            Some(token_contract_address@),
            Some(start_block_height@),
            Some(end_block_height@),
            page.deep_view(),
            limit.deep_view(),
        ]);
        self.compose(Endpoint::BatchTokenTransaction, &values)
    }

    /// Asks for the supply of the token of `token_contract_address` at the
    /// block `height`.
    pub fn token_supply_history(
        &self,
        token_contract_address: &str,
        height: &str,
    ) -> (request: Request)
        ensures
            request@ == request_to(
                self@,
                Endpoint::TokenSupplyHistory,
                seq![Some(token_contract_address@), Some(height@)],
            ),
    {
        let values = vec![Some(token_contract_address), Some(height)];
        assert(values.deep_view() =~= seq![Some(token_contract_address@), Some(height@)]);
        self.compose(Endpoint::TokenSupplyHistory, &values)
    }

    /// Asks for statistics on the transfers of the token of
    /// `token_contract_address`.
    pub fn token_transaction_statistics(
        &self,
        token_contract_address: &str,
        order_by: Option<&str>,
        page: Option<&str>,
        limit: Option<&str>,
    ) -> (request: Request)
        ensures
            request@ == request_to(
                self@,
                Endpoint::TokenTransactionStatistics,
                seq![
                    Some(token_contract_address@),
                    order_by.deep_view(),
                    page.deep_view(),
                    limit.deep_view(),
                ],
            ),
    {
        let values = vec![Some(token_contract_address), order_by, page, limit];
        assert(values.deep_view() =~= seq![
            Some(token_contract_address@),
            order_by.deep_view(),
            page.deep_view(),
            limit.deep_view(),
        ]);
        self.compose(Endpoint::TokenTransactionStatistics, &values)
    }

    /// Says what a call comes to once the exchange is over: `exchange` is
    /// the body that arrived, or the transport's account of why none did. A
    /// failure of the transport becomes a `Transport` error; a body is
    /// decoded. Either way this is the end of the call: nothing is sent
    /// again.
    pub fn conclude(exchange: Result<Vec<u8>, String>) -> (outcome: Result<
        AddressInformation,
        ClientError,
    >)
        ensures
            viewed(outcome) == concluded(
                match exchange {
                    Ok(body) => Ok(body@),
                    Err(why) => Err(why@),
                },
            ),
    {
        match exchange {
            Ok(body) => AddressInformation::decode(body.as_slice()),
            Err(why) => Err(ClientError::Transport(why)),
        }
    }
}

} // verus!

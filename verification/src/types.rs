use vstd::prelude::*;

verus! {

/// The token standard that a token-scoped query is about.
#[derive(Clone, Copy, Debug, PartialEq, Eq)]
pub enum ProtocolType {
    /// Fungible tokens.
    Token20,
    /// Non-fungible tokens.
    Token721,
    /// Multi-tokens.
    Token1155,
}

impl ProtocolType {
    /// The text that stands for this standard in a query.
    pub open spec fn wire_name(self) -> Seq<char> {
        match self {
            ProtocolType::Token20 => "token_20"@,
            ProtocolType::Token721 => "token_721"@,
            ProtocolType::Token1155 => "token_1155"@,
        }
    }

    /// Gives the standard's name as a query carries it.
    pub fn as_str(self) -> (name: &'static str)
        ensures
            name@ == self.wire_name(),
    {
        match self {
            ProtocolType::Token20 => "token_20",
            ProtocolType::Token721 => "token_721",
            ProtocolType::Token1155 => "token_1155",
        }
    }
}

} // verus!

use vstd::prelude::*;

verus! {

pub const RAW: u64 = 1;
pub const ENGLISH_DUB: u64 = 2;
pub const PORTUGUESE_DUB: u64 = 4;
pub const ENGLISH_SUB: u64 = 8;
pub const PORTUGUESE_SUB: u64 = 16;
pub const NARCO_SUB: u64 = 32;
pub const NARCO_DUB: u64 = 64;

/// Every source-type bit the vocabulary knows.
pub const ALL_SOURCE_TYPES: u64 = 0x7f;

/// A set of source kinds, one bit per kind; no bit outside
/// `ALL_SOURCE_TYPES` is ever set.
#[derive(PartialEq, Eq, Structural, Clone, Copy, Debug)]
pub struct SourceType(u64);

pub open spec fn source_type_name(bits: u64) -> Seq<char> {
    if bits == RAW {
        "Raw"@
    } else if bits == ENGLISH_DUB {
        "Dublagem em Inglês"@
    } else if bits == PORTUGUESE_DUB {
        "Dublagem em Português"@
    } else if bits == ENGLISH_SUB {
        "Legendas em Inglês"@
    } else if bits == PORTUGUESE_SUB {
        "Legendas em Português"@
    } else if bits == NARCO_SUB {
        "Legendas em Espanhol"@
    } else if bits == NARCO_DUB {
        "Dublagem em Espanhol"@
    } else {
        "Unknown"@
    }
}

impl SourceType {
    pub closed spec fn spec_bits(self) -> u64 {
        self.0
    }

    pub closed spec fn wf(self) -> bool {
        self.0 & !ALL_SOURCE_TYPES == 0
    }

    /// Decodes a bit set; any bit outside the vocabulary fails the decode.
    pub fn from_bits(bits: u64) -> (r: Option<SourceType>)
        ensures
            r is Some <==> bits & !ALL_SOURCE_TYPES == 0,
            r matches Some(t) ==> t.spec_bits() == bits && t.wf(),
    {
        if bits & !ALL_SOURCE_TYPES == 0 {
            Some(SourceType(bits))
        } else {
            None
        }
    }

    pub fn bits(&self) -> (r: u64)
        ensures
            r == self.spec_bits(),
    {
        self.0
    }

    /// The display name of a single source kind; any other set reads as unknown.
    pub fn to_string(&self) -> (r: String)
        ensures
            r@ == source_type_name(self.spec_bits()),
    {
        let b = self.0;
        let name = if b == RAW {
            "Raw"
        } else if b == ENGLISH_DUB {
            "Dublagem em Inglês"
        } else if b == PORTUGUESE_DUB {
            "Dublagem em Português"
        } else if b == ENGLISH_SUB {
            "Legendas em Inglês"
        } else if b == PORTUGUESE_SUB {
            "Legendas em Português"
        } else if b == NARCO_SUB {
            "Legendas em Espanhol"
        } else if b == NARCO_DUB {
            "Dublagem em Espanhol"
        } else {
            "Unknown"
        };
        String::from_str(name)
    }
}

/// Setting any bit above the vocabulary makes a source-type set undecodable.
pub proof fn lemma_source_type_unknown_bit_rejected(bits: u64, k: u64)
    requires
        7 <= k < 64,
    ensures
        (bits | (1u64 << k)) & !ALL_SOURCE_TYPES != 0,
{
    assert((bits | (1u64 << k)) & !0x7fu64 != 0) by (bit_vector)
        requires
            7 <= k < 64,
    ;
}

} // verus!

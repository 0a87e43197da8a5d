use vstd::prelude::*;

verus! {

/// An on-chain identity: a 32-byte account address.
#[derive(Debug, Clone, Copy)]
pub struct AccountId {
    pub bytes: [u8; 32],
}

impl View for AccountId {
    type V = Seq<u8>;

    open spec fn view(&self) -> Seq<u8> {
        self.bytes@
    }
}

impl AccountId {
    pub fn from_bytes(bytes: [u8; 32]) -> (r: AccountId)
        ensures
            r@ == bytes@,
    {
        AccountId { bytes }
    }

    /// Whether two identities are the same address.
    pub fn same_as(&self, other: &AccountId) -> (r: bool)
        ensures
            r == (self@ == other@),
    {
        let mut i: usize = 0;
        while i < 32
            invariant
                0 <= i <= 32,
                forall|j: int| 0 <= j < i ==> self@[j] == other@[j],
            decreases 32 - i,
        {
            if self.bytes[i] != other.bytes[i] {
                return false;
            }
            i = i + 1;
        }
        assert(self@ =~= other@);
        true
    }
}

impl PartialEq for AccountId {
    fn eq(&self, other: &AccountId) -> (r: bool) {
        self.same_as(other)
    }
}

impl vstd::std_specs::cmp::PartialEqSpecImpl for AccountId {
    open spec fn obeys_eq_spec() -> bool {
        true
    }

    open spec fn eq_spec(&self, other: &AccountId) -> bool {
        self@ == other@
    }
}

impl Eq for AccountId {
}

/// The view of a [`TokenId`]: the same variants, with bytes as a sequence.
pub enum TokenIdView {
    U8(u8),
    U16(u16),
    U32(u32),
    U64(u64),
    U128(u128),
    Bytes(Seq<u8>),
}

/// The identifier of one asset within a non-fungible asset registry.
#[derive(Debug, PartialEq, Eq)]
pub enum TokenId {
    U8(u8),
    U16(u16),
    U32(u32),
    U64(u64),
    U128(u128),
    Bytes(Vec<u8>),
}

impl View for TokenId {
    type V = TokenIdView;

    open spec fn view(&self) -> TokenIdView {
        match self {
            TokenId::U8(v) => TokenIdView::U8(*v),
            TokenId::U16(v) => TokenIdView::U16(*v),
            TokenId::U32(v) => TokenIdView::U32(*v),
            TokenId::U64(v) => TokenIdView::U64(*v),
            TokenId::U128(v) => TokenIdView::U128(*v),
            TokenId::Bytes(b) => TokenIdView::Bytes(b@),
        }
    }
}

impl Clone for TokenId {
    fn clone(&self) -> (r: TokenId)
        ensures
            r@ == self@,
    {
        match self {
            TokenId::U8(v) => TokenId::U8(*v),
            TokenId::U16(v) => TokenId::U16(*v),
            TokenId::U32(v) => TokenId::U32(*v),
            TokenId::U64(v) => TokenId::U64(*v),
            TokenId::U128(v) => TokenId::U128(*v),
            TokenId::Bytes(b) => {
                let c = b.clone();
                assert(c@ =~= b@);
                TokenId::Bytes(c)
            },
        }
    }
}

} // verus!

use vstd::prelude::*;

verus! {

/// A 32-byte account address.
#[derive(Clone, Copy, Debug)]
pub struct Pubkey {
    pub bytes: [u8; 32],
}

impl View for Pubkey {
    type V = Seq<u8>;

    open spec fn view(&self) -> Seq<u8> {
        self.bytes@
    }
}

impl Pubkey {
    pub fn new_from_array(bytes: [u8; 32]) -> (r: Pubkey)
        ensures
            r.bytes == bytes,
    {
        Pubkey { bytes }
    }

    /// The all-zero address.
    pub fn zeroed() -> (r: Pubkey)
        ensures
            r@ == Seq::new(32, |i: int| 0u8),
    {
        let r = Pubkey { bytes: [0u8; 32] };
        assert(r@ =~= Seq::new(32, |i: int| 0u8));
        r
    }

    pub fn to_bytes(&self) -> (r: [u8; 32])
        ensures
            r == self.bytes,
    {
        self.bytes
    }

    /// Byte-wise equality of two addresses.
    pub fn same_as(&self, other: &Pubkey) -> (r: bool)
        ensures
            r == (self@ == other@),
    {
        let mut i: usize = 0;
        while i < 32
            invariant
                0 <= i <= 32,
                self@.len() == 32,
                other@.len() == 32,
                forall|j: int| 0 <= j < i ==> self@[j] == other@[j],
            decreases 32 - i,
        {
            if self.bytes[i] != other.bytes[i] {
                assert(self@[i as int] != other@[i as int]);
                return false;
            }
            i = i + 1;
        }
        assert(self@ =~= other@);
        true
    }
}

impl PartialEq for Pubkey {
    fn eq(&self, other: &Pubkey) -> (r: bool) {
        self.same_as(other)
    }
}

impl vstd::std_specs::cmp::PartialEqSpecImpl for Pubkey {
    open spec fn obeys_eq_spec() -> bool {
        true
    }

    open spec fn eq_spec(&self, other: &Pubkey) -> bool {
        self@ == other@
    }
}

impl Eq for Pubkey {

}

/// The address of the associated token account of `wallet` for `mint`, as
/// the associated-token-account program derives it.
pub uninterp spec fn associated_token_address(wallet: Seq<u8>, mint: Seq<u8>) -> Seq<u8>;

/// Relies on anchor_spl::associated_token::get_associated_token_address, a
/// deterministic derivation from the two addresses (it searches bump seeds
/// and panics only if none of the 256 yields an off-curve address).
#[verifier::external_body]
pub(crate) fn derive_associated_token_address(wallet: &Pubkey, mint: &Pubkey) -> (r: Pubkey)
    ensures
        r@ == associated_token_address(wallet@, mint@),
{
    let address = anchor_spl::associated_token::get_associated_token_address(
        &wallet.bytes.into(),
        &mint.bytes.into(),
    );
    Pubkey { bytes: address.to_bytes() }
}

} // verus!

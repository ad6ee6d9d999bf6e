//! The identity under which the program is deployed.

use vstd::prelude::*;

verus! {

/// The program's identifier. In base58 it reads
/// `8P8E86Du9K1uo5CSeU1MkmRbEqDKvfWtwWdGijRZAuzf`.
pub const ID: [u8; 32] = [
    109, 172, 193, 204, 116, 241, 208, 37, 6, 84, 98, 4, 160, 46, 195, 87,
    217, 161, 108, 39, 220, 75, 117, 97, 204, 160, 39, 124, 188, 197, 172, 200,
];

/// Returns the program's identifier.
pub fn id() -> (own: [u8; 32])
    ensures
        own@ == ID@,
{
    ID
}

/// Tells whether `id` is the program's identifier.
pub fn check_id(id: &[u8; 32]) -> (same: bool)
    ensures
        same == (id@ == ID@),
{
    let mut i: usize = 0;
    while i < 32
        invariant
            i <= 32,
            forall|k: int| 0 <= k < i ==> id@[k] == ID@[k],
        decreases 32 - i,
    {
        if id[i] != ID[i] {
            return false;
        }
        i += 1;
    }
    assert(id@ =~= ID@);
    true
}

/// The text under which `anchor_lang`'s `Pubkey` shows the 32 bytes `bytes`
/// when it is formatted with `{:?}`: their base58 form. It depends on the
/// bytes alone. Nothing more is stated of it here.
pub uninterp spec fn pubkey_text(bytes: Seq<u8>) -> Seq<char>;

/// Trusted: makes an `anchor_lang::prelude::Pubkey` of `bytes` with
/// `Pubkey::new_from_array` and formats it with `{:?}`. The contract claims
/// only that the outcome is the text named `pubkey_text` of these bytes,
/// that is, that the formatting is a function of the bytes. It is not proved.
#[verifier::external_body]
pub(crate) fn pubkey_to_text(bytes: &[u8; 32]) -> (text: String)
    ensures
        text@ == pubkey_text(bytes@),
{
    format!("{:?}", anchor_lang::prelude::Pubkey::new_from_array(*bytes))
}

} // verus!

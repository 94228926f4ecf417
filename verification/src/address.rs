//! Where records are stored: each record's address is derived from a tag
//! that names the kind of record and from the record's key.

use vstd::prelude::*;
use crate::draw::{le_bytes, push_le_bytes};
use crate::identity::Pubkey;

verus! {

/// The address derived from `seeds` for the program `program_id`, and the
/// seed byte that was found for it; `None` where no seed byte yields an
/// address.
pub uninterp spec fn program_address(seeds: Seq<Seq<u8>>, program_id: Seq<u8>) -> Option<
    (Seq<u8>, u8),
>;

/// The tag of card templates: the bytes of `card_template`.
pub open spec fn card_template_tag() -> Seq<u8> {
    seq![99u8, 97u8, 114u8, 100u8, 95u8, 116u8, 101u8, 109u8, 112u8, 108u8, 97u8, 116u8, 101u8]
}

/// The seeds of a card template's address: the tag, and the card type's id as
/// 4 little-endian bytes.
pub open spec fn card_template_seeds(card_type_id: u32) -> Seq<Seq<u8>> {
    seq![card_template_tag(), le_bytes(card_type_id as nat, 4)]
}

/// The address of the template of a card type, with its seed byte.
pub open spec fn card_template_address(card_type_id: u32, program_id: Pubkey) -> Option<
    (Seq<u8>, u8),
> {
    program_address(card_template_seeds(card_type_id), program_id@)
}

/// Derives the address for the two seeds `tag` and `key` with
/// `Pubkey::try_find_program_address` of `anchor_lang`. The contract names
/// what that function returns for these seeds and this program: the address
/// with its seed byte, or nothing.
#[verifier::external_body]
fn find_program_address(tag: &Vec<u8>, key: &Vec<u8>, program_id: &Pubkey) -> (r: Option<
    (Pubkey, u8),
>)
    ensures
        match r {
            Some((address, bump)) => program_address(seq![tag@, key@], program_id@) == Some(
                (address@, bump),
            ),
            None => program_address(seq![tag@, key@], program_id@) is None,
        },
{
    let id = anchor_lang::prelude::Pubkey::new_from_array(program_id.bytes);
    let seeds = [tag.as_slice(), key.as_slice()];
    match anchor_lang::prelude::Pubkey::try_find_program_address(&seeds, &id) {
        Some((address, bump)) => Some((Pubkey { bytes: address.to_bytes() }, bump)),
        None => None,
    }
}

/// The two seeds of a card template's address.
fn template_seeds(card_type_id: u32) -> (seeds: (Vec<u8>, Vec<u8>))
    ensures
        seq![seeds.0@, seeds.1@] == card_template_seeds(card_type_id),
{
    let tag: Vec<u8> = vec![99u8, 97u8, 114u8, 100u8, 95u8, 116u8, 101u8, 109u8, 112u8, 108u8, 97u8, 116u8, 101u8];
    let mut key: Vec<u8> = Vec::new();
    push_le_bytes(&mut key, card_type_id as u64, 4);
    (tag, key)
}

/// The address of the template of a card type, with its seed byte.
pub fn get_card_template_pda(card_type_id: u32, program_id: &Pubkey) -> (r: (Pubkey, u8))
    requires
        card_template_address(card_type_id, *program_id) is Some,
    ensures
        card_template_address(card_type_id, *program_id) == Some((r.0@, r.1)),
{
    let (tag, key) = template_seeds(card_type_id);
    match find_program_address(&tag, &key, program_id) {
        Some(found) => found,
        None => vstd::pervasive::unreached(),
    }
}

/// The address of the template of a card type, with its seed byte, if there
/// is such an address.
pub fn try_get_card_template_pda(card_type_id: u32, program_id: &Pubkey) -> (r: Option<
    (Pubkey, u8),
>)
    ensures
        match r {
            Some((address, bump)) => card_template_address(card_type_id, *program_id) == Some(
                (address@, bump),
            ),
            None => card_template_address(card_type_id, *program_id) is None,
        },
{
    let (tag, key) = template_seeds(card_type_id);
    match find_program_address(&tag, &key, program_id) {
        Some(_) => Some(get_card_template_pda(card_type_id, program_id)),
        None => None,
    }
}

} // verus!

//! The marketplace escrow: a card is listed, and then either withdrawn by its
//! seller or bought for currency.
//!
//! A listing exists exactly while it is active. Listing a card moves it into
//! escrow; cancelling or buying closes the listing and releases the card.

use vstd::prelude::*;
use crate::clock::Clock;
use crate::error::GameError;
use crate::identity::Pubkey;
use crate::player::PlayerProfile;

verus! {

/// Parts per thousand of the price that a sale burns.
pub const FEE_PER_MILLE: u64 = 25;

/// Bytes reserved for a stored card.
pub const CARD_INSTANCE_LEN: usize = 8 + 32 + 4 + 2 + 2 + 32 + 1;

/// Bytes reserved for a stored listing.
pub const LISTING_LEN: usize = 8 + 32 + 32 + 8 + 1 + 8 + 1;

/// A drawn card: its type and the stats rolled for it, keyed by its token.
#[derive(Clone, Copy, Debug, PartialEq, Eq)]
pub struct CardInstance {
    pub mint: Pubkey,
    pub card_type_id: u32,
    pub attack: u16,
    pub health: u16,
    pub owner: Pubkey,
    pub bump: u8,
}

/// An offer to sell one card, keyed by the card's token.
#[derive(Clone, Copy, Debug, PartialEq, Eq)]
pub struct Listing {
    pub seller: Pubkey,
    pub card_mint: Pubkey,
    pub price: u64,
    pub is_active: bool,
    pub created_at: i64,
    pub bump: u8,
}

/// Who holds a card's token.
#[derive(Clone, Copy, Debug, PartialEq, Eq)]
pub enum CardLocation {
    /// The token is in the hands of this identity.
    WithOwner(Pubkey),
    /// The token is held for the listing of this card.
    InEscrow(Pubkey),
}

impl CardLocation {
    /// Whether the token is in the hands of `owner`.
    pub fn is_with_owner(&self, owner: &Pubkey) -> (r: bool)
        ensures
            r == (*self == CardLocation::WithOwner(*owner)),
    {
        match self {
            CardLocation::WithOwner(holder) => *holder == *owner,
            CardLocation::InEscrow(_) => false,
        }
    }

    /// Whether the token is held for the listing of `card_mint`.
    pub fn is_in_escrow(&self, card_mint: &Pubkey) -> (r: bool)
        ensures
            r == (*self == CardLocation::InEscrow(*card_mint)),
    {
        match self {
            CardLocation::WithOwner(_) => false,
            CardLocation::InEscrow(listed) => *listed == *card_mint,
        }
    }
}

/// The records that listing a card works on.
#[derive(Clone, Copy, Debug, PartialEq, Eq)]
pub struct ListCard {
    /// The listing stored under the card, if there is one.
    pub listing: Option<Listing>,
    pub card_mint: Pubkey,
    /// Who holds the card's token.
    pub card_location: CardLocation,
    /// The caller.
    pub seller: Pubkey,
    /// Address seed of the listing to be created.
    pub listing_bump: u8,
}

/// The records that cancelling a listing works on.
#[derive(Clone, Copy, Debug, PartialEq, Eq)]
pub struct CancelListing {
    /// The listing to cancel, if it is still there.
    pub listing: Option<Listing>,
    /// Who holds the listed card's token.
    pub card_location: CardLocation,
    /// The caller.
    pub seller: Pubkey,
}

/// The records that buying a listed card works on.
#[derive(Clone, Debug, PartialEq, Eq)]
pub struct BuyCard {
    /// The listing to buy from, if it is still there.
    pub listing: Option<Listing>,
    pub buyer_profile: PlayerProfile,
    pub seller_profile: PlayerProfile,
    pub card_instance: CardInstance,
    /// Who holds the listed card's token.
    pub card_location: CardLocation,
    /// The caller.
    pub buyer: Pubkey,
}

/// What a completed sale moved.
#[derive(Clone, Copy, Debug, PartialEq, Eq)]
pub struct SaleReceipt {
    pub card_mint: Pubkey,
    /// The seller, who is also refunded what the escrow cost to store.
    pub seller: Pubkey,
    pub buyer: Pubkey,
    pub price: u64,
    /// The part of the price that is burned.
    pub fee: u64,
    /// The part of the price that the seller is credited.
    pub seller_amount: u64,
}

/// The part of `price` that a sale burns: 2.5 %, rounded down.
pub open spec fn sale_fee(price: u64) -> int {
    price * FEE_PER_MILLE / 1000
}

/// Why listing is refused, or `None` where it goes through.
pub open spec fn list_card_rejection(ctx: ListCard, price: u64) -> Option<GameError> {
    if ctx.listing is Some {
        Some(GameError::RecordAlreadyExists)
    } else if ctx.card_location != CardLocation::WithOwner(ctx.seller) {
        Some(GameError::Unauthorized)
    } else if price == 0 {
        Some(GameError::InvalidPrice)
    } else {
        None
    }
}

/// The records after a listing that went through.
pub open spec fn list_card_effect(ctx: ListCard, clock: Clock, price: u64) -> ListCard {
    ListCard {
        listing: Some(
            Listing {
                seller: ctx.seller,
                card_mint: ctx.card_mint,
                price,
                is_active: true,
                created_at: clock.unix_timestamp,
                bump: ctx.listing_bump,
            },
        ),
        card_location: CardLocation::InEscrow(ctx.card_mint),
        ..ctx
    }
}

/// Lists the seller's card at `price` and moves it into escrow.
///
/// Refused with `RecordAlreadyExists` while the card has a listing, with
/// `Unauthorized` unless the seller holds the card, and with `InvalidPrice`
/// for a price of zero, in this order.
pub fn list_card(ctx: &mut ListCard, clock: &Clock, price: u64) -> (r: Result<(), GameError>)
    ensures
        match list_card_rejection(*old(ctx), price) {
            Some(e) => r == Err::<(), GameError>(e) && *final(ctx) == *old(ctx),
            None => r == Ok::<(), GameError>(()) && *final(ctx) == list_card_effect(
                *old(ctx),
                *clock,
                price,
            ),
        },
{
    if ctx.listing.is_some() {
        return Err(GameError::RecordAlreadyExists);
    }
    if !ctx.card_location.is_with_owner(&ctx.seller) {
        return Err(GameError::Unauthorized);
    }
    if price == 0 {
        return Err(GameError::InvalidPrice);
    }
    ctx.listing = Some(
        Listing {
            seller: ctx.seller,
            card_mint: ctx.card_mint,
            price,
            is_active: true,
            created_at: clock.unix_timestamp,
            bump: ctx.listing_bump,
        },
    );
    ctx.card_location = CardLocation::InEscrow(ctx.card_mint);
    Ok(())
}

/// Why cancelling is refused, or `None` where it goes through.
pub open spec fn cancel_listing_rejection(ctx: CancelListing) -> Option<GameError> {
    match ctx.listing {
        None => Some(GameError::ListingNotActive),
        Some(listing) => if listing.seller != ctx.seller {
            Some(GameError::Unauthorized)
        } else if !listing.is_active {
            Some(GameError::ListingNotActive)
        } else if ctx.card_location != CardLocation::InEscrow(listing.card_mint) {
            Some(GameError::Unauthorized)
        } else {
            None
        },
    }
}

/// The records after a cancellation that went through.
pub open spec fn cancel_listing_effect(ctx: CancelListing) -> CancelListing {
    CancelListing { listing: None, card_location: CardLocation::WithOwner(ctx.seller), ..ctx }
}

/// Withdraws a listing: the card leaves escrow for its seller and the listing
/// is closed.
///
/// Refused with `ListingNotActive` where there is no listing, with
/// `Unauthorized` for a caller who is not the recorded seller, with
/// `ListingNotActive` for a listing that is not active, and with
/// `Unauthorized` unless the card is in the listing's escrow, in this order.
pub fn cancel_listing(ctx: &mut CancelListing) -> (r: Result<(), GameError>)
    ensures
        match cancel_listing_rejection(*old(ctx)) {
            Some(e) => r == Err::<(), GameError>(e) && *final(ctx) == *old(ctx),
            None => r == Ok::<(), GameError>(()) && *final(ctx) == cancel_listing_effect(
                *old(ctx),
            ),
        },
{
    let listing = match ctx.listing {
        Some(listing) => listing,
        None => {
            return Err(GameError::ListingNotActive);
        },
    };
    if listing.seller != ctx.seller {
        return Err(GameError::Unauthorized);
    }
    if !listing.is_active {
        return Err(GameError::ListingNotActive);
    }
    if !ctx.card_location.is_in_escrow(&listing.card_mint) {
        return Err(GameError::Unauthorized);
    }
    ctx.card_location = CardLocation::WithOwner(ctx.seller);
    ctx.listing = None;
    Ok(())
}

/// Why buying is refused, or `None` where it goes through.
pub open spec fn buy_card_rejection(ctx: BuyCard) -> Option<GameError> {
    match ctx.listing {
        None => Some(GameError::ListingNotActive),
        Some(listing) => if !listing.is_active {
            Some(GameError::ListingNotActive)
        } else if ctx.buyer_profile.wallet != ctx.buyer || ctx.seller_profile.wallet
            != listing.seller || ctx.card_instance.mint != listing.card_mint || ctx.card_location
            != CardLocation::InEscrow(listing.card_mint) {
            Some(GameError::Unauthorized)
        } else if ctx.buyer == listing.seller {
            Some(GameError::CannotBuyOwnCard)
        } else if ctx.buyer_profile.bug_balance < listing.price {
            Some(GameError::InsufficientBalance)
        } else if listing.price * FEE_PER_MILLE > u64::MAX || ctx.seller_profile.bug_balance
            + listing.price - sale_fee(listing.price) > u64::MAX {
            Some(GameError::NumericalOverflow)
        } else {
            None
        },
    }
}

/// The records after a purchase that went through.
pub open spec fn buy_card_effect(ctx: BuyCard) -> BuyCard {
    let listing = ctx.listing->0;
    BuyCard {
        listing: None,
        buyer_profile: PlayerProfile {
            bug_balance: (ctx.buyer_profile.bug_balance - listing.price) as u64,
            ..ctx.buyer_profile
        },
        seller_profile: PlayerProfile {
            bug_balance: (ctx.seller_profile.bug_balance + listing.price - sale_fee(
                listing.price,
            )) as u64,
            ..ctx.seller_profile
        },
        card_instance: CardInstance { owner: ctx.buyer, ..ctx.card_instance },
        card_location: CardLocation::WithOwner(ctx.buyer),
        buyer: ctx.buyer,
    }
}

/// What a purchase that went through moved.
pub open spec fn buy_card_receipt(ctx: BuyCard) -> SaleReceipt {
    let listing = ctx.listing->0;
    SaleReceipt {
        card_mint: listing.card_mint,
        seller: listing.seller,
        buyer: ctx.buyer,
        price: listing.price,
        fee: sale_fee(listing.price) as u64,
        seller_amount: (listing.price - sale_fee(listing.price)) as u64,
    }
}

/// Buys a listed card: the buyer pays the price, the seller is credited the
/// price less the burned fee, the card leaves escrow for the buyer, who
/// becomes its owner, and the listing is closed.
///
/// Refused with `ListingNotActive` where there is no active listing; with
/// `Unauthorized` unless the profiles are the buyer's and the seller's and the
/// card is the listed one, held in the listing's escrow; with
/// `CannotBuyOwnCard` for the seller; with `InsufficientBalance` where the
/// buyer has less than the price; and with `NumericalOverflow` where the fee
/// or the seller's new balance cannot be represented, in this order.
pub fn buy_card(ctx: &mut BuyCard) -> (r: Result<SaleReceipt, GameError>)
    ensures
        match buy_card_rejection(*old(ctx)) {
            Some(e) => r == Err::<SaleReceipt, GameError>(e) && *final(ctx) == *old(ctx),
            None => r == Ok::<SaleReceipt, GameError>(buy_card_receipt(*old(ctx))) && *final(ctx)
                == buy_card_effect(*old(ctx)),
        },
{
    let listing = match ctx.listing {
        Some(listing) => listing,
        None => {
            return Err(GameError::ListingNotActive);
        },
    };
    if !listing.is_active {
        return Err(GameError::ListingNotActive);
    }
    if ctx.buyer_profile.wallet != ctx.buyer || ctx.seller_profile.wallet != listing.seller
        || ctx.card_instance.mint != listing.card_mint || !ctx.card_location.is_in_escrow(
        &listing.card_mint,
    ) {
        return Err(GameError::Unauthorized);
    }
    if ctx.buyer == listing.seller {
        return Err(GameError::CannotBuyOwnCard);
    }
    let price = listing.price;
    if ctx.buyer_profile.bug_balance < price {
        return Err(GameError::InsufficientBalance);
    }
    let fee = match price.checked_mul(FEE_PER_MILLE) {
        Some(scaled) => scaled / 1000,
        None => {
            return Err(GameError::NumericalOverflow);
        },
    };
    let seller_amount = price - fee;
    let seller_balance = match ctx.seller_profile.bug_balance.checked_add(seller_amount) {
        Some(balance) => balance,
        None => {
            return Err(GameError::NumericalOverflow);
        },
    };
    ctx.buyer_profile.bug_balance = ctx.buyer_profile.bug_balance - price;
    ctx.seller_profile.bug_balance = seller_balance;
    ctx.card_instance.owner = ctx.buyer;
    ctx.card_location = CardLocation::WithOwner(ctx.buyer);
    ctx.listing = None;
    Ok(
        SaleReceipt {
            card_mint: listing.card_mint,
            seller: listing.seller,
            buyer: ctx.buyer,
            price,
            fee,
            seller_amount,
        },
    )
}

/// The records that a cancellation finds after a listing.
pub open spec fn cancel_after_listing(listed: ListCard) -> CancelListing {
    CancelListing {
        listing: listed.listing,
        card_location: listed.card_location,
        seller: listed.seller,
    }
}

/// The records that a purchase by `buyer` finds after a listing.
pub open spec fn buy_after_listing(
    listed: ListCard,
    buyer: Pubkey,
    buyer_profile: PlayerProfile,
    seller_profile: PlayerProfile,
    card_instance: CardInstance,
) -> BuyCard {
    BuyCard {
        listing: listed.listing,
        buyer_profile,
        seller_profile,
        card_instance,
        card_location: listed.card_location,
        buyer,
    }
}

/// Listing a card and then cancelling the listing undoes the listing: the
/// seller may cancel, the card is back with the seller, which is where it
/// was, and no listing is left. Neither step is handed a player's ledger, so
/// no balance can change.
pub proof fn lemma_list_then_cancel(ctx: ListCard, clock: Clock, price: u64)
    requires
        list_card_rejection(ctx, price) is None,
    ensures
        ({
            let listed = list_card_effect(ctx, clock, price);
            let cancelled = cancel_listing_effect(cancel_after_listing(listed));
            &&& listed.card_location == CardLocation::InEscrow(ctx.card_mint)
            &&& cancel_listing_rejection(cancel_after_listing(listed)) is None
            &&& cancelled.card_location == CardLocation::WithOwner(ctx.seller)
            &&& cancelled.card_location == ctx.card_location
            &&& cancelled.listing == ctx.listing
            &&& cancelled.listing is None
        }),
{
}

/// Only the seller can cancel a listing: any other caller is refused as
/// unauthorized, and the card stays in escrow.
pub proof fn lemma_cancel_by_stranger(ctx: ListCard, clock: Clock, price: u64, caller: Pubkey)
    requires
        list_card_rejection(ctx, price) is None,
        caller != ctx.seller,
    ensures
        ({
            let listed = list_card_effect(ctx, clock, price);
            cancel_listing_rejection(CancelListing { seller: caller, ..cancel_after_listing(listed) })
                == Some(GameError::Unauthorized)
        }),
{
}

/// Listing a card at a price and then buying it: the buyer pays the price,
/// the seller receives the price less the fee of 2.5 %, rounded down, the
/// buyer owns and holds the card, and no listing is left.
pub proof fn lemma_list_then_buy(
    ctx: ListCard,
    clock: Clock,
    price: u64,
    buyer: Pubkey,
    buyer_profile: PlayerProfile,
    seller_profile: PlayerProfile,
    card_instance: CardInstance,
)
    requires
        list_card_rejection(ctx, price) is None,
        buy_card_rejection(
            buy_after_listing(
                list_card_effect(ctx, clock, price),
                buyer,
                buyer_profile,
                seller_profile,
                card_instance,
            ),
        ) is None,
    ensures
        ({
            let bought = buy_card_effect(
                buy_after_listing(
                    list_card_effect(ctx, clock, price),
                    buyer,
                    buyer_profile,
                    seller_profile,
                    card_instance,
                ),
            );
            &&& bought.buyer_profile.bug_balance == buyer_profile.bug_balance - price
            &&& bought.seller_profile.bug_balance == seller_profile.bug_balance + price - price
                * 25 / 1000
            &&& bought.card_instance.owner == buyer
            &&& bought.card_location == CardLocation::WithOwner(buyer)
            &&& bought.listing is None
        }),
{
}

/// When a purchase after a listing goes through: exactly when the profiles
/// are the buyer's and the seller's, the card is the listed one, the buyer is
/// not the seller and can pay the price, and fee and credit can be
/// represented.
pub proof fn lemma_buy_after_listing_goes_through(
    ctx: ListCard,
    clock: Clock,
    price: u64,
    buyer: Pubkey,
    buyer_profile: PlayerProfile,
    seller_profile: PlayerProfile,
    card_instance: CardInstance,
)
    requires
        list_card_rejection(ctx, price) is None,
    ensures
        buy_card_rejection(
            buy_after_listing(
                list_card_effect(ctx, clock, price),
                buyer,
                buyer_profile,
                seller_profile,
                card_instance,
            ),
        ) is None <==> {
            &&& buyer_profile.wallet == buyer
            &&& seller_profile.wallet == ctx.seller
            &&& card_instance.mint == ctx.card_mint
            &&& buyer != ctx.seller
            &&& buyer_profile.bug_balance >= price
            &&& price * 25 <= u64::MAX
            &&& seller_profile.bug_balance + price - price * 25 / 1000 <= u64::MAX
        },
{
}

/// A sale creates no currency: what the buyer pays is what the seller
/// receives plus the fee, and the fee is at most a fortieth of the price.
pub proof fn lemma_sale_conserves(ctx: BuyCard)
    requires
        buy_card_rejection(ctx) is None,
    ensures
        ({
            let receipt = buy_card_receipt(ctx);
            let after = buy_card_effect(ctx);
            &&& receipt.fee + receipt.seller_amount == receipt.price
            &&& receipt.fee * 40 <= receipt.price
            &&& ctx.buyer_profile.bug_balance - after.buyer_profile.bug_balance == receipt.price
            &&& after.seller_profile.bug_balance - ctx.seller_profile.bug_balance
                == receipt.seller_amount
        }),
{
}

} // verus!

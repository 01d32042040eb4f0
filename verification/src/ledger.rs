//! The three operations of the ledger: create a record, transfer points
//! between two records, remove a record.
//!
//! Each operation takes the records it works on inside a context, together
//! with the identity that signed the request. It either applies in full and
//! reports an event, or is refused with an error and leaves the context as
//! it was. Finding the records, storing them again and proving who signed
//! is the caller's work.

use crate::error::MyError;
use crate::event::Event;
use crate::identity::Identity;
use crate::user::{name_len, User, MAX_NAME_LENGTH, STARTING_POINTS};
use vstd::prelude::*;

verus! {

/// A storage slot: its address and the record it holds.
#[derive(Clone, Debug, PartialEq, Eq)]
pub struct Slot {
    /// Where the record is stored. Two slots with one address are one record.
    pub address: Identity,
    /// The record, `User::default()` where the slot is vacant.
    pub record: User,
}

impl Slot {
    /// This slot with another balance in its record.
    pub open spec fn with_points(self, points: u16) -> Slot {
        Slot { record: self.record.with_points(points), ..self }
    }
}

/// What a creation works on.
#[derive(Clone, Debug, PartialEq, Eq)]
pub struct CreateUser {
    /// The slot that receives the new record.
    pub user: Slot,
    /// Who asked for the record, and will own it.
    pub signer: Identity,
}

/// What a transfer works on.
#[derive(Clone, Debug, PartialEq, Eq)]
pub struct TransferPoints {
    /// The record that pays.
    pub sender: Slot,
    /// The record that is paid.
    pub receiver: Slot,
    /// Who asked for the transfer.
    pub signer: Identity,
}

/// What a removal works on.
#[derive(Clone, Debug, PartialEq, Eq)]
pub struct RemoveUser {
    /// The slot of the record to remove.
    pub user: Slot,
    /// Who asked for the removal.
    pub signer: Identity,
}

/// The result of an operation that was applied and reports `event`.
pub open spec fn applied(event: Event) -> Result<Event, MyError> {
    Ok(event)
}

/// The result of an operation that was refused for `reason`.
pub open spec fn refused(reason: MyError) -> Result<Event, MyError> {
    Err(reason)
}

impl TransferPoints {
    /// The signer owns the record that pays.
    pub open spec fn authorized(&self) -> bool {
        self.signer == self.sender.record.owner
    }

    /// Sender and receiver are two records, not one record named twice.
    pub open spec fn distinct(&self) -> bool {
        self.sender.address != self.receiver.address
    }

    /// The request itself is in order: signed by the sender's owner, for a
    /// positive amount, between two records, to a receiver that exists.
    /// What is left to ask is whether the balances allow it.
    pub open spec fn admissible(&self, amount: u16) -> bool {
        &&& self.authorized()
        &&& amount > 0
        &&& self.distinct()
        &&& self.receiver.record.is_created()
    }

    /// The sender can pay `amount`.
    pub open spec fn covered(&self, amount: u16) -> bool {
        amount <= self.sender.record.points
    }

    /// The receiver can hold `amount` more.
    pub open spec fn fits(&self, amount: u16) -> bool {
        self.receiver.record.points + amount <= u16::MAX
    }
}

impl RemoveUser {
    /// The signer owns the record.
    pub open spec fn authorized(&self) -> bool {
        self.signer == self.user.record.owner
    }
}

/// Creates the record `id` in the slot of `ctx`, owned by the signer, with
/// `STARTING_POINTS` points.
///
/// The only refusal is a name of more than `MAX_NAME_LENGTH` bytes. Whether
/// the id is free is for the caller to know: what the slot held is
/// overwritten. The new record is live unless the signer is the empty
/// identity, which owns nothing.
pub fn initialize(ctx: &mut CreateUser, id: u32, name: String) -> (r: Result<Event, MyError>)
    ensures
        // A name within the limit is accepted, a longer one refused.
        r == applied(Event::Created { id }) <==> name_len(name@) <= MAX_NAME_LENGTH,
        r == refused(MyError::NameTooLong) <==> name_len(name@) > MAX_NAME_LENGTH,
        // The new record.
        r is Ok ==> final(ctx).user.record == (User {
            id,
            owner: old(ctx).signer,
            name,
            points: STARTING_POINTS,
        }),
        r is Ok ==> final(ctx).user.record.name_fits(),
        r is Ok ==> (final(ctx).user.record.is_live() <==> !old(ctx).signer.is_empty()),
        // A refused creation produces nothing.
        r is Err ==> *final(ctx) == *old(ctx),
        final(ctx).user.address == old(ctx).user.address,
        final(ctx).signer == old(ctx).signer,
{
    if name.as_str().as_bytes().len() > MAX_NAME_LENGTH {
        return Err(MyError::NameTooLong);
    }
    ctx.user.record.id = id;
    ctx.user.record.owner = ctx.signer;
    ctx.user.record.name = name;
    ctx.user.record.points = STARTING_POINTS;
    Ok(Event::Created { id })
}

/// Moves `amount` points from the sender of `ctx` to its receiver.
///
/// The checks are tried in a fixed order and the first that fails decides
/// the error: the signer, the amount, the two slots, the receiver, the
/// sender's balance, the receiver's balance. No balance is touched before
/// all of them have passed. A sender that is short of points is refused as
/// `Underflow`, never as `NotEnoughPoints`.
pub fn transfer_points(ctx: &mut TransferPoints, amount: u16) -> (r: Result<Event, MyError>)
    ensures
        // Only the sender's owner may spend, whatever else the request says.
        r == refused(MyError::Unauthorized) <==> !old(ctx).authorized(),
        // Then each refusal, on the requests that passed what comes before it.
        r == refused(MyError::InvalidTransferAmount) <==> old(ctx).authorized() && amount == 0,
        r == refused(MyError::IdenticalAccounts) <==> old(ctx).authorized() && amount > 0
            && !old(ctx).distinct(),
        r == refused(MyError::AccountDoesNotExist) <==> old(ctx).authorized() && amount > 0
            && old(ctx).distinct() && !old(ctx).receiver.record.is_created(),
        r == refused(MyError::Underflow) <==> old(ctx).admissible(amount)
            && !old(ctx).covered(amount),
        r == refused(MyError::Overflow) <==> old(ctx).admissible(amount)
            && old(ctx).covered(amount) && !old(ctx).fits(amount),
        // Every other request is applied.
        r is Ok <==> old(ctx).admissible(amount) && old(ctx).covered(amount)
            && old(ctx).fits(amount),
        r is Ok ==> r == applied(
            Event::Transferred {
                amount,
                from: old(ctx).sender.record.id,
                to: old(ctx).receiver.record.id,
            },
        ),
        r != refused(MyError::NotEnoughPoints),
        // An applied transfer debits the sender and credits the receiver.
        r is Ok ==> final(ctx).sender.record.points == old(ctx).sender.record.points - amount,
        r is Ok ==> final(ctx).receiver.record.points == old(ctx).receiver.record.points + amount,
        // A refused transfer changes nothing.
        r is Err ==> *final(ctx) == *old(ctx),
        // No transfer creates or destroys points, or touches anything but the
        // two balances.
        final(ctx).sender.record.points + final(ctx).receiver.record.points
            == old(ctx).sender.record.points + old(ctx).receiver.record.points,
        final(ctx).sender == old(ctx).sender.with_points(final(ctx).sender.record.points),
        final(ctx).receiver == old(ctx).receiver.with_points(final(ctx).receiver.record.points),
        final(ctx).signer == old(ctx).signer,
        final(ctx).sender.record.is_live() == old(ctx).sender.record.is_live(),
        final(ctx).receiver.record.is_live() == old(ctx).receiver.record.is_live(),
{
    if ctx.signer != ctx.sender.record.owner {
        return Err(MyError::Unauthorized);
    }
    if amount == 0 {
        return Err(MyError::InvalidTransferAmount);
    }
    if ctx.sender.address == ctx.receiver.address {
        return Err(MyError::IdenticalAccounts);
    }
    if ctx.receiver.record.owner.is_default() {
        return Err(MyError::AccountDoesNotExist);
    }
    let debited: u16 = match ctx.sender.record.points.checked_sub(amount) {
        Some(points) => points,
        None => { return Err(MyError::Underflow); },
    };
    let credited: u16 = match ctx.receiver.record.points.checked_add(amount) {
        Some(points) => points,
        None => { return Err(MyError::Overflow); },
    };
    ctx.sender.record.points = debited;
    ctx.receiver.record.points = credited;
    Ok(Event::Transferred { amount, from: ctx.sender.record.id, to: ctx.receiver.record.id })
}

/// Removes the record in the slot of `ctx`, leaving the slot vacant.
///
/// A slot that holds no record is refused first, whoever signed; then a
/// signer who does not own the record. What backed the record falls to the
/// signer, whom the context still names afterwards.
pub fn remove_user(ctx: &mut RemoveUser) -> (r: Result<Event, MyError>)
    ensures
        // A record that does not exist cannot be removed, whoever asks.
        r == refused(MyError::AccountDoesNotExist) <==> !old(ctx).user.record.is_created(),
        // One that exists is removed for its owner and for nobody else.
        r == refused(MyError::Unauthorized) <==> old(ctx).user.record.is_created()
            && !old(ctx).authorized(),
        r == applied(Event::Closed { id: old(ctx).user.record.id })
            <==> old(ctx).user.record.is_created() && old(ctx).authorized(),
        // A removed record is gone.
        r is Ok ==> final(ctx).user.record.is_blank(),
        r is Ok ==> !final(ctx).user.record.is_created(),
        // A refused removal changes nothing.
        r is Err ==> *final(ctx) == *old(ctx),
        final(ctx).user.address == old(ctx).user.address,
        final(ctx).signer == old(ctx).signer,
{
    if ctx.user.record.owner.is_default() {
        return Err(MyError::AccountDoesNotExist);
    }
    if ctx.signer != ctx.user.record.owner {
        return Err(MyError::Unauthorized);
    }
    let id: u32 = ctx.user.record.id;
    ctx.user.record = User::default();
    Ok(Event::Closed { id })
}

} // verus!

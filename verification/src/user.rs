//! The record that the ledger keeps for each user.

use crate::identity::Identity;
use vstd::prelude::*;
use vstd::utf8::encode_utf8;

verus! {

/// The longest name a record may carry, in bytes.
pub const MAX_NAME_LENGTH: usize = 10;

/// The balance of a newly created record.
pub const STARTING_POINTS: u16 = 1000;

/// The length of a name as it is stored: the number of bytes of its UTF-8
/// encoding.
pub open spec fn name_len(name: Seq<char>) -> nat {
    encode_utf8(name).len()
}

/// One user's record.
///
/// A storage slot that holds no record reads as `User::default()`, whose
/// owner is the empty identity. Creation sets every field; after that only
/// `points` changes, and only by transfers.
#[derive(Clone, Debug, PartialEq, Eq)]
pub struct User {
    /// Chosen by the creator; the slot of the record is derived from it.
    pub id: u32,
    /// The one identity that may spend from this record or remove it.
    pub owner: Identity,
    /// A label of at most `MAX_NAME_LENGTH` bytes.
    pub name: String,
    /// The balance.
    pub points: u16,
}

impl User {
    /// This record with another balance.
    pub open spec fn with_points(self, points: u16) -> User {
        User { points, ..self }
    }

    /// What a vacant slot reads as: no owner, no name, no points, id zero.
    pub open spec fn is_blank(&self) -> bool {
        &&& self.id == 0
        &&& self.owner.is_empty()
        &&& self.name@ == Seq::<char>::empty()
        &&& self.points == 0
    }

    /// The record has been created and not removed: it has an owner.
    pub open spec fn is_created(&self) -> bool {
        !self.owner.is_empty()
    }

    /// The name is within the limit.
    pub open spec fn name_fits(&self) -> bool {
        name_len(self.name@) <= MAX_NAME_LENGTH
    }

    /// What holds of every record that the ledger has created and not yet
    /// removed.
    pub open spec fn is_live(&self) -> bool {
        self.is_created() && self.name_fits()
    }
}

impl Default for User {
    /// What a slot without a record reads as.
    fn default() -> (user: User)
        ensures
            user.is_blank(),
    {
        User { id: 0, owner: Identity::default(), name: String::new(), points: 0 }
    }
}

} // verus!

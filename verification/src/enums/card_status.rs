use vstd::prelude::*;

verus! {

pub enum CardStatus {
    Active,
    Blocked,
    Expired,
}

impl CardStatus {
    /// The label each variant carries in the database schema.
    pub open spec fn label(&self) -> Seq<char> {
        match self {
            CardStatus::Active => "active"@,
            CardStatus::Blocked => "blocked"@,
            CardStatus::Expired => "expired"@,
        }
    }

    pub fn to_string(&self) -> (r: String)
        ensures
            r@ == self.label(),
    {
        match self {
            CardStatus::Active => "active".to_owned(),
            CardStatus::Blocked => "blocked".to_owned(),
            CardStatus::Expired => "expired".to_owned(),
        }
    }
}

} // verus!

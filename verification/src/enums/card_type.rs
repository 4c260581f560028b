use vstd::prelude::*;

verus! {

pub enum CardType {
    Debit,
    Credit,
}

impl CardType {
    /// The label each variant carries in the database schema.
    pub open spec fn label(&self) -> Seq<char> {
        match self {
            CardType::Debit => "debit"@,
            CardType::Credit => "credit"@,
        }
    }

    pub fn to_string(&self) -> (r: String)
        ensures
            r@ == self.label(),
    {
        match self {
            CardType::Debit => "debit".to_owned(),
            CardType::Credit => "credit".to_owned(),
        }
    }
}

} // verus!

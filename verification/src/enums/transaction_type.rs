use vstd::prelude::*;

verus! {

pub enum TransactionType {
    Deposit,
    Withdrawal,
}

impl TransactionType {
    /// The label each variant carries in the database schema.
    pub open spec fn label(&self) -> Seq<char> {
        match self {
            TransactionType::Deposit => "deposit"@,
            TransactionType::Withdrawal => "withdrawal"@,
        }
    }

    pub fn to_string(&self) -> (r: String)
        ensures
            r@ == self.label(),
    {
        match self {
            TransactionType::Deposit => "deposit".to_owned(),
            TransactionType::Withdrawal => "withdrawal".to_owned(),
        }
    }
}

} // verus!

use vstd::prelude::*;

verus! {

pub enum LoanStatus {
    Approved,
    Rejected,
    Active,
    Closed,
}

impl LoanStatus {
    /// The label each variant carries in the database schema.
    pub open spec fn label(&self) -> Seq<char> {
        match self {
            LoanStatus::Approved => "approved"@,
            LoanStatus::Rejected => "rejected"@,
            LoanStatus::Active => "active"@,
            LoanStatus::Closed => "closed"@,
        }
    }

    pub fn to_string(&self) -> (r: String)
        ensures
            r@ == self.label(),
    {
        match self {
            LoanStatus::Approved => "approved".to_owned(),
            LoanStatus::Rejected => "rejected".to_owned(),
            LoanStatus::Active => "active".to_owned(),
            LoanStatus::Closed => "closed".to_owned(),
        }
    }
}

} // verus!

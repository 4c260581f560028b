use vstd::prelude::*;

verus! {

#[derive(PartialEq)]
pub enum AccountType {
    Checking,
    Savings,
    Credit,
    Business,
}

impl AccountType {
    /// The label each variant carries in the database schema.
    pub open spec fn label(&self) -> Seq<char> {
        match self {
            AccountType::Checking => "checking"@,
            AccountType::Savings => "savings"@,
            AccountType::Credit => "credit"@,
            AccountType::Business => "business"@,
        }
    }

    pub fn to_string(&self) -> (r: String)
        ensures
            r@ == self.label(),
    {
        match self {
            AccountType::Checking => "checking".to_owned(),
            AccountType::Savings => "savings".to_owned(),
            AccountType::Credit => "credit".to_owned(),
            AccountType::Business => "business".to_owned(),
        }
    }
}

} // verus!

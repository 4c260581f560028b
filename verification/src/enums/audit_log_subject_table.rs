use vstd::prelude::*;

verus! {

pub enum AuditLogSubjectTable {
    Users,
    Accounts,
    Cards,
    Transfers,
    Transactions,
    Loans,
    Payments,
}

impl AuditLogSubjectTable {
    /// The label each variant carries in the database schema.
    pub open spec fn label(&self) -> Seq<char> {
        match self {
            AuditLogSubjectTable::Users => "users"@,
            AuditLogSubjectTable::Accounts => "accounts"@,
            AuditLogSubjectTable::Cards => "cards"@,
            AuditLogSubjectTable::Transfers => "transfers"@,
            AuditLogSubjectTable::Transactions => "transactions"@,
            AuditLogSubjectTable::Loans => "loans"@,
            AuditLogSubjectTable::Payments => "payments"@,
        }
    }

    pub fn to_string(&self) -> (r: &'static str)
        ensures
            r@ == self.label(),
    {
        match self {
            AuditLogSubjectTable::Users => "users",
            AuditLogSubjectTable::Accounts => "accounts",
            AuditLogSubjectTable::Cards => "cards",
            AuditLogSubjectTable::Transfers => "transfers",
            AuditLogSubjectTable::Transactions => "transactions",
            AuditLogSubjectTable::Loans => "loans",
            AuditLogSubjectTable::Payments => "payments",
        }
    }
}

} // verus!

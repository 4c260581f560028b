use vstd::prelude::*;

verus! {

pub enum TransactionStatus {
    Pending,
    Completed,
    Failed,
}

impl TransactionStatus {
    /// The label each variant carries in the database schema.
    pub open spec fn label(&self) -> Seq<char> {
        match self {
            TransactionStatus::Pending => "pending"@,
            TransactionStatus::Completed => "completed"@,
            TransactionStatus::Failed => "failed"@,
        }
    }

    pub fn to_string(&self) -> (r: String)
        ensures
            r@ == self.label(),
    {
        match self {
            TransactionStatus::Pending => "pending".to_owned(),
            TransactionStatus::Completed => "completed".to_owned(),
            TransactionStatus::Failed => "failed".to_owned(),
        }
    }
}

} // verus!

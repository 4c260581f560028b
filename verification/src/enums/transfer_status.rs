use vstd::prelude::*;

verus! {

pub enum TransferStatus {
    Pending,
    Completed,
    Failed,
}

impl TransferStatus {
    /// The label each variant carries in the database schema.
    pub open spec fn label(&self) -> Seq<char> {
        match self {
            TransferStatus::Pending => "pending"@,
            TransferStatus::Completed => "completed"@,
            TransferStatus::Failed => "failed"@,
        }
    }

    pub fn to_string(&self) -> (r: String)
        ensures
            r@ == self.label(),
    {
        match self {
            TransferStatus::Pending => "pending".to_owned(),
            TransferStatus::Completed => "completed".to_owned(),
            TransferStatus::Failed => "failed".to_owned(),
        }
    }
}

} // verus!

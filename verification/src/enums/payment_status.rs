use vstd::prelude::*;

verus! {

pub enum PaymentStatus {
    Pending,
    Completed,
    Failed,
}

impl PaymentStatus {
    /// The label each variant carries in the database schema.
    pub open spec fn label(&self) -> Seq<char> {
        match self {
            PaymentStatus::Pending => "pending"@,
            PaymentStatus::Completed => "completed"@,
            PaymentStatus::Failed => "failed"@,
        }
    }

    pub fn to_string(&self) -> (r: String)
        ensures
            r@ == self.label(),
    {
        match self {
            PaymentStatus::Pending => "pending".to_owned(),
            PaymentStatus::Completed => "completed".to_owned(),
            PaymentStatus::Failed => "failed".to_owned(),
        }
    }
}

} // verus!

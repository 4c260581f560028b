use vstd::prelude::*;

verus! {

#[derive(Debug, PartialEq)]
pub enum AuditLogAction {
    UserCreated,
    UserUpdated,
    UserDeleted,
    TransferCreated,
    TransferUpdated,
    TransactionCreated,
    TransactionDeleted,
    PaymentCreated,
    PaymentUpdated,
    LoanCreated,
    LoanUpdated,
    CardCreated,
    CardUpdated,
    CardDeleted,
    AccountCreated,
    AccountUpdated,
    AccountDeleted,
}

fn str_eq(a: &str, b: &str) -> (r: bool)
    ensures
        r == (a@ == b@),
{
    let sa: String = a.to_owned();
    let sb: String = b.to_owned();
    sa == sb
}

/// Two character sequences differing at one index are different.
proof fn seqs_differ_at(s1: Seq<char>, s2: Seq<char>, i: int)
    requires
        0 <= i < s1.len(),
        0 <= i < s2.len(),
        s1[i] != s2[i],
    ensures
        s1 != s2,
{
}

impl AuditLogAction {
    /// The label each action carries in the audit log.
    pub open spec fn label(&self) -> Seq<char> {
        match self {
            AuditLogAction::UserCreated => "user created"@,
            AuditLogAction::UserUpdated => "user updated"@,
            AuditLogAction::UserDeleted => "user deleted"@,
            AuditLogAction::TransferCreated => "transfer created"@,
            AuditLogAction::TransferUpdated => "transfer updated"@,
            AuditLogAction::TransactionCreated => "transaction created"@,
            AuditLogAction::TransactionDeleted => "transaction deleted"@,
            AuditLogAction::PaymentCreated => "payment created"@,
            AuditLogAction::PaymentUpdated => "payment updated"@,
            AuditLogAction::LoanCreated => "loan created"@,
            AuditLogAction::LoanUpdated => "loan updated"@,
            AuditLogAction::CardCreated => "card created"@,
            AuditLogAction::CardUpdated => "card updated"@,
            AuditLogAction::CardDeleted => "card deleted"@,
            AuditLogAction::AccountCreated => "account created"@,
            AuditLogAction::AccountUpdated => "account updated"@,
            AuditLogAction::AccountDeleted => "account deleted"@,
        }
    }

    /// The action a label denotes: the inverse reading of `label`,
    /// `None` for any text that is no action's label.
    pub open spec fn action_of(s: Seq<char>) -> Option<AuditLogAction> {
        if s == "user created"@ {
            Some(AuditLogAction::UserCreated)
        } else if s == "user updated"@ {
            Some(AuditLogAction::UserUpdated)
        } else if s == "user deleted"@ {
            Some(AuditLogAction::UserDeleted)
        } else if s == "transfer created"@ {
            Some(AuditLogAction::TransferCreated)
        } else if s == "transfer updated"@ {
            Some(AuditLogAction::TransferUpdated)
        } else if s == "transaction created"@ {
            Some(AuditLogAction::TransactionCreated)
        } else if s == "transaction deleted"@ {
            Some(AuditLogAction::TransactionDeleted)
        } else if s == "payment created"@ {
            Some(AuditLogAction::PaymentCreated)
        } else if s == "payment updated"@ {
            Some(AuditLogAction::PaymentUpdated)
        } else if s == "loan created"@ {
            Some(AuditLogAction::LoanCreated)
        } else if s == "loan updated"@ {
            Some(AuditLogAction::LoanUpdated)
        } else if s == "card created"@ {
            Some(AuditLogAction::CardCreated)
        } else if s == "card updated"@ {
            Some(AuditLogAction::CardUpdated)
        } else if s == "card deleted"@ {
            Some(AuditLogAction::CardDeleted)
        } else if s == "account created"@ {
            Some(AuditLogAction::AccountCreated)
        } else if s == "account updated"@ {
            Some(AuditLogAction::AccountUpdated)
        } else if s == "account deleted"@ {
            Some(AuditLogAction::AccountDeleted)
        } else {
            None
        }
    }

    /// Round trip: every action's label reads back as that action.
    pub proof fn lemma_label_round_trip(a: AuditLogAction)
        ensures
            AuditLogAction::action_of(a.label()) == Some(a),
    {
        reveal_strlit("user created");
        reveal_strlit("user updated");
        reveal_strlit("user deleted");
        reveal_strlit("transfer created");
        reveal_strlit("transfer updated");
        reveal_strlit("transaction created");
        reveal_strlit("transaction deleted");
        reveal_strlit("payment created");
        reveal_strlit("payment updated");
        reveal_strlit("loan created");
        reveal_strlit("loan updated");
        reveal_strlit("card created");
        reveal_strlit("card updated");
        reveal_strlit("card deleted");
        reveal_strlit("account created");
        reveal_strlit("account updated");
        reveal_strlit("account deleted");
        assert("user created"@.len() == 12);
        assert("user updated"@.len() == 12);
        assert("user deleted"@.len() == 12);
        assert("transfer created"@.len() == 16);
        assert("transfer updated"@.len() == 16);
        assert("transaction created"@.len() == 19);
        assert("transaction deleted"@.len() == 19);
        assert("payment created"@.len() == 15);
        assert("payment updated"@.len() == 15);
        assert("loan created"@.len() == 12);
        assert("loan updated"@.len() == 12);
        assert("card created"@.len() == 12);
        assert("card updated"@.len() == 12);
        assert("card deleted"@.len() == 12);
        assert("account created"@.len() == 15);
        assert("account updated"@.len() == 15);
        assert("account deleted"@.len() == 15);
        match a {
            AuditLogAction::UserCreated => {
            },
            AuditLogAction::UserUpdated => {
                seqs_differ_at("user updated"@, "user created"@, 5);
            },
            AuditLogAction::UserDeleted => {
                seqs_differ_at("user deleted"@, "user created"@, 5);
                seqs_differ_at("user deleted"@, "user updated"@, 5);
            },
            AuditLogAction::TransferCreated => {
            },
            AuditLogAction::TransferUpdated => {
                seqs_differ_at("transfer updated"@, "transfer created"@, 9);
            },
            AuditLogAction::TransactionCreated => {
            },
            AuditLogAction::TransactionDeleted => {
                seqs_differ_at("transaction deleted"@, "transaction created"@, 12);
            },
            AuditLogAction::PaymentCreated => {
            },
            AuditLogAction::PaymentUpdated => {
                seqs_differ_at("payment updated"@, "payment created"@, 8);
            },
            AuditLogAction::LoanCreated => {
                seqs_differ_at("loan created"@, "user created"@, 0);
                seqs_differ_at("loan created"@, "user updated"@, 0);
                seqs_differ_at("loan created"@, "user deleted"@, 0);
            },
            AuditLogAction::LoanUpdated => {
                seqs_differ_at("loan updated"@, "user created"@, 0);
                seqs_differ_at("loan updated"@, "user updated"@, 0);
                seqs_differ_at("loan updated"@, "user deleted"@, 0);
                seqs_differ_at("loan updated"@, "loan created"@, 5);
            },
            AuditLogAction::CardCreated => {
                seqs_differ_at("card created"@, "user created"@, 0);
                seqs_differ_at("card created"@, "user updated"@, 0);
                seqs_differ_at("card created"@, "user deleted"@, 0);
                seqs_differ_at("card created"@, "loan created"@, 0);
                seqs_differ_at("card created"@, "loan updated"@, 0);
            },
            AuditLogAction::CardUpdated => {
                seqs_differ_at("card updated"@, "user created"@, 0);
                seqs_differ_at("card updated"@, "user updated"@, 0);
                seqs_differ_at("card updated"@, "user deleted"@, 0);
                seqs_differ_at("card updated"@, "loan created"@, 0);
                seqs_differ_at("card updated"@, "loan updated"@, 0);
                seqs_differ_at("card updated"@, "card created"@, 5);
            },
            AuditLogAction::CardDeleted => {
                seqs_differ_at("card deleted"@, "user created"@, 0);
                seqs_differ_at("card deleted"@, "user updated"@, 0);
                seqs_differ_at("card deleted"@, "user deleted"@, 0);
                seqs_differ_at("card deleted"@, "loan created"@, 0);
                seqs_differ_at("card deleted"@, "loan updated"@, 0);
                seqs_differ_at("card deleted"@, "card created"@, 5);
                seqs_differ_at("card deleted"@, "card updated"@, 5);
            },
            AuditLogAction::AccountCreated => {
                seqs_differ_at("account created"@, "payment created"@, 0);
                seqs_differ_at("account created"@, "payment updated"@, 0);
            },
            AuditLogAction::AccountUpdated => {
                seqs_differ_at("account updated"@, "payment created"@, 0);
                seqs_differ_at("account updated"@, "payment updated"@, 0);
                seqs_differ_at("account updated"@, "account created"@, 8);
            },
            AuditLogAction::AccountDeleted => {
                seqs_differ_at("account deleted"@, "payment created"@, 0);
                seqs_differ_at("account deleted"@, "payment updated"@, 0);
                seqs_differ_at("account deleted"@, "account created"@, 8);
                seqs_differ_at("account deleted"@, "account updated"@, 8);
            },
        }
    }

    pub fn to_string(&self) -> (r: &'static str)
        ensures
            r@ == self.label(),
    {
        match self {
            AuditLogAction::UserCreated => "user created",
            AuditLogAction::UserUpdated => "user updated",
            AuditLogAction::UserDeleted => "user deleted",
            AuditLogAction::TransferCreated => "transfer created",
            AuditLogAction::TransferUpdated => "transfer updated",
            AuditLogAction::TransactionCreated => "transaction created",
            AuditLogAction::TransactionDeleted => "transaction deleted",
            AuditLogAction::PaymentCreated => "payment created",
            AuditLogAction::PaymentUpdated => "payment updated",
            AuditLogAction::LoanCreated => "loan created",
            AuditLogAction::LoanUpdated => "loan updated",
            AuditLogAction::CardCreated => "card created",
            AuditLogAction::CardUpdated => "card updated",
            AuditLogAction::CardDeleted => "card deleted",
            AuditLogAction::AccountCreated => "account created",
            AuditLogAction::AccountUpdated => "account updated",
            AuditLogAction::AccountDeleted => "account deleted",
        }
    }

    pub fn from_string(action: &str) -> (r: Option<AuditLogAction>)
        ensures
            r == AuditLogAction::action_of(action@),
    {
        if str_eq(action, "user created") {
            Some(AuditLogAction::UserCreated)
        } else if str_eq(action, "user updated") {
            Some(AuditLogAction::UserUpdated)
        } else if str_eq(action, "user deleted") {
            Some(AuditLogAction::UserDeleted)
        } else if str_eq(action, "transfer created") {
            Some(AuditLogAction::TransferCreated)
        } else if str_eq(action, "transfer updated") {
            Some(AuditLogAction::TransferUpdated)
        } else if str_eq(action, "transaction created") {
            Some(AuditLogAction::TransactionCreated)
        } else if str_eq(action, "transaction deleted") {
            Some(AuditLogAction::TransactionDeleted)
        } else if str_eq(action, "payment created") {
            Some(AuditLogAction::PaymentCreated)
        } else if str_eq(action, "payment updated") {
            Some(AuditLogAction::PaymentUpdated)
        } else if str_eq(action, "loan created") {
            Some(AuditLogAction::LoanCreated)
        } else if str_eq(action, "loan updated") {
            Some(AuditLogAction::LoanUpdated)
        } else if str_eq(action, "card created") {
            Some(AuditLogAction::CardCreated)
        } else if str_eq(action, "card updated") {
            Some(AuditLogAction::CardUpdated)
        } else if str_eq(action, "card deleted") {
            Some(AuditLogAction::CardDeleted)
        } else if str_eq(action, "account created") {
            Some(AuditLogAction::AccountCreated)
        } else if str_eq(action, "account updated") {
            Some(AuditLogAction::AccountUpdated)
        } else if str_eq(action, "account deleted") {
            Some(AuditLogAction::AccountDeleted)
        } else {
            None
        }
    }
}

} // verus!

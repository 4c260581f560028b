pub mod account_type;
pub mod audit_log_action;
pub mod audit_log_subject_table;
pub mod card_status;
pub mod card_type;
pub mod loan_status;
pub mod payment_status;
pub mod transaction_status;
pub mod transaction_type;
pub mod transfer_status;

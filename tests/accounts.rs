use aws_backend::account::{check_new_password, password_secure_check, AwsClaims, WalletExtract};
use aws_backend::error::{AwsError, Type};
use aws_backend::ledger::{debit_outcome, Wallet};
use aws_backend::metering::{wasm_cost_function, Instruction};

#[test]
fn password_classes() {
    assert!(password_secure_check("Abcdefgh1!xy"));
    assert!(!password_secure_check("abcdefgh1!xy"));
    assert!(!password_secure_check("ABCDEFGH1!XY"));
    assert!(!password_secure_check("Abcdefgh!!xy"));
    assert!(password_secure_check("Abcdefgh12xy"));
}

#[test]
fn new_password_rules() {
    assert!(matches!(check_new_password("Ab1!"), Err(AwsError::PasswordTooShort)));
    assert!(matches!(check_new_password("abcdefghijklmn"), Err(AwsError::PasswordTooWeak)));
    assert!(check_new_password("Abcdefghij1!").is_ok());
}

#[test]
fn claims_expire_after_two_days() {
    let c = AwsClaims::issue("emi".to_string(), 0, 1_000).unwrap();
    assert_eq!(c.exp, 1_000 + 172_800);
    assert_eq!(c.sub, "emi");
    assert!(AwsClaims::issue("x".to_string(), 0, u64::MAX).is_none());
}

#[test]
fn cost_table() {
    assert_eq!(wasm_cost_function(&Instruction::LocalGet), 1);
    assert_eq!(wasm_cost_function(&Instruction::LocalTee), 3);
    assert_eq!(wasm_cost_function(&Instruction::F64Load), 9);
    assert_eq!(wasm_cost_function(&Instruction::Other), 1);
}

#[test]
fn debit_is_conditional() {
    let mut w = Wallet::new(7, 10).unwrap();
    assert!(w.debit(7, 4).is_ok());
    assert_eq!(w.credits(), 6);
    assert!(matches!(w.debit(7, 7), Err(AwsError::InsufficientCredits)));
    assert_eq!(w.credits(), 6);
    assert!(matches!(w.debit(8, 1), Err(AwsError::InsufficientCredits)));
    assert_eq!(w.credits(), 6);
    assert!(w.debit(7, 6).is_ok());
    assert_eq!(w.credits(), 0);
    assert!(Wallet::new(1, -1).is_none());
}

#[test]
fn racing_debits_never_overdraw() {
    let mut w = Wallet::new(1, 10).unwrap();
    let mut committed = 0u64;
    for used in [4u64, 5, 3, 2, 1] {
        if w.debit(1, used).is_ok() {
            committed += used;
        }
    }
    assert_eq!(committed, 10);
    assert_eq!(w.credits(), 0);
}

#[test]
fn storage_update_outcomes() {
    assert!(debit_outcome(Some(1)).is_ok());
    assert!(matches!(debit_outcome(Some(0)), Err(AwsError::InsufficientCredits)));
    assert!(matches!(debit_outcome(None), Err(AwsError::UnknownServerError)));
}

#[test]
fn new_wallet_and_balance_reply() {
    let w = Wallet::opened(3);
    assert_eq!(w.credits(), 1_000_000);
    assert_eq!(WalletExtract(w).credits_response().credits, 1_000_000);
}

#[test]
fn error_statuses() {
    assert_eq!(AwsError::InsufficientCredits.status_code(), 402);
    assert_eq!(AwsError::Unauthorized.status_code(), 401);
    assert_eq!(AwsError::EndpointNotFound(3).status_code(), 404);
    assert_eq!(AwsError::JwtSignatureFailure.status_code(), 500);
    assert_eq!(AwsError::InvalidWasmModule.status_code(), 400);
}

#[test]
fn error_messages() {
    assert_eq!(AwsError::EndpointNotFound(-42).message(), "endpoint -42 not found");
    assert_eq!(AwsError::FunctionNotFound("add".to_string()).message(), "function add not found");
    assert_eq!(AwsError::NotFound("/x".to_string()).message(), "/x not found");
    assert_eq!(
        AwsError::WasmWrongParameterType((Type::I32, Type::F32)).message(),
        "expected type I32 but got type F32"
    );
    assert_eq!(AwsError::InvalidSignature("i32".to_string()).message(), "signature i32 is invalid");
    assert_eq!(AwsError::InsufficientCredits.message(), "insufficient credits");
}

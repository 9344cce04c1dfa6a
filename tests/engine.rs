use aws_backend::cache::ModuleCache;
use aws_backend::deploy::{content_hash, exported_functions, ModuleRegistry};
use aws_backend::engine::{finish_call, prepare_call, settle_outcome, Invocation};
use aws_backend::error::AwsError;
use aws_backend::ffi::{JsonValue, Value};
use aws_backend::ledger::Wallet;

const ADD_WASM: [u8; 41] = [
    0x00, 0x61, 0x73, 0x6d, 0x01, 0x00, 0x00, 0x00, 0x01, 0x07, 0x01, 0x60, 0x02, 0x7f, 0x7f,
    0x01, 0x7f, 0x03, 0x02, 0x01, 0x00, 0x07, 0x07, 0x01, 0x03, 0x61, 0x64, 0x64, 0x00, 0x00,
    0x0a, 0x09, 0x01, 0x07, 0x00, 0x20, 0x00, 0x20, 0x01, 0x6a, 0x0b,
];

const BOOM_WASM: [u8; 35] = [
    0x00, 0x61, 0x73, 0x6d, 0x01, 0x00, 0x00, 0x00, 0x01, 0x04, 0x01, 0x60, 0x00, 0x00, 0x03,
    0x02, 0x01, 0x00, 0x07, 0x08, 0x01, 0x04, 0x62, 0x6f, 0x6f, 0x6d, 0x00, 0x00, 0x0a, 0x05,
    0x01, 0x03, 0x00, 0x00, 0x0b,
];

const I64_WASM: [u8; 32] = [
    0x00, 0x61, 0x73, 0x6d, 0x01, 0x00, 0x00, 0x00, 0x01, 0x05, 0x01, 0x60, 0x01, 0x7e, 0x00,
    0x03, 0x02, 0x01, 0x00, 0x07, 0x05, 0x01, 0x01, 0x66, 0x00, 0x00, 0x0a, 0x04, 0x01, 0x02,
    0x00, 0x0b,
];

const OWNER: i32 = 7;

fn run_guest(inv: &mut Invocation) -> Result<Vec<Value>, String> {
    let params: Vec<wasmer::Value> = inv
        .params()
        .iter()
        .map(|v| match v {
            Value::I32(x) => wasmer::Value::I32(*x),
            Value::I64(x) => wasmer::Value::I64(*x),
            Value::F32(b) => wasmer::Value::F32(f32::from_bits(*b)),
            Value::F64(b) => wasmer::Value::F64(f64::from_bits(*b)),
            Value::V128(x) => wasmer::Value::V128(*x),
            Value::ExternRef => wasmer::Value::ExternRef(None),
            Value::FuncRef => wasmer::Value::FuncRef(None),
            Value::ExceptionRef => wasmer::Value::ExceptionRef(None),
        })
        .collect();
    match inv.run(&params) {
        Ok(rs) => Ok(rs
            .iter()
            .map(|v| match v {
                wasmer::Value::I32(x) => Value::I32(*x),
                wasmer::Value::I64(x) => Value::I64(*x),
                wasmer::Value::F32(x) => Value::F32(x.to_bits()),
                wasmer::Value::F64(x) => Value::F64(x.to_bits()),
                wasmer::Value::V128(x) => Value::V128(*x),
                wasmer::Value::ExternRef(_) => Value::ExternRef,
                wasmer::Value::FuncRef(_) => Value::FuncRef,
                wasmer::Value::ExceptionRef(_) => Value::ExceptionRef,
            })
            .collect()),
        Err(e) => Err(e.to_string()),
    }
}

fn call(
    reg: &ModuleRegistry,
    cache: &mut ModuleCache,
    id: i32,
    name: &str,
    wallet: &mut Wallet,
    args: Vec<JsonValue>,
) -> Result<Vec<JsonValue>, AwsError> {
    let found = reg.find_function(OWNER, id, name)?;
    cache.get_or_insert(id, &found.module.wasm_code)?;
    let module = cache.get(id).unwrap();
    let mut inv = prepare_call(module, &found.function, wallet, &args)?;
    let out = run_guest(&mut inv);
    finish_call(inv, out, wallet).map(|r| r.return_value)
}

fn deployed(code: &[u8]) -> (ModuleRegistry, i32) {
    let mut reg = ModuleRegistry::new();
    reg.deploy(OWNER, code.to_vec()).unwrap();
    let id = reg.list(OWNER).modules[0].id;
    (reg, id)
}

#[test]
fn add_end_to_end() {
    let (reg, id) = deployed(&ADD_WASM);
    let mut cache = ModuleCache::new();
    let mut wallet = Wallet::new(OWNER, 100).unwrap();
    let out = call(&reg, &mut cache, id, "add", &mut wallet, vec![JsonValue::PosInt(2), JsonValue::PosInt(3)]);
    assert_eq!(out.unwrap(), vec![JsonValue::PosInt(5)]);
    assert_eq!(wallet.credits(), 96);

    let mut empty = Wallet::new(OWNER, 0).unwrap();
    let out = call(&reg, &mut cache, id, "add", &mut empty, vec![JsonValue::PosInt(2), JsonValue::PosInt(3)]);
    assert!(matches!(out, Err(AwsError::InsufficientCredits)));
    assert_eq!(empty.credits(), 0);
}

#[test]
fn exhaustion_leaves_balance() {
    let (reg, id) = deployed(&ADD_WASM);
    let mut cache = ModuleCache::new();
    let mut wallet = Wallet::new(OWNER, 3).unwrap();
    let out = call(&reg, &mut cache, id, "add", &mut wallet, vec![JsonValue::PosInt(1), JsonValue::PosInt(1)]);
    assert!(matches!(out, Err(AwsError::InsufficientCredits)));
    assert_eq!(wallet.credits(), 3);
}

#[test]
fn cold_and_warm_calls_agree() {
    let (reg, id) = deployed(&ADD_WASM);
    let mut cache = ModuleCache::new();
    let mut cold = Wallet::new(OWNER, 50).unwrap();
    let a = call(&reg, &mut cache, id, "add", &mut cold, vec![JsonValue::NegInt(-9), JsonValue::PosInt(4)]).unwrap();
    assert!(cache.get(id).is_some());
    let mut warm = Wallet::new(OWNER, 50).unwrap();
    let b = call(&reg, &mut cache, id, "add", &mut warm, vec![JsonValue::NegInt(-9), JsonValue::PosInt(4)]).unwrap();
    assert_eq!(a, b);
    assert_eq!(a, vec![JsonValue::NegInt(-5)]);
    assert_eq!(cold.credits(), warm.credits());
}

#[test]
fn type_mismatch_costs_nothing() {
    let (reg, id) = deployed(&ADD_WASM);
    let mut cache = ModuleCache::new();
    let mut wallet = Wallet::new(OWNER, 1_000_000).unwrap();
    let out = call(&reg, &mut cache, id, "add", &mut wallet, vec![JsonValue::Str, JsonValue::PosInt(3)]);
    assert!(matches!(out, Err(AwsError::UnimplementedWasmType)));
    assert_eq!(wallet.credits(), 1_000_000);
}

#[test]
fn trap_is_instance_error() {
    let (reg, id) = deployed(&BOOM_WASM);
    let mut cache = ModuleCache::new();
    let mut wallet = Wallet::new(OWNER, 100).unwrap();
    let out = call(&reg, &mut cache, id, "boom", &mut wallet, vec![]);
    assert!(matches!(out, Err(AwsError::WasmInstanceError(_))));
    assert_eq!(wallet.credits(), 100);
}

#[test]
fn unknown_function_is_not_found() {
    let (reg, id) = deployed(&ADD_WASM);
    assert!(matches!(reg.find_function(OWNER, id, "sub"), Err(AwsError::FunctionNotFound(n)) if n == "sub"));
    assert!(matches!(reg.find_function(OWNER + 1, id, "add"), Err(AwsError::EndpointNotFound(i)) if i == id));
}

#[test]
fn duplicate_deploy_rejected() {
    let mut reg = ModuleRegistry::new();
    let first = reg.deploy(OWNER, ADD_WASM.to_vec()).unwrap();
    assert_eq!(first.mod_hash.len(), 64);
    assert!(matches!(reg.deploy(OWNER, ADD_WASM.to_vec()), Err(AwsError::DuplicateFunction)));
    assert_eq!(reg.list(OWNER).modules.len(), 1);
}

#[test]
fn deploy_lists_signatures() {
    let (reg, _) = deployed(&ADD_WASM);
    let listed = reg.list(OWNER);
    assert_eq!(listed.modules.len(), 1);
    let fs = &listed.modules[0].functions;
    assert_eq!(fs.len(), 1);
    assert_eq!(fs[0].function, "add");
    assert_eq!(fs[0].signature, "i32,i32->i32");
    assert!(reg.list(OWNER + 1).modules.is_empty());
}

#[test]
fn deploy_refuses_bad_modules() {
    let mut reg = ModuleRegistry::new();
    assert!(matches!(reg.deploy(OWNER, vec![1, 2, 3]), Err(AwsError::InvalidWasmModule)));
    assert!(matches!(reg.deploy(OWNER, I64_WASM.to_vec()), Err(AwsError::UnimplementedWasmType)));
    assert!(reg.list(OWNER).modules.is_empty());
}

#[test]
fn delete_removes_module_and_cache_entry() {
    let (mut reg, id) = deployed(&ADD_WASM);
    let mut cache = ModuleCache::new();
    cache.get_or_insert(id, &ADD_WASM.to_vec()).unwrap();
    assert!(matches!(reg.delete(OWNER + 1, id, "/m", &mut cache), Err(AwsError::NotFound(u)) if u == "/m"));
    assert!(cache.get(id).is_some());
    reg.delete(OWNER, id, "/m", &mut cache).unwrap();
    assert!(cache.get(id).is_none());
    assert!(reg.list(OWNER).modules.is_empty());
    assert!(matches!(reg.find_module(OWNER, id), Err(AwsError::EndpointNotFound(_))));
}

#[test]
fn cache_rejects_invalid_bytecode() {
    let mut cache = ModuleCache::new();
    assert!(matches!(cache.get_or_insert(1, &vec![0, 1, 2]), Err(AwsError::InvalidWasmModule)));
    assert!(cache.get(1).is_none());
}

#[test]
fn settle_decides_each_outcome() {
    let mut w = Wallet::new(1, 50).unwrap();
    assert!(matches!(settle_outcome(None, Ok(vec![Value::I32(1)]), 50, 1, &mut w), Err(AwsError::InsufficientCredits)));
    assert_eq!(w.credits(), 50);
    assert!(matches!(
        settle_outcome(Some(40), Err("trap".to_string()), 50, 1, &mut w),
        Err(AwsError::WasmInstanceError(m)) if m == "trap"
    ));
    assert!(matches!(settle_outcome(Some(60), Ok(vec![Value::I32(1)]), 50, 1, &mut w), Err(AwsError::UnknownServerError)));
    assert!(matches!(settle_outcome(Some(40), Ok(vec![]), 50, 1, &mut w), Err(AwsError::UnknownServerError)));
    assert!(matches!(settle_outcome(Some(40), Ok(vec![Value::I64(1)]), 50, 1, &mut w), Err(AwsError::UnimplementedWasmType)));
    assert_eq!(w.credits(), 50);
    let r = settle_outcome(Some(40), Ok(vec![Value::I32(9), Value::I32(8)]), 50, 1, &mut w).unwrap();
    assert_eq!(r.return_value, vec![JsonValue::PosInt(9)]);
    assert_eq!(r.used, 10);
    assert_eq!(w.credits(), 40);
}

#[test]
fn content_hash_is_sha256_hex() {
    assert_eq!(
        content_hash(&vec![]),
        "e3b0c44298fc1c149afbf4c8996fb92427ae41e4649b934ca495991b7852b855"
    );
    assert_eq!(
        content_hash(&b"abc".to_vec()),
        "ba7816bf8f01cfea414140de5dae2223b00361a396177a9cb410ff61f20015ad"
    );
}

#[test]
fn exported_functions_of_add() {
    let fs = exported_functions(&ADD_WASM.to_vec()).unwrap();
    assert_eq!(fs.len(), 1);
    assert_eq!(fs[0].name, "add");
    assert_eq!(fs[0].signature, "i32,i32->i32");
    assert!(matches!(exported_functions(&I64_WASM.to_vec()), Err(AwsError::UnimplementedWasmType)));
}

#[test]
fn missing_export_is_function_not_found() {
    let mut cache = ModuleCache::new();
    cache.get_or_insert(1, &ADD_WASM.to_vec()).unwrap();
    let f = aws_backend::ffi::FunctionRecord {
        id: 1,
        module_id: 1,
        name: "sub".to_string(),
        signature: "i32,i32->i32".to_string(),
    };
    let wallet = Wallet::new(OWNER, 100).unwrap();
    let r = prepare_call(cache.get(1).unwrap(), &f, &wallet, &vec![JsonValue::PosInt(1), JsonValue::PosInt(2)]);
    assert!(matches!(r, Err(AwsError::FunctionNotFound(n)) if n == "sub"));
    assert_eq!(wallet.credits(), 100);
}

#[test]
fn failed_deploy_keeps_functions() {
    let (mut reg, id) = deployed(&ADD_WASM);
    assert!(reg.deploy(OWNER, I64_WASM.to_vec()).is_err());
    assert!(reg.deploy(OWNER, ADD_WASM.to_vec()).is_err());
    let listed = reg.list(OWNER);
    assert_eq!(listed.modules.len(), 1);
    assert_eq!(listed.modules[0].id, id);
    assert_eq!(listed.modules[0].functions.len(), 1);
}

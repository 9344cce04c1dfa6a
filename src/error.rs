use vstd::prelude::*;

verus! {

/// A WebAssembly value type, as a module declares it for a parameter or a result.
#[derive(Clone, Copy, Debug, PartialEq, Eq, Structural)]
pub enum Type {
    I32,
    I64,
    F32,
    F64,
    V128,
    ExternRef,
    FuncRef,
    ExceptionRef,
}

/// Every failure that the engine reports to a caller.
#[derive(Debug)]
pub enum AwsError {
    UnknownServerError,
    InvalidCredentials,
    DuplicateUsername,
    Unauthorized,
    /// The text of the request target that was not found.
    NotFound(String),
    DuplicateFunction,
    InvalidWasmBase64,
    UnimplementedWasmType,
    EndpointNotFound(i32),
    FunctionNotFound(String),
    WasmTypeConversionError,
    /// The parameter type that was expected, then the one that was supplied.
    WasmWrongParameterType((Type, Type)),
    /// What the runtime said about the failed instantiation or the trap.
    WasmInstanceError(String),
    InvalidSignature(String),
    InvalidWasmModule,
    InsufficientCredits,
    PasswordTooShort,
    PasswordTooWeak,
    JwtSignatureFailure,
}

/// Decimal digits of `n`, most significant first.
pub open spec fn digits(n: nat) -> Seq<char>
    decreases n,
{
    let d = (('0' as u32) + (n % 10) as u32) as char;
    if n < 10 {
        seq![d]
    } else {
        digits(n / 10).push(d)
    }
}

/// The decimal text of an integer, with a leading `-` when negative.
pub open spec fn decimal_text(n: int) -> Seq<char> {
    if n < 0 {
        seq!['-'] + digits((-n) as nat)
    } else {
        digits(n as nat)
    }
}

/// Relies on i32's `Display` (through `to_string`): its decimal text.
#[verifier::external_body]
fn decimal(n: i32) -> (r: String)
    ensures
        r@ == decimal_text(n as int),
{
    n.to_string()
}

/// The name a type is shown under.
pub open spec fn shown_name(t: Type) -> Seq<char> {
    match t {
        Type::I32 => "I32"@,
        Type::I64 => "I64"@,
        Type::F32 => "F32"@,
        Type::F64 => "F64"@,
        Type::V128 => "V128"@,
        Type::ExternRef => "ExternRef"@,
        Type::FuncRef => "FuncRef"@,
        Type::ExceptionRef => "ExceptionRef"@,
    }
}

/// The HTTP status that reports an error.
pub open spec fn status_of(e: AwsError) -> u16 {
    match e {
        AwsError::Unauthorized => 401,
        AwsError::UnknownServerError | AwsError::JwtSignatureFailure => 500,
        AwsError::NotFound(_) | AwsError::EndpointNotFound(_) | AwsError::FunctionNotFound(_) => 404,
        AwsError::InsufficientCredits => 402,
        _ => 400,
    }
}

/// The text that explains an error to the caller.
pub open spec fn message_of(e: AwsError) -> Seq<char> {
    match e {
        AwsError::InvalidCredentials => "invalid credentials"@,
        AwsError::DuplicateUsername => "duplicate username"@,
        AwsError::Unauthorized => "unauthorized"@,
        AwsError::UnknownServerError => "server error"@,
        AwsError::NotFound(uri) => uri@ + " not found"@,
        AwsError::DuplicateFunction => "duplicate deployment"@,
        AwsError::InvalidWasmBase64 => "invalid wasm code base64"@,
        AwsError::UnimplementedWasmType => "unimplemented wasm type"@,
        AwsError::EndpointNotFound(id) => "endpoint "@ + decimal_text(id as int) + " not found"@,
        AwsError::FunctionNotFound(f) => "function "@ + f@ + " not found"@,
        AwsError::WasmTypeConversionError => "type conversion failed on parameters"@,
        AwsError::WasmInstanceError(m) => m@,
        AwsError::InvalidSignature(sig) => "signature "@ + sig@ + " is invalid"@,
        AwsError::InvalidWasmModule => "invalid wasm module"@,
        AwsError::InsufficientCredits => "insufficient credits"@,
        AwsError::PasswordTooShort => "password too short"@,
        AwsError::PasswordTooWeak => "password too weak"@,
        AwsError::WasmWrongParameterType((e, p)) => "expected type "@ + shown_name(e)
            + " but got type "@ + shown_name(p),
        AwsError::JwtSignatureFailure => "failed to sign token"@,
    }
}

impl Type {
    /// The name the type is shown under.
    pub fn name(&self) -> (r: &'static str)
        ensures
            r@ == shown_name(*self),
    {
        match self {
            Type::I32 => "I32",
            Type::I64 => "I64",
            Type::F32 => "F32",
            Type::F64 => "F64",
            Type::V128 => "V128",
            Type::ExternRef => "ExternRef",
            Type::FuncRef => "FuncRef",
            Type::ExceptionRef => "ExceptionRef",
        }
    }
}

fn text(s: &str) -> (r: String)
    ensures
        r@ == s@,
{
    s.to_owned()
}

impl AwsError {
    /// The HTTP status that reports this error.
    pub fn status_code(&self) -> (r: u16)
        ensures
            r == status_of(*self),
    {
        match self {
            AwsError::Unauthorized => 401,
            AwsError::UnknownServerError | AwsError::JwtSignatureFailure => 500,
            AwsError::NotFound(_) | AwsError::EndpointNotFound(_) | AwsError::FunctionNotFound(_) => 404,
            AwsError::InsufficientCredits => 402,
            _ => 400,
        }
    }

    /// The text that explains this error to the caller.
    pub fn message(&self) -> (r: String)
        ensures
            r@ == message_of(*self),
    {
        match self {
            AwsError::InvalidCredentials => text("invalid credentials"),
            AwsError::DuplicateUsername => text("duplicate username"),
            AwsError::Unauthorized => text("unauthorized"),
            AwsError::UnknownServerError => text("server error"),
            AwsError::NotFound(uri) => {
                let mut r = uri.clone();
                r.append(" not found");
                r
            },
            AwsError::DuplicateFunction => text("duplicate deployment"),
            AwsError::InvalidWasmBase64 => text("invalid wasm code base64"),
            AwsError::UnimplementedWasmType => text("unimplemented wasm type"),
            AwsError::EndpointNotFound(id) => {
                let mut r = text("endpoint ");
                r.append(decimal(*id).as_str());
                r.append(" not found");
                r
            },
            AwsError::FunctionNotFound(f) => {
                let mut r = text("function ");
                r.append(f.as_str());
                r.append(" not found");
                r
            },
            AwsError::WasmTypeConversionError => text("type conversion failed on parameters"),
            AwsError::WasmInstanceError(m) => m.clone(),
            AwsError::InvalidSignature(sig) => {
                let mut r = text("signature ");
                r.append(sig.as_str());
                r.append(" is invalid");
                r
            },
            AwsError::InvalidWasmModule => text("invalid wasm module"),
            AwsError::InsufficientCredits => text("insufficient credits"),
            AwsError::PasswordTooShort => text("password too short"),
            AwsError::PasswordTooWeak => text("password too weak"),
            AwsError::WasmWrongParameterType((e, p)) => {
                let mut r = text("expected type ");
                r.append(e.name());
                r.append(" but got type ");
                r.append(p.name());
                r
            },
            AwsError::JwtSignatureFailure => text("failed to sign token"),
        }
    }
}

} // verus!

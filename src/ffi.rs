use vstd::prelude::*;

use crate::error::{AwsError, Type};
use crate::signature::{parse_signature, parse_signature_spec};

verus! {

/// A WebAssembly value. Floating-point values are held as their IEEE-754 bits.
#[derive(Clone, Copy, Debug, PartialEq, Eq, Structural)]
pub enum Value {
    I32(i32),
    I64(i64),
    F32(u32),
    F64(u64),
    V128(u128),
    ExternRef,
    FuncRef,
    ExceptionRef,
}

/// A JSON value as the marshaller reads it. A number is a non-negative integer, a
/// negative integer, or a float; a float is held as the bits of the nearest
/// single-precision value. The contents of strings, arrays and objects are not read.
#[derive(Clone, Copy, Debug, PartialEq, Eq, Structural)]
pub enum JsonValue {
    Null,
    Bool(bool),
    PosInt(u64),
    NegInt(i64),
    Float(u32),
    Str,
    Array,
    Object,
}

pub open spec fn type_of_value(v: Value) -> Type {
    match v {
        Value::I32(_) => Type::I32,
        Value::I64(_) => Type::I64,
        Value::F32(_) => Type::F32,
        Value::F64(_) => Type::F64,
        Value::V128(_) => Type::V128,
        Value::ExternRef => Type::ExternRef,
        Value::FuncRef => Type::FuncRef,
        Value::ExceptionRef => Type::ExceptionRef,
    }
}

/// The native value that a JSON argument becomes, before its type is checked.
pub open spec fn native_of(j: JsonValue) -> Result<Value, AwsError> {
    match j {
        JsonValue::PosInt(u) => if u <= i32::MAX {
            Ok(Value::I32(u as i32))
        } else {
            Err(AwsError::WasmTypeConversionError)
        },
        JsonValue::NegInt(i) => if i32::MIN <= i <= i32::MAX {
            Ok(Value::I32(i as i32))
        } else {
            Err(AwsError::WasmTypeConversionError)
        },
        JsonValue::Float(b) => Ok(Value::F32(b)),
        _ => Err(AwsError::UnimplementedWasmType),
    }
}

/// A JSON argument converted for a parameter of type `t`.
pub open spec fn convert_spec(j: JsonValue, t: Type) -> Result<Value, AwsError> {
    match native_of(j) {
        Err(e) => Err(e),
        Ok(v) => if type_of_value(v) == t {
            Ok(v)
        } else {
            Err(AwsError::WasmWrongParameterType((t, type_of_value(v))))
        },
    }
}

/// The JSON value that a native result becomes; `None` for kinds that JSON does not carry.
pub open spec fn json_of(v: Value) -> Option<JsonValue> {
    match v {
        Value::I32(x) => if x >= 0 {
            Some(JsonValue::PosInt(x as u64))
        } else {
            Some(JsonValue::NegInt(x as i64))
        },
        Value::F32(b) => Some(JsonValue::Float(b)),
        _ => None,
    }
}

/// Every argument converts for its parameter, and there is one argument per parameter.
pub open spec fn marshal_ok(args: Seq<JsonValue>, types: Seq<Type>) -> bool {
    args.len() == types.len() && forall|i: int|
        0 <= i < args.len() ==> #[trigger] convert_spec(args[i], types[i]) is Ok
}

/// `e` is the error that marshalling reports: a count mismatch, or the error of the first
/// argument that does not convert.
pub open spec fn marshal_error(args: Seq<JsonValue>, types: Seq<Type>, e: AwsError) -> bool {
    ||| args.len() != types.len() && e is UnimplementedWasmType
    ||| args.len() == types.len() && exists|i: int|
        0 <= i < args.len() && (forall|k: int|
            0 <= k < i ==> #[trigger] convert_spec(args[k], types[k]) is Ok) && #[trigger] convert_spec(
            args[i],
            types[i],
        ) == Err::<Value, AwsError>(e)
}

/// `vs` are the converted arguments.
pub open spec fn marshalled(args: Seq<JsonValue>, types: Seq<Type>, vs: Seq<Value>) -> bool {
    &&& args.len() == types.len()
    &&& vs.len() == args.len()
    &&& forall|i: int|
        0 <= i < args.len() ==> convert_spec(args[i], types[i]) == Ok::<Value, AwsError>(
            #[trigger] vs[i],
        )
}

/// Marshalling is a function of the arguments and the parameter types: two runs on the
/// same inputs produce the same native values.
pub proof fn lemma_marshalling_deterministic(
    args: Seq<JsonValue>,
    types: Seq<Type>,
    v1: Seq<Value>,
    v2: Seq<Value>,
)
    requires
        marshalled(args, types, v1),
        marshalled(args, types, v2),
    ensures
        v1 == v2,
{
    assert forall|i: int| 0 <= i < v1.len() implies v1[i] == v2[i] by {
        assert(convert_spec(args[i], types[i]) == Ok::<Value, AwsError>(v1[i]));
        assert(convert_spec(args[i], types[i]) == Ok::<Value, AwsError>(v2[i]));
    }
    assert(v1 =~= v2);
}

/// A JSON value that is not a number never becomes a parameter value: marshalling
/// arguments of which one is not a number fails, whatever the parameter types.
pub proof fn lemma_non_number_rejected(args: Seq<JsonValue>, types: Seq<Type>, i: int)
    requires
        0 <= i < args.len(),
        !(args[i] is PosInt || args[i] is NegInt || args[i] is Float),
    ensures
        convert_spec(args[i], types[i]) == Err::<Value, AwsError>(AwsError::UnimplementedWasmType),
        !marshal_ok(args, types),
{
    if args.len() == types.len() {
        assert(!(convert_spec(args[i], types[i]) is Ok));
    }
}

impl Value {
    pub fn ty(&self) -> (r: Type)
        ensures
            r == type_of_value(*self),
    {
        match self {
            Value::I32(_) => Type::I32,
            Value::I64(_) => Type::I64,
            Value::F32(_) => Type::F32,
            Value::F64(_) => Type::F64,
            Value::V128(_) => Type::V128,
            Value::ExternRef => Type::ExternRef,
            Value::FuncRef => Type::FuncRef,
            Value::ExceptionRef => Type::ExceptionRef,
        }
    }
}

/// One JSON argument, converted for a parameter of type `t`.
pub fn convert_param(j: &JsonValue, t: Type) -> (r: Result<Value, AwsError>)
    ensures
        r == convert_spec(*j, t),
{
    let v = match j {
        JsonValue::PosInt(u) => {
            if *u <= i32::MAX as u64 {
                Value::I32(*u as i32)
            } else {
                return Err(AwsError::WasmTypeConversionError);
            }
        },
        JsonValue::NegInt(i) => {
            if i32::MIN as i64 <= *i && *i <= i32::MAX as i64 {
                Value::I32(*i as i32)
            } else {
                return Err(AwsError::WasmTypeConversionError);
            }
        },
        JsonValue::Float(b) => Value::F32(*b),
        _ => return Err(AwsError::UnimplementedWasmType),
    };
    let actual = v.ty();
    if actual == t {
        Ok(v)
    } else {
        Err(AwsError::WasmWrongParameterType((t, actual)))
    }
}

/// Converts JSON arguments to native values for parameters of the given types, in
/// order; the first argument that does not convert decides the error. A count that
/// differs from the number of parameters is refused.
pub fn to_native(args: &Vec<JsonValue>, types: &Vec<Type>) -> (r: Result<Vec<Value>, AwsError>)
    ensures
        match r {
            Ok(vs) => marshal_ok(args@, types@) && marshalled(args@, types@, vs@),
            Err(e) => !marshal_ok(args@, types@) && marshal_error(args@, types@, e),
        },
{
    if args.len() != types.len() {
        return Err(AwsError::UnimplementedWasmType);
    }
    let mut out: Vec<Value> = Vec::new();
    let mut i: usize = 0;
    while i < args.len()
        invariant
            args@.len() == types@.len(),
            i <= args@.len(),
            out@.len() == i,
            forall|k: int|
                0 <= k < i ==> convert_spec(args@[k], types@[k]) == Ok::<Value, AwsError>(
                    #[trigger] out@[k],
                ),
        decreases args@.len() - i,
    {
        match convert_param(&args[i], types[i]) {
            Ok(v) => out.push(v),
            Err(e) => {
                assert forall|k: int| 0 <= k < i implies #[trigger] convert_spec(
                    args@[k],
                    types@[k],
                ) is Ok by {
                    assert(convert_spec(args@[k], types@[k]) == Ok::<Value, AwsError>(out@[k]));
                }
                return Err(e);
            },
        }
        i += 1;
    }
    assert forall|k: int| 0 <= k < args@.len() implies #[trigger] convert_spec(
        args@[k],
        types@[k],
    ) is Ok by {
        assert(convert_spec(args@[k], types@[k]) == Ok::<Value, AwsError>(out@[k]));
    }
    Ok(out)
}

/// Converts native results to JSON values, in order.
pub fn to_json(values: &Vec<Value>) -> (r: Result<Vec<JsonValue>, AwsError>)
    ensures
        match r {
            Ok(js) => js@.len() == values@.len() && forall|i: int|
                0 <= i < values@.len() ==> json_of(values@[i]) == Some(#[trigger] js@[i]),
            Err(e) => e is UnimplementedWasmType && exists|i: int|
                0 <= i < values@.len() && #[trigger] json_of(values@[i]) is None,
        },
{
    let mut out: Vec<JsonValue> = Vec::new();
    let mut i: usize = 0;
    while i < values.len()
        invariant
            i <= values@.len(),
            out@.len() == i,
            forall|k: int| 0 <= k < i ==> json_of(values@[k]) == Some(#[trigger] out@[k]),
        decreases values@.len() - i,
    {
        let j = match values[i] {
            Value::I32(x) => if x >= 0 {
                JsonValue::PosInt(x as u64)
            } else {
                JsonValue::NegInt(x as i64)
            },
            Value::F32(b) => JsonValue::Float(b),
            _ => {
                assert(json_of(values@[i as int]) is None);
                return Err(AwsError::UnimplementedWasmType);
            },
        };
        out.push(j);
        i += 1;
    }
    Ok(out)
}

/// A function exported by a deployed module, as stored.
pub struct FunctionRecord {
    pub id: i32,
    pub module_id: i32,
    pub name: String,
    pub signature: String,
}

/// Reads a function's declared types and marshals arguments for it.
pub trait WasmFFIConverter {
    spec fn signature_view(&self) -> Seq<char>;

    fn get_param_types(&self) -> (r: Result<Vec<Type>, AwsError>)
        ensures
            match r {
                Ok(v) => parse_signature_spec(self.signature_view()) matches Some((p, _)) && v@
                    == p,
                Err(e) => parse_signature_spec(self.signature_view()) is None && (
                e matches AwsError::InvalidSignature(t) && t@ == self.signature_view()),
            },
    ;

    fn get_ret_types(&self) -> (r: Result<Vec<Type>, AwsError>)
        ensures
            match r {
                Ok(v) => parse_signature_spec(self.signature_view()) matches Some((_, q)) && v@
                    == q,
                Err(e) => parse_signature_spec(self.signature_view()) is None && (
                e matches AwsError::InvalidSignature(t) && t@ == self.signature_view()),
            },
    ;

    fn to_wasm_params(&self, params: &Vec<JsonValue>) -> (r: Result<Vec<Value>, AwsError>)
        ensures
            parse_signature_spec(self.signature_view()) is None ==> (r matches Err(
                AwsError::InvalidSignature(t),
            ) && t@ == self.signature_view()),
            parse_signature_spec(self.signature_view()) matches Some((p, _)) ==> match r {
                Ok(vs) => marshal_ok(params@, p) && marshalled(params@, p, vs@),
                Err(e) => !marshal_ok(params@, p) && marshal_error(params@, p, e),
            },
    ;
}

impl WasmFFIConverter for FunctionRecord {
    open spec fn signature_view(&self) -> Seq<char> {
        self.signature@
    }

    fn get_param_types(&self) -> (r: Result<Vec<Type>, AwsError>) {
        let (p, _) = parse_signature(self.signature.as_str())?;
        Ok(p)
    }

    fn get_ret_types(&self) -> (r: Result<Vec<Type>, AwsError>) {
        let (_, q) = parse_signature(self.signature.as_str())?;
        Ok(q)
    }

    fn to_wasm_params(&self, params: &Vec<JsonValue>) -> (r: Result<Vec<Value>, AwsError>) {
        let types = self.get_param_types()?;
        to_native(params, &types)
    }
}

} // verus!

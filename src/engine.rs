use vstd::prelude::*;
use wasmer::Value as NativeValue;

use crate::error::AwsError;
use crate::ffi::{
    json_of, marshal_error, marshal_ok, marshalled, to_json, to_native, FunctionRecord, JsonValue,
    Value,
};
use crate::ledger::{debit_spec, Wallet};
use crate::runtime::{
    export_views, exports_of, export_view, has_function_export, CompiledModule, MeteredInstance, ModuleExport,
};
use crate::signature::{parse_signature, parse_signature_spec};

verus! {

/// A call that is ready to run: the instance with its budget set, the export's name,
/// and the marshalled arguments. The guest runs on `run`, with `params` as native values.
pub struct Invocation {
    instance: MeteredInstance,
    name: String,
    params: Vec<Value>,
    budget: u64,
    arity: usize,
}

/// A completed, billed call.
pub struct CallFunctionResponse {
    /// The first results, as many as the function declares, as JSON.
    pub return_value: Vec<JsonValue>,
    /// The metered cost, taken from the wallet.
    pub used: u64,
}

impl Invocation {
    pub closed spec fn spec_params(&self) -> Seq<Value> {
        self.params@
    }

    pub closed spec fn spec_name(&self) -> Seq<char> {
        self.name@
    }

    /// The marshalled arguments.
    pub fn params(&self) -> (r: &Vec<Value>)
        ensures
            r@ == self.spec_params(),
    {
        &self.params
    }

    /// Runs the guest function with the arguments as native values: its results, or the
    /// runtime's message when it traps.
    pub fn run(&mut self, args: &Vec<NativeValue>) -> (r: Result<Vec<NativeValue>, String>)
        ensures
            final(self).spec_params() == old(self).spec_params(),
            final(self).spec_budget() == old(self).spec_budget(),
            final(self).spec_arity() == old(self).spec_arity(),
    {
        self.instance.call(self.name.as_str(), args)
    }

    pub closed spec fn spec_budget(&self) -> u64 {
        self.budget
    }

    pub closed spec fn spec_arity(&self) -> usize {
        self.arity
    }

    /// The metering points the call may spend.
    pub fn budget(&self) -> (r: u64)
        ensures
            r == self.spec_budget(),
    {
        self.budget
    }

    /// How many results the function declares.
    pub fn result_arity(&self) -> (r: usize)
        ensures
            r == self.spec_arity(),
    {
        self.arity
    }
}

/// The response for the first `arity` results converted to JSON, with cost `used`.
pub open spec fn response_for(resp: CallFunctionResponse, results: Seq<Value>, arity: int, used: u64) -> bool {
    &&& resp.used == used
    &&& resp.return_value@.len() == arity
    &&& forall|i: int| 0 <= i < arity ==> json_of(results[i]) == Some(#[trigger] resp.return_value@[i])
}

/// Sets up a call of `function` in `module` for the owner of `wallet`, with `args`.
/// Signature and argument errors come before anything runs. The budget is the wallet's
/// balance, one metering point per credit.
pub fn prepare_call(
    module: &CompiledModule,
    function: &FunctionRecord,
    wallet: &Wallet,
    args: &Vec<JsonValue>,
) -> (r: Result<Invocation, AwsError>)
    requires
        wallet.wf(),
    ensures
        match parse_signature_spec(function.signature@) {
            None => r matches Err(AwsError::InvalidSignature(t)) && t@ == function.signature@,
            Some((p, q)) => {
                &&& !marshal_ok(args@, p) ==> (r matches Err(e) && marshal_error(args@, p, e))
                &&& r matches Ok(inv) ==> {
                    &&& marshal_ok(args@, p)
                    &&& marshalled(args@, p, inv.spec_params())
                    &&& inv.spec_budget() == wallet.balance()
                    &&& inv.spec_arity() == q.len()
                }
                &&& marshal_ok(args@, p) && !has_function_export(
                    exports_of(module.code()),
                    function.name@,
                ) ==> (r matches Err(AwsError::FunctionNotFound(n)) && n@ == function.name@)
                &&& marshal_ok(args@, p) && has_function_export(
                    exports_of(module.code()),
                    function.name@,
                ) ==> (r is Ok || r matches Err(AwsError::WasmInstanceError(_)))
                &&& r matches Ok(inv) ==> inv.spec_name() == function.name@
            },
        },
{
    let (ptypes, rtypes) = parse_signature(function.signature.as_str())?;
    let params = to_native(args, &ptypes)?;
    let exports = module.exports();
    if !exports_function(&exports, &function.name) {
        return Err(AwsError::FunctionNotFound(function.name.clone()));
    }
    let budget = wallet.credits() as u64;
    let instance = match module.instantiate(budget) {
        Ok(i) => i,
        Err(msg) => return Err(AwsError::WasmInstanceError(msg)),
    };
    Ok(Invocation { instance, name: function.name.clone(), params, budget, arity: rtypes.len() })
}

/// Whether some export is a function named `name`.
fn exports_function(exports: &Vec<ModuleExport>, name: &String) -> (r: bool)
    ensures
        r == has_function_export(export_views(exports@), name@),
{
    let ghost views = export_views(exports@);
    let mut i: usize = 0;
    while i < exports.len()
        invariant
            i <= exports@.len(),
            views == export_views(exports@),
            forall|k: int| 0 <= k < i ==> !((#[trigger] views[k]).0 == name@ && views[k].1 is Some),
        decreases exports@.len() - i,
    {
        let e = &exports[i];
        assert(views[i as int] == export_view(exports@[i as int]));
        if e.name == *name && e.func.is_some() {
            return true;
        }
        i += 1;
    }
    false
}

/// Decides a run's outcome from the metering points left (`None`: they ran out and the
/// guest was stopped) and what the guest call gave (its results, or the trap's text),
/// and bills the owner of `wallet` for it. Nothing is taken from the wallet unless the
/// call succeeds.
pub fn settle_outcome(
    points: Option<u64>,
    outcome: Result<Vec<Value>, String>,
    budget: u64,
    arity: usize,
    wallet: &mut Wallet,
) -> (r: Result<CallFunctionResponse, AwsError>)
    requires
        old(wallet).wf(),
    ensures
        final(wallet).wf(),
        r is Err ==> *final(wallet) == *old(wallet),
        match points {
            None => r matches Err(e) && e is InsufficientCredits,
            Some(left) => match outcome {
                Err(msg) => r matches Err(AwsError::WasmInstanceError(m)) && m@ == msg@,
                Ok(results) => if left > budget || results@.len() < arity {
                    r matches Err(e) && e is UnknownServerError
                } else if exists|i: int| 0 <= i < arity && #[trigger] json_of(results@[i]) is None {
                    r matches Err(e) && e is UnimplementedWasmType
                } else {
                    match debit_spec(
                        old(wallet).owner(),
                        old(wallet).balance(),
                        old(wallet).owner(),
                        (budget - left) as int,
                    ) {
                        None => r matches Err(e) && e is InsufficientCredits,
                        Some(b) => r matches Ok(resp) && response_for(
                            resp,
                            results@,
                            arity as int,
                            (budget - left) as u64,
                        ) && final(wallet).balance() == b,
                    }
                },
            },
        },
{
    let left = match points {
        None => return Err(AwsError::InsufficientCredits),
        Some(left) => left,
    };
    let results = match outcome {
        Err(msg) => return Err(AwsError::WasmInstanceError(msg)),
        Ok(results) => results,
    };
    if left > budget || results.len() < arity {
        return Err(AwsError::UnknownServerError);
    }
    let used = budget - left;
    let mut kept: Vec<Value> = Vec::new();
    let mut i: usize = 0;
    while i < arity
        invariant
            i <= arity <= results@.len(),
            kept@ == results@.subrange(0, i as int),
        decreases arity - i,
    {
        kept.push(results[i]);
        i += 1;
    }
    let return_value = match to_json(&kept) {
        Ok(js) => js,
        Err(e) => {
            proof {
                let k = choose|k: int| 0 <= k < kept@.len() && #[trigger] json_of(kept@[k]) is None;
                assert(json_of(results@[k]) is None);
            }
            return Err(e);
        },
    };
    assert forall|k: int| 0 <= k < arity implies json_of(results@[k]) == Some(
        #[trigger] return_value@[k],
    ) by {
        assert(kept@[k] == results@[k]);
    }
    assert forall|k: int| 0 <= k < arity implies !(#[trigger] json_of(results@[k]) is None) by {
        assert(json_of(results@[k]) == Some(return_value@[k]));
    }
    let owner = wallet.user_id();
    wallet.debit(owner, used)?;
    Ok(CallFunctionResponse { return_value, used })
}

/// Reads the metering points left after the guest call and settles the call with them
/// (see `settle_outcome`). Whatever the runtime reports, the wallet is only debited on
/// success, by at most the budget.
pub fn finish_call(
    inv: Invocation,
    outcome: Result<Vec<Value>, String>,
    wallet: &mut Wallet,
) -> (r: Result<CallFunctionResponse, AwsError>)
    requires
        old(wallet).wf(),
    ensures
        final(wallet).wf(),
        r is Err ==> *final(wallet) == *old(wallet),
        outcome matches Err(msg) ==> (r matches Err(e) && (e is InsufficientCredits || (
        e matches AwsError::WasmInstanceError(m) && m@ == msg@))),
        r matches Ok(resp) ==> {
            &&& outcome matches Ok(results) && response_for(
                resp,
                results@,
                inv.spec_arity() as int,
                resp.used,
            )
            &&& resp.used <= inv.spec_budget()
            &&& final(wallet).balance() == old(wallet).balance() - resp.used
        },
{
    let mut inv = inv;
    let points = inv.instance.points_left();
    settle_outcome(points, outcome, inv.budget, inv.arity, wallet)
}

} // verus!

use sha2::Digest;
use vstd::prelude::*;

use crate::cache::ModuleCache;
use crate::error::{AwsError, Type};
use crate::ffi::FunctionRecord;
use crate::runtime::{
    compile_metered, compiles, export_view, export_views, exports_of, ExportView, ModuleExport,
};
use crate::signature::{all_supported, format_signature, signature_text};

verus! {

/// The content hash of bytecode: its SHA-256 digest in lowercase hex.
pub uninterp spec fn sha256_hex_of(code: Seq<u8>) -> Seq<char>;

/// Relies on sha2::Sha256::digest, printed in lowercase hex; the digest depends on the
/// bytes alone.
#[verifier::external_body]
fn sha256_hex(code: &Vec<u8>) -> (r: String)
    ensures
        r@ == sha256_hex_of(code@),
{
    format!("{:x}", sha2::Sha256::digest(code))
}

/// An exported function as deployed: its name and signature text.
pub struct EpxortedFunction {
    pub name: String,
    pub signature: String,
}

/// A deployed module.
pub struct ModuleRecord {
    pub id: i32,
    pub owner_id: i32,
    pub code_hash: String,
    pub wasm_code: Vec<u8>,
}

/// The function exports among `es`, in order: name, parameter types, result types.
pub open spec fn function_exports(es: Seq<ExportView>) -> Seq<(Seq<char>, Seq<Type>, Seq<Type>)>
    decreases es.len(),
{
    if es.len() == 0 {
        Seq::empty()
    } else {
        let r = function_exports(es.drop_last());
        match es.last().1 {
            Some((p, q)) => r.push((es.last().0, p, q)),
            None => r,
        }
    }
}

/// Some function export has a type that signatures cannot hold.
pub open spec fn has_unsupported_export(es: Seq<ExportView>) -> bool {
    exists|k: int|
        0 <= k < es.len() && ((#[trigger] es[k]).1 matches Some((p, q)) && !(all_supported(p)
            && all_supported(q)))
}

/// Name and signature text of each function export.
pub open spec fn export_entries(f: Seq<(Seq<char>, Seq<Type>, Seq<Type>)>) -> Seq<(Seq<char>, Seq<char>)> {
    f.map_values(|x: (Seq<char>, Seq<Type>, Seq<Type>)| (x.0, signature_text(x.1, x.2)))
}

/// `fs` describe the function exports `f`, one for one, with their signature texts.
pub open spec fn describes(fs: Seq<EpxortedFunction>, f: Seq<(Seq<char>, Seq<Type>, Seq<Type>)>) -> bool {
    &&& fs.len() == f.len()
    &&& forall|i: int|
        0 <= i < f.len() ==> (#[trigger] fs[i]).name@ == f[i].0 && fs[i].signature@
            == signature_text(f[i].1, f[i].2)
}

/// Names and signature texts of a module's function exports; refused when one of them
/// uses a type that signatures cannot hold.
pub fn describe_exports(exports: &Vec<ModuleExport>) -> (r: Result<Vec<EpxortedFunction>, AwsError>)
    ensures
        match r {
            Ok(fs) => !has_unsupported_export(export_views(exports@)) && describes(
                fs@,
                function_exports(export_views(exports@)),
            ),
            Err(e) => has_unsupported_export(export_views(exports@)) && e is UnimplementedWasmType,
        },
{
    let ghost vs = export_views(exports@);
    let mut out: Vec<EpxortedFunction> = Vec::new();
    let mut i: usize = 0;
    while i < exports.len()
        invariant
            i <= exports@.len(),
            vs == export_views(exports@),
            !has_unsupported_export(vs.subrange(0, i as int)),
            describes(out@, function_exports(vs.subrange(0, i as int))),
        decreases exports@.len() - i,
    {
        let ghost pre = vs.subrange(0, i as int);
        let ghost next = vs.subrange(0, i + 1);
        assert(next.drop_last() =~= pre);
        assert(next.last() == export_view(exports@[i as int]));
        let e = &exports[i];
        match &e.func {
            Some((p, q)) => {
                match format_signature(p, q) {
                    Ok(sig) => {
                        out.push(EpxortedFunction { name: e.name.clone(), signature: sig });
                    },
                    Err(err) => {
                        assert(vs[i as int].1 matches Some((p, q)) && !(all_supported(p)
                            && all_supported(q)));
                        return Err(err);
                    },
                }
            },
            None => {},
        }
        assert(!has_unsupported_export(next)) by {
            assert forall|k: int| 0 <= k < next.len() implies !((#[trigger] next[k]).1 matches Some(
                (p, q),
            ) && !(all_supported(p) && all_supported(q))) by {
                if k < i {
                    assert(next[k] == pre[k]);
                }
            }
        }
        i += 1;
    }
    assert(vs.subrange(0, i as int) =~= vs);
    Ok(out)
}

/// The content hash under which bytecode is deployed.
pub fn content_hash(code: &Vec<u8>) -> (r: String)
    ensures
        r@ == sha256_hex_of(code@),
{
    sha256_hex(code)
}

/// Names and signature texts of the functions that bytecode exports; refused when it
/// does not compile, or when an export has a type that signatures cannot hold.
pub fn exported_functions(code: &Vec<u8>) -> (r: Result<Vec<EpxortedFunction>, AwsError>)
    ensures
        !compiles(code@) ==> r matches Err(AwsError::InvalidWasmModule),
        compiles(code@) ==> match r {
            Ok(fs) => !has_unsupported_export(exports_of(code@)) && describes(
                fs@,
                function_exports(exports_of(code@)),
            ),
            Err(e) => has_unsupported_export(exports_of(code@)) && e is UnimplementedWasmType,
        },
{
    let compiled = match compile_metered(code) {
        Some(m) => m,
        None => return Err(AwsError::InvalidWasmModule),
    };
    let exports = compiled.exports();
    describe_exports(&exports)
}

/// The reply to a deployment: the module's content hash.
pub struct DeployModuleResponse {
    pub mod_hash: String,
}

/// The rows of deployed modules, `(id, owner, content hash)`, in deployment order.
pub type ModuleRows = Seq<(i32, i32, Seq<char>)>;

pub open spec fn hash_taken(rows: ModuleRows, h: Seq<char>) -> bool {
    exists|i: int| 0 <= i < rows.len() && (#[trigger] rows[i]).2 == h
}

/// One deployment of `code` by `owner` from `old` to `new`: bytecode whose hash is
/// already deployed is refused and changes nothing; otherwise a success adds exactly
/// one row, with that owner and hash, and a failure changes nothing.
pub open spec fn deploy_step(old: ModuleRows, owner: i32, code: Seq<u8>, new: ModuleRows, ok: bool) -> bool {
    if hash_taken(old, sha256_hex_of(code)) {
        !ok && new == old
    } else if ok {
        &&& new.len() == old.len() + 1
        &&& new.drop_last() == old
        &&& new.last().1 == owner
        &&& new.last().2 == sha256_hex_of(code)
    } else {
        new == old
    }
}

/// Names and signature texts of described functions, in order.
pub open spec fn named_pairs(fs: Seq<EpxortedFunction>) -> Seq<(Seq<char>, Seq<char>)> {
    fs.map_values(|f: EpxortedFunction| (f.name@, f.signature@))
}

proof fn lemma_functions_of_concat(a: FunctionRows, b: FunctionRows, id: i32)
    ensures
        functions_of(a + b, id) == functions_of(a, id) + functions_of(b, id),
    decreases b.len(),
{
    if b.len() == 0 {
        assert(a + b =~= a);
        assert(functions_of(a, id) + functions_of(b, id) =~= functions_of(a, id));
    } else {
        let b0 = b.drop_last();
        lemma_functions_of_concat(a, b0, id);
        assert((a + b).drop_last() =~= a + b0);
        assert((a + b).last() == b.last());
        if b.last().1 == id {
            let x = (b.last().2, b.last().3);
            assert(functions_of(a, id) + functions_of(b0, id).push(x) =~= (functions_of(a, id)
                + functions_of(b0, id)).push(x));
        }
    }
}

proof fn lemma_functions_of_absent(a: FunctionRows, id: i32)
    requires
        forall|j: int| 0 <= j < a.len() ==> a[j].1 < id,
    ensures
        functions_of(a, id) == Seq::<(Seq<char>, Seq<char>)>::empty(),
    decreases a.len(),
{
    if a.len() > 0 {
        lemma_functions_of_absent(a.drop_last(), id);
        assert(a[a.len() - 1].1 < id);
    }
}

/// Deployed modules and their functions.
pub struct ModuleRegistry {
    modules: Vec<ModuleRecord>,
    functions: Vec<FunctionRecord>,
    next_module_id: i32,
    next_function_id: i32,
}

impl ModuleRegistry {
    pub closed spec fn rows(&self) -> ModuleRows {
        self.modules@.map_values(|m: ModuleRecord| (m.id, m.owner_id, m.code_hash@))
    }

    /// Content hashes are unique, and ids grow with each deployment.
    pub closed spec fn wf(&self) -> bool {
        &&& forall|i: int, j: int|
            0 <= i < j < self.modules@.len() ==> self.modules@[i].code_hash@
                != self.modules@[j].code_hash@ && self.modules@[i].id < self.modules@[j].id
        &&& forall|i: int| 0 <= i < self.modules@.len() ==> self.modules@[i].id < self.next_module_id
        &&& forall|j: int|
            0 <= j < self.functions@.len() ==> self.functions@[j].module_id < self.next_module_id
        &&& self.next_module_id >= 1
        &&& self.next_function_id >= 1
    }

    /// Room for one more module with `n` functions before the ids run out.
    pub closed spec fn has_room(&self, n: nat) -> bool {
        self.next_module_id < i32::MAX && self.next_function_id + n < i32::MAX
    }

    pub fn new() -> (r: ModuleRegistry)
        ensures
            r.wf(),
            r.rows() == Seq::<(i32, i32, Seq<char>)>::empty(),
    {
        let r = ModuleRegistry {
            modules: Vec::new(),
            functions: Vec::new(),
            next_module_id: 1,
            next_function_id: 1,
        };
        assert(r.rows() =~= Seq::<(i32, i32, Seq<char>)>::empty());
        r
    }

    fn find_hash(&self, h: &String) -> (r: bool)
        ensures
            r == hash_taken(self.rows(), h@),
    {
        let mut i: usize = 0;
        while i < self.modules.len()
            invariant
                i <= self.modules@.len(),
                forall|k: int| 0 <= k < i ==> self.modules@[k].code_hash@ != h@,
            decreases self.modules@.len() - i,
        {
            if self.modules[i].code_hash == *h {
                assert(self.rows()[i as int].2 == h@);
                return true;
            }
            i += 1;
        }
        assert forall|k: int| 0 <= k < self.rows().len() implies (#[trigger] self.rows()[k]).2 != h@ by {
            assert(self.rows()[k].2 == self.modules@[k].code_hash@);
        }
        false
    }

    /// Deploys bytecode for `owner`: bytecode whose content hash is already deployed is
    /// refused as a duplicate; bytecode that does not compile, or that exports a
    /// function with a type that signatures cannot hold, is refused too. On success the
    /// module is stored with a record for each exported function, and its content hash
    /// is returned.
    pub fn deploy(&mut self, owner: i32, code: Vec<u8>) -> (r: Result<DeployModuleResponse, AwsError>)
        requires
            old(self).wf(),
        ensures
            final(self).wf(),
            deploy_step(old(self).rows(), owner, code@, final(self).rows(), r is Ok),
            r matches Ok(resp) ==> resp.mod_hash@ == sha256_hex_of(code@),
            r matches Err(e) ==> (e is DuplicateFunction <==> hash_taken(
                old(self).rows(),
                sha256_hex_of(code@),
            )),
            !hash_taken(old(self).rows(), sha256_hex_of(code@)) ==> {
                let es = exports_of(code@);
                if !compiles(code@) {
                    r matches Err(e) && e is InvalidWasmModule
                } else if has_unsupported_export(es) {
                    r matches Err(e) && e is UnimplementedWasmType
                } else if !old(self).has_room(function_exports(es).len()) {
                    r matches Err(e) && e is UnknownServerError
                } else {
                    r is Ok
                }
            },
            r is Ok ==> {
                &&& functions_of(final(self).function_rows(), final(self).rows().last().0)
                    == export_entries(function_exports(exports_of(code@)))
                &&& final(self).function_rows().subrange(0, old(self).function_rows().len() as int)
                    == old(self).function_rows()
            },
            r is Err ==> final(self).rows() == old(self).rows(),
            keeps_functions(old(self).function_rows(), final(self).function_rows(), r is Ok),
    {
        let hash = content_hash(&code);
        if self.find_hash(&hash) {
            return Err(AwsError::DuplicateFunction);
        }
        let described = exported_functions(&code)?;
        if self.next_module_id == i32::MAX || described.len() >= (i32::MAX - self.next_function_id) as usize {
            return Err(AwsError::UnknownServerError);
        }
        let id = self.next_module_id;
        let mut fid = self.next_function_id;
        let mut new_functions: Vec<FunctionRecord> = Vec::new();
        let mut i: usize = 0;
        while i < described.len()
            invariant
                i <= described@.len(),
                fid == old(self).next_function_id + i,
                old(self).next_function_id + described@.len() < i32::MAX,
                functions_of(rows_of_functions(new_functions@), id) == named_pairs(
                    described@.subrange(0, i as int),
                ),
                forall|k: int| 0 <= k < new_functions@.len() ==> new_functions@[k].module_id == id,
            decreases described@.len() - i,
        {
            let ghost before = rows_of_functions(new_functions@);
            let f = &described[i];
            new_functions.push(FunctionRecord {
                id: fid,
                module_id: id,
                name: f.name.clone(),
                signature: f.signature.clone(),
            });
            proof {
                let after = rows_of_functions(new_functions@);
                assert(after.drop_last() =~= before);
                assert(named_pairs(described@.subrange(0, i + 1)) =~= named_pairs(
                    described@.subrange(0, i as int),
                ).push((f.name@, f.signature@)));
            }
            fid = fid + 1;
            i += 1;
        }
        let ghost old_rows = self.rows();
        let ghost old_functions = self.functions@;
        let ghost added = new_functions@;
        let ghost old_modules = self.modules@;
        let mod_hash = hash.clone();
        self.modules.push(ModuleRecord { id, owner_id: owner, code_hash: hash, wasm_code: code });
        self.functions.append(&mut new_functions);
        self.next_module_id = id + 1;
        self.next_function_id = fid;
        assert(self.modules@.drop_last() =~= old_modules);
        assert(self.rows().drop_last() =~= old_rows);
        proof {
            assert(described@.subrange(0, described@.len() as int) =~= described@);
            assert(self.functions@ == old_functions + added);
            assert(rows_of_functions(self.functions@) =~= rows_of_functions(old_functions)
                + rows_of_functions(added));
            lemma_functions_of_concat(rows_of_functions(old_functions), rows_of_functions(added), id);
            lemma_functions_of_absent(rows_of_functions(old_functions), id);
            assert(Seq::<(Seq<char>, Seq<char>)>::empty() + named_pairs(described@) =~= named_pairs(
                described@,
            ));
            assert(self.rows().last().0 == id);
            assert(named_pairs(described@) =~= export_entries(function_exports(exports_of(code@))));
            assert(self.function_rows().subrange(0, old_functions.len() as int) =~= rows_of_functions(
                old_functions,
            ));
            assert forall|j: int| 0 <= j < self.functions@.len() implies self.functions@[j].module_id
                < self.next_module_id by {
                if j >= old_functions.len() {
                    assert(self.functions@[j] == added[j - old_functions.len()]);
                } else {
                    assert(self.functions@[j] == old_functions[j]);
                }
            }
        }
        assert forall|i: int, j: int| 0 <= i < j < self.modules@.len() implies self.modules@[i].code_hash@
            != self.modules@[j].code_hash@ && self.modules@[i].id < self.modules@[j].id by {
            if j == self.modules@.len() - 1 {
                assert(old_rows[i].2 == self.modules@[i].code_hash@);
            }
        }
        Ok(DeployModuleResponse { mod_hash })
    }
}

/// A module of the caller's, found by id.
pub struct ModuleExtractor(pub ModuleRecord);

/// A module of the caller's and one of its functions, found by name.
pub struct ModuleFunctionExtract {
    pub module: ModuleRecord,
    pub function: FunctionRecord,
}

/// A function as listed: its name and signature text.
pub struct DeployedFunctionResponse {
    pub function: String,
    pub signature: String,
}

/// A module as listed: its id, content hash and functions.
pub struct GetModulesResponse {
    pub id: i32,
    pub module_hash: String,
    pub functions: Vec<DeployedFunctionResponse>,
}

/// The modules of one owner.
pub struct DeployedModulesResponse {
    pub modules: Vec<GetModulesResponse>,
}

/// The function rows, `(id, module id, name, signature text)`.
pub type FunctionRows = Seq<(i32, i32, Seq<char>, Seq<char>)>;

pub open spec fn module_index(rows: ModuleRows, owner: i32, id: i32, i: int) -> bool {
    0 <= i < rows.len() && rows[i].0 == id && rows[i].1 == owner
}

pub open spec fn owns_module(rows: ModuleRows, owner: i32, id: i32) -> bool {
    exists|i: int| module_index(rows, owner, id, i)
}

pub open spec fn has_function(frows: FunctionRows, module_id: i32, name: Seq<char>) -> bool {
    exists|i: int| 0 <= i < frows.len() && (#[trigger] frows[i]).1 == module_id && frows[i].2 == name
}

/// The functions of module `id`, as `(name, signature text)`, in order.
pub open spec fn functions_of(frows: FunctionRows, id: i32) -> Seq<(Seq<char>, Seq<char>)>
    decreases frows.len(),
{
    if frows.len() == 0 {
        Seq::empty()
    } else {
        let r = functions_of(frows.drop_last(), id);
        if frows.last().1 == id {
            r.push((frows.last().2, frows.last().3))
        } else {
            r
        }
    }
}

/// The modules of `owner`, as `(id, content hash)`, in order.
pub open spec fn modules_of(rows: ModuleRows, owner: i32) -> Seq<(i32, Seq<char>)>
    decreases rows.len(),
{
    if rows.len() == 0 {
        Seq::empty()
    } else {
        let r = modules_of(rows.drop_last(), owner);
        if rows.last().1 == owner {
            r.push((rows.last().0, rows.last().2))
        } else {
            r
        }
    }
}

/// `fs` lists the functions `f`, one for one.
pub open spec fn lists_functions(fs: Seq<DeployedFunctionResponse>, f: Seq<(Seq<char>, Seq<char>)>) -> bool {
    &&& fs.len() == f.len()
    &&& forall|i: int|
        0 <= i < f.len() ==> (#[trigger] fs[i]).function@ == f[i].0 && fs[i].signature@ == f[i].1
}

pub open spec fn rows_of_functions(fs: Seq<FunctionRecord>) -> FunctionRows {
    fs.map_values(|f: FunctionRecord| (f.id, f.module_id, f.name@, f.signature@))
}

fn copy_module(m: &ModuleRecord) -> (r: ModuleRecord)
    ensures
        r.id == m.id,
        r.owner_id == m.owner_id,
        r.code_hash@ == m.code_hash@,
        r.wasm_code@ == m.wasm_code@,
{
    let code = m.wasm_code.clone();
    assert(code@ =~= m.wasm_code@);
    ModuleRecord { id: m.id, owner_id: m.owner_id, code_hash: m.code_hash.clone(), wasm_code: code }
}

impl ModuleRegistry {
    pub closed spec fn function_rows(&self) -> FunctionRows {
        rows_of_functions(self.functions@)
    }

    fn module_position(&self, owner: i32, id: i32) -> (r: Option<usize>)
        ensures
            match r {
                Some(i) => module_index(self.rows(), owner, id, i as int),
                None => !owns_module(self.rows(), owner, id),
            },
    {
        let mut i: usize = 0;
        while i < self.modules.len()
            invariant
                i <= self.modules@.len(),
                forall|k: int| 0 <= k < i ==> !module_index(self.rows(), owner, id, k),
            decreases self.modules@.len() - i,
        {
            if self.modules[i].id == id && self.modules[i].owner_id == owner {
                return Some(i);
            }
            i += 1;
        }
        None
    }

    /// The module `id`, if `owner` deployed it.
    pub fn find_module(&self, owner: i32, id: i32) -> (r: Result<ModuleExtractor, AwsError>)
        ensures
            match r {
                Ok(m) => m.0.id == id && m.0.owner_id == owner && exists|i: int|
                    module_index(self.rows(), owner, id, i) && self.rows()[i].2 == m.0.code_hash@,
                Err(e) => !owns_module(self.rows(), owner, id) && e == AwsError::EndpointNotFound(
                    id,
                ),
            },
    {
        match self.module_position(owner, id) {
            Some(i) => Ok(ModuleExtractor(copy_module(&self.modules[i]))),
            None => Err(AwsError::EndpointNotFound(id)),
        }
    }

    /// The module `id` of `owner` and its function `name`.
    pub fn find_function(&self, owner: i32, id: i32, name: &str) -> (r: Result<ModuleFunctionExtract, AwsError>)
        ensures
            match r {
                Ok(x) => {
                    &&& x.module.id == id && x.module.owner_id == owner
                    &&& exists|i: int|
                        module_index(self.rows(), owner, id, i) && self.rows()[i].2
                            == x.module.code_hash@
                    &&& x.function.module_id == id && x.function.name@ == name@
                    &&& exists|j: int|
                        0 <= j < self.function_rows().len() && #[trigger] self.function_rows()[j]
                            == (x.function.id, id, name@, x.function.signature@)
                },
                Err(e) => if !owns_module(self.rows(), owner, id) {
                    e == AwsError::EndpointNotFound(id)
                } else {
                    !has_function(self.function_rows(), id, name@) && (e matches AwsError::FunctionNotFound(n)
                        && n@ == name@)
                },
            },
    {
        let ModuleExtractor(module) = self.find_module(owner, id)?;
        let wanted = name.to_owned();
        let mut j: usize = 0;
        while j < self.functions.len()
            invariant
                j <= self.functions@.len(),
                wanted@ == name@,
                module.id == id && module.owner_id == owner,
                exists|i: int|
                    module_index(self.rows(), owner, id, i) && self.rows()[i].2
                        == module.code_hash@,
                forall|k: int|
                    0 <= k < j ==> !((#[trigger] self.function_rows()[k]).1 == id
                        && self.function_rows()[k].2 == name@),
            decreases self.functions@.len() - j,
        {
            let f = &self.functions[j];
            if f.module_id == id && f.name == wanted {
                let function = FunctionRecord {
                    id: f.id,
                    module_id: f.module_id,
                    name: f.name.clone(),
                    signature: f.signature.clone(),
                };
                assert(self.function_rows()[j as int] == (function.id, id, name@, function.signature@));
                return Ok(ModuleFunctionExtract { module, function });
            }
            assert(self.function_rows()[j as int].1 == f.module_id);
            j += 1;
        }
        Err(AwsError::FunctionNotFound(name.to_owned()))
    }
}

impl ModuleRegistry {
    fn functions_listing(&self, id: i32) -> (r: Vec<DeployedFunctionResponse>)
        ensures
            lists_functions(r@, functions_of(self.function_rows(), id)),
    {
        let mut out: Vec<DeployedFunctionResponse> = Vec::new();
        let mut j: usize = 0;
        while j < self.functions.len()
            invariant
                j <= self.functions@.len(),
                lists_functions(out@, functions_of(self.function_rows().subrange(0, j as int), id)),
            decreases self.functions@.len() - j,
        {
            let ghost pre = self.function_rows().subrange(0, j as int);
            let ghost next = self.function_rows().subrange(0, j + 1);
            assert(next.drop_last() =~= pre);
            let f = &self.functions[j];
            if f.module_id == id {
                out.push(DeployedFunctionResponse { function: f.name.clone(), signature: f.signature.clone() });
            }
            j += 1;
        }
        assert(self.function_rows().subrange(0, j as int) =~= self.function_rows());
        out
    }

    /// The modules that `owner` deployed, in deployment order, each with its functions.
    pub fn list(&self, owner: i32) -> (r: DeployedModulesResponse)
        ensures
            r.modules@.len() == modules_of(self.rows(), owner).len(),
            forall|i: int|
                0 <= i < r.modules@.len() ==> {
                    let m = modules_of(self.rows(), owner)[i];
                    &&& (#[trigger] r.modules@[i]).id == m.0
                    &&& r.modules@[i].module_hash@ == m.1
                    &&& lists_functions(r.modules@[i].functions@, functions_of(self.function_rows(), m.0))
                },
    {
        let mut out: Vec<GetModulesResponse> = Vec::new();
        let mut i: usize = 0;
        while i < self.modules.len()
            invariant
                i <= self.modules@.len(),
                out@.len() == modules_of(self.rows().subrange(0, i as int), owner).len(),
                forall|k: int|
                    0 <= k < out@.len() ==> {
                        let m = modules_of(self.rows().subrange(0, i as int), owner)[k];
                        &&& (#[trigger] out@[k]).id == m.0
                        &&& out@[k].module_hash@ == m.1
                        &&& lists_functions(out@[k].functions@, functions_of(self.function_rows(), m.0))
                    },
            decreases self.modules@.len() - i,
        {
            let ghost pre = self.rows().subrange(0, i as int);
            let ghost next = self.rows().subrange(0, i + 1);
            assert(next.drop_last() =~= pre);
            let m = &self.modules[i];
            if m.owner_id == owner {
                let functions = self.functions_listing(m.id);
                out.push(GetModulesResponse { id: m.id, module_hash: m.code_hash.clone(), functions });
            }
            i += 1;
        }
        assert(self.rows().subrange(0, i as int) =~= self.rows());
        DeployedModulesResponse { modules: out }
    }

    /// Removes module `id` of `owner` with its functions, and drops its compiled form
    /// from `cache`. A module that `owner` does not have is reported as `uri` not found,
    /// and nothing changes.
    pub fn delete(&mut self, owner: i32, id: i32, uri: &str, cache: &mut ModuleCache) -> (r: Result<(), AwsError>)
        requires
            old(self).wf(),
        ensures
            final(self).wf(),
            if owns_module(old(self).rows(), owner, id) {
                &&& r is Ok
                &&& exists|k: int|
                    module_index(old(self).rows(), owner, id, k) && final(self).rows() == old(
                        self,
                    ).rows().remove(k)
                &&& functions_of(final(self).function_rows(), id) == Seq::<(Seq<char>, Seq<char>)>::empty()
                &&& forall|other: i32|
                    other != id ==> #[trigger] functions_of(final(self).function_rows(), other)
                        == functions_of(old(self).function_rows(), other)
                &&& final(cache)@ == old(cache)@.remove(id)
            } else {
                &&& r matches Err(AwsError::NotFound(t)) && t@ == uri@
                &&& final(self).rows() == old(self).rows()
                &&& final(self).function_rows() == old(self).function_rows()
                &&& final(cache)@ == old(cache)@
            },
    {
        let k = match self.module_position(owner, id) {
            Some(k) => k,
            None => return Err(AwsError::NotFound(uri.to_owned())),
        };
        let ghost old_modules = self.modules@;
        let ghost old_rows = self.rows();
        let ghost old_frows = self.function_rows();
        self.modules.remove(k);
        assert(self.modules@ == old_modules.remove(k as int));
        assert(self.rows() =~= old_rows.remove(k as int));
        assert forall|i: int, j: int| 0 <= i < j < self.modules@.len() implies self.modules@[i].code_hash@
            != self.modules@[j].code_hash@ && self.modules@[i].id < self.modules@[j].id by {
            let oi = if i < k { i } else { i + 1 };
            let oj = if j < k { j } else { j + 1 };
            assert(self.modules@[i] == old_modules[oi]);
            assert(self.modules@[j] == old_modules[oj]);
        }
        assert forall|i: int| 0 <= i < self.modules@.len() implies self.modules@[i].id < self.next_module_id by {
            let oi = if i < k { i } else { i + 1 };
            assert(self.modules@[i] == old_modules[oi]);
        }
        let mut kept: Vec<FunctionRecord> = Vec::new();
        let mut j: usize = 0;
        while j < self.functions.len()
            invariant
                j <= self.functions@.len(),
                old_frows == self.function_rows(),
                forall|m: int|
                    0 <= m < self.functions@.len() ==> self.functions@[m].module_id < self.next_module_id,
                forall|m: int| 0 <= m < kept@.len() ==> kept@[m].module_id < self.next_module_id,
                functions_of(rows_of_functions(kept@), id)
                    == Seq::<(Seq<char>, Seq<char>)>::empty(),
                forall|other: i32|
                    other != id ==> #[trigger] functions_of(
                        rows_of_functions(kept@),
                        other,
                    ) == functions_of(old_frows.subrange(0, j as int), other),
            decreases self.functions@.len() - j,
        {
            let ghost pre = old_frows.subrange(0, j as int);
            let ghost next = old_frows.subrange(0, j + 1);
            assert(next.drop_last() =~= pre);
            let ghost kept_before = rows_of_functions(kept@);
            let f = &self.functions[j];
            if f.module_id != id {
                kept.push(FunctionRecord {
                    id: f.id,
                    module_id: f.module_id,
                    name: f.name.clone(),
                    signature: f.signature.clone(),
                });
                let ghost kept_after = rows_of_functions(kept@);
                assert(kept_after.drop_last() =~= kept_before);
                assert(kept_after.last() == next.last());
            }
            assert(next.last() == old_frows[j as int]);
            assert(old_frows[j as int].1 == f.module_id);
            assert forall|other: i32| other != id implies #[trigger] functions_of(
                rows_of_functions(kept@),
                other,
            ) == functions_of(next, other) by {
                assert(functions_of(kept_before, other) == functions_of(pre, other));
                let kept_after = rows_of_functions(kept@);
                if f.module_id != id {
                    assert(kept_after.drop_last() =~= kept_before);
                    assert(kept_after.last() == next.last());
                    assert(functions_of(kept_after, other) == if next.last().1 == other {
                        functions_of(pre, other).push((next.last().2, next.last().3))
                    } else {
                        functions_of(pre, other)
                    });
                } else {
                    assert(kept_after == kept_before);
                }
            }
            j += 1;
        }
        assert(old_frows.subrange(0, j as int) =~= old_frows);
        self.functions = kept;
        cache.remove(id);
        Ok(())
    }
}

/// A deployment that fails leaves the function rows as they were.
pub open spec fn keeps_functions(old: FunctionRows, new: FunctionRows, ok: bool) -> bool {
    !ok ==> new == old
}

/// Deploying the same bytecode a second time, by any owner, fails and adds no module row
/// and no function row.
pub proof fn lemma_redeploy_rejected(
    r0: ModuleRows,
    owner: i32,
    code: Seq<u8>,
    r1: ModuleRows,
    f1: FunctionRows,
    owner2: i32,
    r2: ModuleRows,
    f2: FunctionRows,
    ok2: bool,
)
    requires
        deploy_step(r0, owner, code, r1, true),
        deploy_step(r1, owner2, code, r2, ok2),
        keeps_functions(f1, f2, ok2),
    ensures
        !ok2,
        r2 == r1,
        f2 == f1,
{
    assert(r1[r1.len() - 1].2 == sha256_hex_of(code));
    assert(hash_taken(r1, sha256_hex_of(code)));
}

} // verus!

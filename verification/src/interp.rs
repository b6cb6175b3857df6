//! The interpreter boundary: uiua's compiler, runtime, values and errors,
//! declared opaquely, and one trusted wrapper per uiua call the engine makes.
//! Nothing is assumed about what executing a program leaves on the stack; the
//! engine is verified for every outcome these wrappers can hand back.

use vstd::prelude::*;

verus! {

#[verifier::external_type_specification]
#[verifier::external_body]
pub struct ExUiua(uiua::Uiua);

#[verifier::external_type_specification]
#[verifier::external_body]
pub struct ExCompiler(uiua::Compiler);

#[verifier::external_type_specification]
#[verifier::external_body]
pub struct ExAssembly(uiua::Assembly);

#[verifier::external_type_specification]
#[verifier::external_body]
pub struct ExValue(uiua::Value);

#[verifier::external_type_specification]
#[verifier::external_body]
pub struct ExUiuaError(uiua::UiuaError);

/// Relies on `uiua::Compiler::new`: a fresh compiler with nothing loaded.
#[verifier::external_body]
pub(crate) fn compiler_new() -> uiua::Compiler {
    uiua::Compiler::new()
}

/// Relies on `uiua::Compiler::load_str`: parses and compiles one source
/// text, `Err` when the source is syntactically or semantically invalid.
#[verifier::external_body]
pub(crate) fn compiler_load(c: &mut uiua::Compiler, source: &str) -> (r: Result<
    (),
    uiua::UiuaError,
>) {
    c.load_str(source).map(|_| ())
}

/// Relies on `uiua::Compiler::finish`: takes the compiled assembly out of
/// the compiler.
#[verifier::external_body]
pub(crate) fn compiler_finish(c: &mut uiua::Compiler) -> uiua::Assembly {
    c.finish()
}

/// Relies on `uiua::Uiua::with_safe_sys`: a runtime restricted to safe
/// system functions.
#[verifier::external_body]
pub(crate) fn runtime_new() -> uiua::Uiua {
    uiua::Uiua::with_safe_sys()
}

/// Relies on `uiua::Uiua::take_stacks`: removes every value left on the
/// runtime's stacks, so no residue from a previous block leaks into this one.
#[verifier::external_body]
pub(crate) fn runtime_clear_stacks(u: &mut uiua::Uiua) {
    let _ = u.take_stacks();
}

/// Relies on `uiua::Uiua::push` and uiua's `FromIterator` for `Array`: pushes
/// the rank-one numeric array whose elements carry the given 64-bit float bit
/// patterns, in order.
#[verifier::external_body]
pub(crate) fn runtime_push_array(u: &mut uiua::Uiua, words: &Vec<u64>) {
    let arr = words.iter().map(|w| bytemuck::cast::<u64, _>(*w)).collect();
    u.push(uiua::Value::Num(arr));
}

/// Relies on `uiua::Uiua::push` and `uiua::Array::scalar`: pushes the numeric
/// scalar whose value carries the given 64-bit float bit pattern.
#[verifier::external_body]
pub(crate) fn runtime_push_scalar(u: &mut uiua::Uiua, word: u64) {
    u.push(uiua::Value::Num(uiua::Array::scalar(bytemuck::cast::<u64, _>(word))));
}

/// Relies on `uiua::Uiua::run_asm` on a clone of the compiled assembly
/// (uiua's assemblies clone by reference count, no deep copy): installs the
/// assembly into the runtime and executes its root against the current
/// stack, `Err` on a runtime error. What it leaves on the stack is not
/// assumed here.
#[verifier::external_body]
pub(crate) fn runtime_run_assembly(u: &mut uiua::Uiua, a: &uiua::Assembly) -> (r: Result<
    (),
    uiua::UiuaError,
>) {
    u.run_asm(a.clone())
}

/// Relies on `uiua::Uiua::pop`: takes the top value off the stack, `Err`
/// when the stack is empty.
#[verifier::external_body]
pub(crate) fn runtime_pop(u: &mut uiua::Uiua) -> (r: Result<uiua::Value, uiua::UiuaError>) {
    u.pop(())
}

/// Relies on `uiua::Value::as_nums`: `Ok` exactly when the value is a
/// numeric array of rank at most one (converting byte arrays to numbers),
/// whose elements are returned here as 64-bit float bit patterns, in order.
#[verifier::external_body]
pub(crate) fn value_to_words(v: &uiua::Value, env: &uiua::Uiua) -> (r: Result<
    Vec<u64>,
    uiua::UiuaError,
>) {
    let nums = v.as_nums(env, Some("worklet program must return numeric samples"))?;
    Ok(nums.iter().map(|x| x.to_bits()).collect())
}

/// Relies on `uiua::UiuaError`'s `Display` impl; used for reporting only.
#[verifier::external_body]
pub(crate) fn error_text(e: &uiua::UiuaError) -> (r: String) {
    e.to_string()
}

} // verus!

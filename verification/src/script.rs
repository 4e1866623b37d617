//! The script engine adapter: the few places where the library leans on the
//! `rhai` interpreter.
//!
//! A script is compiled into a [`rhai::AST`] by an engine that exposes a
//! fixed, minimal standard surface (arithmetic, logic, iteration, basic math,
//! basic arrays) and nothing else — in particular no filesystem, network or
//! process capabilities.  Whether a given source text parses is a fact about
//! the text alone; the pipeline's contracts speak of it through the
//! uninterpreted predicate [`parses`].  Evaluating the compiled functions
//! returns floating-point values and is therefore left to the caller, which
//! hands the results back to the pipeline as plain events.

use vstd::prelude::*;
use rhai::packages::ArithmeticPackage;
use rhai::packages::BasicArrayPackage;
use rhai::packages::BasicIteratorPackage;
use rhai::packages::BasicMathPackage;
use rhai::packages::LanguageCorePackage;
use rhai::packages::LogicPackage;
use rhai::packages::Package;

verus! {

#[verifier::external_type_specification]
#[verifier::external_body]
pub struct ExEngine(rhai::Engine);

#[verifier::external_type_specification]
#[verifier::external_body]
pub struct ExAst(rhai::AST);

#[verifier::external_type_specification]
#[verifier::external_body]
pub struct ExParseError(rhai::ParseError);

/// Whether the embedded language's default grammar accepts a source text.
/// This is what `rhai::Engine::compile` decides for a freshly built engine —
/// no custom syntax or operators, no disabled symbols, default depth limits —
/// which is the only way [`compile_program`] ever compiles; on such an
/// engine the outcome depends on the text alone.
pub uninterp spec fn parses(source: Seq<char>) -> bool;

/// Relies on `rhai::Engine::new_raw` and
/// `rhai::packages::Package::register_into_engine`: builds a raw engine and
/// registers exactly the six packages that make up the adapter's fixed
/// standard surface (language core, arithmetic, iteration, logic, basic
/// math, basic arrays).
#[verifier::external_body]
pub(crate) fn new_engine() -> rhai::Engine {
    let mut engine = rhai::Engine::new_raw();
    LanguageCorePackage::new().register_into_engine(&mut engine);
    ArithmeticPackage::new().register_into_engine(&mut engine);
    BasicIteratorPackage::new().register_into_engine(&mut engine);
    LogicPackage::new().register_into_engine(&mut engine);
    BasicMathPackage::new().register_into_engine(&mut engine);
    BasicArrayPackage::new().register_into_engine(&mut engine);
    engine
}

/// Relies on `rhai::AST::default`: an empty program, holding no functions at
/// all, used before the first successful compilation.
#[verifier::external_body]
pub(crate) fn empty_program() -> rhai::AST {
    rhai::AST::default()
}

/// Relies on `rhai::Engine::compile`: parses a source text into an `AST`
/// without running any of it.  The call always goes through a freshly built
/// engine with the default grammar settings (registered packages do not
/// affect parsing), never through a caller-supplied one, so the outcome is
/// decided by the source text alone, which is what [`parses`] names.
#[verifier::external_body]
pub(crate) fn compile_program(source: &str) -> (r: Result<rhai::AST, rhai::ParseError>)
    ensures
        (r matches Ok(_)) == parses(source@),
{
    rhai::Engine::new_raw().compile(source)
}

/// Relies on the `Debug` impl that `rhai` derives for `ParseError`: its
/// output starts with the type's name, so the diagnostic is never empty.
#[verifier::external_body]
pub(crate) fn parse_error_text(e: &rhai::ParseError) -> (r: String)
    ensures
        r@.len() > 0,
{
    format!("{:?}", e)
}

} // verus!

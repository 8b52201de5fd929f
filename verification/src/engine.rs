//! The engine: the Rune compiler and virtual machine, seen from the session.
//!
//! The session treats the engine as a black box with two primitives: compile a
//! complete program text, and run the entry routine of a compiled unit. Every
//! call into the `rune` crate is isolated in a small trusted wrapper here; the
//! verified [`Engine::submit`] drives those wrappers and reduces whatever the
//! engine did to a plain [`Verdict`] that the session logic can reason about.

use vstd::prelude::*;
use std::sync::Arc;

verus! {

// ---------------------------------------------------------------------------
// Declarations of the engine's types, so that they can appear in signatures.
// Each value of these types is opaque to the verifier and is only carried
// between the trusted wrappers below.
// ---------------------------------------------------------------------------
#[verifier::external_type_specification]
#[verifier::external_body]
pub struct ExContext(rune::Context);

#[verifier::external_type_specification]
#[verifier::external_body]
pub struct ExContextError(rune::ContextError);

#[verifier::external_type_specification]
#[verifier::external_body]
pub struct ExRuntimeContext(rune::runtime::RuntimeContext);

#[verifier::external_type_specification]
#[verifier::external_body]
pub struct ExSources(rune::Sources);

#[verifier::external_type_specification]
#[verifier::external_body]
pub struct ExDiagnostics(rune::Diagnostics);

#[verifier::external_type_specification]
#[verifier::external_body]
pub struct ExArrayUnit(rune::runtime::unit::ArrayUnit);

#[verifier::external_type_specification]
#[verifier::external_body]
#[verifier::reject_recursive_types(S)]
pub struct ExUnit<S>(rune::runtime::Unit<S>);

#[verifier::external_type_specification]
#[verifier::external_body]
pub struct ExVm(rune::Vm);

#[verifier::external_type_specification]
#[verifier::external_body]
pub struct ExValue(rune::Value);

#[verifier::external_type_specification]
#[verifier::external_body]
pub struct ExVmError(rune::runtime::VmError);

#[verifier::external_type_specification]
#[verifier::external_body]
pub struct ExBuildError(rune::BuildError);

#[verifier::external_type_specification]
#[verifier::external_body]
pub struct ExAllocError(rune::alloc::Error);

// ---------------------------------------------------------------------------
// Names for what the engine computes.
// ---------------------------------------------------------------------------
/// The texts that a source collection holds, in insertion order.
pub uninterp spec fn sources_texts(sources: rune::Sources) -> Seq<Seq<char>>;

/// Whether the engine's compiler accepts these texts as one program, under
/// the default module set and the default compiler options. With those fixed
/// (see [`build_sources`]) acceptance depends on the texts alone; what it is
/// on given texts only the engine can say.
pub uninterp spec fn compiles(texts: Seq<Seq<char>>) -> bool;

// ---------------------------------------------------------------------------
// Trusted wrappers, one per engine operation the session relies on.
// ---------------------------------------------------------------------------
/// Relies on rune::Context::with_default_modules: builds a compiler context
/// holding the language's default module set, or reports why it could not.
#[verifier::external_body]
fn context_with_default_modules() -> (r: Result<rune::Context, rune::ContextError>) {
    rune::Context::with_default_modules()
}

/// Relies on rune::Context::runtime: extracts the runtime half of a compiler
/// context, which the virtual machine needs to execute compiled units.
#[verifier::external_body]
fn context_runtime(context: &rune::Context) -> (r: Result<
    rune::runtime::RuntimeContext,
    rune::alloc::Error,
>) {
    context.runtime()
}

/// Relies on rune::Sources::new, rune::Source::new and rune::Sources::insert:
/// builds a source collection holding exactly the one given text, under a
/// display name used by diagnostics. The one insert into a fresh collection
/// stays far below the source count at which the engine's insert panics.
#[verifier::external_body]
fn sources_with_one(name: &str, text: &str) -> (r: Result<rune::Sources, rune::alloc::Error>)
    ensures
        r matches Ok(s) ==> sources_texts(s) == seq![text@],
{
    let mut sources = rune::Sources::new();
    let source = rune::Source::new(name, text)?;
    sources.insert(source)?;
    Ok(sources)
}

/// Relies on rune::Diagnostics::new: creates an empty diagnostics collector.
#[verifier::external_body]
fn diagnostics_new() -> (r: rune::Diagnostics) {
    rune::Diagnostics::new()
}

/// Relies on rune::prepare and rune::Build::build: compiles the collected
/// sources into a unit, recording every error and warning in the diagnostics
/// collector. The build gets explicit default options (so it reads nothing
/// from the environment), and every [`Engine`] holds the default module set,
/// so whether the texts build depends on the texts alone: a returned unit
/// means the engine's compiler accepts them. Nothing is promised of the error
/// side: the build also fails on an allocation failure, which can strike a
/// program that compiles.
#[verifier::external_body]
fn build_sources(
    engine: &Engine,
    sources: &mut rune::Sources,
    diagnostics: &mut rune::Diagnostics,
) -> (r: Result<rune::Unit, rune::BuildError>)
    ensures
        r is Ok ==> compiles(sources_texts(*old(sources))),
{
    let options = rune::Options::default();
    rune::prepare(sources)
        .with_context(&engine.context)
        .with_options(&options)
        .with_diagnostics(diagnostics)
        .build()
}

/// Relies on rune::Diagnostics::is_empty: true when the collector recorded
/// neither errors nor warnings.
#[verifier::external_body]
fn diagnostics_is_empty(diagnostics: &rune::Diagnostics) -> (r: bool) {
    diagnostics.is_empty()
}

/// Relies on rune::Diagnostics::has_error: true when the collector recorded a
/// fatal diagnostic, which is how the engine reports that it refused the
/// sources (as opposed to a build that failed without refusing them).
#[verifier::external_body]
fn diagnostics_has_error(diagnostics: &rune::Diagnostics) -> (r: bool) {
    diagnostics.has_error()
}

/// Relies on rune::Diagnostics::emit: renders the recorded diagnostics, with
/// color turned off, against the sources they refer to.
#[verifier::external_body]
fn render_diagnostics(diagnostics: &rune::Diagnostics, sources: &rune::Sources) -> (r: String) {
    let mut out = rune::termcolor::NoColor::new(Vec::new());
    let _ = diagnostics.emit(&mut out, sources);
    String::from_utf8_lossy(&out.into_inner()).into_owned()
}

/// Relies on rune::Vm::new: binds a runtime context and a compiled unit into
/// a fresh virtual machine.
#[verifier::external_body]
fn vm_new(runtime: &Arc<rune::runtime::RuntimeContext>, unit: Arc<rune::Unit>) -> (r: rune::Vm) {
    rune::Vm::new(runtime.clone(), unit)
}

/// Relies on rune::Vm::call: invokes the named entry routine with no
/// arguments and drives it to completion. Passing no arguments keeps clear of
/// the reference-argument case in which that call is documented to panic.
#[verifier::external_body]
fn vm_call(vm: &mut rune::Vm, entry: &str) -> (r: Result<rune::Value, rune::runtime::VmError>) {
    vm.call([entry], ())
}

/// Relies on rune::runtime::VmError::emit: renders a runtime error, with
/// color turned off, against the sources the failing unit was built from.
#[verifier::external_body]
fn render_vm_error(error: &rune::runtime::VmError, sources: &rune::Sources) -> (r: String) {
    let mut out = rune::termcolor::NoColor::new(Vec::new());
    let _ = error.emit(&mut out, sources);
    String::from_utf8_lossy(&out.into_inner()).into_owned()
}

/// Relies on the Display impl of rune::alloc::Error: a one-line message.
#[verifier::external_body]
fn render_alloc_error(error: &rune::alloc::Error) -> (r: String) {
    format!("{}", error)
}

/// Relies on the Display impl of rune::BuildError: a one-line message for a
/// build that failed without the compiler refusing the sources.
#[verifier::external_body]
fn render_build_error(error: &rune::BuildError) -> (r: String) {
    format!("{}", error)
}

/// Relies on the Display impl of rune::ContextError: a one-line message.
#[verifier::external_body]
fn render_context_error(error: &rune::ContextError) -> (r: String) {
    format!("{}", error)
}

// ---------------------------------------------------------------------------
// The verified surface of the engine.
// ---------------------------------------------------------------------------
/// Why an [`Engine`] could not be constructed, as rendered text.
#[derive(Debug)]
pub struct EngineError {
    pub message: String,
}

/// What the engine said about one submitted program.
///
/// The engine alone decides which variant comes back; the session's contracts
/// therefore state what happens to its state for every variant.
#[derive(Debug)]
pub enum Verdict {
    /// The program was rejected by the compiler; the rendered diagnostic
    /// explains why.
    Rejected { diagnostic: String },
    /// The program compiled and its entry routine ran to completion, producing
    /// a value. Any compiler warnings come rendered alongside it.
    Completed { value: rune::Value, warnings: Option<String> },
    /// The program compiled but failed while executing (or the engine itself
    /// faulted); the rendered diagnostic explains why.
    Faulted { diagnostic: String },
}

/// A shared, immutable handle to the compiler and virtual machine.
pub struct Engine {
    context: rune::Context,
    runtime: Arc<rune::runtime::RuntimeContext>,
}

impl Engine {
    /// Builds an engine around the language's default module set.
    pub fn new() -> (r: Result<Engine, EngineError>) {
        let context = match context_with_default_modules() {
            Ok(context) => context,
            Err(e) => {
                return Err(EngineError { message: render_context_error(&e) });
            },
        };
        let runtime = match context_runtime(&context) {
            Ok(runtime) => runtime,
            Err(e) => {
                return Err(EngineError { message: render_alloc_error(&e) });
            },
        };
        Ok(Engine { context, runtime: Arc::new(runtime) })
    }

    /// Compiles one complete program text and, when compilation succeeds, runs
    /// its entry routine of the given name to completion.
    ///
    /// The engine alone decides the verdict; what can be promised of every
    /// outcome is that a completed run means the engine's compiler accepts the
    /// program, so a program it does not accept never completes. A failed
    /// build becomes a rejection when the engine recorded a fatal diagnostic
    /// for it, and a fault otherwise; warnings are rendered exactly when the
    /// build recorded any.
    pub fn submit(&self, program: &str, entry: &str) -> (v: Verdict)
        ensures
            v is Completed ==> compiles(seq![program@]),
            !compiles(seq![program@]) ==> !(v is Completed),
    {
        let mut sources = match sources_with_one("script", program) {
            Ok(sources) => sources,
            Err(e) => {
                return Verdict::Faulted { diagnostic: render_alloc_error(&e) };
            },
        };
        let mut diagnostics = diagnostics_new();
        match build_sources(self, &mut sources, &mut diagnostics) {
            Err(e) => {
                if diagnostics_has_error(&diagnostics) {
                    Verdict::Rejected { diagnostic: render_diagnostics(&diagnostics, &sources) }
                } else {
                    Verdict::Faulted { diagnostic: render_build_error(&e) }
                }
            },
            Ok(unit) => {
                let warnings = if diagnostics_is_empty(&diagnostics) {
                    None
                } else {
                    Some(render_diagnostics(&diagnostics, &sources))
                };
                let mut vm = vm_new(&self.runtime, Arc::new(unit));
                match vm_call(&mut vm, entry) {
                    Ok(value) => Verdict::Completed { value, warnings },
                    Err(e) => Verdict::Faulted {
                        diagnostic: render_vm_error(&e, &sources),
                    },
                }
            },
        }
    }
}

} // verus!

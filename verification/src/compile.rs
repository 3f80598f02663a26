//! Compiling a LaTeX document: choosing the engine for a request, turning the
//! outcome of a run into the result shown to the user, and writing the log.
use vstd::prelude::*;
use vstd::utf8::{decode_utf8, decode_utf8_encode_utf8, encode_scalar, encode_utf8, valid_utf8};

use crate::engines::{builtin_definitions, latex_compiler_definitions, texts, DefinitionView, LatexCompilerDefinition};
use crate::polling::COMPILE_TIMEOUT_NANOS;
use crate::text::same_text;

verus! {

/// A request to compile `source` with the engine named `compiler_id`.
#[derive(Debug, Clone, PartialEq, Eq)]
pub struct CompileLatexDocumentRequest {
    pub compiler_id: String,
    pub source: String,
}

/// What a compile gave: whether it succeeded, the engine's log, and where the
/// PDF is when one was written.
#[derive(Debug, Clone, PartialEq, Eq)]
pub struct CompileLatexDocumentResult {
    pub success: bool,
    pub log: String,
    pub pdf_path: Option<String>,
}

/// A compile result seen as text.
pub struct CompileResultView {
    pub success: bool,
    pub log: Seq<char>,
    pub pdf_path: Option<Seq<char>>,
}

impl View for CompileLatexDocumentResult {
    type V = CompileResultView;

    open spec fn view(&self) -> CompileResultView {
        CompileResultView {
            success: self.success,
            log: self.log@,
            pdf_path: match self.pdf_path {
                Some(p) => Some(p@),
                None => None,
            },
        }
    }
}

/// One run of an engine: the request's engine and source, the working
/// directory prepared for it, the command and arguments that start the
/// engine there, and how long the run may take.
pub struct CompileJob<W> {
    pub compiler_id: String,
    pub source: String,
    pub working_dir: W,
    pub command: &'static str,
    pub args: &'static [&'static str],
    pub timeout_nanos: u128,
}

/// A request accepted for compiling: its engine is the first definition
/// with the requested identifier, whose command and arguments are kept here.
pub struct CompilePlan {
    pub compiler_id: String,
    pub source: String,
    pub definition_index: usize,
    pub command: &'static str,
    pub args: &'static [&'static str],
}

/// What an engine run gave, when it got as far as running the engine.
pub enum EngineRun {
    /// The engine exited; `pdf_exists` says whether the PDF at `pdf_path`
    /// was there afterwards, and `log` is what the engine wrote.
    Exited { success: bool, pdf_exists: bool, log: String, pdf_path: String },
    /// The engine was killed for taking too long; `log` is what it wrote.
    TimedOut { log: String },
}

/// The result of a compile that failed before or without an engine run.
pub open spec fn failure(log: Seq<char>) -> CompileResultView {
    CompileResultView { success: false, log, pdf_path: None }
}

/// The result of an engine run that exited.
pub open spec fn finished(exit_success: bool, pdf_exists: bool, log: Seq<char>, pdf_path: Seq<char>) -> CompileResultView {
    CompileResultView {
        success: exit_success && pdf_exists,
        log,
        pdf_path: if pdf_exists { Some(pdf_path) } else { None },
    }
}

/// The log of a request for an engine the workbench does not know.
pub open spec fn unsupported_log(compiler_id: Seq<char>) -> Seq<char> {
    "Unsupported LaTeX compiler: "@ + compiler_id
}

/// The log of a compile that ran out of time.
pub open spec fn timed_out_log(log: Seq<char>) -> Seq<char> {
    if log.len() == 0 {
        "Compile timed out."@
    } else {
        "Compile timed out.\n"@ + log
    }
}

/// The result shown for an engine run.
pub open spec fn run_view(run: EngineRun) -> CompileResultView {
    match run {
        EngineRun::Exited { success, pdf_exists, log, pdf_path } => finished(success, pdf_exists, log@, pdf_path@),
        EngineRun::TimedOut { log } => failure(timed_out_log(log@)),
    }
}

/// The result shown for what running an engine gave.
pub open spec fn outcome_view(outcome: Result<EngineRun, String>) -> CompileResultView {
    match outcome {
        Ok(run) => run_view(run),
        Err(error) => failure(error@),
    }
}

/// Definition `i` is the first whose identifier is `id`.
pub open spec fn is_first_with_id(defs: Seq<DefinitionView>, id: Seq<char>, i: int) -> bool {
    &&& 0 <= i < defs.len()
    &&& defs[i].id == id
    &&& forall|j: int| 0 <= j < i ==> (#[trigger] defs[j]).id != id
}

/// Some definition has identifier `id`.
pub open spec fn has_id(defs: Seq<DefinitionView>, id: Seq<char>) -> bool {
    exists|i: int| 0 <= i < defs.len() && (#[trigger] defs[i]).id == id
}

/// `plan` accepts the request for `compiler_id` and `source` against `defs`:
/// it uses the first definition with that identifier, with its command and
/// arguments.
pub open spec fn plan_for(plan: CompilePlan, defs: Seq<DefinitionView>, compiler_id: Seq<char>, source: Seq<char>) -> bool {
    let i = plan.definition_index as int;
    &&& is_first_with_id(defs, compiler_id, i)
    &&& plan.compiler_id@ == compiler_id
    &&& plan.source@ == source
    &&& plan.command@ == defs[i].command
    &&& plan.args@.map_values(|a: &'static str| a@) == defs[i].args
}

/// `job` carries out `plan` in `working_dir`, with the compile time-out.
pub open spec fn job_for<W>(job: CompileJob<W>, plan: CompilePlan, working_dir: W) -> bool {
    &&& job.compiler_id == plan.compiler_id
    &&& job.source == plan.source
    &&& job.working_dir == working_dir
    &&& job.command == plan.command
    &&& job.args == plan.args
    &&& job.timeout_nanos == COMPILE_TIMEOUT_NANOS
}

/// `job` runs the engine that the request for `compiler_id` and `source`
/// names in `defs`.
pub open spec fn job_runs_request<W>(job: CompileJob<W>, defs: Seq<DefinitionView>, compiler_id: Seq<char>, source: Seq<char>) -> bool {
    exists|plan: CompilePlan, dir: W| #[trigger] plan_for(plan, defs, compiler_id, source) && #[trigger] job_for(job, plan, dir)
}

/// What compiling a request against `defs` gives, for what preparing the
/// working directory and running the engine gave.
pub open spec fn compile_outcome<W, P, C>(
    defs: Seq<DefinitionView>,
    compiler_id: Seq<char>,
    source: Seq<char>,
    prepare_working_dir: P,
    compile_document_with: C,
    result: CompileResultView,
) -> bool
    where P: FnOnce(&CompilePlan) -> Result<W, String>, C: FnOnce(CompileJob<W>) -> Result<EngineRun, String>
{
    &&& !has_id(defs, compiler_id) ==> result == failure(unsupported_log(compiler_id))
    &&& has_id(defs, compiler_id) ==> exists|plan: CompilePlan| {
        &&& #[trigger] plan_for(plan, defs, compiler_id, source)
        &&& exists|prepared: Result<W, String>| {
            &&& #[trigger] call_ensures(prepare_working_dir, (&plan,), prepared)
            &&& match prepared {
                Err(error) => result == failure(error@),
                Ok(dir) => exists|job: CompileJob<W>, outcome: Result<EngineRun, String>| {
                    &&& job_for(job, plan, dir)
                    &&& #[trigger] call_ensures(compile_document_with, (job,), outcome)
                    &&& result == outcome_view(outcome)
                },
            }
        }
    }
}

/// Every result a compile reports keeps its promise: a successful compile
/// names the PDF it produced.
pub open spec fn keeps_pdf_promise(result: CompileResultView) -> bool {
    result.success ==> result.pdf_path is Some
}

/// Text decoded from bytes as `String::from_utf8_lossy` decodes it, with
/// every malformed sequence replaced by U+FFFD.
pub uninterp spec fn utf8_lossy(bytes: Seq<u8>) -> Seq<char>;

/// Decodes `bytes` by calling `String::from_utf8_lossy` and taking the text
/// out of the `Cow`.  Trusted: the text is named `utf8_lossy(bytes)`, and for
/// bytes that are valid UTF-8 it is their decoding, as the function's
/// documentation says; how malformed bytes are replaced is left unstated.
#[verifier::external_body]
fn decode_lossy(bytes: &[u8]) -> (text: String)
    ensures
        text@ == utf8_lossy(bytes@),
        valid_utf8(bytes@) ==> text@ == decode_utf8(bytes@),
{
    String::from_utf8_lossy(bytes).into_owned()
}

/// The result of a compile that failed before or without an engine run:
/// no success, the given log, no PDF.
pub fn failed_compile_result(log: String) -> (result: CompileLatexDocumentResult)
    ensures
        result@ == failure(log@),
{
    CompileLatexDocumentResult { success: false, log, pdf_path: None }
}

/// "Unsupported LaTeX compiler: " followed by the requested identifier.
pub fn unsupported_compiler_log(compiler_id: &str) -> (log: String)
    ensures
        log@ == unsupported_log(compiler_id@),
{
    let mut log = String::new();
    log.append("Unsupported LaTeX compiler: ");
    log.append(compiler_id);
    log
}

/// The engine's standard output followed by its standard error, each decoded
/// as UTF-8 with malformed bytes replaced.
pub fn format_process_log(stdout: &[u8], stderr: &[u8]) -> (log: String)
    ensures
        log@ == utf8_lossy(stdout@) + utf8_lossy(stderr@),
        valid_utf8(stdout@) && valid_utf8(stderr@) ==> log@ == decode_utf8(stdout@) + decode_utf8(stderr@),
        valid_utf8(stdout@) && valid_utf8(stderr@) ==> encode_utf8(log@) == stdout@ + stderr@,
{
    let mut log = String::new();
    let out = decode_lossy(stdout);
    let err = decode_lossy(stderr);
    log.append(out.as_str());
    log.append(err.as_str());
    proof {
        if valid_utf8(stdout@) && valid_utf8(stderr@) {
            lemma_log_keeps_valid_bytes(stdout@, stderr@);
        }
    }
    log
}

/// Encoding a concatenation encodes each part in turn.
pub proof fn lemma_encode_utf8_concat(a: Seq<char>, b: Seq<char>)
    ensures
        encode_utf8(a + b) == encode_utf8(a) + encode_utf8(b),
    decreases a.len(),
{
    if a.len() == 0 {
        assert(a + b =~= b);
    } else {
        lemma_encode_utf8_concat(a.drop_first(), b);
        assert((a + b).drop_first() =~= a.drop_first() + b);
        assert((a + b)[0] == a[0]);
        assert(encode_utf8(a + b) =~= encode_scalar(a[0] as u32) + encode_utf8(a.drop_first() + b));
    }
}

/// When the engine writes valid UTF-8 on both streams, the log loses and
/// replaces nothing: its UTF-8 bytes are exactly standard output followed
/// by standard error.
pub proof fn lemma_log_keeps_valid_bytes(stdout: Seq<u8>, stderr: Seq<u8>)
    requires
        valid_utf8(stdout),
        valid_utf8(stderr),
    ensures
        encode_utf8(decode_utf8(stdout) + decode_utf8(stderr)) == stdout + stderr,
        (decode_utf8(stdout) + decode_utf8(stderr)).len() <= stdout.len() + stderr.len(),
{
    lemma_encode_utf8_concat(decode_utf8(stdout), decode_utf8(stderr));
    decode_utf8_encode_utf8(stdout);
    decode_utf8_encode_utf8(stderr);
    lemma_encoding_is_no_shorter(decode_utf8(stdout) + decode_utf8(stderr));
}

/// Every character takes at least one byte.
proof fn lemma_encoding_is_no_shorter(chars: Seq<char>)
    ensures
        chars.len() <= encode_utf8(chars).len(),
    decreases chars.len(),
{
    if chars.len() > 0 {
        lemma_encoding_is_no_shorter(chars.drop_first());
        assert(encode_scalar(chars[0] as u32).len() >= 1);
    }
}

/// The result of an engine run that exited: it succeeded when the engine
/// exited successfully and the PDF exists, and it names the PDF whenever the
/// PDF exists, whatever the exit status.
pub fn finished_compile_result(exit_success: bool, pdf_exists: bool, log: String, pdf_path: String) -> (result: CompileLatexDocumentResult)
    ensures
        result@ == finished(exit_success, pdf_exists, log@, pdf_path@),
{
    let pdf = if pdf_exists { Some(pdf_path) } else { None };
    CompileLatexDocumentResult { success: exit_success && pdf_exists, log, pdf_path: pdf }
}

/// The result of an engine run that was killed for taking too long: no
/// success, no PDF, and the log "Compile timed out." followed, on a line of
/// its own, by whatever the engine wrote.
pub fn timed_out_compile_result(log: String) -> (result: CompileLatexDocumentResult)
    ensures
        result@ == failure(timed_out_log(log@)),
{
    let text = if log.as_str().is_empty() {
        let mut text = String::new();
        text.append("Compile timed out.");
        text
    } else {
        let mut text = String::new();
        text.append("Compile timed out.\n");
        text.append(log.as_str());
        text
    };
    CompileLatexDocumentResult { success: false, log: text, pdf_path: None }
}

/// The first definition whose identifier is `compiler_id`, if any.
pub fn find_compiler_definition(definitions: &[LatexCompilerDefinition], compiler_id: &str) -> (found: Option<usize>)
    ensures
        match found {
            Some(i) => is_first_with_id(texts(definitions@), compiler_id@, i as int),
            None => !has_id(texts(definitions@), compiler_id@),
        },
{
    let mut i: usize = 0;
    while i < definitions.len()
        invariant
            i <= definitions@.len(),
            forall|j: int| 0 <= j < i ==> (#[trigger] texts(definitions@)[j]).id != compiler_id@,
        decreases definitions@.len() - i,
    {
        if same_text(definitions[i].id, compiler_id) {
            return Some(i);
        }
        i = i + 1;
    }
    None
}

/// The first step of a compile, taken before anything touches the file
/// system: a request for an engine that `definitions` does not know is turned
/// away with its final result, "Unsupported LaTeX compiler: <id>"; any other
/// is accepted with the first definition of that engine.
pub fn start_compile(request: CompileLatexDocumentRequest, definitions: &[LatexCompilerDefinition]) -> (start: Result<CompilePlan, CompileLatexDocumentResult>)
    ensures
        match start {
            Ok(plan) => has_id(texts(definitions@), request.compiler_id@)
                && plan_for(plan, texts(definitions@), request.compiler_id@, request.source@),
            Err(rejected) => !has_id(texts(definitions@), request.compiler_id@)
                && rejected@ == failure(unsupported_log(request.compiler_id@)),
        },
{
    match find_compiler_definition(definitions, request.compiler_id.as_str()) {
        Some(index) => {
            let definition = &definitions[index];
            assert(texts(definitions@)[index as int] == definition.text());
            Ok(CompilePlan {
                compiler_id: request.compiler_id,
                source: request.source,
                definition_index: index,
                command: definition.command,
                args: definition.args,
            })
        },
        None => Err(failed_compile_result(unsupported_compiler_log(request.compiler_id.as_str()))),
    }
}

/// The engine run that carries out `plan` in `working_dir`, within the
/// compile time-out.
pub fn job_for_plan<W>(plan: CompilePlan, working_dir: W) -> (job: CompileJob<W>)
    ensures
        job_for(job, plan, working_dir),
{
    CompileJob {
        compiler_id: plan.compiler_id,
        source: plan.source,
        working_dir,
        command: plan.command,
        args: plan.args,
        timeout_nanos: COMPILE_TIMEOUT_NANOS,
    }
}

/// The result shown for what an engine run gave: a finished or timed-out
/// run as `finished_compile_result` and `timed_out_compile_result` build it,
/// an error as the log of a failed result.
pub fn compile_result(outcome: Result<EngineRun, String>) -> (result: CompileLatexDocumentResult)
    ensures
        result@ == outcome_view(outcome),
{
    match outcome {
        Ok(EngineRun::Exited { success, pdf_exists, log, pdf_path }) => finished_compile_result(success, pdf_exists, log, pdf_path),
        Ok(EngineRun::TimedOut { log }) => timed_out_compile_result(log),
        Err(error) => failed_compile_result(error),
    }
}

/// Compiles a request with the engine of `definitions` that it names.  An
/// unknown engine fails with "Unsupported LaTeX compiler: <id>", and is
/// turned away before either closure can be called: both may be called only
/// for an accepted request (see `start_compile`), which their preconditions
/// let them rely on.  Otherwise `prepare_working_dir` gives the directory to
/// run in, or an error that becomes the failed result's log; then
/// `compile_document_with` runs the engine's command there on the request's
/// source, within the compile time-out, and what the run gave becomes the
/// result (see `compile_result`).
pub fn compile_document_for_definitions<W>(
    request: CompileLatexDocumentRequest,
    definitions: &[LatexCompilerDefinition],
    prepare_working_dir: impl FnOnce(&CompilePlan) -> Result<W, String>,
    compile_document_with: impl FnOnce(CompileJob<W>) -> Result<EngineRun, String>,
) -> (result: CompileLatexDocumentResult)
    requires
        forall|plan: CompilePlan| plan_for(plan, texts(definitions@), request.compiler_id@, request.source@)
            ==> call_requires(prepare_working_dir, (&plan,)),
        forall|job: CompileJob<W>| job_runs_request(job, texts(definitions@), request.compiler_id@, request.source@)
            ==> call_requires(compile_document_with, (job,)),
    ensures
        compile_outcome(texts(definitions@), request.compiler_id@, request.source@, prepare_working_dir, compile_document_with, result@),
{
    let ghost defs = texts(definitions@);
    let ghost id = request.compiler_id@;
    let ghost source = request.source@;
    let plan = match start_compile(request, definitions) {
        Ok(plan) => plan,
        Err(rejected) => return rejected,
    };
    let ghost plan_seen = plan;
    let prepared = prepare_working_dir(&plan);
    let working_dir = match prepared {
        Ok(dir) => dir,
        Err(error) => {
            assert(call_ensures(prepare_working_dir, (&plan_seen,), Err::<W, String>(error)));
            return failed_compile_result(error);
        },
    };
    let ghost dir = working_dir;
    let job = job_for_plan(plan, working_dir);
    let ghost job_seen = job;
    assert(job_runs_request(job_seen, defs, id, source));
    let outcome = compile_document_with(job);
    assert(call_ensures(prepare_working_dir, (&plan_seen,), Ok::<W, String>(dir)));
    assert(call_ensures(compile_document_with, (job_seen,), outcome));
    compile_result(outcome)
}

/// Compiles a request with one of the supported engines (see
/// `latex_compiler_definitions`), as `compile_document_for_definitions` does.
pub fn compile_document<W>(
    request: CompileLatexDocumentRequest,
    prepare_working_dir: impl FnOnce(&CompilePlan) -> Result<W, String>,
    compile_document_with: impl FnOnce(CompileJob<W>) -> Result<EngineRun, String>,
) -> (result: CompileLatexDocumentResult)
    requires
        forall|plan: CompilePlan| plan_for(plan, builtin_definitions(), request.compiler_id@, request.source@)
            ==> call_requires(prepare_working_dir, (&plan,)),
        forall|job: CompileJob<W>| job_runs_request(job, builtin_definitions(), request.compiler_id@, request.source@)
            ==> call_requires(compile_document_with, (job,)),
    ensures
        compile_outcome(builtin_definitions(), request.compiler_id@, request.source@, prepare_working_dir, compile_document_with, result@),
{
    let definitions = latex_compiler_definitions();
    compile_document_for_definitions(request, definitions.as_slice(), prepare_working_dir, compile_document_with)
}

/// A request for an engine that the definitions do not know has no plan, so
/// the working directory is never prepared and no engine is run for it: the
/// compile functions may call either step only for an accepted plan.
pub proof fn lemma_unknown_engine_is_never_prepared<W>(defs: Seq<DefinitionView>, compiler_id: Seq<char>, source: Seq<char>)
    requires
        !has_id(defs, compiler_id),
    ensures
        forall|plan: CompilePlan| !plan_for(plan, defs, compiler_id, source),
        forall|job: CompileJob<W>| !job_runs_request(job, defs, compiler_id, source),
{
    assert forall|plan: CompilePlan| !plan_for(plan, defs, compiler_id, source) by {
        if plan_for(plan, defs, compiler_id, source) {
            assert(defs[plan.definition_index as int].id == compiler_id);
        }
    }
}

/// Every result the library builds keeps its promise: a compile that
/// succeeded names its PDF, and failed or timed-out compiles never succeed.
pub proof fn lemma_results_keep_pdf_promise(exit_success: bool, pdf_exists: bool, log: Seq<char>, pdf_path: Seq<char>)
    ensures
        keeps_pdf_promise(finished(exit_success, pdf_exists, log, pdf_path)),
        keeps_pdf_promise(failure(log)),
        keeps_pdf_promise(failure(timed_out_log(log))),
        !failure(log).success,
        finished(exit_success, pdf_exists, log, pdf_path).success ==> exit_success,
{
}

/// Whatever preparing the directory and running the engine gave, a compile
/// that succeeded names its PDF: success needs an engine run that exited
/// successfully and left the PDF in place.
pub proof fn lemma_compile_keeps_pdf_promise<W, P, C>(
    defs: Seq<DefinitionView>,
    compiler_id: Seq<char>,
    source: Seq<char>,
    prepare_working_dir: P,
    compile_document_with: C,
    result: CompileResultView,
)
    where P: FnOnce(&CompilePlan) -> Result<W, String>, C: FnOnce(CompileJob<W>) -> Result<EngineRun, String>
    requires
        compile_outcome(defs, compiler_id, source, prepare_working_dir, compile_document_with, result),
    ensures
        keeps_pdf_promise(result),
        result.success ==> exists|plan: CompilePlan, job: CompileJob<W>, log: String, pdf_path: String| {
            &&& #[trigger] plan_for(plan, defs, compiler_id, source)
            &&& job.command == plan.command
            &&& #[trigger] call_ensures(compile_document_with, (job,), Ok::<EngineRun, String>(EngineRun::Exited { success: true, pdf_exists: true, log, pdf_path }))
            &&& result.pdf_path == Some(pdf_path@)
        },
{
    if has_id(defs, compiler_id) {
        let plan = choose|plan: CompilePlan| #[trigger] plan_for(plan, defs, compiler_id, source) && exists|prepared: Result<W, String>| {
            &&& #[trigger] call_ensures(prepare_working_dir, (&plan,), prepared)
            &&& match prepared {
                Err(error) => result == failure(error@),
                Ok(dir) => exists|job: CompileJob<W>, outcome: Result<EngineRun, String>| {
                    &&& job_for(job, plan, dir)
                    &&& #[trigger] call_ensures(compile_document_with, (job,), outcome)
                    &&& result == outcome_view(outcome)
                },
            }
        };
        let prepared = choose|prepared: Result<W, String>| {
            &&& #[trigger] call_ensures(prepare_working_dir, (&plan,), prepared)
            &&& match prepared {
                Err(error) => result == failure(error@),
                Ok(dir) => exists|job: CompileJob<W>, outcome: Result<EngineRun, String>| {
                    &&& job_for(job, plan, dir)
                    &&& #[trigger] call_ensures(compile_document_with, (job,), outcome)
                    &&& result == outcome_view(outcome)
                },
            }
        };
        match prepared {
            Err(error) => {},
            Ok(dir) => {
                let (job, outcome) = choose|job: CompileJob<W>, outcome: Result<EngineRun, String>| {
                    &&& job_for(job, plan, dir)
                    &&& #[trigger] call_ensures(compile_document_with, (job,), outcome)
                    &&& result == outcome_view(outcome)
                };
                match outcome {
                    Ok(EngineRun::Exited { success, pdf_exists, log, pdf_path }) => {
                        if result.success {
                            assert(plan_for(plan, defs, compiler_id, source));
                            assert(call_ensures(compile_document_with, (job,), Ok::<EngineRun, String>(EngineRun::Exited { success: true, pdf_exists: true, log, pdf_path })));
                        }
                    },
                    Ok(EngineRun::TimedOut { log }) => {},
                    Err(e) => {},
                }
            },
        }
    }
}

/// What a finished engine run is reported as, for every exit status, PDF
/// presence, log and path: the compile succeeded exactly when the engine
/// exited successfully and the PDF exists, whatever the log says; the log is
/// the engine's whole log; the PDF is named exactly when it exists, and then
/// by the path the run gave.
pub proof fn lemma_exited_run_is_reported_whole(exit_success: bool, pdf_exists: bool, log: String, pdf_path: String)
    ensures
        outcome_view(Ok(EngineRun::Exited { success: exit_success, pdf_exists, log, pdf_path })).success
            == (exit_success && pdf_exists),
        outcome_view(Ok(EngineRun::Exited { success: exit_success, pdf_exists, log, pdf_path })).log == log@,
        outcome_view(Ok(EngineRun::Exited { success: exit_success, pdf_exists, log, pdf_path })).pdf_path
            == (if pdf_exists { Some(pdf_path@) } else { None::<Seq<char>> }),
        finished(exit_success, pdf_exists, log@, pdf_path@).success == (exit_success && pdf_exists),
        finished(exit_success, pdf_exists, log@, pdf_path@).log == log@,
        finished(exit_success, pdf_exists, log@, pdf_path@).pdf_path
            == (if pdf_exists { Some(pdf_path@) } else { None::<Seq<char>> }),
{
}

/// Success does not depend on the log: two finished runs with the same exit
/// status and PDF presence both succeed or both fail, and a run that exited
/// successfully with its PDF in place always succeeds.
pub proof fn lemma_success_ignores_the_log(exit_success: bool, pdf_exists: bool, log1: Seq<char>, log2: Seq<char>, path1: Seq<char>, path2: Seq<char>)
    ensures
        finished(exit_success, pdf_exists, log1, path1).success == finished(exit_success, pdf_exists, log2, path2).success,
        exit_success && pdf_exists ==> finished(exit_success, pdf_exists, log1, path1).success,
        !pdf_exists ==> finished(exit_success, pdf_exists, log1, path1).pdf_path is None,
{
}

/// A run that timed out or failed is reported as failed, with no PDF; a
/// time-out keeps the engine's log after "Compile timed out.", and an error
/// becomes the whole log.
pub proof fn lemma_unfinished_runs_fail(log: String, error: String)
    ensures
        !outcome_view(Ok(EngineRun::TimedOut { log })).success,
        outcome_view(Ok(EngineRun::TimedOut { log })).pdf_path is None,
        outcome_view(Ok(EngineRun::TimedOut { log })).log == (if log@.len() == 0 {
            "Compile timed out."@
        } else {
            "Compile timed out.\n"@ + log@
        }),
        !outcome_view(Err::<EngineRun, String>(error)).success,
        outcome_view(Err::<EngineRun, String>(error)).pdf_path is None,
        outcome_view(Err::<EngineRun, String>(error)).log == error@,
{
}

/// The time-out log starts with "Compile timed out." and keeps everything
/// the engine wrote, at its end.
pub proof fn lemma_timed_out_log_keeps_output(log: Seq<char>)
    ensures
        timed_out_log(log).subrange(0, "Compile timed out."@.len() as int) == "Compile timed out."@,
        timed_out_log(log).subrange(timed_out_log(log).len() - log.len(), timed_out_log(log).len() as int) == log,
        log.len() > 0 ==> timed_out_log(log).len() == "Compile timed out."@.len() + 1 + log.len(),
{
    reveal_strlit("Compile timed out.");
    reveal_strlit("Compile timed out.\n");
    let t = timed_out_log(log);
    if log.len() == 0 {
        assert(t.subrange(0, 18) =~= "Compile timed out."@);
        assert(t.subrange(t.len() - log.len(), t.len() as int) =~= log);
    } else {
        assert(t.subrange(0, 18) =~= "Compile timed out."@);
        assert(t.subrange(t.len() - log.len(), t.len() as int) =~= log);
    }
}

} // verus!

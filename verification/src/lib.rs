//! The LaTeX engine logic of a desktop LaTeX workbench: which engines are
//! offered and which is the default, how an engine probe and a compile react
//! to what their child process does, how a compile request becomes a result,
//! and how compile working directories are named and cleaned up.
//!
//! Starting, polling and killing processes and touching the file system are
//! left to the caller, which hands the outcomes to these functions.
pub mod compile;
pub mod engines;
pub mod polling;
pub mod text;
pub mod workdir;

pub use compile::{
    compile_document, compile_document_for_definitions, compile_result, failed_compile_result,
    finished_compile_result, find_compiler_definition, format_process_log, job_for_plan, start_compile,
    timed_out_compile_result, unsupported_compiler_log, CompileJob, CompileLatexDocumentRequest,
    CompileLatexDocumentResult, CompilePlan, EngineRun,
};
pub use engines::{
    available_compilers, detect_compilers_with, latex_compiler_definitions, mark_first_installed_as_default,
    EngineDetection, LatexCompiler, LatexCompilerDefinition, LatexCompilerStatus, LatexCompilerStatusReason,
};
pub use polling::{
    detection_after_spawn, next_compile_action, next_probe_action, CompileAction, ProbeAction, ProcessPoll,
    SpawnOutcome, COMPILE_TIMEOUT_NANOS, DETECTION_TIMEOUT_NANOS, POLL_INTERVAL_NANOS,
};
pub use workdir::{compile_run_dir_name, is_compile_run, should_prune};

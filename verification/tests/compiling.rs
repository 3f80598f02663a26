use latex_workbench::{
    compile_document, compile_document_for_definitions, compile_result, failed_compile_result,
    finished_compile_result, find_compiler_definition, format_process_log, job_for_plan,
    latex_compiler_definitions, start_compile, timed_out_compile_result, unsupported_compiler_log, CompileJob,
    CompileLatexDocumentRequest, CompileLatexDocumentResult, CompilePlan, EngineRun, LatexCompilerDefinition,
    COMPILE_TIMEOUT_NANOS,
};

const SOURCE: &str = "\\documentclass{article}\\begin{document}Hi\\end{document}";

fn request(compiler_id: &str) -> CompileLatexDocumentRequest {
    CompileLatexDocumentRequest {
        compiler_id: compiler_id.to_string(),
        source: SOURCE.to_string(),
    }
}

#[test]
fn returns_structured_result_when_compiler_spawn_fails() {
    let definitions = [LatexCompilerDefinition {
        id: "missing-compiler",
        label: "Missing Compiler",
        command: "latex-workbench-missing-compiler-for-test",
        args: &["main.tex"],
    }];

    let result = compile_document_for_definitions(
        request("missing-compiler"),
        &definitions,
        |_plan: &CompilePlan| Ok::<String, String>("/cache/run-1-2".to_string()),
        |_job: CompileJob<String>| Err::<EngineRun, String>("No such file or directory (os error 2)".to_string()),
    );

    assert!(!result.success);
    assert!(result.pdf_path.is_none());
    assert!(!result.log.is_empty());
}

#[test]
fn unsupported_compiler_fails_without_running_anything() {
    let result = compile_document(
        request("latexmk"),
        |_plan: &CompilePlan| -> Result<u32, String> { panic!("no working directory is needed") },
        |_job: CompileJob<u32>| -> Result<EngineRun, String> { panic!("nothing is run") },
    );
    assert_eq!(
        result,
        CompileLatexDocumentResult {
            success: false,
            log: "Unsupported LaTeX compiler: latexmk".to_string(),
            pdf_path: None,
        }
    );
}

#[test]
fn working_directory_error_becomes_the_log() {
    let result = compile_document(
        request("pdflatex"),
        |_plan: &CompilePlan| Err::<u32, String>("Permission denied (os error 13)".to_string()),
        |_job: CompileJob<u32>| -> Result<EngineRun, String> { panic!("nothing is run") },
    );
    assert_eq!(result, failed_compile_result("Permission denied (os error 13)".to_string()));
}

#[test]
fn engine_runs_with_its_command_in_the_prepared_directory() {
    let result = compile_document(request("tectonic"), |plan: &CompilePlan| {
        assert_eq!(plan.command, "tectonic");
        Ok::<u32, String>(7)
    }, |job: CompileJob<u32>| {
        assert_eq!(job.compiler_id, "tectonic");
        assert_eq!(job.source, SOURCE);
        assert_eq!(job.working_dir, 7);
        assert_eq!(job.command, "tectonic");
        assert_eq!(job.args, &["main.tex"]);
        assert_eq!(job.timeout_nanos, COMPILE_TIMEOUT_NANOS);
        Ok(EngineRun::Exited {
            success: true,
            pdf_exists: true,
            log: "compiled\n".to_string(),
            pdf_path: "/cache/run-1-2/main.pdf".to_string(),
        })
    });
    assert!(result.success);
    assert_eq!(result.pdf_path.as_deref(), Some("/cache/run-1-2/main.pdf"));
    assert_eq!(result.log, "compiled\n");
}

#[test]
fn engine_error_becomes_a_failed_result() {
    let result = compile_document(request("xelatex"), |_plan: &CompilePlan| Ok::<u32, String>(0), |job: CompileJob<u32>| {
        assert_eq!(job.args, &["-interaction=nonstopmode", "-halt-on-error", "main.tex"]);
        Err::<EngineRun, String>("broken pipe".to_string())
    });
    assert_eq!(result, failed_compile_result("broken pipe".to_string()));
}

#[test]
fn first_matching_definition_is_used() {
    let definitions = [
        LatexCompilerDefinition { id: "tex", label: "First", command: "first", args: &[] },
        LatexCompilerDefinition { id: "tex", label: "Second", command: "second", args: &[] },
    ];
    assert_eq!(find_compiler_definition(&definitions, "tex"), Some(0));
    assert_eq!(find_compiler_definition(&definitions, "TEX"), None);
    assert_eq!(find_compiler_definition(&definitions, "te"), None);
    let result = compile_document_for_definitions(request("tex"), &definitions, |_plan: &CompilePlan| Ok::<u8, String>(0), |job: CompileJob<u8>| {
        Err::<EngineRun, String>(job.command.to_string())
    });
    assert_eq!(result.log, "first");
}

#[test]
fn finds_the_supported_engines_by_identifier() {
    let definitions = latex_compiler_definitions();
    assert_eq!(find_compiler_definition(&definitions, "pdflatex"), Some(0));
    assert_eq!(find_compiler_definition(&definitions, "lualatex"), Some(2));
    assert_eq!(find_compiler_definition(&definitions, "tectonic"), Some(3));
    assert_eq!(find_compiler_definition(&definitions, "pdfLaTeX"), None);
    assert_eq!(find_compiler_definition(&definitions, ""), None);
}

#[test]
fn unsupported_log_names_the_compiler() {
    assert_eq!(unsupported_compiler_log("foo"), "Unsupported LaTeX compiler: foo");
    assert_eq!(unsupported_compiler_log(""), "Unsupported LaTeX compiler: ");
}

#[test]
fn process_log_is_stdout_then_stderr() {
    assert_eq!(format_process_log(b"compiled\n", b"warning\n"), "compiled\nwarning\n");
    assert_eq!(format_process_log(b"", b""), "");
    assert_eq!(format_process_log("caf\u{e9} ".as_bytes(), "\u{2713}".as_bytes()), "caf\u{e9} \u{2713}");
}

#[test]
fn process_log_replaces_malformed_bytes() {
    let log = format_process_log(&[b'o', b'k', 0xff], &[0xc3]);
    assert_eq!(log, "ok\u{fffd}\u{fffd}");
}

#[test]
fn finished_result_succeeds_only_with_exit_success_and_pdf() {
    let cases = [(true, true), (true, false), (false, true), (false, false)];
    for (exit_success, pdf_exists) in cases {
        let result = finished_compile_result(exit_success, pdf_exists, "log".to_string(), "/w/main.pdf".to_string());
        assert_eq!(result.success, exit_success && pdf_exists);
        assert_eq!(result.log, "log");
        assert_eq!(result.pdf_path.is_some(), pdf_exists);
        if result.success {
            assert_eq!(result.pdf_path.as_deref(), Some("/w/main.pdf"));
        }
    }
}

#[test]
fn timed_out_result_prefixes_the_log() {
    let empty = timed_out_compile_result(String::new());
    assert_eq!(empty, failed_compile_result("Compile timed out.".to_string()));
    let with_output = timed_out_compile_result("This is pdfTeX\n".to_string());
    assert_eq!(with_output.log, "Compile timed out.\nThis is pdfTeX\n");
    assert!(!with_output.success);
    assert!(with_output.pdf_path.is_none());
}

#[test]
fn failed_result_has_no_pdf() {
    let result = failed_compile_result("oops".to_string());
    assert!(!result.success);
    assert_eq!(result.log, "oops");
    assert_eq!(result.pdf_path, None);
}

#[test]
fn failing_engine_run_reports_its_log_and_any_pdf() {
    let result = compile_document(request("pdflatex"), |_plan: &CompilePlan| Ok::<u32, String>(0), |_job: CompileJob<u32>| {
        Ok::<EngineRun, String>(EngineRun::Exited {
            success: false,
            pdf_exists: false,
            log: "Undefined control sequence\n".to_string(),
            pdf_path: "/w/main.pdf".to_string(),
        })
    });
    assert!(!result.success);
    assert!(result.pdf_path.is_none());
    assert!(result.log.contains("Undefined control sequence"));

    let partial = compile_result(Ok(EngineRun::Exited {
        success: false,
        pdf_exists: true,
        log: "error".to_string(),
        pdf_path: "/w/main.pdf".to_string(),
    }));
    assert!(!partial.success);
    assert_eq!(partial.pdf_path.as_deref(), Some("/w/main.pdf"));
}

#[test]
fn timed_out_engine_run_is_reported() {
    let result = compile_document(request("lualatex"), |_plan: &CompilePlan| Ok::<u32, String>(0), |_job: CompileJob<u32>| {
        Ok::<EngineRun, String>(EngineRun::TimedOut { log: "This is LuaTeX\n".to_string() })
    });
    assert_eq!(result, failed_compile_result("Compile timed out.\nThis is LuaTeX\n".to_string()));
    assert_eq!(compile_result(Err("gone".to_string())), failed_compile_result("gone".to_string()));
}

#[test]
fn start_compile_turns_away_unknown_engines() {
    let definitions = latex_compiler_definitions();
    match start_compile(request("context"), &definitions) {
        Err(rejected) => assert_eq!(
            rejected,
            failed_compile_result("Unsupported LaTeX compiler: context".to_string())
        ),
        Ok(_) => panic!("an unknown engine must be turned away"),
    }
    match start_compile(request("lualatex"), &definitions) {
        Ok(plan) => {
            assert_eq!(plan.compiler_id, "lualatex");
            assert_eq!(plan.source, SOURCE);
            assert_eq!(plan.definition_index, 2);
            assert_eq!(plan.command, "lualatex");
            assert_eq!(plan.args, &["-interaction=nonstopmode", "-halt-on-error", "main.tex"]);
            let job = job_for_plan(plan, "dir");
            assert_eq!(job.working_dir, "dir");
            assert_eq!(job.command, "lualatex");
            assert_eq!(job.timeout_nanos, COMPILE_TIMEOUT_NANOS);
        }
        Err(_) => panic!("lualatex is supported"),
    }
}

#[test]
fn valid_output_keeps_its_bytes() {
    let stdout = "Output written on main.pdf (1 page).\n".as_bytes();
    let stderr = "\u{2713} done\n".as_bytes();
    let log = format_process_log(stdout, stderr);
    assert_eq!(log.as_bytes(), [stdout, stderr].concat().as_slice());
    assert_eq!(log.len(), stdout.len() + stderr.len());
}

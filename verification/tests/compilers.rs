use latex_workbench::{
    available_compilers, detect_compilers_with, latex_compiler_definitions, mark_first_installed_as_default,
    EngineDetection, LatexCompiler, LatexCompilerDefinition, LatexCompilerStatus, LatexCompilerStatusReason,
};

fn not_found(_command: &'static str) -> EngineDetection {
    EngineDetection {
        status: LatexCompilerStatus::Missing,
        reason: LatexCompilerStatusReason::NotFound,
    }
}

fn only_xelatex_and_tectonic(command: &'static str) -> EngineDetection {
    if command == "xelatex" || command == "tectonic" {
        EngineDetection {
            status: LatexCompilerStatus::Installed,
            reason: LatexCompilerStatusReason::Available,
        }
    } else {
        not_found(command)
    }
}

#[test]
fn marks_first_installed_compiler_as_default() {
    static DEFINITIONS: &[LatexCompilerDefinition] = &[
        LatexCompilerDefinition {
            id: "missing-default",
            label: "Missing Default",
            command: "missing-default",
            args: &["main.tex"],
        },
        LatexCompilerDefinition {
            id: "installed-fallback",
            label: "Installed Fallback",
            command: "installed-fallback",
            args: &["main.tex"],
        },
    ];

    let compilers = detect_compilers_with(DEFINITIONS, |command| {
        if command == "installed-fallback" {
            EngineDetection {
                status: LatexCompilerStatus::Installed,
                reason: LatexCompilerStatusReason::Available,
            }
        } else {
            EngineDetection {
                status: LatexCompilerStatus::Missing,
                reason: LatexCompilerStatusReason::NotFound,
            }
        }
    });

    assert!(!compilers[0].is_default);
    assert!(compilers[1].is_default);
}

#[test]
fn exposes_real_latex_compilers_not_distributions() {
    let compilers = available_compilers(not_found);

    assert_eq!(
        compilers
            .iter()
            .map(|compiler| compiler.id)
            .collect::<Vec<_>>(),
        vec!["pdflatex", "xelatex", "lualatex", "tectonic"]
    );
    assert_eq!(compilers[0].label, "pdfLaTeX");
}

#[test]
fn exposes_supported_latex_compilers() {
    let compilers = available_compilers(not_found);

    assert_eq!(compilers.len(), 4);
    assert_eq!(compilers[0].id, "pdflatex");
    assert_eq!(compilers[0].label, "pdfLaTeX");
    assert!(matches!(
        compilers[0].status,
        LatexCompilerStatus::Installed | LatexCompilerStatus::Missing
    ));
    assert!(matches!(
        compilers[0].status_reason,
        LatexCompilerStatusReason::Available
            | LatexCompilerStatusReason::NotFound
            | LatexCompilerStatusReason::Failed
            | LatexCompilerStatusReason::Timeout
    ));
    assert_eq!(compilers[3].id, "tectonic");
    assert_eq!(compilers[3].label, "Tectonic");
}

#[test]
fn marks_first_installed_compiler_as_default_when_available() {
    for detect in [not_found, only_xelatex_and_tectonic] {
        let compilers = available_compilers(detect);
        let default_compilers = compilers
            .iter()
            .filter(|compiler| compiler.is_default)
            .collect::<Vec<_>>();

        if let Some(first_installed_compiler) = compilers
            .iter()
            .find(|compiler| compiler.status == LatexCompilerStatus::Installed)
        {
            assert_eq!(default_compilers, vec![first_installed_compiler]);
        } else {
            assert!(default_compilers.is_empty());
        }
    }
}

#[test]
fn defines_engines_with_their_commands_and_arguments() {
    let definitions = latex_compiler_definitions();
    let labels: Vec<&str> = definitions.iter().map(|d| d.label).collect();
    assert_eq!(labels, vec!["pdfLaTeX", "XeLaTeX", "LuaLaTeX", "Tectonic"]);
    for definition in &definitions[..3] {
        assert_eq!(definition.command, definition.id);
        assert_eq!(
            definition.args,
            &["-interaction=nonstopmode", "-halt-on-error", "main.tex"]
        );
    }
    assert_eq!(definitions[3].command, "tectonic");
    assert_eq!(definitions[3].args, &["main.tex"]);
}

#[test]
fn available_compilers_report_what_the_probe_saw() {
    let compilers = available_compilers(only_xelatex_and_tectonic);
    let statuses: Vec<LatexCompilerStatus> = compilers.iter().map(|c| c.status).collect();
    assert_eq!(
        statuses,
        vec![
            LatexCompilerStatus::Missing,
            LatexCompilerStatus::Installed,
            LatexCompilerStatus::Missing,
            LatexCompilerStatus::Installed,
        ]
    );
    assert_eq!(compilers[0].status_reason, LatexCompilerStatusReason::NotFound);
    assert_eq!(compilers[1].status_reason, LatexCompilerStatusReason::Available);
    let defaults: Vec<&str> = compilers.iter().filter(|c| c.is_default).map(|c| c.id).collect();
    assert_eq!(defaults, vec!["xelatex"]);
}

#[test]
fn no_default_when_nothing_is_installed() {
    let compilers = available_compilers(not_found);
    assert!(compilers.iter().all(|c| !c.is_default));
    assert!(compilers
        .iter()
        .all(|c| c.status_reason == LatexCompilerStatusReason::NotFound));
}

#[test]
fn probe_is_run_with_each_engine_command() {
    let definitions = [
        LatexCompilerDefinition { id: "a", label: "A", command: "cmd-a", args: &[] },
        LatexCompilerDefinition { id: "b", label: "B", command: "cmd-b", args: &[] },
        LatexCompilerDefinition { id: "c", label: "C", command: "cmd-c", args: &[] },
    ];
    let compilers = detect_compilers_with(&definitions, |command| {
        if command == "cmd-b" {
            EngineDetection { status: LatexCompilerStatus::Missing, reason: LatexCompilerStatusReason::Timeout }
        } else if command == "cmd-c" {
            EngineDetection { status: LatexCompilerStatus::Installed, reason: LatexCompilerStatusReason::Available }
        } else {
            EngineDetection { status: LatexCompilerStatus::Missing, reason: LatexCompilerStatusReason::Failed }
        }
    });
    let reasons: Vec<LatexCompilerStatusReason> = compilers.iter().map(|c| c.status_reason).collect();
    assert_eq!(
        reasons,
        vec![
            LatexCompilerStatusReason::Failed,
            LatexCompilerStatusReason::Timeout,
            LatexCompilerStatusReason::Available,
        ]
    );
    assert_eq!(compilers[2].label, "C");
    assert!(compilers[2].is_default);
    assert!(!compilers[0].is_default && !compilers[1].is_default);
}

#[test]
fn detecting_no_definitions_offers_nothing() {
    let compilers = detect_compilers_with(&[], not_found);
    assert!(compilers.is_empty());
}

#[test]
fn marking_leaves_everything_but_the_first_installed_alone() {
    let compiler = |id: &'static str, is_default: bool, status: LatexCompilerStatus| LatexCompiler {
        id,
        label: id,
        is_default,
        status,
        status_reason: if status == LatexCompilerStatus::Installed {
            LatexCompilerStatusReason::Available
        } else {
            LatexCompilerStatusReason::Failed
        },
    };
    let mut compilers = vec![
        compiler("a", true, LatexCompilerStatus::Missing),
        compiler("b", false, LatexCompilerStatus::Installed),
        compiler("c", false, LatexCompilerStatus::Installed),
    ];
    mark_first_installed_as_default(&mut compilers);
    assert_eq!(
        compilers,
        vec![
            compiler("a", true, LatexCompilerStatus::Missing),
            compiler("b", true, LatexCompilerStatus::Installed),
            compiler("c", false, LatexCompilerStatus::Installed),
        ]
    );
}

#[test]
fn consistent_probe_gives_consistent_compilers() {
    for detect in [not_found, only_xelatex_and_tectonic] {
        for compiler in available_compilers(detect) {
            assert_eq!(
                compiler.status == LatexCompilerStatus::Installed,
                compiler.status_reason == LatexCompilerStatusReason::Available
            );
        }
    }
}

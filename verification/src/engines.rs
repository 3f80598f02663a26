//! The LaTeX engines the workbench knows, and how a detection of each engine
//! becomes the list of compilers offered to the user.
use vstd::prelude::*;

verus! {

/// Whether a LaTeX engine can be used on this machine.
#[derive(Debug, Clone, Copy, PartialEq, Eq, Structural)]
pub enum LatexCompilerStatus {
    Installed,
    Missing,
}

/// Why an engine has the status it has.
#[derive(Debug, Clone, Copy, PartialEq, Eq, Structural)]
pub enum LatexCompilerStatusReason {
    Available,
    NotFound,
    Failed,
    Timeout,
}

/// A LaTeX engine as offered to the user.
#[derive(Debug, Clone, Copy, PartialEq, Eq)]
pub struct LatexCompiler {
    pub id: &'static str,
    pub label: &'static str,
    pub is_default: bool,
    pub status: LatexCompilerStatus,
    pub status_reason: LatexCompilerStatusReason,
}

/// How an engine is identified, shown and run.
#[derive(Debug, Clone, Copy)]
pub struct LatexCompilerDefinition {
    pub id: &'static str,
    pub label: &'static str,
    pub command: &'static str,
    pub args: &'static [&'static str],
}

/// The outcome of probing one engine's command.
#[derive(Debug, Clone, Copy, PartialEq, Eq, Structural)]
pub struct EngineDetection {
    pub status: LatexCompilerStatus,
    pub reason: LatexCompilerStatusReason,
}

/// A definition seen as text: identifier, label, command and arguments.
pub struct DefinitionView {
    pub id: Seq<char>,
    pub label: Seq<char>,
    pub command: Seq<char>,
    pub args: Seq<Seq<char>>,
}

impl LatexCompilerDefinition {
    pub open spec fn view_args(self) -> Seq<Seq<char>> {
        self.args@.map_values(|a: &'static str| a@)
    }

    pub open spec fn text(self) -> DefinitionView {
        DefinitionView { id: self.id@, label: self.label@, command: self.command@, args: self.view_args() }
    }
}

/// The definitions seen as text.
pub open spec fn texts(defs: Seq<LatexCompilerDefinition>) -> Seq<DefinitionView> {
    defs.map_values(|d: LatexCompilerDefinition| d.text())
}

/// The arguments every TeX engine but Tectonic is run with.
pub open spec fn tex_engine_args() -> Seq<Seq<char>> {
    seq!["-interaction=nonstopmode"@, "-halt-on-error"@, "main.tex"@]
}

/// The engines the workbench supports, in the order in which they are offered.
pub open spec fn builtin_definitions() -> Seq<DefinitionView> {
    seq![
        DefinitionView { id: "pdflatex"@, label: "pdfLaTeX"@, command: "pdflatex"@, args: tex_engine_args() },
        DefinitionView { id: "xelatex"@, label: "XeLaTeX"@, command: "xelatex"@, args: tex_engine_args() },
        DefinitionView { id: "lualatex"@, label: "LuaLaTeX"@, command: "lualatex"@, args: tex_engine_args() },
        DefinitionView { id: "tectonic"@, label: "Tectonic"@, command: "tectonic"@, args: seq!["main.tex"@] },
    ]
}

/// The engines the workbench supports: pdfLaTeX, XeLaTeX and LuaLaTeX, run in
/// non-stop mode and halting on the first error, and Tectonic.
pub fn latex_compiler_definitions() -> (defs: Vec<LatexCompilerDefinition>)
    ensures
        defs@.len() == builtin_definitions().len(),
        forall|i: int| 0 <= i < defs@.len() ==> #[trigger] defs@[i].text() == builtin_definitions()[i],
        texts(defs@) == builtin_definitions(),
{
    let tex_args: &'static [&'static str] = &["-interaction=nonstopmode", "-halt-on-error", "main.tex"];
    let tectonic_args: &'static [&'static str] = &["main.tex"];
    let defs = vec![
        LatexCompilerDefinition { id: "pdflatex", label: "pdfLaTeX", command: "pdflatex", args: tex_args },
        LatexCompilerDefinition { id: "xelatex", label: "XeLaTeX", command: "xelatex", args: tex_args },
        LatexCompilerDefinition { id: "lualatex", label: "LuaLaTeX", command: "lualatex", args: tex_args },
        LatexCompilerDefinition { id: "tectonic", label: "Tectonic", command: "tectonic", args: tectonic_args },
    ];
    assert(defs@[0].view_args() =~= tex_engine_args());
    assert(defs@[3].view_args() =~= seq!["main.tex"@]);
    assert(texts(defs@) =~= builtin_definitions());
    defs
}


impl EngineDetection {
    /// A detection is consistent when an engine counts as installed exactly
    /// when it was found available.
    pub open spec fn is_consistent(self) -> bool {
        (self.status == LatexCompilerStatus::Installed) <==> (self.reason == LatexCompilerStatusReason::Available)
    }
}

/// What was detected of a compiler.
pub open spec fn detection_of(c: LatexCompiler) -> EngineDetection {
    EngineDetection { status: c.status, reason: c.status_reason }
}

/// Compiler `i` is installed and none before it is.
pub open spec fn is_first_installed(cs: Seq<LatexCompiler>, i: int) -> bool {
    &&& cs[i].status == LatexCompilerStatus::Installed
    &&& forall|j: int| 0 <= j < i ==> #[trigger] cs[j].status != LatexCompilerStatus::Installed
}

/// The default is the first installed compiler, and no other.
pub open spec fn defaults_marked(cs: Seq<LatexCompiler>) -> bool {
    forall|i: int| 0 <= i < cs.len() ==> (#[trigger] cs[i].is_default <==> is_first_installed(cs, i))
}

/// Compiler `c` stands for definition `d` as the probe `detect` saw its command.
pub open spec fn compiler_reports(c: LatexCompiler, d: LatexCompilerDefinition, detect: spec_fn(&'static str, EngineDetection) -> bool) -> bool {
    &&& c.id == d.id
    &&& c.label == d.label
    &&& detect(d.command, detection_of(c))
}

/// Marks the first installed compiler as the default one; the others, and
/// every other field, are left as they are.
pub fn mark_first_installed_as_default(compilers: &mut Vec<LatexCompiler>)
    ensures
        final(compilers)@.len() == old(compilers)@.len(),
        forall|i: int| 0 <= i < old(compilers)@.len() ==> {
            let (o, n) = (old(compilers)@[i], #[trigger] final(compilers)@[i]);
            &&& n.id == o.id
            &&& n.label == o.label
            &&& n.status == o.status
            &&& n.status_reason == o.status_reason
            &&& n.is_default == (o.is_default || is_first_installed(old(compilers)@, i))
        },
{
    let ghost before = compilers@;
    let mut i: usize = 0;
    while i < compilers.len() && compilers[i].status != LatexCompilerStatus::Installed
        invariant
            compilers@ == before,
            i <= compilers@.len(),
            forall|j: int| 0 <= j < i ==> #[trigger] compilers@[j].status != LatexCompilerStatus::Installed,
        decreases compilers@.len() - i,
    {
        i = i + 1;
    }
    if i < compilers.len() {
        let c = &compilers[i];
        let marked = LatexCompiler {
            id: c.id,
            label: c.label,
            is_default: true,
            status: c.status,
            status_reason: c.status_reason,
        };
        compilers.set(i, marked);
        assert forall|k: int| 0 <= k < before.len() && k != i implies !is_first_installed(before, k) by {
            if k > i {
                assert(before[i as int].status == LatexCompilerStatus::Installed);
            }
        }
    } else {
        assert forall|k: int| 0 <= k < before.len() implies !is_first_installed(before, k) by {
            assert(before[k].status != LatexCompilerStatus::Installed);
        }
    }
}

/// Probes each definition's command with `detect` and offers one compiler per
/// definition, in the same order, with the status and reason that the probe
/// reported; the first installed compiler becomes the default.
pub fn detect_compilers_with(
    definitions: &[LatexCompilerDefinition],
    detect: impl Fn(&'static str) -> EngineDetection,
) -> (compilers: Vec<LatexCompiler>)
    requires
        forall|command: &'static str| call_requires(detect, (command,)),
    ensures
        compilers@.len() == definitions@.len(),
        forall|i: int| 0 <= i < definitions@.len() ==>
            compiler_reports(#[trigger] compilers@[i], definitions@[i], |cmd: &'static str, d: EngineDetection| call_ensures(detect, (cmd,), d)),
        defaults_marked(compilers@),
        (forall|cmd: &'static str, d: EngineDetection| call_ensures(detect, (cmd,), d) ==> d.is_consistent())
            ==> forall|i: int| 0 <= i < compilers@.len() ==> detection_of(#[trigger] compilers@[i]).is_consistent(),
{
    let mut compilers: Vec<LatexCompiler> = Vec::new();
    let mut i: usize = 0;
    while i < definitions.len()
        invariant
            i <= definitions@.len(),
            compilers@.len() == i,
            forall|command: &'static str| call_requires(detect, (command,)),
            forall|j: int| 0 <= j < i ==>
                compiler_reports(#[trigger] compilers@[j], definitions@[j], |cmd: &'static str, d: EngineDetection| call_ensures(detect, (cmd,), d)),
            forall|j: int| 0 <= j < i ==> !(#[trigger] compilers@[j]).is_default,
        decreases definitions@.len() - i,
    {
        let definition = &definitions[i];
        let detection = detect(definition.command);
        compilers.push(LatexCompiler {
            id: definition.id,
            label: definition.label,
            is_default: false,
            status: detection.status,
            status_reason: detection.reason,
        });
        i = i + 1;
    }
    let ghost unmarked = compilers@;
    mark_first_installed_as_default(&mut compilers);
    assert forall|i: int| 0 <= i < definitions@.len() implies
        compiler_reports(#[trigger] compilers@[i], definitions@[i], |cmd: &'static str, d: EngineDetection| call_ensures(detect, (cmd,), d)) by {
        assert(detection_of(compilers@[i]) == detection_of(unmarked[i]));
        assert(compiler_reports(unmarked[i], definitions@[i], |cmd: &'static str, d: EngineDetection| call_ensures(detect, (cmd,), d)));
    }
    assert forall|i: int| 0 <= i < compilers@.len() implies
        (#[trigger] compilers@[i].is_default <==> is_first_installed(compilers@, i)) by {
        assert(is_first_installed(compilers@, i) == is_first_installed(unmarked, i)) by {
            if is_first_installed(unmarked, i) {
                assert forall|j: int| 0 <= j < i implies #[trigger] compilers@[j].status != LatexCompilerStatus::Installed by {
                    assert(unmarked[j].status != LatexCompilerStatus::Installed);
                }
            }
            if is_first_installed(compilers@, i) {
                assert forall|j: int| 0 <= j < i implies #[trigger] unmarked[j].status != LatexCompilerStatus::Installed by {
                    assert(compilers@[j].status != LatexCompilerStatus::Installed);
                }
            }
        }
    }
    compilers
}


/// Offers the supported engines (see `latex_compiler_definitions`), each with
/// the status and reason that `detect` reports for its command; the first
/// installed engine is the default.
pub fn available_compilers(detect: impl Fn(&'static str) -> EngineDetection) -> (compilers: Vec<LatexCompiler>)
    requires
        forall|command: &'static str| call_requires(detect, (command,)),
    ensures
        compilers@.len() == builtin_definitions().len(),
        forall|i: int| 0 <= i < compilers@.len() ==> {
            let (c, d) = (#[trigger] compilers@[i], builtin_definitions()[i]);
            &&& c.id@ == d.id
            &&& c.label@ == d.label
            &&& exists|command: &'static str| command@ == d.command && call_ensures(detect, (command,), detection_of(c))
        },
        defaults_marked(compilers@),
        (forall|cmd: &'static str, d: EngineDetection| call_ensures(detect, (cmd,), d) ==> d.is_consistent())
            ==> forall|i: int| 0 <= i < compilers@.len() ==> detection_of(#[trigger] compilers@[i]).is_consistent(),
{
    let definitions = latex_compiler_definitions();
    let compilers = detect_compilers_with(definitions.as_slice(), detect);
    assert forall|i: int| 0 <= i < compilers@.len() implies {
        let (c, d) = (#[trigger] compilers@[i], builtin_definitions()[i]);
        &&& c.id@ == d.id
        &&& c.label@ == d.label
        &&& exists|command: &'static str| command@ == d.command && call_ensures(detect, (command,), detection_of(c))
    } by {
        assert(definitions@[i].text() == builtin_definitions()[i]);
        assert(compiler_reports(compilers@[i], definitions@[i], |cmd: &'static str, d: EngineDetection| call_ensures(detect, (cmd,), d)));
        let command = definitions@[i].command;
        assert(command@ == builtin_definitions()[i].command && call_ensures(detect, (command,), detection_of(compilers@[i])));
    }
    compilers
}

/// At most one compiler is the default: the first installed one.  When no
/// compiler is installed, none is the default.
pub proof fn lemma_single_default(cs: Seq<LatexCompiler>)
    requires
        defaults_marked(cs),
    ensures
        forall|i: int, j: int| 0 <= i < cs.len() && 0 <= j < cs.len() && #[trigger] cs[i].is_default && #[trigger] cs[j].is_default ==> i == j,
        forall|i: int| 0 <= i < cs.len() && #[trigger] cs[i].is_default ==> cs[i].status == LatexCompilerStatus::Installed,
        (forall|i: int| 0 <= i < cs.len() ==> #[trigger] cs[i].status != LatexCompilerStatus::Installed)
            ==> (forall|i: int| 0 <= i < cs.len() ==> !#[trigger] cs[i].is_default),
        (exists|i: int| 0 <= i < cs.len() && #[trigger] cs[i].status == LatexCompilerStatus::Installed)
            ==> (exists|i: int| 0 <= i < cs.len() && #[trigger] cs[i].is_default),
{
    assert forall|i: int, j: int| 0 <= i < cs.len() && 0 <= j < cs.len() && #[trigger] cs[i].is_default && #[trigger] cs[j].is_default implies i == j by {
        assert(is_first_installed(cs, i));
        assert(is_first_installed(cs, j));
        if i < j {
            assert(cs[i].status != LatexCompilerStatus::Installed);
        } else if j < i {
            assert(cs[j].status != LatexCompilerStatus::Installed);
        }
    }
    if exists|i: int| 0 <= i < cs.len() && #[trigger] cs[i].status == LatexCompilerStatus::Installed {
        let k = choose|i: int| 0 <= i < cs.len() && #[trigger] cs[i].status == LatexCompilerStatus::Installed;
        let first = first_installed_at_or_before(cs, k);
        assert(cs[first].is_default);
    }
}

/// There is a first installed compiler at or before any installed one.
proof fn first_installed_at_or_before(cs: Seq<LatexCompiler>, k: int) -> (first: int)
    requires
        0 <= k < cs.len(),
        cs[k].status == LatexCompilerStatus::Installed,
    ensures
        0 <= first <= k,
        is_first_installed(cs, first),
    decreases k,
{
    if exists|j: int| 0 <= j < k && #[trigger] cs[j].status == LatexCompilerStatus::Installed {
        let j = choose|j: int| 0 <= j < k && #[trigger] cs[j].status == LatexCompilerStatus::Installed;
        first_installed_at_or_before(cs, j)
    } else {
        k
    }
}

} // verus!

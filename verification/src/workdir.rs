//! Naming of the per-compile working directories under the cache root, and
//! which entries of the cache root are old compile runs to be removed.
use vstd::prelude::*;

use crate::text::{decimal, has_prefix, is_digit, lemma_decimal_digits, lemma_decimal_injective, push_decimal, starts_with};

verus! {

/// The prefix every compile run directory's name starts with.
pub open spec fn run_prefix() -> Seq<char> {
    "run-"@
}

/// The name of the working directory for a compile started by process `pid`
/// at `millis` milliseconds after the Unix epoch: `run-<pid>-<millis>`.
pub open spec fn run_dir_name(pid: nat, millis: nat) -> Seq<char> {
    run_prefix() + decimal(pid) + "-"@ + decimal(millis)
}

/// A directory with this name holds an earlier compile run.
pub open spec fn is_compile_run_name(name: Seq<char>) -> bool {
    has_prefix(name, run_prefix())
}

/// An entry of the cache root is removed before a compile exactly when it is
/// a directory whose name (when the name is valid Unicode) is that of a
/// compile run.
pub open spec fn prune_decision(is_dir: bool, name: Option<Seq<char>>) -> bool {
    is_dir && (name matches Some(n) && is_compile_run_name(n))
}

/// Builds the working directory name `run-<pid>-<millis>`.
pub fn compile_run_dir_name(pid: u32, millis: u128) -> (name: String)
    ensures
        name@ == run_dir_name(pid as nat, millis as nat),
{
    let mut name = String::new();
    name.append("run-");
    push_decimal(&mut name, pid as u128);
    name.append("-");
    push_decimal(&mut name, millis);
    assert(name@ =~= run_dir_name(pid as nat, millis as nat));
    name
}

/// Whether a directory name is that of a compile run: it starts with `run-`.
pub fn is_compile_run(name: &str) -> (run: bool)
    ensures
        run == is_compile_run_name(name@),
{
    starts_with(name, "run-")
}

/// Whether an entry of the cache root is an old compile run to remove.
pub fn should_prune(is_dir: bool, name: Option<&str>) -> (prune: bool)
    ensures
        prune == prune_decision(is_dir, match name { Some(n) => Some(n@), None => None }),
{
    let is_run = match name {
        Some(n) => is_compile_run(n),
        None => false,
    };
    is_dir && is_run
}

/// Every working directory the workbench creates is recognised as a compile
/// run, so the next compile removes it.
pub proof fn lemma_run_dirs_are_pruned(pid: nat, millis: nat)
    ensures
        is_compile_run_name(run_dir_name(pid, millis)),
        prune_decision(true, Some(run_dir_name(pid, millis))),
{
    let name = run_dir_name(pid, millis);
    assert(name.subrange(0, run_prefix().len() as int) =~= run_prefix());
}

/// Compiles started by different processes, or at different milliseconds,
/// get different working directories.
pub proof fn lemma_run_dir_names_distinct(pid1: nat, millis1: nat, pid2: nat, millis2: nat)
    requires
        run_dir_name(pid1, millis1) == run_dir_name(pid2, millis2),
    ensures
        pid1 == pid2,
        millis1 == millis2,
{
    reveal_strlit("-");
    reveal_strlit("run-");
    let (p1, p2) = (decimal(pid1), decimal(pid2));
    let (t1, t2) = (decimal(millis1), decimal(millis2));
    lemma_decimal_digits(pid1);
    lemma_decimal_digits(pid2);
    lemma_decimal_digits(millis1);
    lemma_decimal_digits(millis2);
    let dash = "-"@;
    let r1 = p1 + dash + t1;
    let r2 = p2 + dash + t2;
    let n1 = run_dir_name(pid1, millis1);
    let n2 = run_dir_name(pid2, millis2);
    assert(r1 =~= n1.subrange(4, n1.len() as int));
    assert(r2 =~= n2.subrange(4, n2.len() as int));
    assert(r1 == r2);
    if p1.len() < p2.len() {
        assert(r1[p1.len() as int] == '-');
        assert(r2[p1.len() as int] == p2[p1.len() as int]);
        assert(is_digit(p2[p1.len() as int]));
        assert(false);
    } else if p2.len() < p1.len() {
        assert(r2[p2.len() as int] == '-');
        assert(r1[p2.len() as int] == p1[p2.len() as int]);
        assert(is_digit(p1[p2.len() as int]));
        assert(false);
    }
    assert(p1 =~= r1.subrange(0, p1.len() as int));
    assert(p2 =~= r2.subrange(0, p2.len() as int));
    lemma_decimal_injective(pid1, pid2);
    assert(t1 =~= r1.subrange(p1.len() as int + 1, r1.len() as int));
    assert(t2 =~= r2.subrange(p2.len() as int + 1, r2.len() as int));
    lemma_decimal_injective(millis1, millis2);
}

} // verus!

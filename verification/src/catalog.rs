//! The behaviours of the tool that are measured.

use vstd::prelude::*;

verus! {

/// One measured behaviour: the shell command that is timed, and the command
/// that runs, untimed, before each timed repetition.
#[derive(Debug, Clone, Copy, PartialEq, Eq)]
pub struct HyperfineCmd<'a> {
    pub name: &'a str,
    pub prepare: &'a str,
    pub cmd: &'a str,
}

/// The mathematical view of [`HyperfineCmd`]: every text as its sequence of characters.
pub struct HyperfineCmdView {
    pub name: Seq<char>,
    pub prepare: Seq<char>,
    pub cmd: Seq<char>,
}

impl<'a> View for HyperfineCmd<'a> {
    type V = HyperfineCmdView;

    open spec fn view(&self) -> HyperfineCmdView {
        HyperfineCmdView { name: self.name@, prepare: self.prepare@, cmd: self.cmd@ }
    }
}

impl<'a> DeepView for HyperfineCmd<'a> {
    type V = HyperfineCmdView;

    open spec fn deep_view(&self) -> HyperfineCmdView {
        self.view()
    }
}

/// The catalog: every behaviour that a run measures, in order.
pub open spec fn catalog() -> Seq<HyperfineCmdView> {
    seq![
        HyperfineCmdView {
            name: "parse"@,
            prepare: "rm -rf target/"@,
            cmd: "dbt parse --no-version-check"@,
        },
    ]
}

/// The catalog. A new behaviour is measured by adding an entry here.
pub fn metrics() -> (r: Vec<HyperfineCmd<'static>>)
    ensures
        r.deep_view() == catalog(),
{
    let mut r: Vec<HyperfineCmd<'static>> = Vec::new();
    r.push(
        HyperfineCmd {
            name: "parse",
            prepare: "rm -rf target/",
            cmd: "dbt parse --no-version-check",
        },
    );
    assert(r.deep_view() =~= catalog());
    r
}

} // verus!

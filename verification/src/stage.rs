//! One external tool invocation, as pure data.
//!
//! A [`BuildStage`] is the request shape of the process-execution boundary:
//! a program name, an ordered argument list, an optional working directory,
//! environment overrides layered on top of the inherited environment, and
//! environment variables removed before spawning. Stages are produced by the
//! composer, consumed once by the runner, and never reused.

use vstd::prelude::*;

verus! {

/// An external tool invocation.
#[derive(Debug, Clone, PartialEq, Eq)]
pub struct BuildStage {
    /// The program to spawn.
    pub tool: String,
    /// The ordered argument list, exactly as handed to the tool.
    pub args: Vec<String>,
    /// The working directory, or `None` to inherit the caller's.
    pub working_dir: Option<String>,
    /// Variables set on top of the inherited environment.
    pub env_overrides: Vec<(String, String)>,
    /// Variables removed from the inherited environment before spawning.
    pub env_removals: Vec<String>,
}

/// The mathematical value of a [`BuildStage`]: every string as a `Seq<char>`.
#[verifier::ext_equal]
pub ghost struct SpecStage {
    pub tool: Seq<char>,
    pub args: Seq<Seq<char>>,
    pub working_dir: Option<Seq<char>>,
    pub env_overrides: Seq<(Seq<char>, Seq<char>)>,
    pub env_removals: Seq<Seq<char>>,
}

impl View for BuildStage {
    type V = SpecStage;

    open spec fn view(&self) -> SpecStage {
        SpecStage {
            tool: self.tool@,
            args: self.args.deep_view(),
            working_dir: self.working_dir.deep_view(),
            env_overrides: self.env_overrides.deep_view(),
            env_removals: self.env_removals.deep_view(),
        }
    }
}

impl DeepView for BuildStage {
    type V = SpecStage;

    open spec fn deep_view(&self) -> SpecStage {
        self.view()
    }
}

/// Appends one literal argument to an argument list under construction.
pub fn push_str(v: &mut Vec<String>, s: &str)
    ensures
        final(v).deep_view() == old(v).deep_view().push(s@),
{
    v.push(String::from_str(s));
    proof {
        assert(v.deep_view() =~= old(v).deep_view().push(s@));
    }
}

/// Appends one already-built argument to an argument list under construction.
pub fn push_string(v: &mut Vec<String>, s: String)
    ensures
        final(v).deep_view() == old(v).deep_view().push(s@),
{
    let ghost sv = s@;
    v.push(s);
    proof {
        assert(v.deep_view() =~= old(v).deep_view().push(sv));
    }
}

/// Appends one environment override to a list under construction.
pub fn push_env(v: &mut Vec<(String, String)>, key: &str, value: String)
    ensures
        final(v).deep_view() == old(v).deep_view().push((key@, value@)),
{
    let ghost vv = value@;
    v.push((String::from_str(key), value));
    proof {
        assert(v.deep_view() =~= old(v).deep_view().push((key@, vv)));
    }
}

/// Concatenates a literal prefix with a computed suffix.
pub fn concat_str(prefix: &str, suffix: &str) -> (r: String)
    ensures
        r@ == prefix@ + suffix@,
{
    let mut r = String::from_str(prefix);
    r.append(suffix);
    r
}

} // verus!

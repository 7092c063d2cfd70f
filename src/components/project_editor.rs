use vstd::prelude::*;
use vstd::string::StringExecFns;

use crate::action::Action;
use crate::components::utils::Focusable;

verus! {

/// The pane listing the sequencing projects.
#[derive(Clone, Debug)]
pub struct ProjectList {
    pub items: Vec<Project>,
    pub has_focus: bool,
}

impl Focusable for ProjectList {
    open spec fn is_focused(&self) -> bool {
        self.has_focus
    }

    open spec fn with_focus(&self, f: bool) -> ProjectList {
        ProjectList { has_focus: f, ..*self }
    }

    fn focus(&mut self) {
        self.has_focus = true;
    }

    fn unfocus(&mut self) {
        self.has_focus = false;
    }
}

impl Default for ProjectList {
    fn default() -> (r: ProjectList)
        ensures
            r.items@.len() == 0,
            r.has_focus,
    {
        ProjectList::new()
    }
}

impl ProjectList {
    /// An empty list, with focus.
    pub fn new() -> (r: ProjectList)
        ensures
            r.items@.len() == 0,
            r.has_focus,
    {
        ProjectList { items: Vec::new(), has_focus: true }
    }

    /// Reacts to an action; this pane has nothing to do on any of them.
    pub fn update(&mut self, action: Action) -> (r: Option<Action>)
        ensures
            r.is_none(),
            *final(self) == *old(self),
    {
        match action {
            Action::Tick => {},
            Action::Render => {},
            _ => {},
        }
        None
    }
}

/// The character of a decimal digit.
pub open spec fn digit_char(d: nat) -> char {
    ((d + 48) as u32) as char
}

/// The decimal digits of `n`, most significant first, without sign or padding.
pub open spec fn decimal(n: nat) -> Seq<char>
    decreases n,
{
    if n < 10 {
        seq![digit_char(n)]
    } else {
        decimal(n / 10).push(digit_char(n % 10))
    }
}

/// Relies on `ToString` through `u64`'s `Display`: a number is written as its
/// decimal digits.
#[verifier::external_body]
fn decimal_string(n: u64) -> (r: String)
    ensures
        r@ == decimal(n as nat),
{
    n.to_string()
}

/// How a project's label reads in the list: its name, then its read count
/// in parentheses.
pub open spec fn list_label(name: Seq<char>, read_count: u64) -> Seq<char> {
    name + " ("@ + decimal(read_count as nat) + ")"@
}

/// A nanopore sequencing project.
#[derive(Default, Debug, Clone, PartialEq, Eq, Hash)]
pub struct Project {
    pub name: String,
    pub path: String,
    pub read_count: u64,
    pub basecall_runs: Vec<BasecallRun>,
    pub format: RawBasecallsFormat,
}

impl Project {
    /// The label shown for this project in the list.
    pub fn to_list_item(&self) -> (r: String)
        ensures
            r@ == list_label(self.name@, self.read_count),
    {
        let mut s = String::from_str(self.name.as_str());
        s.append(" (");
        let digits = decimal_string(self.read_count);
        s.append(digits.as_str());
        s.append(")");
        s
    }
}

/// The format of a project's raw signal files.
#[derive(Default, Debug, Clone, Copy, PartialEq, Eq, Hash, Structural)]
pub enum RawBasecallsFormat {
    Fast5,
    Slow5,
    #[default]
    Pod5,
}

/// A basecall run within a project.
#[derive(Default, Debug, Clone, PartialEq, Eq, Hash)]
pub struct BasecallRun {
    pub name: String,
    pub path: String,
    pub read_count: u64,
    pub output_path: String,
    pub basecaller: Basecaller,
}

/// The basecaller used to process raw signal files.
#[derive(Default, Debug, Clone, PartialEq, Eq, Hash)]
pub struct Basecaller {
    pub name: String,
    pub version: String,
    pub path: String,
    pub config: String,
    pub model: String,
}

} // verus!

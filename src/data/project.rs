use vstd::prelude::*;

verus! {

/// A note attached to a project.
#[derive(Debug, Clone, PartialEq)]
pub struct Note {
    pub title: String,
    pub body: String,
    pub created_by: String,
    pub created_at: u64,
    pub last_updated: u64,
}

/// What a project sequences, with a free-form description.
#[derive(Debug, Clone, PartialEq)]
pub enum ProjectType {
    DNA(String),
    RNA(String),
}

impl Default for ProjectType {
    fn default() -> (r: ProjectType)
        ensures
            match r {
                ProjectType::DNA(s) => s@.len() == 0,
                ProjectType::RNA(_) => false,
            },
    {
        ProjectType::DNA(String::new())
    }
}

/// How a basecall run ended, or that it has not.
#[derive(Debug, Clone, Copy, PartialEq, Eq, Structural)]
pub enum BasecallStatus {
    Success,
    Failed,
    InProgress,
}

/// The output of a basecall run.
#[derive(Debug, Clone, PartialEq)]
pub struct BasecallRun {
    pub name: String,
    pub read_count: u64,
    pub output_path: String,
}

} // verus!

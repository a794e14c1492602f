//! Where the hints are kept, and what has to be created before first use.

use vstd::prelude::*;
use vstd::string::*;

verus! {

/// What has to be done so that the project directory and the hints file
/// exist.
#[derive(Clone, Debug, PartialEq, Eq)]
pub struct InitPlan {
    /// Whether the project directory has to be created.
    pub create_dir: bool,
    /// What to write to a new hints file, if one has to be created.
    pub hints_content: Option<String>,
}

/// The name of the project directory, under the user's home directory.
pub open spec fn spec_project_dir_name() -> Seq<char> {
    ".blsct"@
}

/// The name of the hints file, under the project directory.
pub open spec fn spec_hints_file_name() -> Seq<char> {
    "address_hints.json"@
}

/// What a new hints file holds: the empty JSON object.
pub open spec fn spec_default_hints() -> Seq<char> {
    "{}"@
}

/// Returns the name of the project directory.
pub fn project_dir_name() -> (name: &'static str)
    ensures
        name@ == spec_project_dir_name(),
{
    ".blsct"
}

/// Returns the name of the hints file.
pub fn hints_file_name() -> (name: &'static str)
    ensures
        name@ == spec_hints_file_name(),
{
    "address_hints.json"
}

/// Returns what a new hints file holds.
pub fn default_hints() -> (content: &'static str)
    ensures
        content@ == spec_default_hints(),
{
    "{}"
}

impl View for InitPlan {
    type V = (bool, Option<Seq<char>>);

    open spec fn view(&self) -> Self::V {
        (
            self.create_dir,
            match self.hints_content {
                Some(content) => Some(content@),
                None => None,
            },
        )
    }
}

/// The plan for a given state of the disk: the directory is created where it
/// is missing, and the hints file is written, with the default content,
/// where it is missing.
pub open spec fn planned(dir_exists: bool, file_exists: bool) -> (bool, Option<Seq<char>>) {
    (
        !dir_exists,
        if file_exists {
            None
        } else {
            Some(spec_default_hints())
        },
    )
}

/// Whether the project directory exists once a plan is carried out.
pub open spec fn dir_exists_after(plan: (bool, Option<Seq<char>>), dir_exists: bool) -> bool {
    dir_exists || plan.0
}

/// What the hints file holds once a plan is carried out, where `existing` is
/// what it held before (`None`: there was no file).
pub open spec fn hints_after(plan: (bool, Option<Seq<char>>), existing: Option<Seq<char>>) -> Option<
    Seq<char>,
> {
    match plan.1 {
        Some(content) => Some(content),
        None => existing,
    }
}

/// Plans the initialization from what was found on disk. What exists is left
/// as it is.
pub fn init_plan(dir_exists: bool, file_exists: bool) -> (plan: InitPlan)
    ensures
        plan@ == planned(dir_exists, file_exists),
{
    let hints_content = if file_exists {
        None
    } else {
        Some(String::from_str(default_hints()))
    };
    InitPlan { create_dir: !dir_exists, hints_content }
}

/// Once the plan for a state of the disk is carried out, the project
/// directory exists and there is a hints file: a file that was there keeps
/// its content, a new one holds the default content.
pub proof fn lemma_init_establishes(dir_exists: bool, existing: Option<Seq<char>>)
    ensures
        dir_exists_after(planned(dir_exists, existing is Some), dir_exists),
        hints_after(planned(dir_exists, existing is Some), existing) == Some(
            match existing {
                Some(content) => content,
                None => spec_default_hints(),
            },
        ),
{
}

/// Where everything is in place, the plan does nothing.
pub proof fn lemma_init_idempotent(dir_exists: bool, existing: Option<Seq<char>>)
    ensures
        ({
            let after = hints_after(planned(dir_exists, existing is Some), existing);
            planned(true, after is Some) == (false, None::<Seq<char>>)
        }),
{
}

} // verus!

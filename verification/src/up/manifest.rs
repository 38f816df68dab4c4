//! The deployment descriptor: metadata, port and variable declarations, and
//! the ordered list of files to render.

use vstd::prelude::*;
use vstd::string::*;
use crate::paths::{confined_path, is_confined};

verus! {

/// Informational data about the application.
#[derive(Debug)]
pub struct Metadata {
    pub name: String,
    pub desc: String,
    pub tags: Vec<String>,
    pub version: String,
}

/// A port that the application binds.
#[derive(Debug)]
pub struct Port {
    pub ip: String,
    pub port: u16,
    pub desc: String,
}

/// A value that templates substitute.
#[derive(Debug)]
pub struct Variable {
    pub name: String,
    pub desc: String,
    pub value: String,
}

/// The parsed descriptor. `ports` and `variables` are maps from a logical
/// name to a record, kept as lists of entries whose names must differ;
/// `templates` are paths relative to the deployment directory, rendered in
/// the order given.
#[derive(Debug)]
pub struct Manifest {
    pub metadata: Metadata,
    pub templates: Vec<String>,
    pub ports: Vec<(String, Port)>,
    pub variables: Vec<(String, Variable)>,
}

/// What makes a descriptor unusable.
#[derive(Debug, PartialEq, Eq)]
pub enum ManifestError {
    /// A template path is absolute or climbs out of the deployment directory.
    TemplateEscapes(String),
    /// Two ports are declared under this name.
    DuplicatePort(String),
    /// Two variables are declared under this name.
    DuplicateVariable(String),
}

impl ManifestError {
    /// The text of `message`.
    pub open spec fn text(self) -> Seq<char> {
        match self {
            ManifestError::TemplateEscapes(path) => "template leaves the target dir: "@ + path@,
            ManifestError::DuplicatePort(name) => "port declared twice: "@ + name@,
            ManifestError::DuplicateVariable(name) => "variable declared twice: "@ + name@,
        }
    }

    /// What is wrong, in words for the user.
    pub fn message(&self) -> (text: String)
        ensures
            text@ == self.text(),
    {
        match self {
            ManifestError::TemplateEscapes(path) => {
                let mut text = String::from_str("template leaves the target dir: ");
                text.append(path.as_str());
                text
            },
            ManifestError::DuplicatePort(name) => {
                let mut text = String::from_str("port declared twice: ");
                text.append(name.as_str());
                text
            },
            ManifestError::DuplicateVariable(name) => {
                let mut text = String::from_str("variable declared twice: ");
                text.append(name.as_str());
                text
            },
        }
    }
}

/// The names of a list of named entries, in order.
pub open spec fn names_of<T>(entries: Seq<(String, T)>) -> Seq<Seq<char>> {
    Seq::new(entries.len(), |i: int| entries[i].0@)
}

/// No name occurs twice.
pub open spec fn distinct(names: Seq<Seq<char>>) -> bool {
    forall|i: int, j: int| 0 <= i < j < names.len() ==> names[i] != names[j]
}

/// `names[j]` repeats an earlier name, and no name before it does.
pub open spec fn first_repeat(names: Seq<Seq<char>>, j: int) -> bool {
    &&& 0 <= j < names.len()
    &&& exists|i: int| 0 <= i < j && names[i] == names[j]
    &&& distinct(names.take(j))
}

/// Every path is confined to the directory it is joined to.
pub open spec fn all_confined(paths: Seq<String>) -> bool {
    forall|i: int| 0 <= i < paths.len() ==> confined_path((#[trigger] paths[i])@)
}

/// `paths[i]` is not confined, and every path before it is.
pub open spec fn first_escape(paths: Seq<String>, i: int) -> bool {
    &&& 0 <= i < paths.len()
    &&& !confined_path(paths[i]@)
    &&& all_confined(paths.take(i))
}

/// The index of the first entry that repeats an earlier name.
fn find_repeat<T>(entries: &Vec<(String, T)>) -> (found: Option<usize>)
    ensures
        match found {
            None => distinct(names_of(entries@)),
            Some(j) => first_repeat(names_of(entries@), j as int),
        },
{
    let ghost names = names_of(entries@);
    let mut j: usize = 0;
    while j < entries.len()
        invariant
            j <= entries.len(),
            names == names_of(entries@),
            distinct(names.take(j as int)),
        decreases entries.len() - j,
    {
        let mut i: usize = 0;
        while i < j
            invariant
                i <= j < entries.len(),
                names == names_of(entries@),
                distinct(names.take(j as int)),
                forall|k: int| 0 <= k < i ==> names[k] != names[j as int],
            decreases j - i,
        {
            if entries[i].0 == entries[j].0 {
                assert(names[i as int] == names[j as int]);
                return Some(j);
            }
            i = i + 1;
        }
        j = j + 1;
    }
    assert(names.take(j as int) =~= names);
    None
}

/// The index of the first path that is not confined.
fn find_escape(paths: &Vec<String>) -> (found: Option<usize>)
    ensures
        match found {
            None => all_confined(paths@),
            Some(i) => first_escape(paths@, i as int),
        },
{
    let mut i: usize = 0;
    while i < paths.len()
        invariant
            i <= paths.len(),
            all_confined(paths@.take(i as int)),
        decreases paths.len() - i,
    {
        if !is_confined(paths[i].as_str()) {
            return Some(i);
        }
        i = i + 1;
    }
    assert(paths@.take(i as int) =~= paths@);
    None
}

impl Manifest {
    /// Every template stays inside the deployment directory, and neither two
    /// ports nor two variables share a name.
    pub open spec fn wf(&self) -> bool {
        &&& all_confined(self.templates@)
        &&& distinct(names_of(self.ports@))
        &&& distinct(names_of(self.variables@))
    }

    /// Checks the descriptor: templates first, then ports, then variables.
    /// The error names the first offender of the first check that fails.
    pub fn validate(&self) -> (checked: Result<(), ManifestError>)
        ensures
            checked is Ok <==> self.wf(),
            checked matches Err(ManifestError::TemplateEscapes(path)) ==> exists|i: int|
                first_escape(self.templates@, i) && path == self.templates@[i],
            checked matches Err(ManifestError::DuplicatePort(name)) ==> all_confined(
                self.templates@,
            ) && exists|j: int|
                first_repeat(names_of(self.ports@), j) && name == self.ports@[j].0,
            checked matches Err(ManifestError::DuplicateVariable(name)) ==> all_confined(
                self.templates@,
            ) && distinct(names_of(self.ports@)) && exists|j: int|
                first_repeat(names_of(self.variables@), j) && name == self.variables@[j].0,
    {
        if let Some(i) = find_escape(&self.templates) {
            return Err(ManifestError::TemplateEscapes(self.templates[i].clone()));
        }
        if let Some(j) = find_repeat(&self.ports) {
            return Err(ManifestError::DuplicatePort(self.ports[j].0.clone()));
        }
        if let Some(j) = find_repeat(&self.variables) {
            return Err(ManifestError::DuplicateVariable(self.variables[j].0.clone()));
        }
        Ok(())
    }
}

} // verus!

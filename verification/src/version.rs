//! The program's version, short and long.

use vstd::prelude::*;
use vstd::string::*;

verus! {

/// What the build knows of itself.
#[derive(Debug)]
pub struct BuildInfo {
    /// The program's own version.
    pub semver: String,
    /// The compiler's version.
    pub rustc_semver: String,
    /// The short hash of the latest commit.
    pub git_sha: String,
    /// The time of the latest commit.
    pub commit_date: String,
    /// The id of the pipeline task that built the program, if one did.
    pub ci_task_id: Option<String>,
    /// The time of the build.
    pub build_date: String,
    pub os: String,
    pub arch: String,
}

/// The pipeline id of a build that no pipeline made.
pub const SELF_BUILD: &'static str = "self-build";

impl BuildInfo {
    /// The pipeline's id, or `SELF_BUILD`.
    pub open spec fn pipeline(&self) -> Seq<char> {
        match self.ci_task_id {
            Some(id) => id@,
            None => SELF_BUILD@,
        }
    }

    /// The text of the long version.
    pub open spec fn long_text(&self) -> Seq<char> {
        "\nVersion:         "@ + self.semver@ + "\nRustc version:   "@ + self.rustc_semver@
            + "\nGit commit/date: "@ + self.git_sha@ + "/"@ + self.commit_date@
            + "\nPipeline ID:     "@ + self.pipeline() + "\nBuilt:           "@ + self.build_date@
            + "\nOS/Arch:         "@ + self.os@ + "/"@ + self.arch@
    }

    /// The text of the short version.
    pub open spec fn short_text(&self) -> Seq<char> {
        self.semver@ + "+"@ + self.git_sha@
    }
}

/// The long version: one line each for the version, the compiler, the
/// commit, the pipeline, the build time and the platform.
pub fn version(info: &BuildInfo) -> (text: String)
    ensures
        text@ == info.long_text(),
{
    let mut text = String::from_str("\nVersion:         ");
    text.append(info.semver.as_str());
    text.append("\nRustc version:   ");
    text.append(info.rustc_semver.as_str());
    text.append("\nGit commit/date: ");
    text.append(info.git_sha.as_str());
    text.append("/");
    text.append(info.commit_date.as_str());
    text.append("\nPipeline ID:     ");
    match &info.ci_task_id {
        Some(id) => text.append(id.as_str()),
        None => text.append(SELF_BUILD),
    }
    text.append("\nBuilt:           ");
    text.append(info.build_date.as_str());
    text.append("\nOS/Arch:         ");
    text.append(info.os.as_str());
    text.append("/");
    text.append(info.arch.as_str());
    text
}

/// The short version: the program's version, a plus sign and the commit.
pub fn short_version(info: &BuildInfo) -> (text: String)
    ensures
        text@ == info.short_text(),
{
    let mut text = String::from_str(info.semver.as_str());
    text.append("+");
    text.append(info.git_sha.as_str());
    text
}

} // verus!

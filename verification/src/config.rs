use vstd::prelude::*;
use crate::text::same_text;

verus! {

/// The settings of one run, resolved once at start-up.
#[derive(Debug)]
pub struct Config {
    pub user: Option<String>,
    pub repository_name: Option<String>,
    pub branch: String,
    pub write_mode: bool,
    pub release_mode: bool,
    pub gh_username: Option<String>,
    pub gh_token: Option<String>,
    pub cargo_token: Option<String>,
    pub repository_path: String,
    pub package: String,
    /// The name of the `origin` remote, or why it could not be found.
    pub remote: Result<String, String>,
}

impl Config {
    /// Whether there is a remote to push to.
    pub fn can_push(&self) -> (r: bool)
        ensures
            r == (self.remote is Ok),
    {
        self.remote.is_ok()
    }

    /// Whether everything that a GitHub release needs is known: the remote,
    /// the owner and the name of the repository, and a token.
    pub fn can_release_to_github(&self) -> (r: bool)
        ensures
            r == (self.remote is Ok && self.user is Some && self.repository_name is Some
                && self.gh_token is Some),
    {
        self.remote.is_ok() && self.user.is_some() && self.repository_name.is_some()
            && self.gh_token.is_some()
    }

    /// Whether there is a token for the package registry.
    pub fn can_release_to_cratesio(&self) -> (r: bool)
        ensures
            r == (self.cargo_token is Some),
    {
        self.cargo_token.is_some()
    }
}

/// The lower-case form that std gives a text.
pub uninterp spec fn lowercase(text: Seq<char>) -> Seq<char>;

/// Calls `str::to_lowercase`. The result is only given a name: it depends on
/// the text alone.
#[verifier::external_body]
fn to_lowercase(text: &str) -> (out: String)
    ensures
        out@ == lowercase(text@),
{
    text.to_lowercase()
}

/// The lower-case answers that mean yes.
pub open spec fn is_yes(lowered: Seq<char>) -> bool {
    lowered == "yes"@ || lowered == "true"@ || lowered == "1"@
}

/// Whether a lower-case answer means yes.
pub fn is_affirmative(lowered: &str) -> (r: bool)
    ensures
        r == is_yes(lowered@),
{
    same_text(lowered, "yes") || same_text(lowered, "true") || same_text(lowered, "1")
}

/// Reads a yes-or-no answer: `yes`, `true` and `1` mean yes in any case of
/// the letters, everything else means no.
pub fn string_to_bool(answer: &str) -> (r: bool)
    ensures
        r == is_yes(lowercase(answer@)),
{
    let lowered = to_lowercase(answer);
    is_affirmative(lowered.as_str())
}

/// Whether the branch that is checked out is the one that releases are made
/// from.
pub fn is_release_branch(current: &str, release: &str) -> (r: bool)
    ensures
        r == (current@ == release@),
{
    same_text(current, release)
}

/// The two modes of a run, write and release.
///
/// Whether to write follows the answer given on the command line; without
/// one, a run writes exactly when it runs under continuous integration. A
/// run releases only where it writes and a release was asked for.
pub open spec fn modes(write: Option<Seq<char>>, release: Option<Seq<char>>, ci: bool) -> (
    bool,
    bool,
) {
    let write_mode = match write {
        Some(answer) => is_yes(lowercase(answer)),
        None => ci,
    };
    let release_flag = match release {
        Some(answer) => is_yes(lowercase(answer)),
        None => false,
    };
    (write_mode, write_mode && release_flag)
}

/// The text of an answer that may be absent.
pub open spec fn answer_text(answer: Option<&str>) -> Option<Seq<char>> {
    match answer {
        Some(a) => Some(a@),
        None => None,
    }
}

/// Resolves the write mode and the release mode of a run.
pub fn resolve_modes(write: Option<&str>, release: Option<&str>, ci: bool) -> (r: (bool, bool))
    ensures
        r == modes(answer_text(write), answer_text(release), ci),
{
    let write_mode = match write {
        Some(answer) => string_to_bool(answer),
        None => ci,
    };
    let release_flag = match release {
        Some(answer) => string_to_bool(answer),
        None => false,
    };
    (write_mode, write_mode && release_flag)
}

/// One thing that a run does once the next version is known.
#[derive(Clone, Copy, Debug, PartialEq, Eq, Structural)]
pub enum Step {
    PrintChangelog,
    WriteManifest,
    WriteChangelog,
    UpdateLockfile,
    CommitFiles,
    CreateTag,
    Push,
    GithubRelease,
    PackageCrate,
    PublishCrate,
}

/// The steps of a run, in order. A dry run only prints the changelog. A
/// writing run writes the manifest and the changelog, commits and tags; a
/// releasing run also refreshes the lockfile before the commit and then
/// pushes, publishes a GitHub release and publishes the crate, each where
/// the configuration allows it.
pub open spec fn steps_for(config: Config, hosted_on_github: bool) -> Seq<Step> {
    if !config.write_mode {
        seq![Step::PrintChangelog]
    } else {
        let release = config.release_mode;
        seq![Step::WriteManifest, Step::WriteChangelog] + (if release {
            seq![Step::UpdateLockfile]
        } else {
            seq![]
        }) + seq![Step::CommitFiles, Step::CreateTag] + (if release && config.remote is Ok {
            seq![Step::Push]
        } else {
            seq![]
        }) + (if release && hosted_on_github && config.remote is Ok && config.user is Some
            && config.repository_name is Some && config.gh_token is Some {
            seq![Step::GithubRelease]
        } else {
            seq![]
        }) + (if release && config.cargo_token is Some {
            seq![Step::PackageCrate, Step::PublishCrate]
        } else {
            seq![]
        })
    }
}

/// Lays out the steps of a run.
pub fn release_steps(config: &Config, hosted_on_github: bool) -> (steps: Vec<Step>)
    ensures
        steps@ == steps_for(*config, hosted_on_github),
{
    let mut steps: Vec<Step> = Vec::new();
    if !config.write_mode {
        steps.push(Step::PrintChangelog);
        assert(steps@ =~= steps_for(*config, hosted_on_github));
        return steps;
    }
    steps.push(Step::WriteManifest);
    steps.push(Step::WriteChangelog);
    if config.release_mode {
        steps.push(Step::UpdateLockfile);
    }
    steps.push(Step::CommitFiles);
    steps.push(Step::CreateTag);
    if config.release_mode && config.can_push() {
        steps.push(Step::Push);
    }
    if config.release_mode && hosted_on_github && config.can_release_to_github() {
        steps.push(Step::GithubRelease);
    }
    if config.release_mode && config.can_release_to_cratesio() {
        steps.push(Step::PackageCrate);
        steps.push(Step::PublishCrate);
    }
    assert(steps@ =~= steps_for(*config, hosted_on_github));
    steps
}

} // verus!

use vstd::prelude::*;
use vstd::string::*;
use crate::config::Config;
use crate::text::texts;

verus! {

/// The text that std's `Debug` formatting gives a string: quoted, with
/// escapes.
pub uninterp spec fn debug_text(text: Seq<char>) -> Seq<char>;

/// Formats a string with `{:?}`, as `<str as Debug>::fmt` writes it. The
/// result is only given a name: it depends on the text alone.
#[verifier::external_body]
fn debug_string(text: &str) -> (out: String)
    ensures
        out@ == debug_text(text@),
{
    format!("{:?}", text)
}

/// The warnings that a configuration calls for, in order: one for each
/// credential that is missing, and two where the `origin` remote could not
/// be found, the first of which quotes the reason.
pub open spec fn warnings_for(config: Config) -> Seq<Seq<char>> {
    (if config.gh_username is None {
        seq!["The GH_USERNAME environment variable is not configured"@]
    } else {
        seq![]
    }) + (if config.gh_token is None {
        seq!["The GH_TOKEN environment variable is not configured"@]
    } else {
        seq![]
    }) + (if config.cargo_token is None {
        seq![
            "The CARGO_TOKEN environment variable is not configured. Cannot create release on crates.io"@,
        ]
    } else {
        seq![]
    }) + (match config.remote {
        Err(reason) => seq![
            "Could not determine the origin remote url: "@ + debug_text(reason@),
            "semantic-rs can't push changes or create a release on GitHub"@,
        ],
        Ok(_) => seq![],
    })
}

/// Checks that everything is in place for a release and says what is not.
/// Nothing that is missing stops the run: what cannot be published is
/// skipped.
pub fn check(config: &Config) -> (warnings: Vec<String>)
    ensures
        texts(warnings@) == warnings_for(*config),
{
    let mut warnings: Vec<String> = Vec::new();
    if config.gh_username.is_none() {
        warnings.push("The GH_USERNAME environment variable is not configured".to_owned());
    }
    if config.gh_token.is_none() {
        warnings.push("The GH_TOKEN environment variable is not configured".to_owned());
    }
    if config.cargo_token.is_none() {
        warnings.push(
            "The CARGO_TOKEN environment variable is not configured. Cannot create release on crates.io".to_owned(),
        );
    }
    match &config.remote {
        Err(reason) => {
            let mut first = "Could not determine the origin remote url: ".to_owned();
            first.append(debug_string(reason.as_str()).as_str());
            warnings.push(first);
            warnings.push(
                "semantic-rs can't push changes or create a release on GitHub".to_owned(),
            );
        },
        Ok(_) => {},
    }
    assert(texts(warnings@) =~= warnings_for(*config));
    warnings
}

} // verus!

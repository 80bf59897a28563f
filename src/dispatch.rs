//! Choosing what a run does: print the build metadata, show information on the inputs, or
//! extract; and whether the run ends with a pause.

use vstd::prelude::*;
use vstd::string::StringExecFns;
use crate::platform::Platform;

verus! {

/// What a run does.
#[derive(Clone, Copy, Debug, PartialEq, Eq, Structural)]
pub enum Mode {
    /// Print the build metadata and stop.
    Metadata,
    /// Show information on the inputs and stop.
    Info,
    /// Resolve the destination and extract the samples of the inputs into it.
    Extract,
}

/// The switches of the command line.
#[derive(Clone, Copy, Debug, PartialEq, Eq, Structural)]
pub struct Flags {
    pub info: bool,
    pub meta: bool,
    pub no_exit_prompt: bool,
}

/// Facts about the build, fixed when the program was built.
pub struct BuildInfo {
    pub name: String,
    pub version: String,
    pub authors: String,
    pub license: String,
    pub repository: String,
    pub commit_hash: Option<String>,
    pub target: String,
    pub rustc_version: String,
    pub target_arch: String,
    pub built_time: String,
}

/// The token that asks for the metadata before the command line is parsed.
pub open spec fn meta_token() -> Seq<char> {
    "--Meta"@
}

/// The mode fixed by the raw tokens alone (the program's name first), before parsing: the
/// metadata when the first argument is the metadata token.
pub open spec fn early_mode_of(tokens: Seq<Seq<char>>) -> Option<Mode> {
    if tokens.len() > 1 && tokens[1] == meta_token() {
        Some(Mode::Metadata)
    } else {
        None
    }
}

/// The mode that the parsed switches select: metadata before information before extraction.
pub open spec fn mode_of(flags: Flags) -> Mode {
    if flags.meta {
        Mode::Metadata
    } else if flags.info {
        Mode::Info
    } else {
        Mode::Extract
    }
}

/// The commit hash as printed: `none` when it is not known.
pub open spec fn commit_text(commit: Option<String>) -> Seq<char> {
    match commit {
        Some(c) => c@,
        None => "none"@,
    }
}

/// The metadata text, one labelled fact per line.
pub open spec fn metadata_of(info: BuildInfo) -> Seq<char> {
    "Binary name: "@ + info.name@
        + "\nVersion: "@ + info.version@
        + "\nAuthor(s): "@ + info.authors@
        + "\nLicense: "@ + info.license@
        + "\nRepository: "@ + info.repository@
        + "\nCommit Hash: "@ + commit_text(info.commit_hash)
        + "\nBuild Target: "@ + info.target@
        + "\nRustc Version: "@ + info.rustc_version@
        + "\nTarget Architechture: "@ + info.target_arch@
        + "\nBuild Time: "@ + info.built_time@
}

/// Looks at the raw command-line tokens, the program's name first, for the metadata token in
/// first place, before any parsing.
pub fn early_mode(tokens: &Vec<String>) -> (r: Option<Mode>)
    ensures
        r == early_mode_of(tokens@.map_values(|t: String| t@)),
{
    let ghost texts = tokens@.map_values(|t: String| t@);
    if tokens.len() > 1 {
        assert(texts[1] == tokens@[1]@);
        let token = String::from_str("--Meta");
        if tokens[1] == token {
            return Some(Mode::Metadata);
        }
    }
    None
}

/// The mode that the parsed switches select.
pub fn parsed_mode(flags: &Flags) -> (r: Mode)
    ensures
        r == mode_of(*flags),
{
    if flags.meta {
        Mode::Metadata
    } else if flags.info {
        Mode::Info
    } else {
        Mode::Extract
    }
}

/// Whether the run ends by waiting for Enter: only after an extraction run on Windows, and only
/// when the prompt is not switched off.
pub fn pauses_at_exit(platform: Platform, mode: Mode, no_exit_prompt: bool) -> (r: bool)
    ensures
        r == (platform == Platform::Windows && mode == Mode::Extract && !no_exit_prompt),
{
    match platform {
        Platform::Windows => mode == Mode::Extract && !no_exit_prompt,
        Platform::Other => false,
    }
}

/// The metadata text for `info`.
pub fn metadata_text(info: &BuildInfo) -> (r: String)
    ensures
        r@ == metadata_of(*info),
{
    let mut t = String::from_str("Binary name: ");
    t.append(info.name.as_str());
    t.append("\nVersion: ");
    t.append(info.version.as_str());
    t.append("\nAuthor(s): ");
    t.append(info.authors.as_str());
    t.append("\nLicense: ");
    t.append(info.license.as_str());
    t.append("\nRepository: ");
    t.append(info.repository.as_str());
    t.append("\nCommit Hash: ");
    match &info.commit_hash {
        Some(c) => t.append(c.as_str()),
        None => t.append("none"),
    }
    t.append("\nBuild Target: ");
    t.append(info.target.as_str());
    t.append("\nRustc Version: ");
    t.append(info.rustc_version.as_str());
    t.append("\nTarget Architechture: ");
    t.append(info.target_arch.as_str());
    t.append("\nBuild Time: ");
    t.append(info.built_time.as_str());
    t
}

/// Asking for the metadata by the token in first place and by the parsed switch select the same
/// mode, and what that mode prints is the metadata text, which depends on the build facts alone.
pub proof fn lemma_metadata_either_way(tokens: Seq<Seq<char>>, flags: Flags, info: BuildInfo)
    requires
        tokens.len() > 1,
        tokens[1] == meta_token(),
        flags.meta,
    ensures
        early_mode_of(tokens) == Some(Mode::Metadata),
        mode_of(flags) == Mode::Metadata,
        early_mode_of(tokens) == Some(mode_of(flags)),
{
}

} // verus!

//! Where the application keeps its data and its configuration.
//!
//! Each of the two directories can be set through an environment variable of
//! its own. A variable that is set decides, whatever it holds; the path is
//! taken as given and is not looked up on disk. Otherwise the directory is
//! the one that the platform's conventions give for this application: its
//! local data directory for data, its local configuration directory for
//! configuration. Resolution fails only if the platform finds no home
//! directory.
//!
//! A path is held as its bytes, so that a directory whose name is not valid
//! Unicode is kept as the platform gave it. An override is text, and its
//! path is that text in UTF-8. Where a path is shown to the user it is
//! turned into text, and what is not valid UTF-8 in it is replaced.
//!
//! Reading the environment is left to the caller, who passes the variable's
//! value in. The platform's answer comes from the `directories` crate.

use vstd::prelude::*;
use vstd::string::*;
use vstd::utf8::*;

verus! {

/// The two directories that can be resolved.
#[derive(Clone, Copy, PartialEq, Eq, Debug, Structural)]
pub enum DirectoryKind {
    Data,
    Config,
}

/// No override was given and the platform found no home directory.
#[derive(Clone, Copy, PartialEq, Eq, Debug, Structural)]
pub struct DirectoryResolutionError {
    /// The directory that was asked for.
    pub kind: DirectoryKind,
}

/// What the platform gives as this application's directories, each as the
/// bytes of its path.
#[derive(Clone, PartialEq, Eq, Debug)]
pub struct PlatformDirectories {
    /// The local data directory.
    pub data_local: Vec<u8>,
    /// The local configuration directory.
    pub config_local: Vec<u8>,
}

/// `PlatformDirectories` in contracts.
pub struct PlatformDirectoriesModel {
    pub data_local: Seq<u8>,
    pub config_local: Seq<u8>,
}

impl View for PlatformDirectories {
    type V = PlatformDirectoriesModel;

    open spec fn view(&self) -> PlatformDirectoriesModel {
        PlatformDirectoriesModel { data_local: self.data_local@, config_local: self.config_local@ }
    }
}

impl DeepView for PlatformDirectories {
    type V = PlatformDirectoriesModel;

    open spec fn deep_view(&self) -> PlatformDirectoriesModel {
        self@
    }
}

/// A path in the file system, as its bytes. It is what resolution produced
/// and is not checked against the disk.
#[derive(Clone, PartialEq, Eq, Debug)]
pub struct ResolvedPath {
    pub path: Vec<u8>,
}

impl View for ResolvedPath {
    type V = Seq<u8>;

    open spec fn view(&self) -> Seq<u8> {
        self.path@
    }
}

/// The qualifier under which the application is registered.
pub open spec fn qualifier_text() -> Seq<char> {
    "com"@
}

/// The organization under which the application is registered.
pub open spec fn organization_text() -> Seq<char> {
    "rgwood"@
}

/// The application's name.
pub open spec fn application_text() -> Seq<char> {
    "systemctl-tui"@
}

/// The name of the environment variable that overrides a directory.
pub open spec fn override_variable_text(kind: DirectoryKind) -> Seq<char> {
    match kind {
        DirectoryKind::Data => "SYSTEMCTL_TUI_DATA"@,
        DirectoryKind::Config => "SYSTEMCTL_TUI_CONFIG"@,
    }
}

/// What a failed resolution says.
pub open spec fn resolution_error_text(kind: DirectoryKind) -> Seq<char> {
    match kind {
        DirectoryKind::Data => "Unable to find data directory for systemctl-tui"@,
        DirectoryKind::Config => "Unable to find config directory for systemctl-tui"@,
    }
}

/// Whether `run` stands somewhere in `bytes`, in one piece.
pub open spec fn holds_run(bytes: Seq<u8>, run: Seq<u8>) -> bool {
    exists|at: int|
        0 <= at && at + run.len() <= bytes.len() && #[trigger] bytes.subrange(
            at,
            at + run.len(),
        ) == run
}

/// Whether both of the platform's directories, if it gave any, carry the
/// application's name in their paths.
pub open spec fn names_application(platform: Option<PlatformDirectoriesModel>) -> bool {
    platform matches Some(dirs) ==> holds_run(dirs.data_local, encode_utf8(application_text()))
        && holds_run(dirs.config_local, encode_utf8(application_text()))
}

/// The platform's directory of a kind: for data the local data directory,
/// for configuration the local configuration directory; none where the
/// platform found no home.
pub open spec fn directory_of(
    kind: DirectoryKind,
    platform: Option<PlatformDirectoriesModel>,
) -> Option<Seq<u8>> {
    match platform {
        None => None,
        Some(dirs) => Some(
            match kind {
                DirectoryKind::Data => dirs.data_local,
                DirectoryKind::Config => dirs.config_local,
            },
        ),
    }
}

/// The rule of resolution: the override if there is one, as UTF-8; else the
/// platform's directory of that kind; else failure.
pub open spec fn resolved(
    kind: DirectoryKind,
    env_override: Option<Seq<char>>,
    platform: Option<PlatformDirectoriesModel>,
) -> Result<Seq<u8>, DirectoryResolutionError> {
    match env_override {
        Some(given) => Ok(encode_utf8(given)),
        None => match directory_of(kind, platform) {
            Some(found) => Ok(found),
            None => Err(DirectoryResolutionError { kind }),
        },
    }
}

/// A resolution's outcome with the path taken as its bytes.
pub open spec fn outcome_bytes(
    outcome: Result<ResolvedPath, DirectoryResolutionError>,
) -> Result<Seq<u8>, DirectoryResolutionError> {
    match outcome {
        Ok(path) => Ok(path@),
        Err(e) => Err(e),
    }
}

/// What `String::from_utf8_lossy` makes of bytes: their text as UTF-8, with
/// the replacement character for what is not valid in them.
pub uninterp spec fn lossy_text(bytes: Seq<u8>) -> Seq<char>;

/// The text that stands for a path where it is shown to the user: the text
/// that the path encodes where it is valid UTF-8, and otherwise that text
/// with replacements.
pub open spec fn shown_text(path: Seq<u8>) -> Seq<char> {
    if valid_utf8(path) {
        decode_utf8(path)
    } else {
        lossy_text(path)
    }
}

/// A platform directory, if there is one, taken as its bytes.
pub open spec fn found_bytes(found: Option<Vec<u8>>) -> Option<Seq<u8>> {
    match found {
        Some(path) => Some(path@),
        None => None,
    }
}

impl DirectoryKind {
    /// The environment variable whose value, when set, is the directory.
    pub fn override_variable(&self) -> (name: &'static str)
        ensures
            name@ == override_variable_text(*self),
    {
        match self {
            DirectoryKind::Data => "SYSTEMCTL_TUI_DATA",
            DirectoryKind::Config => "SYSTEMCTL_TUI_CONFIG",
        }
    }
}

impl DirectoryResolutionError {
    /// The error as a sentence for the user.
    pub fn message(&self) -> (text: String)
        ensures
            text@ == resolution_error_text(self.kind),
    {
        match self.kind {
            DirectoryKind::Data => String::from_str(
                "Unable to find data directory for systemctl-tui",
            ),
            DirectoryKind::Config => String::from_str(
                "Unable to find config directory for systemctl-tui",
            ),
        }
    }
}

/// `String::from_utf8_lossy`, with the text taken out of the `Cow`. The text
/// is a function of the bytes alone. Bytes that are valid UTF-8 give the
/// text that they encode; otherwise each invalid stretch is replaced, and the
/// contract only names the result.
#[verifier::external_body]
fn lossy_string(bytes: &Vec<u8>) -> (text: String)
    ensures
        text@ == lossy_text(bytes@),
        valid_utf8(bytes@) ==> text@ == decode_utf8(bytes@),
{
    String::from_utf8_lossy(bytes).into_owned()
}

impl ResolvedPath {
    /// Takes the bytes of `path` as they are.
    pub fn new(path: Vec<u8>) -> (resolved: ResolvedPath)
        ensures
            resolved@ == path@,
    {
        ResolvedPath { path }
    }

    /// The path that `text` writes: its UTF-8 bytes.
    pub fn from_text(text: &str) -> (resolved: ResolvedPath)
        ensures
            resolved@ == encode_utf8(text@),
    {
        ResolvedPath { path: text.as_bytes_vec() }
    }

    /// The path's bytes.
    pub fn as_bytes(&self) -> (bytes: &Vec<u8>)
        ensures
            bytes@ == self@,
    {
        &self.path
    }

    /// A second value for the same path.
    pub fn duplicate(&self) -> (copy: ResolvedPath)
        ensures
            copy@ == self@,
    {
        ResolvedPath { path: self.path.clone() }
    }

    /// The path as text for the user. A path that is valid UTF-8 is shown
    /// as the text it encodes.
    pub fn display_text(&self) -> (text: String)
        ensures
            text@ == shown_text(self@),
    {
        lossy_string(&self.path)
    }
}

/// `directories::ProjectDirs::from`, with the two directories that this
/// library reads, `data_local_dir` and `config_local_dir`, handed out as the
/// bytes of their paths (`OsStr::as_encoded_bytes`). The lookup depends on
/// the machine and the environment: it is `None` when no home directory can
/// be determined, and which paths come is not claimed. On every platform the
/// crate ends or joins both paths with the application's name, which for
/// this application it leaves as it is; that much is claimed. The call is
/// made for this application and for no other.
#[verifier::external_body]
fn platform_directories(qualifier: &str, organization: &str, application: &str) -> (dirs: Option<
    PlatformDirectories,
>)
    requires
        qualifier@ == qualifier_text(),
        organization@ == organization_text(),
        application@ == application_text(),
    ensures
        names_application(dirs.deep_view()),
{
    directories::ProjectDirs::from(qualifier, organization, application).map(
        |dirs|
            PlatformDirectories {
                data_local: dirs.data_local_dir().as_os_str().as_encoded_bytes().to_vec(),
                config_local: dirs.config_local_dir().as_os_str().as_encoded_bytes().to_vec(),
            },
    )
}

/// Asks the platform for this application's directories.
fn platform_directory() -> (dirs: Option<PlatformDirectories>)
    ensures
        names_application(dirs.deep_view()),
{
    platform_directories("com", "rgwood", "systemctl-tui")
}

/// Picks the directory of a kind from the platform's answer: the local data
/// directory for data, the local configuration directory for configuration.
pub fn platform_directory_of(kind: DirectoryKind, platform: &Option<PlatformDirectories>) -> (found:
    Option<Vec<u8>>)
    ensures
        found_bytes(found) == directory_of(kind, platform.deep_view()),
{
    match platform {
        None => None,
        Some(dirs) => Some(
            match kind {
                DirectoryKind::Data => dirs.data_local.clone(),
                DirectoryKind::Config => dirs.config_local.clone(),
            },
        ),
    }
}

/// Resolves a directory from the two answers that bear on it: the value of
/// the override variable, if it is set, and the platform's directories, if
/// it found any.
pub fn resolve_dir(
    kind: DirectoryKind,
    env_override: Option<String>,
    platform: Option<PlatformDirectories>,
) -> (outcome: Result<ResolvedPath, DirectoryResolutionError>)
    ensures
        outcome_bytes(outcome) == resolved(kind, env_override.deep_view(), platform.deep_view()),
{
    match env_override {
        Some(given) => Ok(ResolvedPath::from_text(given.as_str())),
        None => match platform_directory_of(kind, &platform) {
            Some(found) => Ok(ResolvedPath { path: found }),
            None => Err(DirectoryResolutionError { kind }),
        },
    }
}

/// Resolves a directory, asking the platform only when no override is given.
fn resolve_with_platform(kind: DirectoryKind, env_override: Option<String>) -> (outcome: Result<
    ResolvedPath,
    DirectoryResolutionError,
>)
    ensures
        exists|platform: Option<PlatformDirectoriesModel>|
            names_application(platform) && outcome_bytes(outcome) == #[trigger] resolved(
                kind,
                env_override.deep_view(),
                platform,
            ),
{
    let platform = match env_override {
        Some(_) => None,
        None => platform_directory(),
    };
    let ghost asked = platform.deep_view();
    let outcome = resolve_dir(kind, env_override, platform);
    assert(names_application(asked) && outcome_bytes(outcome) == resolved(
        kind,
        env_override.deep_view(),
        asked,
    ));
    outcome
}

/// The directory for the application's data.
///
/// `env_override` is the value of the variable `SYSTEMCTL_TUI_DATA`, or
/// `None` when it is not set. When it is set the result is that value,
/// unchanged, and the platform is not asked. When it is not, the result is
/// the local data directory among the directories that the platform gives
/// for this application, whatever bytes its path holds, and an error only if
/// the platform gives none.
pub fn get_data_dir(env_override: Option<String>) -> (outcome: Result<
    ResolvedPath,
    DirectoryResolutionError,
>)
    ensures
        exists|platform: Option<PlatformDirectoriesModel>|
            names_application(platform) && outcome_bytes(outcome) == #[trigger] resolved(
                DirectoryKind::Data,
                env_override.deep_view(),
                platform,
            ),
        env_override matches Some(given) ==> outcome_bytes(outcome) == Ok::<
            Seq<u8>,
            DirectoryResolutionError,
        >(encode_utf8(given@)),
{
    resolve_with_platform(DirectoryKind::Data, env_override)
}

/// The directory for the application's configuration.
///
/// `env_override` is the value of the variable `SYSTEMCTL_TUI_CONFIG`, or
/// `None` when it is not set. When it is set the result is that value,
/// unchanged, and the platform is not asked. When it is not, the result is
/// the local configuration directory among the directories that the
/// platform gives for this application, whatever bytes its path holds, and
/// an error only if the platform gives none.
pub fn get_config_dir(env_override: Option<String>) -> (outcome: Result<
    ResolvedPath,
    DirectoryResolutionError,
>)
    ensures
        exists|platform: Option<PlatformDirectoriesModel>|
            names_application(platform) && outcome_bytes(outcome) == #[trigger] resolved(
                DirectoryKind::Config,
                env_override.deep_view(),
                platform,
            ),
        env_override matches Some(given) ==> outcome_bytes(outcome) == Ok::<
            Seq<u8>,
            DirectoryResolutionError,
        >(encode_utf8(given@)),
{
    resolve_with_platform(DirectoryKind::Config, env_override)
}

/// An override, once given, is the result: unchanged, for either kind of
/// directory and whatever the platform would have said. Shown to the user,
/// the resolved path is the override's own text.
pub proof fn law_override_is_returned_unmodified(
    kind: DirectoryKind,
    given: Seq<char>,
    platform: Option<PlatformDirectoriesModel>,
)
    ensures
        resolved(kind, Some(given), platform) == Ok::<Seq<u8>, DirectoryResolutionError>(
            encode_utf8(given),
        ),
        shown_text(encode_utf8(given)) == given,
{
    encode_utf8_valid_utf8(given);
    encode_utf8_decode_utf8(given);
}

/// Two overrides give the same path only if they are the same text.
pub proof fn law_override_decides_the_path(
    kind: DirectoryKind,
    first: Seq<char>,
    second: Seq<char>,
    platform: Option<PlatformDirectoriesModel>,
)
    requires
        resolved(kind, Some(first), platform) == resolved(kind, Some(second), platform),
    ensures
        first == second,
{
    encode_utf8_decode_utf8(first);
    encode_utf8_decode_utf8(second);
}

/// Without an override the result is the platform's directory of the kind
/// asked for, unchanged and whatever bytes it holds: its local data
/// directory for data, its local configuration directory for configuration,
/// and never the other one.
pub proof fn law_platform_directory_is_returned(dirs: PlatformDirectoriesModel)
    ensures
        resolved(DirectoryKind::Data, None, Some(dirs)) == Ok::<Seq<u8>, DirectoryResolutionError>(
            dirs.data_local,
        ),
        resolved(DirectoryKind::Config, None, Some(dirs)) == Ok::<
            Seq<u8>,
            DirectoryResolutionError,
        >(dirs.config_local),
{
}

/// Resolution fails exactly when there is no override and the platform
/// found no home directory, and the error names the kind that was asked for.
pub proof fn law_resolution_fails_only_without_sources(
    kind: DirectoryKind,
    env_override: Option<Seq<char>>,
    platform: Option<PlatformDirectoriesModel>,
)
    ensures
        resolved(kind, env_override, platform) is Err <==> (env_override is None && platform
            is None),
        resolved(kind, env_override, platform) matches Err(e) ==> e.kind == kind,
{
}

} // verus!

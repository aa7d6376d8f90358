//! What the program says of itself when asked for its version.
//!
//! The text gives the version, the authors, and the two directories in
//! which the application keeps its configuration and its data, so that a
//! user can see where to look.

use crate::paths::{
    get_config_dir, get_data_dir, names_application, outcome_bytes, resolved, shown_text,
    DirectoryKind, DirectoryResolutionError, PlatformDirectoriesModel,
};
use vstd::prelude::*;
use vstd::string::*;
use vstd::utf8::*;

verus! {

/// The version text: the version on a line of its own, the authors, and the
/// two directories, one to a line.
pub open spec fn version_text(
    version: Seq<char>,
    authors: Seq<char>,
    config_dir: Seq<char>,
    data_dir: Seq<char>,
) -> Seq<char> {
    version + "\n\nAuthors: "@ + authors + "\n\nConfig directory: "@ + config_dir
        + "\nData directory: "@ + data_dir
}

/// The version text for the directories as they resolved, each shown as
/// text. The configuration directory is looked at first, so its error wins
/// where both have failed.
pub open spec fn version_outcome(
    version: Seq<char>,
    authors: Seq<char>,
    config_dir: Result<Seq<u8>, DirectoryResolutionError>,
    data_dir: Result<Seq<u8>, DirectoryResolutionError>,
) -> Result<Seq<char>, DirectoryResolutionError> {
    match config_dir {
        Err(e) => Err(e),
        Ok(config) => match data_dir {
            Err(e) => Err(e),
            Ok(data) => Ok(version_text(version, authors, shown_text(config), shown_text(data))),
        },
    }
}

/// A text or an error, with the text taken as a sequence of characters.
pub open spec fn text_outcome(outcome: Result<String, DirectoryResolutionError>) -> Result<
    Seq<char>,
    DirectoryResolutionError,
> {
    match outcome {
        Ok(text) => Ok(text@),
        Err(e) => Err(e),
    }
}

/// Lays out the version text for directories that are known, each given as
/// the text that shows it.
pub fn version_info(package_version: &str, authors: &str, config_dir: &str, data_dir: &str) -> (text:
    String)
    ensures
        text@ == version_text(package_version@, authors@, config_dir@, data_dir@),
{
    let mut text = String::from_str(package_version);
    text.append("\n\nAuthors: ");
    text.append(authors);
    text.append("\n\nConfig directory: ");
    text.append(config_dir);
    text.append("\nData directory: ");
    text.append(data_dir);
    text
}

/// The version text of the program.
///
/// `package_version` and `authors` are the package's, as the build knows them. The
/// two overrides are the values of the variables that override the
/// configuration and the data directory, `None` where a variable is not
/// set. Both directories are resolved as `get_config_dir` and `get_data_dir`
/// do, and the result is an error if either cannot be. An override is shown
/// as it was given.
pub fn version(
    package_version: &str,
    authors: &str,
    config_override: Option<String>,
    data_override: Option<String>,
) -> (outcome: Result<String, DirectoryResolutionError>)
    ensures
        exists|config_platform: Option<PlatformDirectoriesModel>,
            data_platform: Option<PlatformDirectoriesModel>|
            names_application(config_platform) && names_application(data_platform)
                && text_outcome(outcome) == #[trigger] version_outcome(
                package_version@,
                authors@,
                resolved(DirectoryKind::Config, config_override.deep_view(), config_platform),
                resolved(DirectoryKind::Data, data_override.deep_view(), data_platform),
            ),
        config_override is Some && data_override is Some ==> text_outcome(outcome) == Ok::<
            Seq<char>,
            DirectoryResolutionError,
        >(version_text(package_version@, authors@, config_override->Some_0@, data_override->Some_0@)),
{
    let config_dir = get_config_dir(config_override);
    let ghost config_platform = choose|platform: Option<PlatformDirectoriesModel>|
        names_application(platform) && outcome_bytes(config_dir) == resolved(
            DirectoryKind::Config,
            config_override.deep_view(),
            platform,
        );
    let config = match config_dir {
        Ok(config) => config,
        Err(e) => {
            assert(text_outcome(Err(e)) == version_outcome(
                package_version@,
                authors@,
                resolved(DirectoryKind::Config, config_override.deep_view(), config_platform),
                resolved(DirectoryKind::Data, data_override.deep_view(), None),
            ));
            return Err(e);
        },
    };
    let data_dir = get_data_dir(data_override);
    let ghost data_platform = choose|platform: Option<PlatformDirectoriesModel>|
        names_application(platform) && outcome_bytes(data_dir) == resolved(
            DirectoryKind::Data,
            data_override.deep_view(),
            platform,
        );
    let outcome = match data_dir {
        Ok(data) => {
            let config_text = config.display_text();
            let data_text = data.display_text();
            proof {
                if config_override is Some {
                    encode_utf8_valid_utf8(config_override->Some_0@);
                    encode_utf8_decode_utf8(config_override->Some_0@);
                }
                if data_override is Some {
                    encode_utf8_valid_utf8(data_override->Some_0@);
                    encode_utf8_decode_utf8(data_override->Some_0@);
                }
            }
            Ok(version_info(package_version, authors, config_text.as_str(), data_text.as_str()))
        },
        Err(e) => Err(e),
    };
    assert(text_outcome(outcome) == version_outcome(
        package_version@,
        authors@,
        resolved(DirectoryKind::Config, config_override.deep_view(), config_platform),
        resolved(DirectoryKind::Data, data_override.deep_view(), data_platform),
    ));
    outcome
}

} // verus!

//! Argument handling of the fixture seeder, which installs a conformance
//! package into an isolated plugin store as a digest-only acquisition.
use vstd::prelude::*;

verus! {

/// A SemVer 2.0 version as plain values: the three numbers, and the
/// pre-release and build-metadata texts (empty when absent).
#[derive(Clone, Debug, PartialEq, Eq)]
pub struct SemVersion {
    pub major: u64,
    pub minor: u64,
    pub patch: u64,
    pub pre: String,
    pub build: String,
}

impl View for SemVersion {
    type V = (u64, u64, u64, Seq<char>, Seq<char>);

    open spec fn view(&self) -> (u64, u64, u64, Seq<char>, Seq<char>) {
        (self.major, self.minor, self.patch, self.pre@, self.build@)
    }
}

/// The version `semver::Version::parse` reads from a text, as its major,
/// minor and patch numbers and its pre-release and build texts; `None` when
/// it refuses the text.
pub uninterp spec fn semver_parse(text: Seq<char>) -> Option<(u64, u64, u64, Seq<char>, Seq<char>)>;

/// Calls `semver::Version::parse` and hands the parsed version back field
/// for field. Its result is the one `semver_parse` names for the text, and
/// the empty text is refused.
#[verifier::external_body]
fn parse_version(text: &str) -> (r: Option<SemVersion>)
    ensures
        match (r, semver_parse(text@)) {
            (Some(v), Some(w)) => v@ == w,
            (None, None) => true,
            _ => false,
        },
        text@.len() == 0 ==> r is None,
{
    match semver::Version::parse(text) {
        Ok(version) => Some(
            SemVersion {
                major: version.major,
                minor: version.minor,
                patch: version.patch,
                pre: version.pre.as_str().to_owned(),
                build: version.build.as_str().to_owned(),
            },
        ),
        Err(_) => None,
    }
}

/// The positional arguments of the seeder, in order.
#[derive(Clone, Copy, Debug, PartialEq, Eq, Structural)]
pub enum SeedArgument {
    DataRoot,
    Archive,
    Source,
    Plugin,
    Version,
    ReleaseId,
}

/// Why the seeder's arguments are refused.
#[derive(Clone, Copy, Debug, PartialEq, Eq, Structural)]
pub enum SeedError {
    /// The argument is missing.
    Missing(SeedArgument),
    /// The version argument is not a SemVer version.
    InvalidVersion,
    /// An argument follows the release id.
    Unexpected,
}

/// The argument at each position.
pub open spec fn argument_at(position: int) -> SeedArgument {
    if position == 0 {
        SeedArgument::DataRoot
    } else if position == 1 {
        SeedArgument::Archive
    } else if position == 2 {
        SeedArgument::Source
    } else if position == 3 {
        SeedArgument::Plugin
    } else if position == 4 {
        SeedArgument::Version
    } else {
        SeedArgument::ReleaseId
    }
}

impl SeedArgument {
    /// The argument's name in messages.
    pub fn name(&self) -> (r: &'static str)
        ensures
            r@ == self.spec_name(),
    {
        match self {
            SeedArgument::DataRoot => "data-root",
            SeedArgument::Archive => "archive",
            SeedArgument::Source => "source",
            SeedArgument::Plugin => "plugin",
            SeedArgument::Version => "version",
            SeedArgument::ReleaseId => "release-id",
        }
    }

    pub open spec fn spec_name(&self) -> Seq<char> {
        match self {
            SeedArgument::DataRoot => "data-root"@,
            SeedArgument::Archive => "archive"@,
            SeedArgument::Source => "source"@,
            SeedArgument::Plugin => "plugin"@,
            SeedArgument::Version => "version"@,
            SeedArgument::ReleaseId => "release-id"@,
        }
    }
}

/// One seeding request: where the store lives, which archive to install,
/// and the identity under which to record it.
#[derive(Clone, Debug, PartialEq, Eq)]
pub struct SeedRequest {
    pub data_root: String,
    pub archive: String,
    pub source: String,
    pub plugin: String,
    pub version: SemVersion,
    pub release_id: String,
}

/// The argument at `position`, or `Missing(argument)` when there are fewer.
pub fn required_argument(arguments: &Vec<String>, position: usize, argument: SeedArgument) -> (r: Result<
    String,
    SeedError,
>)
    ensures
        position < arguments@.len() ==> (r matches Ok(a) && a@ == arguments@[position as int]@),
        position >= arguments@.len() ==> r == Err::<String, SeedError>(SeedError::Missing(argument)),
{
    if position < arguments.len() {
        Ok(arguments[position].clone())
    } else {
        Err(SeedError::Missing(argument))
    }
}

/// What `parse_seed_arguments` refuses, in the order the seeder reads its
/// arguments: a missing argument up to the version, an invalid version, a
/// missing release id, then any argument after it.
pub open spec fn seed_refusal(arguments: Seq<String>) -> Option<SeedError> {
    if arguments.len() < 5 {
        Some(SeedError::Missing(argument_at(arguments.len() as int)))
    } else if semver_parse(arguments[4]@) is None {
        Some(SeedError::InvalidVersion)
    } else if arguments.len() < 6 {
        Some(SeedError::Missing(SeedArgument::ReleaseId))
    } else if arguments.len() > 6 {
        Some(SeedError::Unexpected)
    } else {
        None
    }
}

/// Reads the six positional arguments of the seeder.
pub fn parse_seed_arguments(arguments: &Vec<String>) -> (r: Result<SeedRequest, SeedError>)
    ensures
        r is Err <==> seed_refusal(arguments@) is Some,
        r matches Err(e) ==> seed_refusal(arguments@) == Some(e),
        r matches Ok(request) ==> {
            &&& request.data_root@ == arguments@[0]@
            &&& request.archive@ == arguments@[1]@
            &&& request.source@ == arguments@[2]@
            &&& request.plugin@ == arguments@[3]@
            &&& request.release_id@ == arguments@[5]@
            &&& semver_parse(arguments@[4]@) == Some(request.version@)
        },
{
    let data_root = required_argument(arguments, 0, SeedArgument::DataRoot)?;
    let archive = required_argument(arguments, 1, SeedArgument::Archive)?;
    let source = required_argument(arguments, 2, SeedArgument::Source)?;
    let plugin = required_argument(arguments, 3, SeedArgument::Plugin)?;
    let version_text = required_argument(arguments, 4, SeedArgument::Version)?;
    let version = match parse_version(version_text.as_str()) {
        Some(version) => version,
        None => {
            return Err(SeedError::InvalidVersion);
        },
    };
    let release_id = required_argument(arguments, 5, SeedArgument::ReleaseId)?;
    if arguments.len() > 6 {
        return Err(SeedError::Unexpected);
    }
    Ok(SeedRequest { data_root, archive, source, plugin, version, release_id })
}

/// The seeder accepts exactly six arguments whose fifth is a SemVer version;
/// fewer arguments name the first one missing, unless a fifth argument is
/// present and not a version.
pub proof fn law_seed_arguments_accepted(arguments: Seq<String>)
    ensures
        seed_refusal(arguments) is None <==> (arguments.len() == 6 && semver_parse(arguments[4]@) is Some),
        arguments.len() < 5 ==> seed_refusal(arguments) == Some(
            SeedError::Missing(argument_at(arguments.len() as int)),
        ),
        arguments.len() >= 5 && semver_parse(arguments[4]@) is None ==> seed_refusal(arguments)
            == Some(SeedError::InvalidVersion),
{
}

} // verus!


use sigil_plugin_sdk::seed::{parse_seed_arguments, required_argument, SeedArgument, SeedError};

fn arguments(values: &[&str]) -> Vec<String> {
    values.iter().map(|value| (*value).to_owned()).collect()
}

#[test]
fn seeder_reads_six_positional_arguments() {
    let request = parse_seed_arguments(&arguments(&[
        "/tmp/data",
        "fixture.tar",
        "github:example/sql",
        "sql-v02",
        "0.2.0-rc.1+build.7",
        "release-1",
    ]))
    .expect("complete arguments");
    assert_eq!(request.data_root, "/tmp/data");
    assert_eq!(request.archive, "fixture.tar");
    assert_eq!(request.source, "github:example/sql");
    assert_eq!(request.plugin, "sql-v02");
    assert_eq!(request.version.major, 0);
    assert_eq!(request.version.minor, 2);
    assert_eq!(request.version.patch, 0);
    assert_eq!(request.version.pre, "rc.1");
    assert_eq!(request.version.build, "build.7");
    assert_eq!(request.release_id, "release-1");
}

#[test]
fn seeder_refuses_missing_invalid_and_extra_arguments() {
    assert_eq!(
        parse_seed_arguments(&arguments(&[])).expect_err("no arguments"),
        SeedError::Missing(SeedArgument::DataRoot)
    );
    assert_eq!(
        parse_seed_arguments(&arguments(&["d", "a", "s"])).expect_err("three arguments"),
        SeedError::Missing(SeedArgument::Plugin)
    );
    assert_eq!(
        parse_seed_arguments(&arguments(&["d", "a", "s", "p", "1.0"])).expect_err("bad version"),
        SeedError::InvalidVersion
    );
    assert_eq!(
        parse_seed_arguments(&arguments(&["d", "a", "s", "p", ""])).expect_err("empty version"),
        SeedError::InvalidVersion
    );
    assert_eq!(
        parse_seed_arguments(&arguments(&["d", "a", "s", "p", "1.0.0"])).expect_err("no release"),
        SeedError::Missing(SeedArgument::ReleaseId)
    );
    assert_eq!(
        parse_seed_arguments(&arguments(&["d", "a", "s", "p", "1.0.0", "r", "x"]))
            .expect_err("extra argument"),
        SeedError::Unexpected
    );
}

#[test]
fn seeder_takes_the_version_from_the_fifth_argument() {
    let request = parse_seed_arguments(&arguments(&["d", "a", "s", "9.9.9", "1.2.3", "r"]))
        .expect("complete arguments");
    assert_eq!(
        (request.version.major, request.version.minor, request.version.patch),
        (1, 2, 3)
    );
    assert_eq!(request.version.pre, "");
    assert_eq!(request.version.build, "");
    assert_eq!(request.plugin, "9.9.9");
}

#[test]
fn required_argument_reads_one_position() {
    let values = arguments(&["first", "second"]);
    assert_eq!(
        required_argument(&values, 1, SeedArgument::Archive),
        Ok("second".to_owned())
    );
    assert_eq!(
        required_argument(&values, 2, SeedArgument::Source),
        Err(SeedError::Missing(SeedArgument::Source))
    );
    assert_eq!(SeedArgument::ReleaseId.name(), "release-id");
    assert_eq!(SeedArgument::DataRoot.name(), "data-root");
}

use luhbots::definitions;
use luhbots::definitions::SemVersion;

#[test]
fn version() {
    assert_eq!(
        definitions::version(),
        SemVersion {
            major: 0,
            minor: 3,
            patch: 0
        }
    )
}

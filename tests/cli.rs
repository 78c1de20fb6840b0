use langkit::cli::{split_prefix, FlagPrefix};

#[test]
fn prefix_lengths() {
    assert_eq!(FlagPrefix::Empty.len(), 0);
    assert_eq!(FlagPrefix::Dash.len(), 1);
    assert_eq!(FlagPrefix::DashDash.len(), 2);
    assert_eq!(FlagPrefix::Slash.len(), 1);
}

#[test]
fn split_long_flag() {
    assert_eq!(split_prefix("--help"), (FlagPrefix::DashDash, "help"));
    assert_eq!(split_prefix("--"), (FlagPrefix::DashDash, ""));
}

#[test]
fn split_short_flag() {
    assert_eq!(split_prefix("-v"), (FlagPrefix::Dash, "v"));
    assert_eq!(split_prefix("-"), (FlagPrefix::Dash, ""));
    assert_eq!(split_prefix("-é"), (FlagPrefix::Dash, "é"));
}

#[test]
fn split_slash_flag() {
    assert_eq!(split_prefix("/out:x"), (FlagPrefix::Slash, "out:x"));
    assert_eq!(split_prefix("/"), (FlagPrefix::Slash, ""));
}

#[test]
fn split_plain_argument() {
    assert_eq!(split_prefix("file.txt"), (FlagPrefix::Empty, "file.txt"));
    assert_eq!(split_prefix(""), (FlagPrefix::Empty, ""));
    assert_eq!(split_prefix("é-"), (FlagPrefix::Empty, "é-"));
}

#[test]
fn prefix_text() {
    assert_eq!(FlagPrefix::Empty.as_str(), "");
    assert_eq!(FlagPrefix::Dash.as_str(), "-");
    assert_eq!(FlagPrefix::DashDash.as_str(), "--");
    assert_eq!(FlagPrefix::Slash.as_str(), "/");
    for arg in ["--all", "-a", "/a", "a", "", "-", "--"] {
        let (prefix, rest) = split_prefix(arg);
        assert_eq!(format!("{}{}", prefix.as_str(), rest), arg);
        assert_eq!(prefix.as_str().len(), prefix.len() as usize);
    }
}

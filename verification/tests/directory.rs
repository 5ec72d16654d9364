use terminal_ai::directory::{
    directory_target, home_directory, resolution_outcome, DirectoryError, DirectoryTarget,
    Resolution,
};

#[test]
fn no_path_means_home() {
    assert_eq!(directory_target(""), DirectoryTarget::Home);
}

#[test]
fn a_leading_slash_is_absolute() {
    assert_eq!(directory_target("/tmp"), DirectoryTarget::Absolute("/tmp".to_string()));
    assert_eq!(directory_target("/"), DirectoryTarget::Absolute("/".to_string()));
}

#[test]
fn anything_else_is_relative() {
    assert_eq!(directory_target("src"), DirectoryTarget::Relative("src".to_string()));
    assert_eq!(directory_target("../x"), DirectoryTarget::Relative("../x".to_string()));
    assert_eq!(directory_target("~"), DirectoryTarget::Relative("~".to_string()));
}

#[test]
fn home_comes_from_the_environment() {
    assert_eq!(home_directory(Some("/home/u".to_string())), Ok("/home/u".to_string()));
    assert_eq!(home_directory(None), Err(DirectoryError::HomeUnset));
}

#[test]
fn directory_failures_have_their_texts() {
    assert_eq!(
        DirectoryError::NotFound("nope".to_string()).message(),
        "Directory nope does not exist"
    );
    assert_eq!(DirectoryError::InvalidEncoding.message(), "Invalid path encoding");
    assert_eq!(DirectoryError::HomeUnset.message(), "HOME environment variable not set");
}

#[test]
fn a_missing_directory_is_not_found_under_its_requested_name() {
    assert_eq!(
        resolution_outcome("../nowhere", Resolution::Missing),
        Err(DirectoryError::NotFound("../nowhere".to_string()))
    );
}

#[test]
fn a_path_outside_unicode_is_an_encoding_error() {
    assert_eq!(
        resolution_outcome("odd", Resolution::NotUnicode),
        Err(DirectoryError::InvalidEncoding)
    );
}

#[test]
fn a_found_directory_is_its_resolved_path() {
    assert_eq!(
        resolution_outcome("src/..", Resolution::Found("/work".to_string())),
        Ok("/work".to_string())
    );
}

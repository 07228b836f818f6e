use apache_log_exporter::log_file_pattern::parse_log_file_pattern_from_str;
use apache_log_exporter::log_file_pattern::parse_log_file_pattern_split_on_wildcard;
use apache_log_exporter::log_file_pattern::parse_slash_pattern;
use apache_log_exporter::log_file_pattern::LogFilePattern;
use apache_log_exporter::log_file_pattern::PatternError;

#[test]
fn empty_path() {
    assert!(matches!(parse_log_file_pattern_from_str(""), Err(err) if err.message() == "Path is empty"));
    assert!(matches!(parse_log_file_pattern_from_str("  "), Err(err) if err.message() == "Path is empty"));
}

#[test]
fn too_many_wildcards() {
    assert!(matches!(parse_log_file_pattern_from_str("/path/*/to/files/*.log"), Err(err) if err.message() == "Path has too many wildcards"));
}

#[test]
fn folder_wildcard_with_prefix_not_supported() {
    assert!(matches!(parse_log_file_pattern_from_str("/path/*abc/to/files/access.log"), Err(err) if err.message() == "Path has a folder wildcard with a prefix or suffix"));
}

#[test]
fn folder_wildcard_with_suffix_not_supported() {
    assert!(matches!(parse_log_file_pattern_from_str("/path/abc*/to/files/access.log"), Err(err) if err.message() == "Path has a folder wildcard with a prefix or suffix"));
}

#[test]
fn valid_without_wildcard() {
    assert!(matches!(parse_log_file_pattern_from_str("/path/to/file/access.log"), Ok(LogFilePattern::WithoutWildcard(path)) if path == "/path/to/file/access.log"));
}

#[test]
fn valid_with_file_name_wildcard_prefix() {
    assert!(matches!(parse_log_file_pattern_from_str("/path/to/files/access_*"), Ok(LogFilePattern::WithFileNameWildcard(pattern)) if pattern.path == "/path/to/files" && pattern.file_name_prefix == "access_" && pattern.file_name_suffix.is_empty()));
}

#[test]
fn valid_with_file_name_wildcard_suffix() {
    assert!(matches!(parse_log_file_pattern_from_str("/path/to/files/*_access.log"), Ok(LogFilePattern::WithFileNameWildcard(pattern)) if pattern.path == "/path/to/files" && pattern.file_name_prefix.is_empty() && pattern.file_name_suffix == "_access.log"));
}

#[test]
fn valid_with_file_name_wildcard_both() {
    assert!(matches!(parse_log_file_pattern_from_str("/path/to/files/access_*.log"), Ok(LogFilePattern::WithFileNameWildcard(pattern)) if pattern.path == "/path/to/files" && pattern.file_name_prefix == "access_" && pattern.file_name_suffix == ".log"));
}

#[test]
fn valid_with_folder_wildcard() {
    assert!(matches!(parse_log_file_pattern_from_str("/path/to/*/files/access.log"), Ok(LogFilePattern::WithFolderNameWildcard(pattern)) if pattern.path_prefix == "/path/to/" && pattern.path_suffix == "files/access.log"));
}

#[test]
fn log_file_pattern_valid_without_wildcard() {
    assert!(matches!(parse_slash_pattern("/path/to/file/access.log"), Ok(LogFilePattern::WithoutWildcard(path)) if path == "/path/to/file/access.log"));
}

#[test]
fn log_file_pattern_valid_with_file_name_wildcard_prefix() {
    assert!(matches!(parse_slash_pattern("/path/to/files/access_*"), Ok(LogFilePattern::WithFileNameWildcard(pattern)) if pattern.path == "/path/to/files" && pattern.file_name_prefix == "access_" && pattern.file_name_suffix.is_empty()));
}

#[test]
fn log_file_pattern_valid_with_file_name_wildcard_suffix() {
    assert!(matches!(parse_slash_pattern("/path/to/files/*_access.log"), Ok(LogFilePattern::WithFileNameWildcard(pattern)) if pattern.path == "/path/to/files" && pattern.file_name_prefix.is_empty() && pattern.file_name_suffix == "_access.log"));
}

#[test]
fn log_file_pattern_valid_with_file_name_wildcard_both() {
    assert!(matches!(parse_slash_pattern("/path/to/files/access_*.log"), Ok(LogFilePattern::WithFileNameWildcard(pattern)) if pattern.path == "/path/to/files" && pattern.file_name_prefix == "access_" && pattern.file_name_suffix == ".log"));
}

#[test]
fn log_file_pattern_valid_with_folder_wildcard() {
    assert!(matches!(parse_slash_pattern("/path/to/*/files/access.log"), Ok(LogFilePattern::WithFolderNameWildcard(pattern)) if pattern.path_prefix == "/path/to/" && pattern.path_suffix == "files/access.log"));
}

#[test]
fn every_pattern_error_has_its_input() {
    assert_eq!(parse_slash_pattern("").err(), Some(PatternError::Empty));
    assert_eq!(parse_slash_pattern(" \t\n").err(), Some(PatternError::Empty));
    assert_eq!(parse_slash_pattern("*/a/*").err(), Some(PatternError::TooManyWildcards));
    assert_eq!(parse_slash_pattern("/a/*bc/d").err(), Some(PatternError::FolderWildcardWithAffix));
    assert_eq!(parse_slash_pattern("/a/bc*/d").err(), Some(PatternError::FolderWildcardWithAffix));
    assert_eq!(parse_slash_pattern("**").err(), Some(PatternError::TooManyWildcards));
}

#[test]
fn error_messages() {
    assert_eq!(PatternError::InvalidPath.message(), "Path is invalid");
    assert_eq!(PatternError::Empty.message(), "Path is empty");
    assert_eq!(PatternError::TooManyWildcards.message(), "Path has too many wildcards");
    assert_eq!(
        PatternError::FolderWildcardWithAffix.message(),
        "Path has a folder wildcard with a prefix or suffix"
    );
}

#[test]
fn configured_text_is_parsed_in_its_slash_form() {
    assert_eq!(parse_log_file_pattern_from_str("*/a/*").err(), Some(PatternError::TooManyWildcards));
    assert_eq!(parse_log_file_pattern_from_str("/a/*bc/d").err(), Some(PatternError::FolderWildcardWithAffix));
    assert!(matches!(
        parse_log_file_pattern_from_str("/var/log/*/error.log"),
        Ok(LogFilePattern::WithFolderNameWildcard(p)) if p.path_prefix == "/var/log/" && p.path_suffix == "error.log"
    ));
}

#[test]
fn wildcard_without_directory() {
    assert!(matches!(
        parse_slash_pattern("access_*.log"),
        Ok(LogFilePattern::WithFileNameWildcard(p)) if p.path.is_empty() && p.file_name_prefix == "access_" && p.file_name_suffix == ".log"
    ));
    assert!(matches!(
        parse_slash_pattern("*"),
        Ok(LogFilePattern::WithFileNameWildcard(p)) if p.path.is_empty() && p.file_name_prefix.is_empty() && p.file_name_suffix.is_empty()
    ));
}

#[test]
fn wildcard_at_the_root() {
    assert!(matches!(
        parse_slash_pattern("/*"),
        Ok(LogFilePattern::WithFileNameWildcard(p)) if p.path.is_empty() && p.file_name_prefix.is_empty() && p.file_name_suffix.is_empty()
    ));
    assert!(matches!(
        parse_slash_pattern("/*/x.log"),
        Ok(LogFilePattern::WithFolderNameWildcard(p)) if p.path_prefix == "/" && p.path_suffix == "x.log"
    ));
    assert!(matches!(
        parse_slash_pattern("/a/*/"),
        Ok(LogFilePattern::WithFolderNameWildcard(p)) if p.path_prefix == "/a/" && p.path_suffix.is_empty()
    ));
}

#[test]
fn names_outside_ascii_keep_their_characters() {
    assert!(matches!(
        parse_slash_pattern("/протокол/журнал_*.лог"),
        Ok(LogFilePattern::WithFileNameWildcard(p)) if p.path == "/протокол" && p.file_name_prefix == "журнал_" && p.file_name_suffix == ".лог"
    ));
}

#[test]
fn the_two_sides_of_the_wildcard() {
    assert_eq!(
        parse_log_file_pattern_split_on_wildcard("/a/*", "").err(),
        Some(PatternError::TooManyWildcards)
    );
    assert_eq!(
        parse_log_file_pattern_split_on_wildcard("/a/", "b*").err(),
        Some(PatternError::TooManyWildcards)
    );
    assert!(matches!(
        parse_log_file_pattern_split_on_wildcard("/a/b/c_", ".log"),
        Ok(LogFilePattern::WithFileNameWildcard(p)) if p.path == "/a/b" && p.file_name_prefix == "c_" && p.file_name_suffix == ".log"
    ));
    assert!(matches!(
        parse_log_file_pattern_split_on_wildcard("", ""),
        Ok(LogFilePattern::WithFileNameWildcard(p)) if p.path.is_empty() && p.file_name_prefix.is_empty() && p.file_name_suffix.is_empty()
    ));
}

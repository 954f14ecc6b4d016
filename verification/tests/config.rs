use cpp_project_gen::config::{is_reserved_char, is_valid_name, ArtifactKind, Config, ConfigFault};
use cpp_project_gen::error::ScaffoldError;

fn make(name: &str, kind: &str) -> Result<Config, ScaffoldError> {
    Config::new(name.to_string(), kind, false, false, "cmake".to_string())
}

#[test]
fn new_keeps_every_value() {
    let config = Config::new("demo".to_string(), "exec", true, false, "cmake".to_string()).unwrap();
    assert_eq!(config.name(), "demo");
    assert_eq!(config.kind(), ArtifactKind::Executable);
    assert!(config.use_clang_tidy());
    assert!(!config.use_conan());
    assert_eq!(config.generator(), "cmake");
}

#[test]
fn new_reads_library_kind() {
    let config = Config::new("core".to_string(), "lib", false, true, "ninja".to_string()).unwrap();
    assert_eq!(config.kind(), ArtifactKind::Library);
    assert!(!config.use_clang_tidy());
    assert!(config.use_conan());
    assert_eq!(config.generator(), "ninja");
}

#[test]
fn new_rejects_empty_name() {
    assert_eq!(
        make("", "exec").unwrap_err(),
        ScaffoldError::InvalidConfiguration(ConfigFault::MalformedName)
    );
}

#[test]
fn new_rejects_path_separators() {
    for name in ["a/b", "a\\b", "/", "demo/", "\\demo"] {
        assert_eq!(
            make(name, "exec").unwrap_err(),
            ScaffoldError::InvalidConfiguration(ConfigFault::MalformedName)
        );
    }
}

#[test]
fn new_rejects_reserved_characters() {
    for name in ["a<b", "a>b", "a:b", "a\"b", "a|b", "a?b", "a*b", "a\nb", "a\tb", "a\0b", "\u{1f}"] {
        assert_eq!(
            make(name, "lib").unwrap_err(),
            ScaffoldError::InvalidConfiguration(ConfigFault::MalformedName)
        );
    }
}

#[test]
fn new_rejects_unknown_kind() {
    for kind in ["", "EXEC", "exe", "library", "exec ", "bin"] {
        assert_eq!(
            make("demo", kind).unwrap_err(),
            ScaffoldError::InvalidConfiguration(ConfigFault::UnknownArtifactKind)
        );
    }
}

#[test]
fn new_examines_name_before_kind() {
    assert_eq!(
        make("a/b", "bin").unwrap_err(),
        ScaffoldError::InvalidConfiguration(ConfigFault::MalformedName)
    );
}

#[test]
fn new_does_not_examine_generator() {
    let config = Config::new("demo".to_string(), "exec", false, false, "".to_string()).unwrap();
    assert_eq!(config.generator(), "");
}

#[test]
fn parse_knows_two_words() {
    assert_eq!(ArtifactKind::parse("exec"), Some(ArtifactKind::Executable));
    assert_eq!(ArtifactKind::parse("lib"), Some(ArtifactKind::Library));
    assert_eq!(ArtifactKind::parse("Lib"), None);
    assert_eq!(ArtifactKind::parse(""), None);
    assert_eq!(ArtifactKind::parse("execlib"), None);
}

#[test]
fn valid_names() {
    for name in ["demo", "my project", "a.b", "x", "данные", "a-b_c", ".hidden", "űber+1"] {
        assert!(is_valid_name(name), "{}", name);
    }
    assert!(!is_valid_name(""));
    assert!(!is_valid_name("ok/not"));
    assert!(!is_valid_name("tail*"));
}

#[test]
fn reserved_characters() {
    for c in ['/', '\\', '<', '>', ':', '"', '|', '?', '*', '\0', '\n', '\r', '\t', '\u{1f}'] {
        assert!(is_reserved_char(c), "{:?}", c);
    }
    for c in [' ', 'a', 'Z', '0', '.', '-', '_', '(', ')', '\'', '~', 'é', '\u{7f}', '\u{10ffff}'] {
        assert!(!is_reserved_char(c), "{:?}", c);
    }
}

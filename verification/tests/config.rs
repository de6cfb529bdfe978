use ghidra_cli::config::Config;
use ghidra_cli::error::GhidraError;
use std::path::PathBuf;

#[test]
fn test_default_config() {
    let config = Config::default();
    assert_eq!(config.timeout, Some(300));
    assert_eq!(config.default_limit, Some(1000));
}

#[test]
fn default_config_has_auto_format_and_nothing_else() {
    let config = Config::default();
    assert_eq!(config.default_output_format.as_deref(), Some("auto"));
    assert!(config.ghidra_install_dir.is_none());
    assert!(config.default_program.is_none());
    assert!(config.aliases.is_empty());
}

#[test]
fn environment_overrides_configured_program() {
    let mut config = Config::default();
    assert_eq!(config.get_default_program(None), None);
    config.default_program = Some("libfoo.so".to_string());
    assert_eq!(config.get_default_program(None).as_deref(), Some("libfoo.so"));
    assert_eq!(
        config.get_default_program(Some("a.out".to_string())).as_deref(),
        Some("a.out")
    );
}

#[test]
fn install_dir_lookup_order() {
    let mut config = Config::default();
    match config.get_ghidra_install_dir(None) {
        Err(GhidraError::GhidraNotFound) => {}
        other => panic!("expected GhidraNotFound, got {:?}", other),
    }
    config.ghidra_install_dir = Some(PathBuf::from("/opt/ghidra"));
    assert_eq!(config.get_ghidra_install_dir(None).unwrap(), PathBuf::from("/opt/ghidra"));
    assert_eq!(
        config.get_ghidra_install_dir(Some(PathBuf::from("/env/ghidra"))).unwrap(),
        PathBuf::from("/env/ghidra")
    );
}

#[test]
fn project_dir_falls_back_to_cache_dir() {
    let config = Config::default();
    match config.get_project_dir(None, None) {
        Err(e) => assert_eq!(e.message(), "Configuration error: Could not determine cache directory"),
        Ok(p) => panic!("unexpected {:?}", p),
    }
    assert_eq!(
        config.get_project_dir(None, Some(PathBuf::from("/cache/ghidra-cli/projects"))).unwrap(),
        PathBuf::from("/cache/ghidra-cli/projects")
    );
}

#[test]
fn error_messages() {
    assert_eq!(GhidraError::Timeout(42).message(), "Analysis timeout after 42 seconds");
    assert_eq!(GhidraError::InvalidAddress("zz".to_string()).message(), "Invalid address: zz");
    assert_eq!(GhidraError::Other("plain".to_string()).message(), "plain");
}

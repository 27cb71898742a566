use lexa_kernel::config::mode_path;
use lexa_kernel::{
    fetch_config, fetch_config_or_prompt, ConfigFallback, KernelError, KernelSettings,
    LoaderExtension, ProcessMode,
};

#[test]
fn relative_path_follows_the_mode_table() {
    assert_eq!(mode_path(ProcessMode::LOCAL, "x"), "x");
    assert_eq!(mode_path(ProcessMode::DEVELOPMENT, "x"), "dev/x");
    assert_eq!(mode_path(ProcessMode::PRODUCTION, "x"), "prod/x");
    assert_eq!(mode_path(ProcessMode::TEST, "x"), "test/x");
}

#[test]
fn relative_path_keeps_the_name_as_it_is() {
    assert_eq!(mode_path(ProcessMode::LOCAL, ""), "");
    assert_eq!(mode_path(ProcessMode::PRODUCTION, ""), "prod/");
    assert_eq!(mode_path(ProcessMode::DEVELOPMENT, "a/b"), "dev/a/b");
    assert_eq!(mode_path(ProcessMode::TEST, "{config_name}"), "test/{config_name}");
    assert_eq!(mode_path(ProcessMode::TEST, "été"), "test/été");
}

#[test]
fn fetch_config_in_every_mode() {
    let expected = [
        (ProcessMode::LOCAL, "x"),
        (ProcessMode::DEVELOPMENT, "dev/x"),
        (ProcessMode::PRODUCTION, "prod/x"),
        (ProcessMode::TEST, "test/x"),
    ];
    for (mode, relative_path) in expected {
        let settings = KernelSettings::new("/app", mode, true, false);
        let request = fetch_config("x", &settings).unwrap();
        assert_eq!(request.relative_path, relative_path);
        assert_eq!(request.directory, "/app/config");
        assert_eq!(request.extension, LoaderExtension::YAML);
        assert_eq!(request.fallback, ConfigFallback::Fail);
    }
}

#[test]
fn fetch_config_under_test_reads_below_the_test_directory() {
    let settings = KernelSettings::new("/app", ProcessMode::TEST, true, true);
    let request = fetch_config("db", &settings).unwrap();
    assert_eq!(request.relative_path, "test/db");
    assert_eq!(request.directory, "/app/config");
}

#[test]
fn fetch_config_follows_the_redefined_directory_and_format() {
    let mut settings = KernelSettings::new("/app", ProcessMode::PRODUCTION, true, true);
    settings.set_config_directory("examples/config");
    settings.set_loader_extension(LoaderExtension::JSON);
    let request = fetch_config("my-config", &settings).unwrap();
    assert_eq!(request.directory, "/app/examples/config");
    assert_eq!(request.relative_path, "prod/my-config");
    assert_eq!(request.extension, LoaderExtension::JSON);
}

#[test]
fn fetch_config_without_a_directory_is_not_found() {
    let settings = KernelSettings::new("/app", ProcessMode::LOCAL, false, true);
    match fetch_config("x", &settings) {
        Err(KernelError::NotFound(reason)) => {
            assert_eq!(reason, "Le répertoire de configuration n'existe pas.");
        }
        other => panic!("expected NotFound, got {:?}", other),
    }
}

#[test]
fn fetch_config_or_prompt_asks_for_the_prompt() {
    let settings = KernelSettings::new("/app", ProcessMode::DEVELOPMENT, true, false);
    let request = fetch_config_or_prompt("x", &settings).unwrap();
    assert_eq!(request.relative_path, "dev/x");
    assert_eq!(request.directory, "/app/config");
    assert_eq!(request.extension, LoaderExtension::YAML);
    assert_eq!(request.fallback, ConfigFallback::Prompt);
}

#[test]
fn fetch_config_or_prompt_without_a_directory_is_not_found() {
    let settings = KernelSettings::new("/app", ProcessMode::TEST, false, false);
    let error = fetch_config_or_prompt("x", &settings).unwrap_err();
    assert!(matches!(error, KernelError::NotFound(_)));
    assert_eq!(error.reason(), "Le répertoire de configuration n'existe pas.");
}

#[test]
fn errors_give_their_reason() {
    assert_eq!(KernelError::NotFound(String::from("absent")).reason(), "absent");
    assert_eq!(KernelError::Deserialize(String::from("malformed")).reason(), "malformed");
}

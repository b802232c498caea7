use linkplan::probe::PathStatus;
use linkplan::startup::{check_config_file, config_argument, is_yaml_path, StartupError};

fn args(list: &[&str]) -> Vec<String> {
    list.iter().map(|s| s.to_string()).collect()
}

#[test]
fn yaml_extension_in_either_case() {
    for path in
        ["links.yml", "links.yaml", "LINKS.YML", "a.Yaml", "dir/sub/c.yAmL", ".yml", "x.y.yml"]
    {
        assert!(is_yaml_path(path), "{}", path);
    }
}

#[test]
fn other_names_are_no_yaml() {
    for path in [
        "",
        "yml",
        "yaml",
        "links",
        "links.txt",
        "links.yml.bak",
        "yaml.txt",
        "my yml file",
        "links.ym",
        "links.yl",
        "links.yam",
        "links.yaaml",
        "linksyml",
        "links-yaml",
        "a.yml/",
        "a.xml",
        "a.yal",
    ] {
        assert!(!is_yaml_path(path), "{}", path);
    }
}

#[test]
fn missing_argument_is_reported() {
    assert_eq!(config_argument(&args(&[])), Err(StartupError::ArgumentMissing));
    assert_eq!(config_argument(&args(&["prog"])), Err(StartupError::ArgumentMissing));
}

#[test]
fn argument_must_name_a_yaml_file() {
    assert_eq!(
        config_argument(&args(&["prog", "links.txt"])),
        Err(StartupError::InvalidConfigPath)
    );
    assert_eq!(
        config_argument(&args(&["prog", "yaml-notes.txt", "links.yml"])),
        Err(StartupError::InvalidConfigPath)
    );
}

#[test]
fn second_argument_is_the_path() {
    assert_eq!(config_argument(&args(&["prog", "links.yml"])), Ok(&"links.yml".to_string()));
    assert_eq!(
        config_argument(&args(&["links.yaml", "/etc/l.YAML", "other.yml"])),
        Ok(&"/etc/l.YAML".to_string())
    );
}

#[test]
fn config_file_must_be_a_regular_file() {
    let file = PathStatus { exists: true, regular_file: true, directory: false };
    let directory = PathStatus { exists: true, regular_file: false, directory: true };
    assert_eq!(check_config_file(&file), Ok(()));
    assert_eq!(check_config_file(&directory), Err(StartupError::InvalidConfigPath));
    assert_eq!(check_config_file(&PathStatus::missing()), Err(StartupError::InvalidConfigPath));
}

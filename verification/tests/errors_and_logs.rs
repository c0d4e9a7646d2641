use zlorb::zlorb_lib::error::ZlorbError;
use zlorb::zlorb_web::Index;
use zlorb::zlorb_lib::config::{RepositoriesConfigurationFile, RepositoryConfiguration};
use zlorb::zlorbrs_lib::error::ZlorbError as RsError;
use zlorb::zlorbrs_lib::log::Logger;

#[test]
fn zlorb_error_messages() {
    let io = std::io::Error::new(std::io::ErrorKind::Other, "disk on fire");
    assert_eq!(ZlorbError::Io(io).message(), "IO error: disk on fire");
    assert_eq!(ZlorbError::HomeDirNotFound.message(), "Could not find home directory");
    assert_eq!(
        ZlorbError::ConfigNotFound("/etc/x".to_string()).message(),
        "Config file not found: \"/etc/x\""
    );
    assert_eq!(ZlorbError::ConfigParseError("bad".to_string()).message(), "Failed to parse config: bad");
    assert_eq!(ZlorbError::InvalidConfig("bad".to_string()).message(), "Invalid configuration: bad");
    assert_eq!(ZlorbError::FileNotFound("a b".to_string()).message(), "File not found: \"a b\"");
    assert_eq!(
        ZlorbError::PermissionDenied("say \"hi\"".to_string()).message(),
        "Permission denied: \"say \\\"hi\\\"\""
    );
    assert_eq!(
        ZlorbError::SerializationErrorGeneric("x".to_string()).message(),
        "Generic Serialization error: x"
    );
    let json = serde_json::from_str::<u32>("nope").unwrap_err();
    let json_text = json.to_string();
    assert_eq!(ZlorbError::SerializationError(json).message(), format!("Serialization error: {}", json_text));
    let toml_err = toml::from_str::<toml::Table>("= =").unwrap_err();
    let toml_text = toml_err.to_string();
    assert_eq!(
        ZlorbError::TomlDeserializationError(toml_err).message(),
        format!("Toml Deserialization error: {}", toml_text)
    );
    let ser = toml::to_string(&5u32).unwrap_err();
    let ser_text = ser.to_string();
    assert_eq!(
        ZlorbError::TomlSerializationError(ser).message(),
        format!("Toml Serialization error: {}", ser_text)
    );
    let git = git2::Error::from_str("bad ref");
    assert_eq!(ZlorbError::Git(git).message(), "Recieved git error: bad ref");
    assert_eq!(ZlorbError::Other("x".to_string()).message(), "Other error occured: x");
}

#[test]
fn zlorbrs_error_messages() {
    assert_eq!(RsError::HomeDirNotFound.message(), "Could not find home directory");
    assert_eq!(RsError::FileNotFOund("/f".to_string()).message(), "File not found: \"/f\"");
    assert_eq!(RsError::SerializationError("s".to_string()).message(), "Serialization error: s");
    assert_eq!(RsError::Other("o".to_string()).message(), "Other error occured: o");
    let io = std::io::Error::new(std::io::ErrorKind::Other, "gone");
    assert_eq!(RsError::Io(io).message(), "IO error: gone");
}

#[test]
fn log_lines() {
    assert_eq!(Logger::info_line("hi"), "[\x1b[32mINFO\x1b[0m]: hi");
    assert_eq!(Logger::error_line("bad"), "[\x1b[31mERROR\x1b[0m]: bad");
    assert_eq!(Logger::debug_line(""), "[\x1b[33mDEBUG\x1b[0m]: ");
}

#[test]
fn index_page_lists_paths() {
    let i = Index::new();
    assert_eq!(i.title, "Zlorb");
    assert!(i.repos.is_none());
    let empty = Index::for_configuration(&RepositoriesConfigurationFile::empty());
    assert!(empty.repos.is_none());
    let c = RepositoriesConfigurationFile {
        repositories: vec![RepositoryConfiguration {
            name: "a".to_string(),
            path: "/a".to_string(),
            remote: "origin".to_string(),
            branch: "master".to_string(),
            build_command: String::new(),
            out_dir: None,
        }],
    };
    let page = Index::for_configuration(&c);
    assert_eq!(page.title, "Zlorb");
    assert_eq!(page.repos, Some(vec!["/a".to_string()]));
}

use std::path::Path;
use zlorb::path::{join, path_is_absolute};
use zlorb::zlorb_ctl::repo::repo_name_of_dir;
use zlorb::text::{bytes_equal, i32_text, str_contains, text_equal, u64_text};
use zlorb::zlorb_service::build_system_executor::BunManager;
use zlorb::zlorb_lib::error::ZlorbError;
use zlorb::zlorb_lib::{get_zlorb_config_dir, get_zlorb_repo_config_file};

#[test]
fn decimal_numbers() {
    assert_eq!(u64_text(0), "0");
    assert_eq!(u64_text(7), "7");
    assert_eq!(u64_text(1234567890), "1234567890");
    assert_eq!(u64_text(u64::MAX), u64::MAX.to_string());
    assert_eq!(i32_text(-1), "-1");
    assert_eq!(i32_text(0), "0");
    assert_eq!(i32_text(42), "42");
    assert_eq!(i32_text(i32::MIN), i32::MIN.to_string());
    assert_eq!(i32_text(i32::MAX), i32::MAX.to_string());
}

#[test]
fn substring_search() {
    assert!(str_contains("bun run build", "bun"));
    assert!(str_contains("cargo build", "cargo"));
    assert!(str_contains("abc", ""));
    assert!(str_contains("", ""));
    assert!(!str_contains("", "a"));
    assert!(!str_contains("bu n", "bun"));
    assert!(str_contains("xxbun", "bun"));
    assert!(!str_contains("bu", "bun"));
    assert!(str_contains("héllo wörld", "ö"));
}

#[test]
fn equality_helpers() {
    assert!(text_equal("root", "root"));
    assert!(!text_equal("root", "roots"));
    assert!(!text_equal("root", "Root"));
    assert!(bytes_equal(&vec![1, 2, 3], &vec![1, 2, 3]));
    assert!(!bytes_equal(&vec![1, 2, 3], &vec![1, 2, 4]));
    assert!(!bytes_equal(&vec![1, 2], &vec![1, 2, 3]));
}

#[test]
fn join_follows_std_path_join() {
    let cases = [
        ("/home/u", ".config/zlorb"),
        ("/home/u/", ".config/zlorb"),
        ("/home/u", "/.config/zlorbrs/configs"),
        ("", "a"),
        ("a", ""),
        ("/", "x"),
        ("rel/dir", "dist"),
        ("/repo", "/dist"),
    ];
    for (base, part) in cases {
        let expected = Path::new(base).join(part).to_string_lossy().into_owned();
        assert_eq!(join(base, part), expected, "join({:?}, {:?})", base, part);
    }
}

#[test]
fn absolute_paths() {
    assert!(path_is_absolute("/x"));
    assert!(!path_is_absolute("x/y"));
    assert!(!path_is_absolute(""));
}

#[test]
fn last_path_component() {
    assert_eq!(repo_name_of_dir("/home/u/project"), Some("project".to_string()));
    assert_eq!(repo_name_of_dir("/home/u/project/"), Some("project".to_string()));
    assert_eq!(repo_name_of_dir("/"), None);
    assert_eq!(repo_name_of_dir("/home/.."), None);
    let cases = [
        "", "/", "//", ".", "..", "./", "./.", "a", "a/", "a/.", "a/./", "a/./.", "a/..", "a/b", "a//b",
        "/a/b/", "...", ".a", "a/.b", "./a", "/.", "a/.../", "héllo/wörld",
    ];
    for c in cases {
        let expected = Path::new(c).file_name().map(|n| n.to_string_lossy().into_owned());
        assert_eq!(repo_name_of_dir(c), expected, "file name of {:?}", c);
    }
}

#[test]
fn lossy_decoding() {
    match (BunManager {}).install_result(&vec![0x66, 0xff, 0x6f]) {
        Err(ZlorbError::Other(m)) => assert_eq!(m, "Npm install failed: f\u{FFFD}o"),
        _ => panic!("expected the install to fail"),
    }
}

#[test]
fn config_locations() {
    assert_eq!(get_zlorb_config_dir("/home/u"), "/home/u/.config/zlorb");
    assert_eq!(get_zlorb_repo_config_file("/home/u"), "/home/u/.config/zlorb/repositories.toml");
    assert_eq!(get_zlorb_repo_config_file("/root/"), "/root/.config/zlorb/repositories.toml");
    let file = get_zlorb_repo_config_file("/home/u");
    assert_eq!(Path::new(&file).file_name().unwrap(), "repositories.toml");
    assert_eq!(Path::new(&file).parent().unwrap(), Path::new(&get_zlorb_config_dir("/home/u")));
}

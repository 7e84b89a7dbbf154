use drivogram::config::{
    configured_server, credentials_content, credentials_dir, credentials_file, domain_file,
    get_domain, lookup, read_domain_config, read_toml, saved_api_key,
};

fn table(pairs: &[(&str, &str)]) -> Vec<(String, String)> {
    pairs.iter().map(|(k, v)| (k.to_string(), v.to_string())).collect()
}

#[test]
fn credentials_dir_is_below_home() {
    assert_eq!(credentials_dir("/home/alice"), "/home/alice/.drivogram");
    assert_eq!(credentials_dir(""), "/.drivogram");
}

#[test]
fn files_in_the_credentials_dir() {
    assert_eq!(credentials_file("/home/alice/.drivogram"), "/home/alice/.drivogram/credentials");
    assert_eq!(domain_file("/home/alice/.drivogram"), "/home/alice/.drivogram/domain.toml");
}

#[test]
fn credentials_content_is_a_toml_line() {
    assert_eq!(credentials_content("abc123"), "X-API-KEY = \"abc123\"");
}

#[test]
fn saved_key_is_read_back() {
    let content = credentials_content("k-42_xyz");
    assert_eq!(saved_api_key(Some(&content)), Some("k-42_xyz".to_string()));
    let spaced = credentials_content("a key with spaces");
    assert_eq!(saved_api_key(Some(&spaced)), Some("a key with spaces".to_string()));
}

#[test]
fn no_key_without_a_readable_file() {
    assert_eq!(saved_api_key(None), None);
    assert_eq!(saved_api_key(Some("not toml at all")), None);
    assert_eq!(saved_api_key(Some("OTHER = \"x\"")), None);
}

#[test]
fn read_toml_gives_the_table_in_key_order() {
    let t = read_toml(Some("B = \"2\"\nA = \"1\"\n"));
    assert_eq!(t, table(&[("A", "1"), ("B", "2")]));
}

#[test]
fn read_toml_of_unreadable_or_bad_text_is_empty() {
    assert_eq!(read_toml(None), Vec::new());
    assert_eq!(read_toml(Some("X = ")), Vec::new());
    assert_eq!(read_toml(Some("X = 5")), Vec::new());
    assert_eq!(read_toml(Some("")), Vec::new());
}

#[test]
fn lookup_finds_the_value() {
    let t = table(&[("A", "1"), ("B", "2")]);
    assert_eq!(lookup(&t, "B"), Some("2".to_string()));
    assert_eq!(lookup(&t, "C"), None);
    assert_eq!(lookup(&Vec::new(), "A"), None);
}

#[test]
fn default_server_routes() {
    assert_eq!(get_domain("signup", None), "http://drivogram.aaravarora.in/api/signup");
    assert_eq!(get_domain("uploads", None), "http://drivogram.aaravarora.in/api/uploads");
}

#[test]
fn configured_server_routes() {
    let t = read_domain_config("DOMAIN-NAME = \"http://localhost:8000\"").unwrap();
    assert_eq!(configured_server(&t), Some("http://localhost:8000".to_string()));
    assert_eq!(get_domain("download", Some(&t)), "http://localhost:8000/api/download");
}

#[test]
fn bad_domain_file() {
    assert!(read_domain_config("DOMAIN-NAME = ").is_none());
    let t = read_domain_config("OTHER = \"x\"").unwrap();
    assert_eq!(configured_server(&t), None);
}

#[test]
fn keys_that_need_escapes_are_not_read_back() {
    let content = credentials_content("a\"b");
    assert_eq!(saved_api_key(Some(&content)), None);
}

#[test]
fn domain_file_line_gives_the_server() {
    let t = read_domain_config("DOMAIN-NAME = \"https://example.org\"").unwrap();
    assert_eq!(t, table(&[("DOMAIN-NAME", "https://example.org")]));
    assert_eq!(get_domain("share", Some(&t)), "https://example.org/api/share");
}

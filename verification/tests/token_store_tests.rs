use ytmdctrl::token_store::TokenStore;
use ytmdctrl::token_store::token_store_file;

#[test]
fn fresh_store_is_empty() {
    let s = TokenStore::new();
    assert!(s.get("localhost").is_none());
    assert!(!s.contains("localhost"));
}

#[test]
fn pairing_then_lookup_returns_token() {
    let mut s = TokenStore::new();
    s.insert("localhost", String::from("tok-1"));
    assert_eq!(s.get("localhost").map(|t| t.as_str()), Some("tok-1"));
}

#[test]
fn insert_replaces_older_token() {
    let mut s = TokenStore::new();
    s.insert("localhost", String::from("old"));
    s.insert("localhost", String::from("new"));
    assert_eq!(s.get("localhost").map(|t| t.as_str()), Some("new"));
    let text = s.to_content();
    let v: serde_json::Value = serde_json::from_str(&text).unwrap();
    assert_eq!(v.as_object().unwrap().len(), 1);
}

#[test]
fn take_removes_the_entry() {
    let mut s = TokenStore::new();
    s.insert("localhost", String::from("tok"));
    assert_eq!(s.take("localhost"), Some(String::from("tok")));
    assert!(s.get("localhost").is_none());
    assert_eq!(s.take("localhost"), None);
}

#[test]
fn remove_leaves_other_servers_untouched() {
    let mut s = TokenStore::new();
    s.insert("localhost", String::from("t1"));
    s.insert("10.0.0.2", String::from("t2"));
    s.remove("localhost");
    assert!(s.get("localhost").is_none());
    assert_eq!(s.get("10.0.0.2").map(|t| t.as_str()), Some("t2"));
}

#[test]
fn saved_store_reads_back() {
    let mut s = TokenStore::new();
    s.insert("localhost", String::from("alpha"));
    s.insert("10.0.0.2", String::from("beta"));
    let text = s.to_content();
    let loaded = TokenStore::from_content(Some(text.as_str()));
    assert_eq!(loaded.get("localhost").map(|t| t.as_str()), Some("alpha"));
    assert_eq!(loaded.get("10.0.0.2").map(|t| t.as_str()), Some("beta"));
}

#[test]
fn store_content_is_a_json_object() {
    let mut s = TokenStore::new();
    s.insert("localhost", String::from("tok"));
    let text = s.to_content();
    let v: serde_json::Value = serde_json::from_str(&text).unwrap();
    assert_eq!(v.get("localhost").and_then(|x| x.as_str()), Some("tok"));
}

#[test]
fn corrupt_content_degrades_to_empty() {
    let s = TokenStore::from_content(Some("not json at all"));
    assert!(s.get("localhost").is_none());
    let s2 = TokenStore::from_content(Some("{\"half\": "));
    assert!(s2.get("half").is_none());
    let s3 = TokenStore::from_content(Some("[1, 2, 3]"));
    assert!(s3.get("localhost").is_none());
}

#[test]
fn missing_content_degrades_to_empty() {
    let s = TokenStore::from_content(None);
    assert!(s.get("localhost").is_none());
}

#[test]
fn store_file_sits_under_the_config_directory() {
    let p = token_store_file("/home/u");
    assert_eq!(p.as_str(), "/home/u/.config/ytmdctrl.tkn");
}

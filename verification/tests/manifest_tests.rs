use moss_weights::manifest::{Manifest, ManifestFile};

fn rec(size: u64, sha: &str) -> ManifestFile {
    ManifestFile { size, sha256: sha.to_string() }
}

#[test]
fn empty_manifest_has_no_entry() {
    let m = Manifest::new();
    assert!(m.get("config.json").is_none());
}

#[test]
fn get_returns_what_insert_recorded() {
    let mut m = Manifest::new();
    m.insert("config.json".to_string(), rec(5120, "aa"));
    m.insert("tokenizer.model".to_string(), rec(460_000, "bb"));
    let f = m.get("config.json").unwrap();
    assert_eq!(f.size, 5120);
    assert_eq!(f.sha256, "aa");
    let t = m.get("tokenizer.model").unwrap();
    assert_eq!(t.size, 460_000);
    assert_eq!(t.sha256, "bb");
    assert!(m.get("missing.bin").is_none());
    assert!(m.get("Config.json").is_none());
}

#[test]
fn insert_replaces_the_record_of_a_name() {
    let mut m = Manifest::new();
    m.insert("a".to_string(), rec(1, "x"));
    m.insert("b".to_string(), rec(2, "y"));
    m.insert("a".to_string(), rec(3, "z"));
    let a = m.get("a").unwrap();
    assert_eq!((a.size, a.sha256.as_str()), (3, "z"));
    let b = m.get("b").unwrap();
    assert_eq!((b.size, b.sha256.as_str()), (2, "y"));
}

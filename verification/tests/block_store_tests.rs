use pin_relay::block_store::block_put_url;
use pin_relay::hash::PutBlockHash;

#[test]
fn ipfs_name_of_keccak256() {
    assert_eq!(PutBlockHash::Keccak256.ipfs_name(), "keccak-256");
}

#[test]
fn ipfs_name_of_reserved_sha256() {
    assert_eq!(PutBlockHash::_Sha256.ipfs_name(), "sha2-256");
}

#[test]
fn url_appends_path_and_query_to_slash_terminated_base() {
    let u = block_put_url("http://localhost:5001/", &PutBlockHash::Keccak256);
    assert_eq!(
        u,
        "http://localhost:5001/api/v0/block/put?mhtype=keccak-256&cid-codec+=raw"
    );
}

#[test]
fn url_inserts_one_slash_after_bare_base() {
    let u = block_put_url("http://localhost:5001", &PutBlockHash::Keccak256);
    assert_eq!(
        u,
        "http://localhost:5001/api/v0/block/put?mhtype=keccak-256&cid-codec+=raw"
    );
}

#[test]
fn url_keeps_existing_base_path() {
    let u = block_put_url("http://h/nested/", &PutBlockHash::Keccak256);
    assert_eq!(u, "http://h/nested/api/v0/block/put?mhtype=keccak-256&cid-codec+=raw");
}

#[test]
fn url_from_empty_base_is_just_path_and_query() {
    let u = block_put_url("", &PutBlockHash::Keccak256);
    assert_eq!(u, "/api/v0/block/put?mhtype=keccak-256&cid-codec+=raw");
}

#[test]
fn url_names_reserved_hash_when_selected() {
    let u = block_put_url("http://h/", &PutBlockHash::_Sha256);
    assert_eq!(u, "http://h/api/v0/block/put?mhtype=sha2-256&cid-codec+=raw");
}

#[test]
fn url_carries_keccak_multihash_parameter_whatever_the_payload() {
    // The URL is built before, and independently of, any payload: the same
    // address serves an empty block and a large one.
    let empty_payload: Vec<u8> = Vec::new();
    let large_payload: Vec<u8> = vec![0xabu8; 4096];
    let u = block_put_url("http://localhost:5001/", &PutBlockHash::Keccak256);
    assert!(u.contains("mhtype=keccak-256&"));
    assert_eq!(empty_payload.len(), 0);
    assert_eq!(large_payload.len(), 4096);
    let again = block_put_url("http://localhost:5001/", &PutBlockHash::Keccak256);
    assert_eq!(u, again);
}

#[test]
fn url_parses_as_a_url_with_the_exact_query() {
    let u = block_put_url("http://localhost:5001/", &PutBlockHash::Keccak256);
    let parsed = reqwest::Url::parse(&u).unwrap();
    assert_eq!(parsed.path(), "/api/v0/block/put");
    assert_eq!(parsed.query(), Some("mhtype=keccak-256&cid-codec+=raw"));
    let decoded: Vec<(String, String)> = parsed
        .query_pairs()
        .map(|(k, v)| (k.into_owned(), v.into_owned()))
        .collect();
    assert_eq!(
        decoded,
        vec![
            ("mhtype".to_string(), "keccak-256".to_string()),
            ("cid-codec ".to_string(), "raw".to_string()),
        ]
    );
}

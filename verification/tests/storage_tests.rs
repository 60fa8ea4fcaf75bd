use hypercyber::storage::{object_key, reported_size, LocalStorage};

const KEY: u128 = 0x67e5504410b1426f9247bb680e5fe0c8;

#[test]
fn local_files_live_in_one_directory_per_key() {
    let s = LocalStorage::new("/var/lib/hypercyber".to_string());
    assert_eq!(s.base_path(), "/var/lib/hypercyber");
    assert_eq!(
        s.file_path(KEY, "licence.lic"),
        "/var/lib/hypercyber/67e55044-10b1-426f-9247-bb680e5fe0c8/licence.lic"
    );
}

#[test]
fn bucket_keys_are_prefixed() {
    assert_eq!(object_key(KEY, "a.txt"), "license-keys/67e55044-10b1-426f-9247-bb680e5fe0c8/a.txt");
    assert_eq!(object_key(0, ""), "license-keys/00000000-0000-0000-0000-000000000000/");
}

#[test]
fn reported_size_follows_content_length() {
    assert_eq!(reported_size(Some(1234)), 1234);
    assert_eq!(reported_size(None), 0);
    assert_eq!(reported_size(Some(-1)), u64::MAX);
}

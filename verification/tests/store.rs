use static_httpd::store::AssetStore;

#[test]
fn get_returns_exactly_what_was_inserted() {
    let mut store = AssetStore::new();
    store.insert(String::from("/a.txt"), b"alpha".to_vec());
    store.insert(String::from("/b.bin"), vec![0, 1, 2, 255]);
    assert_eq!(store.get("/a.txt"), Some(&b"alpha".to_vec()));
    assert_eq!(store.get("/b.bin"), Some(&vec![0, 1, 2, 255]));
}

#[test]
fn get_of_an_absent_path_is_none() {
    let mut store = AssetStore::new();
    assert_eq!(store.get("/a.txt"), None);
    store.insert(String::from("/a.txt"), b"alpha".to_vec());
    assert_eq!(store.get("/A.txt"), None);
    assert_eq!(store.get("a.txt"), None);
    assert_eq!(store.get(""), None);
}

#[test]
fn a_later_insert_for_the_same_path_shadows_the_earlier_one() {
    let mut store = AssetStore::new();
    store.insert(String::from("/a.txt"), b"old".to_vec());
    store.insert(String::from("/a.txt"), b"new".to_vec());
    assert_eq!(store.get("/a.txt"), Some(&b"new".to_vec()));
}

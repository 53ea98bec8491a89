use wrangler_dev::bucket::{
    generate_path_and_key, generate_path_with_hash, generate_url_safe_path, get_digest,
    is_ignored, BucketError,
};

#[test]
fn it_inserts_hash_before_extension() {
    let value = "<h1>Hello World!</h1>";
    let hashed_value = get_digest(value);

    // the path `path` / `to` / `asset.html`
    let path = "path/to/asset.html";
    let actual_path_with_hash = generate_path_with_hash(path, &hashed_value).unwrap();

    let expected_path_with_hash = format!("path/to/asset.{}.html", hashed_value);

    assert_eq!(actual_path_with_hash, expected_path_with_hash);
}

#[test]
fn it_inserts_hash_without_extension() {
    let value = "<h1>Hello World!</h1>";
    let hashed_value = get_digest(value);

    let path = "path/to/asset";
    let actual_path_with_hash = generate_path_with_hash(path, &hashed_value).unwrap();

    let expected_path_with_hash = format!("path/to/asset.{}", hashed_value);

    assert_eq!(actual_path_with_hash, expected_path_with_hash);
}

#[test]
fn it_generates_a_url_safe_hash() {
    let os_path = "some_stuff/invalid file&name.chars";
    let actual_url_safe_path = generate_url_safe_path(os_path);
    let expected_url_safe_path = "some_stuff/invalid file&name.chars";

    assert_eq!(actual_url_safe_path, expected_url_safe_path);
}

#[test]
fn it_removes_bucket_dir_prefix() {
    let path = "./build/path/to/asset.ext";
    let directory = "./build";
    let value = Some("<h1>Hello World!</h1>".to_string());
    let (path, key) = generate_path_and_key(path, directory, value).unwrap();

    assert!(!path.contains("directory"));
    assert!(!key.contains("directory"));
}

#[test]
fn it_combines_url_safe_and_hash_properly() {
    let path = "./build/path/to/asset.ext";
    let directory = "./build";
    let value = Some("<h1>Hello World!</h1>".to_string());
    let (path, key) = generate_path_and_key(path, directory, value).unwrap();

    let expected_path = "path/to/asset.ext".to_string();
    // the key must match ^path/to/asset\.[0-9a-f]{64}\.ext
    let prefix = "path/to/asset.";
    let suffix = ".ext";

    assert_eq!(path, expected_path);
    assert!(key.starts_with(prefix) && key.ends_with(suffix));
    let digest = &key[prefix.len()..key.len() - suffix.len()];
    assert_eq!(digest.len(), 64);
    assert!(digest.chars().all(|c| c.is_ascii_digit() || ('a'..='f').contains(&c)));
}

#[test]
fn digest_is_lowercase_hex_sha256() {
    assert_eq!(
        get_digest("<h1>Hello World!</h1>"),
        "375690f1152af3649ca0eda5a0686a0bc50a279c2b7fb1af73da088727f65d96"
    );
    assert_eq!(
        get_digest(""),
        "e3b0c44298fc1c149afbf4c8996fb92427ae41e4649b934ca495991b7852b855"
    );
}

#[test]
fn key_without_value_is_the_path() {
    let (path, key) = generate_path_and_key("./build/a/b.txt", "./build", None).unwrap();
    assert_eq!(path, "a/b.txt");
    assert_eq!(key, "a/b.txt");
}

#[test]
fn file_outside_the_bucket_is_refused() {
    let r = generate_path_and_key("./other/a.txt", "./build", Some("x".to_string()));
    assert_eq!(r, Err(BucketError::NotInDirectory));
}

#[test]
fn hash_goes_before_the_last_extension_only() {
    assert_eq!(generate_path_with_hash("a/b.tar.gz", "h").unwrap(), "a/b.tar.h.gz");
    assert_eq!(generate_path_with_hash(".dotfile", "h").unwrap(), ".dotfile.h");
    assert_eq!(generate_path_with_hash("dir/", "h").unwrap(), "dir.h");
    assert_eq!(generate_path_with_hash("", "h"), Err(BucketError::NoFileStem));
    assert_eq!(generate_path_with_hash("a/..", "h"), Err(BucketError::NoFileStem));
}

#[test]
fn url_safe_path_drops_empty_and_dot_components() {
    assert_eq!(generate_url_safe_path("./a//b/./c/"), "a/b/c");
}

#[test]
fn ignored_names() {
    assert!(is_ignored("node_modules"));
    assert!(is_ignored(".dotfile"));
    assert!(is_ignored("component---index.js.map"));
    assert!(!is_ignored("my_file"));
    assert!(!is_ignored("node_modules_backup"));
}

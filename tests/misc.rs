use wrangler_dev::install::{prebuilt_url, Platform};
use wrangler_dev::kv::help;
use wrangler_dev::package::{Package, PackageError};
use wrangler_dev::project::{KvNamespace, Target};
use wrangler_dev::publish::validate_target;
use wrangler_dev::wranglerjs::{
    create_metadata, create_prologue, executable_path, Bundle, WranglerjsOutput,
};

fn target() -> Target {
    Target {
        name: "worker".to_string(),
        account_id: "acc".to_string(),
        workers_dev: true,
        route: None,
        zone_id: None,
        kv_namespaces: None,
    }
}

#[test]
fn complete_target_is_valid() {
    assert!(validate_target(&target()).is_ok());
}

#[test]
fn missing_fields_are_listed_in_order() {
    let mut t = target();
    t.account_id = String::new();
    t.workers_dev = false;
    t.route = Some(String::new());
    t.kv_namespaces = Some(vec![KvNamespace { id: String::new(), binding: "B".to_string() }]);
    let e = validate_target(&t).unwrap_err();
    assert_eq!(e.missing_fields, vec!["account_id", "kv-namespace id", "zone_id", "route"]);
    assert_eq!(e.destination, "a route");
    assert_eq!(
        e.message(),
        "Your wrangler.toml is missing the fields [\"account_id\", \"kv-namespace id\", \"zone_id\", \"route\"] which are required to publish to a route!"
    );
}

#[test]
fn one_missing_field_is_singular() {
    let mut t = target();
    t.name = String::new();
    let e = validate_target(&t).unwrap_err();
    assert_eq!(
        e.message(),
        "Your wrangler.toml is missing the field [\"name\"] which is required to publish to your subdomain!"
    );
}

#[test]
fn help_for_error_codes() {
    assert_eq!(help(10010), "Run `wrangler kv list` to see your existing namespaces with IDs");
    assert_eq!(help(10009), "Run `wrangler kv list <namespaceID>` to see your existing keys");
    assert_eq!(help(10030), "See documentation");
    assert_eq!(help(10038), "Consider moving this namespace");
    assert!(help(10026).starts_with("Workers KV is a paid feature"));
    assert_eq!(help(1), "");
}

#[test]
fn prebuilt_urls() {
    assert_eq!(
        prebuilt_url("wranglerjs", "cloudflare", "1.2.3", Platform::Unsupported).unwrap(),
        "https://github.com/cloudflare/wrangler/releases/download/v1.2.3/wranglerjs-v1.2.3.tar.gz"
    );
    assert_eq!(
        prebuilt_url("wasm-pack", "rustwasm", "0.9.1", Platform::LinuxX86_64).unwrap(),
        "https://github.com/rustwasm/wasm-pack/releases/download/v0.9.1/wasm-pack-v0.9.1-x86_64-unknown-linux-musl.tar.gz"
    );
    assert!(prebuilt_url("wasm-pack", "rustwasm", "0.9.1", Platform::Unsupported).is_none());
}

#[test]
fn bundle_paths_and_texts() {
    let bundle = Bundle::new();
    assert_eq!(bundle.metadata_path(), "./worker/metadata.json");
    assert_eq!(bundle.wasm_path(), "./worker/module.wasm");
    assert_eq!(bundle.script_path(), "./worker/script.js");
    assert_eq!(bundle.get_wasm_binding(), "wasmprogram");
    assert_eq!(executable_path(), "./node_modules/.bin/wrangler-js");
    assert_eq!(create_prologue(), "\n        const window = this;\n    ");
    let out = WranglerjsOutput { wasm: None, script: "foo()".to_string(), dist_to_clean: None };
    assert_eq!(bundle.script_contents(&out), format!("{}foo()", create_prologue()));
    assert!(create_metadata(&bundle, true).contains("\"name\": \"wasmprogram\""));
    assert!(create_metadata(&bundle, false).contains("\"body_part\": \"script\""));
}

#[test]
fn package_entry_points() {
    let p = Package { main: "index.js".to_string(), module: String::new() };
    assert_eq!(p.main(true), Ok("index.js".to_string()));
    assert_eq!(p.main(false), Err(PackageError::EntryNotFound("index.js".to_string())));
    assert_eq!(p.module(true), Err(PackageError::MissingModule));
    let q = Package { main: String::new(), module: "worker.mjs".to_string() };
    assert_eq!(q.main(true), Err(PackageError::MissingMain));
    assert_eq!(q.module(true), Ok("worker.mjs".to_string()));
}

use wrangler_dev::project::{
    get_project_config, ConfigKvNamespace, Environment, KvNamespace, Manifest, NamedEnvironment,
    ProjectError,
};

fn environment() -> Environment {
    Environment {
        name: None,
        account_id: None,
        workers_dev: None,
        route: None,
        routes: None,
        zone_id: None,
        webpack_config: None,
        private: None,
        site: None,
        kv_namespaces: None,
    }
}

// The configuration of a project named `test`, with the named environments.
fn manifest(envs: &[&str], kv_namespaces: Option<Vec<ConfigKvNamespace>>) -> Manifest {
    Manifest {
        name: "test".to_string(),
        account_id: "account".to_string(),
        workers_dev: true,
        route: None,
        zone_id: None,
        kv_namespaces,
        env: envs
            .iter()
            .map(|n| NamedEnvironment { name: n.to_string(), environment: environment() })
            .collect(),
    }
}

fn config_kv(binding: &str, id: &str) -> ConfigKvNamespace {
    ConfigKvNamespace { binding: binding.to_string(), id: Some(id.to_string()), preview_id: None }
}

#[test]
fn it_builds_from_config() {
    const NAME: &str = "default";
    let toml = manifest(&[NAME], None);

    let project = get_project_config(Some(NAME), &toml).unwrap();

    assert!(project.kv_namespaces.is_none());
}

#[test]
fn it_builds_from_environments_config() {
    const NAME: &str = "environments";
    let toml = manifest(&["production", NAME], None);

    let project = get_project_config(Some(NAME), &toml).unwrap();

    assert!(project.kv_namespaces.is_none());
}

#[test]
fn it_builds_from_environments_config_with_kv() {
    const NAME: &str = "kv_namespaces";
    let toml = manifest(&[NAME], Some(vec![config_kv("prodKV", "somecrazylongidentifierstring")]));

    let project = get_project_config(Some(NAME), &toml).unwrap();

    assert!(project.kv_namespaces.is_none());
}

#[test]
fn it_builds_from_legacy_config() {
    let toml = manifest(&[], None);

    let project = get_project_config(None, &toml).unwrap();

    assert!(project.kv_namespaces.is_none());
}

#[test]
fn it_builds_from_legacy_config_with_kv() {
    let toml = manifest(
        &[],
        Some(vec![
            config_kv("prodKV", "somecrazylongidentifierstring"),
            config_kv("stagingKV", "anotherwaytoolongidstring"),
        ]),
    );

    let project = get_project_config(None, &toml).unwrap();

    let kv_1 = KvNamespace {
        id: "somecrazylongidentifierstring".to_string(),
        binding: "prodKV".to_string(),
    };
    let kv_2 = KvNamespace {
        id: "anotherwaytoolongidstring".to_string(),
        binding: "stagingKV".to_string(),
    };

    match project.kv_namespaces {
        Some(kv_namespaces) => {
            assert!(kv_namespaces.len() == 2);
            assert!(kv_namespaces.contains(&kv_1));
            assert!(kv_namespaces.contains(&kv_2));
        }
        None => assert!(false),
    }
}

#[test]
fn unnamed_environment_gets_a_derived_script_name() {
    let toml = manifest(&["staging"], None);
    let target = get_project_config(Some("staging"), &toml).unwrap();
    assert_eq!(target.name, "test-staging");
    assert_eq!(target.account_id, "account");
    assert!(target.workers_dev);
}

#[test]
fn environment_values_win() {
    let mut toml = manifest(&["prod"], None);
    toml.env[0].environment.workers_dev = Some(false);
    toml.env[0].environment.route = Some("example.com/*".to_string());
    toml.env[0].environment.name = Some("prod-script".to_string());
    let target = get_project_config(Some("prod"), &toml).unwrap();
    assert_eq!(target.name, "prod-script");
    assert!(!target.workers_dev);
    assert_eq!(target.route, Some("example.com/*".to_string()));
}

#[test]
fn unknown_environment_is_an_error() {
    let toml = manifest(&["prod"], None);
    assert_eq!(
        get_project_config(Some("dev"), &toml).unwrap_err(),
        ProjectError::EnvironmentNotFound("dev".to_string())
    );
}

#[test]
fn namespace_without_id_is_an_error() {
    let kv = ConfigKvNamespace { binding: "B".to_string(), id: None, preview_id: None };
    let toml = manifest(&[], Some(vec![kv]));
    assert_eq!(
        get_project_config(None, &toml).unwrap_err(),
        ProjectError::MissingKvNamespaceId("B".to_string())
    );
}

#[test]
fn namespace_binding_and_display() {
    let kv = KvNamespace { id: "abc".to_string(), binding: "NS".to_string() };
    assert_eq!(kv.to_string(), "id: abc, binding: NS");
    match kv.binding() {
        wrangler_dev::project::Binding::KvNamespace { name, namespace_id } => {
            assert_eq!(name, "NS");
            assert_eq!(namespace_id, "abc");
        }
    }
}

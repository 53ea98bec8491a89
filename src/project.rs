//! The project configuration: key-value namespaces, environments and the
//! target that a command works on.
use vstd::prelude::*;
use vstd::string::*;
use crate::text::str_eq;

verus! {

/// A binding exposed to the script.
#[derive(Debug, Clone)]
pub enum Binding {
    KvNamespace { name: String, namespace_id: String },
}

impl Binding {
    pub fn new_kv_namespace(name: String, namespace_id: String) -> (r: Binding)
        ensures
            r matches Binding::KvNamespace { name: n, namespace_id: id } && n == name && id
                == namespace_id,
    {
        Binding::KvNamespace { name, namespace_id }
    }
}

/// A key-value namespace bound to the script.
#[derive(Debug, Clone, PartialEq)]
pub struct KvNamespace {
    pub id: String,
    pub binding: String,
}

impl KvNamespace {
    pub fn copy(&self) -> (r: KvNamespace)
        ensures
            r.id@ == self.id@,
            r.binding@ == self.binding@,
    {
        KvNamespace { id: self.id.clone(), binding: self.binding.clone() }
    }

    /// The binding that exposes this namespace under its binding name.
    pub fn binding(&self) -> (r: Binding)
        ensures
            r matches Binding::KvNamespace { name, namespace_id } && name@ == self.binding@
                && namespace_id@ == self.id@,
    {
        Binding::new_kv_namespace(self.binding.clone(), self.id.clone())
    }

    /// `id: <id>, binding: <binding>`.
    pub fn to_string(&self) -> (r: String)
        ensures
            r@ == "id: "@ + self.id@ + ", binding: "@ + self.binding@,
    {
        let mut s = "id: ".to_owned();
        s.append(self.id.as_str());
        s.append(", binding: ");
        s.append(self.binding.as_str());
        s
    }
}

pub open spec fn kv_views(v: Seq<KvNamespace>) -> Seq<(Seq<char>, Seq<char>)> {
    v.map_values(|k: KvNamespace| (k.id@, k.binding@))
}

/// A key-value namespace as written in the configuration file.
#[derive(Debug, Clone)]
pub struct ConfigKvNamespace {
    pub binding: String,
    pub id: Option<String>,
    pub preview_id: Option<String>,
}

/// A static site served from a bucket directory.
#[derive(Debug, Clone)]
pub struct Site {
    pub bucket: String,
    pub entry_point: Option<String>,
}

/// One named environment of the configuration; each value given overrides
/// the top-level one.
#[derive(Debug, Clone)]
pub struct Environment {
    pub name: Option<String>,
    pub account_id: Option<String>,
    pub workers_dev: Option<bool>,
    pub route: Option<String>,
    pub routes: Option<Vec<String>>,
    pub zone_id: Option<String>,
    pub webpack_config: Option<String>,
    pub private: Option<bool>,
    pub site: Option<Site>,
    pub kv_namespaces: Option<Vec<KvNamespace>>,
}

/// What a command publishes or previews.
#[derive(Debug, Clone)]
pub struct Target {
    pub name: String,
    pub account_id: String,
    pub workers_dev: bool,
    pub route: Option<String>,
    pub zone_id: Option<String>,
    pub kv_namespaces: Option<Vec<KvNamespace>>,
}

pub open spec fn empty_or_absent(o: Option<String>) -> bool {
    match o {
        Some(s) => s@.len() == 0,
        None => true,
    }
}

/// The missing fields that the namespaces `kvs` contribute, in order.
pub open spec fn kv_missing(kvs: Seq<(Seq<char>, Seq<char>)>) -> Seq<Seq<char>>
    decreases kvs.len(),
{
    if kvs.len() == 0 {
        Seq::empty()
    } else {
        kv_missing(kvs.drop_last()) + (if kvs.last().1.len() == 0 {
            seq!["kv-namespace binding"@]
        } else {
            Seq::empty()
        }) + (if kvs.last().0.len() == 0 {
            seq!["kv-namespace id"@]
        } else {
            Seq::empty()
        })
    }
}

/// The required fields that `t` lacks, in the order they are reported.
pub open spec fn missing_fields_spec(t: Target) -> Seq<Seq<char>> {
    (if t.account_id@.len() == 0 {
        seq!["account_id"@]
    } else {
        Seq::empty()
    }) + (if t.name@.len() == 0 {
        seq!["name"@]
    } else {
        Seq::empty()
    }) + match t.kv_namespaces {
        Some(kvs) => kv_missing(kv_views(kvs@)),
        None => Seq::empty(),
    } + if !t.workers_dev {
        (if empty_or_absent(t.zone_id) {
            seq!["zone_id"@]
        } else {
            Seq::empty()
        }) + (if empty_or_absent(t.route) {
            seq!["route"@]
        } else {
            Seq::empty()
        })
    } else {
        Seq::empty()
    }
}

pub open spec fn destination_spec(t: Target) -> Seq<char> {
    if t.workers_dev {
        "your subdomain"@
    } else {
        "a route"@
    }
}

// ---------------------------------------------------------------- manifest

/// A named `[env.<name>]` section.
#[derive(Debug, Clone)]
pub struct NamedEnvironment {
    pub name: String,
    pub environment: Environment,
}

/// The project configuration file, as read: top-level values and the named
/// environments.
#[derive(Debug, Clone)]
pub struct Manifest {
    pub name: String,
    pub account_id: String,
    pub workers_dev: bool,
    pub route: Option<String>,
    pub zone_id: Option<String>,
    pub kv_namespaces: Option<Vec<ConfigKvNamespace>>,
    pub env: Vec<NamedEnvironment>,
}

/// Why no target could be made from the configuration.
#[derive(Debug, Clone, PartialEq, Eq)]
pub enum ProjectError {
    /// No environment of the given name; holds the name.
    EnvironmentNotFound(String),
    /// A top-level namespace has no id; holds its binding.
    MissingKvNamespaceId(String),
}

pub open spec fn opt_str(o: Option<String>) -> Option<Seq<char>> {
    match o {
        Some(s) => Some(s@),
        None => None,
    }
}

pub open spec fn opt_kvs(o: Option<Vec<KvNamespace>>) -> Option<Seq<(Seq<char>, Seq<char>)>> {
    match o {
        Some(v) => Some(kv_views(v@)),
        None => None,
    }
}

/// The index of the first environment named `name`.
pub open spec fn env_index(envs: Seq<NamedEnvironment>, name: Seq<char>) -> Option<int>
    decreases envs.len(),
{
    if envs.len() == 0 {
        None
    } else {
        match env_index(envs.drop_last(), name) {
            Some(i) => Some(i),
            None => if envs.last().name@ == name {
                Some(envs.len() - 1)
            } else {
                None
            },
        }
    }
}

/// Whether every top-level namespace has an id.
pub open spec fn all_ids(kvs: Seq<ConfigKvNamespace>) -> bool {
    forall|i: int| 0 <= i < kvs.len() ==> (#[trigger] kvs[i]).id is Some
}

pub open spec fn converted_kvs(kvs: Seq<ConfigKvNamespace>) -> Seq<(Seq<char>, Seq<char>)> {
    kvs.map_values(|k: ConfigKvNamespace| (k.id->0@, k.binding@))
}

/// Fields of the target for the top-level configuration.
pub open spec fn top_level_target(m: Manifest, t: Target) -> bool {
    &&& t.name@ == m.name@
    &&& t.account_id@ == m.account_id@
    &&& t.workers_dev == m.workers_dev
    &&& opt_str(t.route) == opt_str(m.route)
    &&& opt_str(t.zone_id) == opt_str(m.zone_id)
    &&& opt_kvs(t.kv_namespaces) == match m.kv_namespaces {
        Some(kvs) => Some(converted_kvs(kvs@)),
        None => None,
    }
}

/// Fields of the target for environment `e` named `env_name`: each value the
/// environment gives wins; an unnamed environment's script is called
/// `<name>-<env_name>`; namespaces are not inherited.
pub open spec fn environment_target(m: Manifest, env_name: Seq<char>, e: Environment, t: Target) -> bool {
    &&& t.name@ == match e.name {
        Some(n) => n@,
        None => m.name@ + "-"@ + env_name,
    }
    &&& t.account_id@ == match e.account_id {
        Some(a) => a@,
        None => m.account_id@,
    }
    &&& t.workers_dev == match e.workers_dev {
        Some(w) => w,
        None => m.workers_dev,
    }
    &&& opt_str(t.route) == match e.route {
        Some(r) => Some(r@),
        None => opt_str(m.route),
    }
    &&& opt_str(t.zone_id) == match e.zone_id {
        Some(z) => Some(z@),
        None => opt_str(m.zone_id),
    }
    &&& opt_kvs(t.kv_namespaces) == opt_kvs(e.kv_namespaces)
}

fn copy_opt(o: &Option<String>) -> (r: Option<String>)
    ensures
        opt_str(r) == opt_str(*o),
{
    match o {
        Some(s) => Some(s.clone()),
        None => None,
    }
}

fn copy_kvs(v: &Vec<KvNamespace>) -> (r: Vec<KvNamespace>)
    ensures
        kv_views(r@) == kv_views(v@),
{
    let mut out: Vec<KvNamespace> = Vec::new();
    let mut i: usize = 0;
    while i < v.len()
        invariant
            i <= v@.len(),
            kv_views(out@) == kv_views(v@.subrange(0, i as int)),
        decreases v@.len() - i,
    {
        let ghost before = kv_views(out@);
        out.push(v[i].copy());
        assert(kv_views(out@) =~= before.push((v@[i as int].id@, v@[i as int].binding@)));
        assert(kv_views(out@) =~= kv_views(v@.subrange(0, i as int + 1)));
        i += 1;
    }
    assert(v@.subrange(0, v@.len() as int) =~= v@);
    out
}

fn convert_kvs(kvs: &Vec<ConfigKvNamespace>) -> (r: Result<Vec<KvNamespace>, ProjectError>)
    ensures
        r is Ok <==> all_ids(kvs@),
        r matches Ok(v) ==> kv_views(v@) == converted_kvs(kvs@),
{
    let mut out: Vec<KvNamespace> = Vec::new();
    let mut i: usize = 0;
    while i < kvs.len()
        invariant
            i <= kvs@.len(),
            all_ids(kvs@.subrange(0, i as int)),
            kv_views(out@) == converted_kvs(kvs@.subrange(0, i as int)),
        decreases kvs@.len() - i,
    {
        match &kvs[i].id {
            Some(id) => {
                let ghost before = kv_views(out@);
                out.push(KvNamespace { id: id.clone(), binding: kvs[i].binding.clone() });
                assert(kv_views(out@) =~= before.push((id@, kvs@[i as int].binding@)));
                assert(converted_kvs(kvs@.subrange(0, i as int + 1)) =~= converted_kvs(
                    kvs@.subrange(0, i as int),
                ).push((id@, kvs@[i as int].binding@)));
                assert(kv_views(out@) =~= converted_kvs(kvs@.subrange(0, i as int + 1)));
                assert(all_ids(kvs@.subrange(0, i as int + 1))) by {
                    assert forall|k: int| 0 <= k < i + 1 implies (#[trigger] kvs@.subrange(
                        0,
                        i as int + 1,
                    )[k]).id is Some by {
                        if k < i {
                            assert(kvs@.subrange(0, i as int + 1)[k] == kvs@.subrange(
                                0,
                                i as int,
                            )[k]);
                        }
                    }
                }
            },
            None => {
                assert(kvs@[i as int].id is None);
                return Err(ProjectError::MissingKvNamespaceId(kvs[i].binding.clone()));
            },
        }
        i += 1;
    }
    assert(kvs@.subrange(0, kvs@.len() as int) =~= kvs@);
    Ok(out)
}

fn find_environment(envs: &Vec<NamedEnvironment>, name: &str) -> (r: Option<usize>)
    ensures
        match r {
            Some(i) => env_index(envs@, name@) == Some(i as int) && i < envs@.len(),
            None => env_index(envs@, name@) is None,
        },
{
    let mut i: usize = 0;
    while i < envs.len()
        invariant
            i <= envs@.len(),
            env_index(envs@.subrange(0, i as int), name@) is None,
        decreases envs@.len() - i,
    {
        let ghost next = envs@.subrange(0, i as int + 1);
        assert(next.drop_last() =~= envs@.subrange(0, i as int));
        if str_eq(envs[i].name.as_str(), name) {
            proof {
                lemma_env_index_prefix(envs@, name@, i as int + 1);
            }
            return Some(i);
        }
        i += 1;
    }
    assert(envs@.subrange(0, envs@.len() as int) =~= envs@);
    None
}

proof fn lemma_env_index_prefix(envs: Seq<NamedEnvironment>, name: Seq<char>, k: int)
    requires
        0 < k <= envs.len(),
        env_index(envs.subrange(0, k), name) is Some,
    ensures
        env_index(envs, name) == env_index(envs.subrange(0, k), name),
    decreases envs.len(),
{
    if k < envs.len() {
        assert(envs.drop_last().subrange(0, k) =~= envs.subrange(0, k));
        lemma_env_index_prefix(envs.drop_last(), name, k);
    } else {
        assert(envs.subrange(0, k) =~= envs);
    }
}

pub open spec fn top_kvs_ok(m: Manifest) -> bool {
    match m.kv_namespaces {
        Some(kvs) => all_ids(kvs@),
        None => true,
    }
}

/// The outcome for the environment named `n`: not found, or its target.
pub open spec fn environment_result(m: Manifest, n: Seq<char>, r: Result<Target, ProjectError>) -> bool {
    match env_index(m.env@, n) {
        None => match r {
            Err(ProjectError::EnvironmentNotFound(e)) => e@ == n,
            _ => false,
        },
        Some(i) => match r {
            Ok(t) => environment_target(m, n, m.env@[i].environment, t),
            _ => false,
        },
    }
}

/// The target for `environment` (the top level when `None`).
pub fn get_project_config(environment: Option<&str>, manifest: &Manifest) -> (r: Result<
    Target,
    ProjectError,
>)
    ensures
        environment is None ==> (r is Ok <==> top_kvs_ok(*manifest)),
        environment is None ==> (r matches Ok(t) ==> top_level_target(*manifest, t)),
        environment matches Some(n) ==> environment_result(*manifest, n@, r),
{
    match environment {
        None => {
            let kv_namespaces = match &manifest.kv_namespaces {
                Some(kvs) => match convert_kvs(kvs) {
                    Ok(v) => Some(v),
                    Err(e) => {
                        return Err(e);
                    },
                },
                None => None,
            };
            Ok(
                Target {
                    name: manifest.name.clone(),
                    account_id: manifest.account_id.clone(),
                    workers_dev: manifest.workers_dev,
                    route: copy_opt(&manifest.route),
                    zone_id: copy_opt(&manifest.zone_id),
                    kv_namespaces,
                },
            )
        },
        Some(n) => {
            let i = match find_environment(&manifest.env, n) {
                Some(i) => i,
                None => {
                    return Err(ProjectError::EnvironmentNotFound(n.to_owned()));
                },
            };
            let e = &manifest.env[i].environment;
            let name = match &e.name {
                Some(x) => x.clone(),
                None => {
                    let mut x = manifest.name.clone();
                    x.append("-");
                    x.append(n);
                    x
                },
            };
            let account_id = match &e.account_id {
                Some(a) => a.clone(),
                None => manifest.account_id.clone(),
            };
            let workers_dev = match e.workers_dev {
                Some(w) => w,
                None => manifest.workers_dev,
            };
            let route = match &e.route {
                Some(x) => Some(x.clone()),
                None => copy_opt(&manifest.route),
            };
            let zone_id = match &e.zone_id {
                Some(x) => Some(x.clone()),
                None => copy_opt(&manifest.zone_id),
            };
            let kv_namespaces = match &e.kv_namespaces {
                Some(v) => Some(copy_kvs(v)),
                None => None,
            };
            Ok(Target { name, account_id, workers_dev, route, zone_id, kv_namespaces })
        },
    }
}

} // verus!

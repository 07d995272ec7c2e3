//! Configuration, and the choice of a backend kind from it.
use vstd::prelude::*;
use crate::client::GenericClient;
use crate::error::{ClientError, ConfigProblem};

verus! {

#[verifier::external_type_specification]
#[verifier::external_body]
pub struct ExUrl(url::Url);

#[verifier::external_type_specification]
#[verifier::external_body]
pub struct ExParseError(url::ParseError);

/// What parsing `s` as an absolute URL gives: the URL, or why it is not one.
pub uninterp spec fn url_parse_result(s: Seq<char>) -> Result<url::Url, url::ParseError>;

/// Relies on `url::Url::parse`: it parses an absolute URL, or fails with a
/// `ParseError`; the outcome depends on the string alone.
#[verifier::external_body]
fn parse_url(s: &str) -> (r: Result<url::Url, url::ParseError>)
    ensures
        r == url_parse_result(s@),
{
    url::Url::parse(s)
}

/// The kinds of backend a client can use.
#[derive(PartialEq, Eq, Structural, Debug, Clone, Copy)]
pub enum BackendKind {
    /// A local, file-backed database.
    Local,
    /// A remote database reached over HTTP.
    Reqwest,
    /// A database reached from an edge-worker runtime.
    Workers,
    /// A database reached from a Spin runtime.
    Spin,
}

/// The backend kinds built into the program.
#[derive(PartialEq, Eq, Structural, Debug, Clone, Copy)]
pub struct EnabledBackends {
    pub local: bool,
    pub reqwest: bool,
    pub workers: bool,
    pub spin: bool,
}

/// A client configuration: the endpoint locator, and a backend kind if one is asked for.
pub struct ClientConfig {
    pub url: String,
    pub backend: Option<String>,
}

impl ClientConfig {
    /// The requested backend name, if any.
    pub open spec fn backend_name(&self) -> Option<Seq<char>> {
        match self.backend {
            Some(b) => Some(b@),
            None => None,
        }
    }
}

/// The outcome of choosing a backend kind.
pub enum Selection {
    /// The kind to construct.
    Chosen(BackendKind),
    /// The name is of no kind, or of one that is not built in.
    Unsupported(Seq<char>),
    /// The kind needs a host context, which a configuration cannot give.
    NeedsContext(BackendKind),
}

/// The name by which a backend kind is requested.
pub open spec fn kind_name(k: BackendKind) -> Seq<char> {
    match k {
        BackendKind::Local => "local"@,
        BackendKind::Reqwest => "reqwest"@,
        BackendKind::Workers => "workers"@,
        BackendKind::Spin => "spin"@,
    }
}

/// The backend kind that `name` requests, if any.
pub open spec fn named_kind(name: Seq<char>) -> Option<BackendKind> {
    if name == "local"@ {
        Some(BackendKind::Local)
    } else if name == "reqwest"@ {
        Some(BackendKind::Reqwest)
    } else if name == "workers"@ {
        Some(BackendKind::Workers)
    } else if name == "spin"@ {
        Some(BackendKind::Spin)
    } else {
        None
    }
}

/// Whether `k` is built in.
pub open spec fn is_enabled(k: BackendKind, enabled: EnabledBackends) -> bool {
    match k {
        BackendKind::Local => enabled.local,
        BackendKind::Reqwest => enabled.reqwest,
        BackendKind::Workers => enabled.workers,
        BackendKind::Spin => enabled.spin,
    }
}

/// Whether the endpoint locator names a network location: it starts with `http`.
pub open spec fn is_network_url(url: Seq<char>) -> bool {
    url.len() >= 4 && url[0] == 'h' && url[1] == 't' && url[2] == 't' && url[3] == 'p'
}

/// The kind chosen when none is asked for: for a network location the first built-in
/// network kind (HTTP, then workers, then Spin), else the local kind.
pub open spec fn inferred_kind(url: Seq<char>, enabled: EnabledBackends) -> BackendKind {
    if is_network_url(url) {
        if enabled.reqwest {
            BackendKind::Reqwest
        } else if enabled.workers {
            BackendKind::Workers
        } else if enabled.spin {
            BackendKind::Spin
        } else {
            BackendKind::Local
        }
    } else {
        BackendKind::Local
    }
}

/// The backend name asked for, explicitly or by inference from the locator.
pub open spec fn requested_name(url: Seq<char>, backend: Option<Seq<char>>, enabled: EnabledBackends) -> Seq<char> {
    match backend {
        Some(b) => b,
        None => kind_name(inferred_kind(url, enabled)),
    }
}

/// The choice of a backend kind for a configuration.
pub open spec fn selection(url: Seq<char>, backend: Option<Seq<char>>, enabled: EnabledBackends) -> Selection {
    let name = requested_name(url, backend, enabled);
    match named_kind(name) {
        None => Selection::Unsupported(name),
        Some(k) => if !is_enabled(k, enabled) {
            Selection::Unsupported(name)
        } else if k == BackendKind::Workers || k == BackendKind::Spin {
            Selection::NeedsContext(k)
        } else {
            Selection::Chosen(k)
        },
    }
}

/// `r` is the failure that an unsuccessful selection `s` reports.
pub open spec fn selection_failure<T>(r: Result<T, ClientError>, s: Selection) -> bool {
    match s {
        Selection::Chosen(_) => false,
        Selection::Unsupported(name) => match r {
            Err(ClientError::UnsupportedBackend(n)) => n@ == name,
            _ => false,
        },
        Selection::NeedsContext(k) => match r {
            Err(ClientError::ContextRequired(n)) => n@ == kind_name(k),
            _ => false,
        },
    }
}

/// `r` reports the selection `s`.
pub open spec fn reports_selection(r: Result<BackendKind, ClientError>, s: Selection) -> bool {
    match s {
        Selection::Chosen(k) => r == Ok::<BackendKind, ClientError>(k),
        _ => selection_failure(r, s),
    }
}

fn kind_name_string(k: BackendKind) -> (r: String)
    ensures
        r@ == kind_name(k),
{
    match k {
        BackendKind::Local => String::from_str("local"),
        BackendKind::Reqwest => String::from_str("reqwest"),
        BackendKind::Workers => String::from_str("workers"),
        BackendKind::Spin => String::from_str("spin"),
    }
}

fn kind_of_name(name: &String) -> (r: Option<BackendKind>)
    ensures
        r == named_kind(name@),
{
    if *name == String::from_str("local") {
        Some(BackendKind::Local)
    } else if *name == String::from_str("reqwest") {
        Some(BackendKind::Reqwest)
    } else if *name == String::from_str("workers") {
        Some(BackendKind::Workers)
    } else if *name == String::from_str("spin") {
        Some(BackendKind::Spin)
    } else {
        None
    }
}

fn enabled_in(k: BackendKind, enabled: EnabledBackends) -> (r: bool)
    ensures
        r == is_enabled(k, enabled),
{
    match k {
        BackendKind::Local => enabled.local,
        BackendKind::Reqwest => enabled.reqwest,
        BackendKind::Workers => enabled.workers,
        BackendKind::Spin => enabled.spin,
    }
}

/// Whether `url` names a network location.
pub fn network_url(url: &str) -> (r: bool)
    ensures
        r == is_network_url(url@),
{
    let n = url.unicode_len();
    n >= 4 && url.get_char(0) == 'h' && url.get_char(1) == 't' && url.get_char(2) == 't' && url.get_char(
        3,
    ) == 'p'
}

/// The backend kind chosen for `url` when none is asked for.
pub fn infer_backend(url: &str, enabled: EnabledBackends) -> (r: BackendKind)
    ensures
        r == inferred_kind(url@, enabled),
{
    if network_url(url) {
        if enabled.reqwest {
            BackendKind::Reqwest
        } else if enabled.workers {
            BackendKind::Workers
        } else if enabled.spin {
            BackendKind::Spin
        } else {
            BackendKind::Local
        }
    } else {
        BackendKind::Local
    }
}

/// Chooses the backend kind for `config` among the `enabled` ones.
pub fn select_backend(config: &ClientConfig, enabled: EnabledBackends) -> (r: Result<BackendKind, ClientError>)
    ensures
        reports_selection(r, selection(config.url@, config.backend_name(), enabled)),
{
    let name = match &config.backend {
        Some(b) => b.clone(),
        None => kind_name_string(infer_backend(config.url.as_str(), enabled)),
    };
    match kind_of_name(&name) {
        None => Err(ClientError::UnsupportedBackend(name)),
        Some(k) => {
            if !enabled_in(k, enabled) {
                Err(ClientError::UnsupportedBackend(name))
            } else {
                match k {
                    BackendKind::Workers | BackendKind::Spin => Err(
                        ClientError::ContextRequired(kind_name_string(k)),
                    ),
                    _ => Ok(k),
                }
            }
        },
    }
}

/// What constructing a client may give for the locator `url` and the requested
/// backend name `backend`, with `connect_local` and `connect_reqwest` as the
/// constructors of the local and HTTP backends: the first gets the locator, the
/// second the URL parsed from it.
pub open spec fn construction<L, R, W, S, FL, FR>(
    url: String,
    backend: Option<Seq<char>>,
    enabled: EnabledBackends,
    connect_local: FL,
    connect_reqwest: FR,
    r: Result<GenericClient<L, R, W, S>, ClientError>,
) -> bool where
    FL: FnOnce(String) -> Result<L, ClientError>,
    FR: FnOnce(url::Url) -> Result<R, ClientError>,
 {
    match selection(url@, backend, enabled) {
        Selection::Chosen(BackendKind::Local) => match r {
            Ok(GenericClient::Local(l)) => connect_local.ensures((url,), Ok(l)),
            Err(e) => connect_local.ensures((url,), Err(e)),
            _ => false,
        },
        Selection::Chosen(BackendKind::Reqwest) => match url_parse_result(url@) {
            Err(why) => r == Err::<GenericClient<L, R, W, S>, ClientError>(
                ClientError::Config(ConfigProblem::InvalidUrl(why)),
            ),
            Ok(u) => match r {
                Ok(GenericClient::Reqwest(c)) => connect_reqwest.ensures((u,), Ok(c)),
                Err(e) => connect_reqwest.ensures((u,), Err(e)),
                _ => false,
            },
        },
        Selection::Chosen(_) => false,
        _ => selection_failure(r, selection(url@, backend, enabled)),
    }
}

/// Constructs a client for `config`: chooses the backend kind, and builds a local
/// backend from the locator, or an HTTP backend from the locator parsed as a URL.
pub fn new_client_with_config<L, R, W, S, FL, FR>(
    config: &ClientConfig,
    enabled: EnabledBackends,
    connect_local: FL,
    connect_reqwest: FR,
) -> (r: Result<GenericClient<L, R, W, S>, ClientError>) where
    FL: FnOnce(String) -> Result<L, ClientError>,
    FR: FnOnce(url::Url) -> Result<R, ClientError>,

    requires
        forall|u: String| connect_local.requires((u,)),
        forall|u: url::Url| connect_reqwest.requires((u,)),
    ensures
        construction(config.url, config.backend_name(), enabled, connect_local, connect_reqwest, r),
{
    match select_backend(config, enabled) {
        Ok(BackendKind::Local) => {
            let u = config.url.clone();
            let ghost given = u;
            let made = connect_local(u);
            match made {
                Ok(l) => {
                    assert(connect_local.ensures((given,), Ok(l)));
                    Ok(GenericClient::Local(l))
                },
                Err(e) => {
                    assert(connect_local.ensures((given,), Err(e)));
                    Err(e)
                },
            }
        },
        Ok(BackendKind::Reqwest) => match parse_url(config.url.as_str()) {
            Ok(u) => {
                let ghost parsed = u;
                let made = connect_reqwest(u);
                match made {
                    Ok(c) => {
                        assert(connect_reqwest.ensures((parsed,), Ok(c)));
                        Ok(GenericClient::Reqwest(c))
                    },
                    Err(e) => {
                        assert(connect_reqwest.ensures((parsed,), Err(e)));
                        Err(e)
                    },
                }
            },
            Err(why) => Err(ClientError::Config(ConfigProblem::InvalidUrl(why))),
        },
        // Selection never chooses the kinds that need a host context.
        Ok(k) => Err(ClientError::ContextRequired(kind_name_string(k))),
        Err(e) => Err(e),
    }
}

/// The configuration given by the endpoint-locator variable `url_var` and the optional
/// backend-kind variable `backend_var`; fails when the locator is absent.
pub fn config_from_env(url_var: Option<String>, backend_var: Option<String>) -> (r: Result<ClientConfig, ClientError>)
    ensures
        match url_var {
            None => r matches Err(ClientError::Config(ConfigProblem::MissingUrl)),
            Some(u) => match r {
                Ok(config) => config.url == u && config.backend_name() == match backend_var {
                    Some(b) => Some(b@),
                    None => None::<Seq<char>>,
                },
                Err(_) => false,
            },
        },
{
    match url_var {
        None => Err(ClientError::Config(ConfigProblem::MissingUrl)),
        Some(url) => Ok(ClientConfig { url, backend: backend_var }),
    }
}

/// Constructs a client from the values of the endpoint-locator and backend-kind
/// variables, as `new_client_with_config` does; fails when the locator is absent.
pub fn new_client<L, R, W, S, FL, FR>(
    url_var: Option<String>,
    backend_var: Option<String>,
    enabled: EnabledBackends,
    connect_local: FL,
    connect_reqwest: FR,
) -> (r: Result<GenericClient<L, R, W, S>, ClientError>) where
    FL: FnOnce(String) -> Result<L, ClientError>,
    FR: FnOnce(url::Url) -> Result<R, ClientError>,

    requires
        forall|u: String| connect_local.requires((u,)),
        forall|u: url::Url| connect_reqwest.requires((u,)),
    ensures
        match url_var {
            None => r matches Err(ClientError::Config(ConfigProblem::MissingUrl)),
            Some(u) => construction(
                u,
                match backend_var {
                    Some(b) => Some(b@),
                    None => None::<Seq<char>>,
                },
                enabled,
                connect_local,
                connect_reqwest,
                r,
            ),
        },
{
    match config_from_env(url_var, backend_var) {
        Ok(config) => new_client_with_config(&config, enabled, connect_local, connect_reqwest),
        Err(e) => Err(e),
    }
}

} // verus!

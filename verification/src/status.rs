//! The live status of remote instances: connection credentials derived from
//! an instance record, the status built from one probe, and the listing that
//! keeps going when single instances cannot be probed.

use vstd::prelude::*;
use vstd::string::StringExecFns;
use crate::ops::{CloudInstance, DEFAULT_PORT};

verus! {

/// Connection settings as the client library's builder hands them out.
pub struct Endpoint {
    pub host: Option<String>,
    pub port: u16,
    pub user: String,
    pub database: Option<String>,
}

/// What is needed to connect to an instance.
#[derive(Clone, Debug, PartialEq, Eq)]
pub struct Credentials {
    pub host: Option<String>,
    pub port: u16,
    pub user: String,
    pub database: Option<String>,
    pub secret_key: Option<String>,
    pub tls_ca: Option<String>,
}

/// The client library refused the connection settings.
#[derive(Clone, Debug, PartialEq, Eq)]
pub struct CredentialsError {
    pub message: String,
}

/// The kind of a remote instance.
#[derive(Clone, Debug, PartialEq, Eq)]
pub enum RemoteType {
    Cloud { instance_id: String },
}

/// How an attempt to connect ended.
#[derive(Clone, Debug, PartialEq, Eq)]
pub enum ConnectionStatus {
    Connected,
    Refused,
    TimedOut,
    Error(String),
}

/// A remote instance together with the result of probing it.
#[derive(Clone, Debug, PartialEq, Eq)]
pub struct RemoteStatus {
    pub name: String,
    pub type_: RemoteType,
    pub credentials: Credentials,
    pub version: Option<String>,
    pub connection: Option<ConnectionStatus>,
    pub instance_status: Option<String>,
}

/// What probing one instance found.
pub struct Probe {
    pub credentials: Credentials,
    pub version: Option<String>,
    pub connection: ConnectionStatus,
}

/// A failure to probe one instance, with the instance it is about.
#[derive(Clone, Debug, PartialEq, Eq)]
pub struct ProbeError {
    pub context: String,
    pub cause: String,
}

/// Sets up a builder of the client library with `Builder::uninitialized`,
/// gives it the host with `Builder::host_port`, leaving the port out, and
/// reads the settings back with `Builder::as_credentials`. The contract
/// claims that a builder set up with a host and port always hands its
/// settings out, and that they hold the host given, the library's default
/// port, and `edgedb` as both user and database.
#[verifier::external_body]
fn builder_endpoint(host: &str) -> (r: Result<Endpoint, String>)
    ensures
        r.is_ok(),
        r.unwrap().host.is_some(),
        r.unwrap().host.unwrap()@ == host@,
        r.unwrap().port == DEFAULT_PORT,
        r.unwrap().user@ == "edgedb"@,
        r.unwrap().database.is_some(),
        r.unwrap().database.unwrap()@ == "edgedb"@,
{
    let mut builder = edgedb_client::Builder::uninitialized();
    builder.host_port(Some(host), None);
    match builder.as_credentials() {
        Ok(c) => Ok(Endpoint { host: c.host, port: c.port, user: c.user, database: c.database }),
        Err(e) => Err(e.to_string()),
    }
}

fn copy_text(text: &Option<String>) -> (r: Option<String>)
    ensures
        r == *text,
{
    match text {
        Some(t) => Some(t.clone()),
        None => None,
    }
}

fn copy_credentials(c: &Credentials) -> (r: Credentials)
    ensures
        r == *c,
{
    Credentials {
        host: copy_text(&c.host),
        port: c.port,
        user: c.user.clone(),
        database: copy_text(&c.database),
        secret_key: copy_text(&c.secret_key),
        tls_ca: copy_text(&c.tls_ca),
    }
}

fn copy_connection(c: &ConnectionStatus) -> (r: ConnectionStatus)
    ensures
        r == *c,
{
    match c {
        ConnectionStatus::Connected => ConnectionStatus::Connected,
        ConnectionStatus::Refused => ConnectionStatus::Refused,
        ConnectionStatus::TimedOut => ConnectionStatus::TimedOut,
        ConnectionStatus::Error(text) => ConnectionStatus::Error(text.clone()),
    }
}

/// The credentials that follow from the builder's answer: its settings with
/// the secret and the certificate authority attached, or its refusal.
pub fn credentials_from(
    endpoint: Result<Endpoint, String>,
    secret_key: String,
    tls_ca: Option<String>,
) -> (r: Result<Credentials, CredentialsError>)
    ensures
        match endpoint {
            Ok(e) => r == Ok::<Credentials, CredentialsError>(
                Credentials {
                    host: e.host,
                    port: e.port,
                    user: e.user,
                    database: e.database,
                    secret_key: Some(secret_key),
                    tls_ca,
                },
            ),
            Err(message) => r == Err::<Credentials, CredentialsError>(CredentialsError { message }),
        },
{
    match endpoint {
        Ok(e) => Ok(
            Credentials {
                host: e.host,
                port: e.port,
                user: e.user,
                database: e.database,
                secret_key: Some(secret_key),
                tls_ca,
            },
        ),
        Err(message) => Err(CredentialsError { message }),
    }
}

impl CloudInstance {
    /// The name under which an instance is shown: `{org}/{name}`.
    pub open spec fn spec_full_name(self) -> Seq<char> {
        self.org_slug@ + "/"@ + self.name@
    }

    pub fn full_name(&self) -> (r: String)
        ensures
            r@ == self.spec_full_name(),
    {
        let mut text = self.org_slug.clone();
        text.append("/");
        text.append(self.name.as_str());
        text
    }

    /// Derives the credentials of this instance from the host that the
    /// client routes it to and the client's secret. The certificate
    /// authority is the instance's own. Nothing is sent over the network.
    pub fn as_credentials(&self, host: &str, secret_key: &str) -> (r: Result<
        Credentials,
        CredentialsError,
    >)
        ensures
            r matches Ok(c) && {
                &&& c.host matches Some(h) && h@ == host@
                &&& c.port == DEFAULT_PORT
                &&& c.user@ == "edgedb"@
                &&& c.database matches Some(d) && d@ == "edgedb"@
                &&& c.secret_key matches Some(k) && k@ == secret_key@
                &&& c.tls_ca == self.tls_ca
            },
    {
        credentials_from(
            builder_endpoint(host),
            String::from_str(secret_key),
            copy_text(&self.tls_ca),
        )
    }
}

impl RemoteStatus {
    /// Whether `self` is the status of `instance` as `probe` found it.
    pub open spec fn is_status_of(self, instance: CloudInstance, probe: Probe) -> bool {
        &&& self.name@ == instance.spec_full_name()
        &&& self.type_ == (RemoteType::Cloud { instance_id: instance.id })
        &&& self.credentials == probe.credentials
        &&& self.version == probe.version
        &&& self.connection == Some(probe.connection)
        &&& self.instance_status == Some(instance.status)
    }

    /// Builds the status of an instance from what a probe found.
    pub fn from_cloud_instance(cloud_instance: &CloudInstance, probe: Probe) -> (r: RemoteStatus)
        ensures
            r.is_status_of(*cloud_instance, probe),
    {
        RemoteStatus {
            name: cloud_instance.full_name(),
            type_: RemoteType::Cloud { instance_id: cloud_instance.id.clone() },
            credentials: probe.credentials,
            version: probe.version,
            connection: Some(probe.connection),
            instance_status: Some(cloud_instance.status.clone()),
        }
    }
}

impl ProbeError {
    /// Whether `self` reports that `instance` could not be probed for `cause`.
    pub open spec fn is_error_of(self, instance: CloudInstance, cause: String) -> bool {
        &&& self.context@ == "probing "@ + instance.spec_full_name()
        &&& self.cause == cause
    }

    /// Wraps the cause of a failed probe with the instance it is about.
    pub fn probing(instance: &CloudInstance, cause: String) -> (r: ProbeError)
        ensures
            r.is_error_of(*instance, cause),
    {
        let mut context = String::from_str("probing ");
        context.append(instance.full_name().as_str());
        ProbeError { context, cause }
    }
}

/// Whether `statuses` and `errors` are what listing `instances` yields when
/// probing them ended as `probes` says: in the order of the instances, each
/// probe that succeeded gives one status and each that failed one error.
pub open spec fn listed(
    instances: Seq<CloudInstance>,
    probes: Seq<Result<Probe, String>>,
    statuses: Seq<RemoteStatus>,
    errors: Seq<ProbeError>,
) -> bool
    decreases instances.len(),
{
    if instances.len() == 0 || probes.len() != instances.len() {
        statuses.len() == 0 && errors.len() == 0 && instances.len() == 0 && probes.len() == 0
    } else {
        match probes.last() {
            Ok(probe) => statuses.len() > 0 && statuses.last().is_status_of(
                instances.last(),
                probe,
            ) && listed(instances.drop_last(), probes.drop_last(), statuses.drop_last(), errors),
            Err(cause) => errors.len() > 0 && errors.last().is_error_of(instances.last(), cause)
                && listed(instances.drop_last(), probes.drop_last(), statuses, errors.drop_last()),
        }
    }
}

/// Gathers the status of every instance. A probe that failed adds one error,
/// naming the instance, to the collector and never ends the work; what was
/// in the collector before stays in front.
pub fn collect(
    instances: &Vec<CloudInstance>,
    probes: &Vec<Result<Probe, String>>,
    errors: &mut Vec<ProbeError>,
) -> (r: Vec<RemoteStatus>)
    requires
        instances.len() == probes.len(),
    ensures
        final(errors)@.len() >= old(errors)@.len(),
        final(errors)@.take(old(errors)@.len() as int) == old(errors)@,
        listed(instances@, probes@, r@, final(errors)@.skip(old(errors)@.len() as int)),
{
    let mut statuses: Vec<RemoteStatus> = Vec::new();
    let ghost before = errors@;
    let mut i: usize = 0;
    proof {
        assert(errors@.take(before.len() as int) =~= before);
        assert(errors@.skip(before.len() as int) =~= Seq::<ProbeError>::empty());
    }
    while i < instances.len()
        invariant
            i <= instances.len(),
            instances.len() == probes.len(),
            errors@.len() >= before.len(),
            errors@.take(before.len() as int) == before,
            listed(
                instances@.take(i as int),
                probes@.take(i as int),
                statuses@,
                errors@.skip(before.len() as int),
            ),
        decreases instances.len() - i,
    {
        let ghost old_statuses = statuses@;
        let ghost old_errors = errors@;
        proof {
            assert(instances@.take(i + 1).drop_last() =~= instances@.take(i as int));
            assert(probes@.take(i + 1).drop_last() =~= probes@.take(i as int));
        }
        match &probes[i] {
            Ok(probe) => {
                let found = Probe {
                    credentials: copy_credentials(&probe.credentials),
                    version: copy_text(&probe.version),
                    connection: copy_connection(&probe.connection),
                };
                statuses.push(RemoteStatus::from_cloud_instance(&instances[i], found));
                proof {
                    assert(statuses@.drop_last() =~= old_statuses);
                }
            },
            Err(cause) => {
                errors.push(ProbeError::probing(&instances[i], cause.clone()));
                proof {
                    assert(errors@.take(before.len() as int) =~= before);
                    assert(errors@.skip(before.len() as int).drop_last() =~= old_errors.skip(
                        before.len() as int,
                    ));
                }
            },
        }
        i = i + 1;
    }
    proof {
        assert(instances@.take(i as int) =~= instances@);
        assert(probes@.take(i as int) =~= probes@);
    }
    statuses
}

/// One failed probe leaves exactly one error and takes no status away: for
/// two instances of which the first cannot be probed and the second can, the
/// listing holds the status of the second alone, and the one error names the
/// first.
pub proof fn lemma_failure_is_isolated(
    first: CloudInstance,
    second: CloudInstance,
    cause: String,
    probe: Probe,
    statuses: Seq<RemoteStatus>,
    errors: Seq<ProbeError>,
)
    requires
        listed(seq![first, second], seq![Err(cause), Ok(probe)], statuses, errors),
    ensures
        statuses.len() == 1,
        statuses[0].is_status_of(second, probe),
        errors.len() == 1,
        errors[0].is_error_of(first, cause),
{
    let instances = seq![first, second];
    let probes: Seq<Result<Probe, String>> = seq![Err(cause), Ok(probe)];
    reveal_with_fuel(listed, 3);
    assert(instances.drop_last() =~= seq![first]);
    assert(probes.drop_last() =~= seq![Err::<Probe, String>(cause)]);
    assert(instances.drop_last().drop_last() =~= Seq::<CloudInstance>::empty());
    assert(probes.drop_last().drop_last() =~= Seq::<Result<Probe, String>>::empty());
}

/// Every instance gives exactly one status or one error.
pub proof fn lemma_listed_counts(
    instances: Seq<CloudInstance>,
    probes: Seq<Result<Probe, String>>,
    statuses: Seq<RemoteStatus>,
    errors: Seq<ProbeError>,
)
    requires
        listed(instances, probes, statuses, errors),
    ensures
        statuses.len() + errors.len() == instances.len(),
    decreases instances.len(),
{
    if instances.len() > 0 && probes.len() == instances.len() {
        match probes.last() {
            Ok(_) => lemma_listed_counts(
                instances.drop_last(),
                probes.drop_last(),
                statuses.drop_last(),
                errors,
            ),
            Err(_) => lemma_listed_counts(
                instances.drop_last(),
                probes.drop_last(),
                statuses,
                errors.drop_last(),
            ),
        }
    }
}

/// Why the list of instances could not be had.
#[derive(Debug, PartialEq, Eq)]
pub enum ListError<E> {
    /// The client is not authenticated.
    NotAuthenticated,
    /// The list did not arrive within its time bound.
    TimedOut,
    /// The control plane answered with an error.
    Failed(E),
}

/// The outcome of fetching the list of instances: `None` stands for a fetch
/// that did not finish within its bound.
pub open spec fn spec_fetched<T, E>(authenticated: bool, answer: Option<Result<T, E>>) -> Result<
    T,
    ListError<E>,
> {
    if !authenticated {
        Err(ListError::NotAuthenticated)
    } else {
        match answer {
            None => Err(ListError::TimedOut),
            Some(Ok(list)) => Ok(list),
            Some(Err(error)) => Err(ListError::Failed(error)),
        }
    }
}

/// Decides whether a listing can start: it needs an authenticated client and
/// the whole list of instances, in time. Without them the listing fails as a
/// whole and no instance is probed.
pub fn fetched<T, E>(authenticated: bool, answer: Option<Result<T, E>>) -> (r: Result<
    T,
    ListError<E>,
>)
    ensures
        r == spec_fetched(authenticated, answer),
{
    if !authenticated {
        Err(ListError::NotAuthenticated)
    } else {
        match answer {
            None => Err(ListError::TimedOut),
            Some(Ok(list)) => Ok(list),
            Some(Err(error)) => Err(ListError::Failed(error)),
        }
    }
}

/// The text of a failed fetch of the list.
pub fn fetch_failure_text<E>(error: &ListError<E>) -> (r: &'static str)
    ensures
        r@ == match *error {
            ListError::NotAuthenticated => "not authenticated"@,
            ListError::TimedOut => "timed out with Cloud API"@,
            ListError::Failed(_) => "failed with Cloud API"@,
        },
{
    match error {
        ListError::NotAuthenticated => "not authenticated",
        ListError::TimedOut => "timed out with Cloud API",
        ListError::Failed(_) => "failed with Cloud API",
    }
}

/// Lists the status of every instance of the authenticated principal.
///
/// The listing needs an authenticated client and the whole list of instances,
/// in time (`answer` is `None` when it was late). Without them it fails as a
/// whole: no status is returned and the collector is left as it was. With
/// them it never fails: each probe that failed adds one error, naming the
/// instance, behind what the collector held, and the statuses of the others
/// are returned in the order of the instances.
pub fn list<E>(
    authenticated: bool,
    answer: Option<Result<Vec<CloudInstance>, E>>,
    probes: &Vec<Result<Probe, String>>,
    errors: &mut Vec<ProbeError>,
) -> (r: Result<Vec<RemoteStatus>, ListError<E>>)
    requires
        spec_fetched(authenticated, answer) matches Ok(instances) ==> instances.len()
            == probes.len(),
    ensures
        final(errors)@.len() >= old(errors)@.len(),
        final(errors)@.take(old(errors)@.len() as int) == old(errors)@,
        spec_fetched(authenticated, answer) matches Ok(instances) ==> (r matches Ok(statuses)
            && listed(
            instances@,
            probes@,
            statuses@,
            final(errors)@.skip(old(errors)@.len() as int),
        )),
        spec_fetched(authenticated, answer) matches Err(error) ==> r == Err::<
            Vec<RemoteStatus>,
            ListError<E>,
        >(error) && final(errors)@ == old(errors)@,
{
    proof {
        assert(errors@.take(errors@.len() as int) =~= errors@);
    }
    match fetched(authenticated, answer) {
        Ok(instances) => Ok(collect(&instances, probes, errors)),
        Err(error) => Err(error),
    }
}

} // verus!

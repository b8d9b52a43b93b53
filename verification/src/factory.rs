//! Builds a tenant's storage client from its link configuration.

use vstd::prelude::*;
use vstd::string::*;
use crate::config::{
    plan_of, BackendConfig, ClientPlan, ClientPlanModel, ConfigError, ConfigErrorModel,
    CredentialModel, CredentialSource, RegionChoice, RegionModel,
};
use crate::sdk::{
    ambient_client, ambient_client_of, ambient_provider, attached_proxies, client_builder,
    custom_region, custom_region_of, direct_connector, dispatcher_of, enforce_http,
    enforcing_http, https_connector, https_over, inner_connector, parse_uri, parsed_uri,
    named_region, pool_max_idle_per_host, proxied_connector, proxy_for_all, proxy_for_all_at,
    region_named,
    request_dispatcher, static_client, static_client_of, static_provider,
    static_provider_of, tcp_connector, tls_context, uri_accepts, with_pool_max_idle, Connector,
};

verus! {

/// The error that a plan's proxy address causes, if it causes one: the
/// address is set and is no address.
pub open spec fn proxy_fault(plan: ClientPlanModel) -> Option<ConfigErrorModel> {
    match plan.proxy {
        Some(text) if !uri_accepts(text) => Some(ConfigErrorModel::InvalidProxy(text)),
        _ => None,
    }
}

/// What is known of a configuration before any part of a client is built:
/// its plan, or the first reason to refuse it. The pairing of the keys is
/// checked first, then the token lifetime, then the proxy address.
pub open spec fn checked_plan_of(config: Map<Seq<char>, Seq<char>>) -> Result<
    ClientPlanModel,
    ConfigErrorModel,
> {
    match plan_of(config) {
        Err(e) => Err(e),
        Ok(plan) => match proxy_fault(plan) {
            Some(e) => Err(e),
            None => Ok(plan),
        },
    }
}

/// The name under which the SDK knows the service's standard region.
pub open spec fn standard_region_name() -> Seq<char> {
    "us-east-1"@
}

/// Whether `region` is the region that `choice` asks for: the SDK's custom
/// region of the chosen name and endpoint, or else the region that the SDK
/// knows by the standard region's name.
pub open spec fn region_as_planned(choice: RegionModel, region: rusoto_core::Region) -> bool {
    match choice {
        RegionModel::Custom { name, endpoint } => region == custom_region_of(name, endpoint),
        RegionModel::Standard => region_named(standard_region_name()) == Some(region),
    }
}

/// Whether `connector` is the transport that `plan` asks for: TLS over a TCP
/// connector that lets every scheme through; and on top of it the proxy
/// layer, with the one proxy for all requests at the planned address where
/// the plan names one, and with no proxy where it names none.
pub open spec fn transport_as_planned(plan: ClientPlanModel, connector: Connector) -> bool {
    &&& exists|tcp: hyper::client::HttpConnector, tls: hyper_tls::native_tls::TlsConnector|
        inner_connector(connector) == #[trigger] https_over(enforcing_http(tcp, false), tls)
    &&& attached_proxies(connector) == match plan.proxy {
        Some(text) => seq![proxy_for_all_at(parsed_uri(text).unwrap())],
        None => Seq::empty(),
    }
}

/// Whether `builder` has the pooling that `plan` asks for: a limit of no
/// idle connection per host, unless idle connections are to be kept.
pub open spec fn pooling_as_planned(plan: ClientPlanModel, builder: hyper::client::Builder) -> bool {
    plan.keep_idle_connections || exists|fresh: hyper::client::Builder|
        builder == #[trigger] with_pool_max_idle(fresh, 0)
}

/// Whether `handle` is the client that the SDK makes of `dispatcher` with
/// the credentials and the region that `plan` asks for: the static provider
/// of the planned key pair, token and lifetime, or else the ambient
/// provider.
pub open spec fn signing_as_planned(
    plan: ClientPlanModel,
    dispatcher: rusoto_core::HttpClient<Connector>,
    handle: rusoto_s3::S3Client,
) -> bool {
    exists|region: rusoto_core::Region|
        region_as_planned(plan.region, region) && #[trigger] signing_in_region(
            plan.credentials,
            dispatcher,
            region,
            handle,
        )
}

/// Whether `handle` is the client that the SDK makes of `dispatcher` and
/// `region` with the credentials asked for: the static provider of the
/// given key pair, token and lifetime, or else the ambient provider.
pub open spec fn signing_in_region(
    credentials: CredentialModel,
    dispatcher: rusoto_core::HttpClient<Connector>,
    region: rusoto_core::Region,
    handle: rusoto_s3::S3Client,
) -> bool {
    match credentials {
        CredentialModel::Static { access_key, secret_key, token, valid_for } => handle
            == static_client_of(
            dispatcher,
            static_provider_of(access_key, secret_key, token, valid_for),
            region,
        ),
        CredentialModel::Ambient => exists|
            provider: rusoto_core::credential::DefaultCredentialsProvider,
        |
            handle == #[trigger] ambient_client_of(dispatcher, provider, region),
    }
}

/// Whether `handle` is built as `plan` asks: it sends through the
/// dispatcher that the SDK makes of a builder with the planned pooling and a
/// connector with the planned transport, and it signs and addresses as
/// planned.
pub open spec fn built_as_planned(plan: ClientPlanModel, handle: rusoto_s3::S3Client) -> bool {
    exists|builder: hyper::client::Builder, connector: Connector|
        pooling_as_planned(plan, builder) && transport_as_planned(plan, connector)
            && signing_as_planned(plan, #[trigger] dispatcher_of(builder, connector), handle)
}

/// A tenant's client: the handle through which the storage service is
/// reached, together with the plan it was built to. Neither can be changed
/// once the client is built; a tenant that is linked anew gets a new client.
pub struct BackendClient {
    plan: ClientPlan,
    handle: rusoto_s3::S3Client,
}

/// Mathematical view of a [`BackendClient`].
pub struct BackendClientModel {
    pub plan: ClientPlanModel,
    pub handle: rusoto_s3::S3Client,
}

impl View for BackendClient {
    type V = BackendClientModel;

    closed spec fn view(&self) -> BackendClientModel {
        BackendClientModel { plan: self.plan@, handle: self.handle }
    }
}

impl BackendClient {
    /// Every client is built as its plan asks.
    #[verifier::type_invariant]
    closed spec fn as_planned(&self) -> bool {
        built_as_planned(self.plan@, self.handle)
    }

    /// The plan the client was built to.
    pub fn plan(&self) -> (plan: &ClientPlan)
        ensures
            plan@ == self@.plan,
    {
        &self.plan
    }

    /// The handle through which requests are sent: the one the client holds.
    pub fn handle(&self) -> (handle: &rusoto_s3::S3Client)
        ensures
            *handle == self@.handle,
            built_as_planned(self@.plan, *handle),
    {
        proof {
            use_type_invariant(self);
        }
        &self.handle
    }

}

/// Views a client or the error in its place.
pub open spec fn client_result_view(result: Result<BackendClient, ConfigError>) -> Result<
    ClientPlanModel,
    ConfigErrorModel,
> {
    match result {
        Ok(client) => Ok(client@.plan),
        Err(e) => Err(e@),
    }
}

/// Turns the outcome of parsing a proxy address into the address or the
/// error that names the offending text.
pub fn proxy_address(text: &str, parsed: Option<hyper::Uri>) -> (result: Result<
    hyper::Uri,
    ConfigError,
>)
    ensures
        match result {
            Ok(address) => parsed == Some(address),
            Err(e) => parsed is None && e@ == ConfigErrorModel::InvalidProxy(text@),
        },
{
    match parsed {
        Some(address) => Ok(address),
        None => Err(ConfigError::InvalidProxy(String::from_str(text))),
    }
}

/// The setup error that says that `part` could not be built, and why.
pub open spec fn part_refused(part: Seq<char>, reason: Seq<char>) -> ConfigErrorModel {
    ConfigErrorModel::ClientSetup(part + reason)
}

/// Whether `e` is a setup error that building to `plan` can end in: the
/// platform refused the TLS context or the proxy layer; or, where the plan
/// asks for ambient credentials, their provider; or, where it asks for the
/// standard region, the SDK did not know it. The error names the part and
/// says why.
pub open spec fn setup_fault(plan: ClientPlanModel, e: ConfigErrorModel) -> bool {
    exists|part: Seq<char>, reason: Seq<char>|
        e == #[trigger] part_refused(part, reason) && {
            ||| part == "TLS context: "@
            ||| part == "proxy layer: "@
            ||| plan.credentials is Ambient && part == "credentials provider: "@
            ||| plan.region is Standard && part == "region: "@
        }
}

/// Wraps the reason a part could not be built into a setup error that names
/// the part.
fn setup_error(part: &str, reason: String) -> (e: ConfigError)
    ensures
        e@ == part_refused(part@, reason@),
{
    ConfigError::ClientSetup(String::from_str(part).concat(reason.as_str()))
}

/// Builds the client that `plan` describes.
///
/// A proxy address that is no address is refused before anything is built.
/// Otherwise the parts are put together as planned: TLS over TCP, behind the
/// proxy if there is one; no idle connections kept unless the plan says so;
/// the planned credentials and region. Building can still fail where the
/// platform refuses a TLS context or a credentials provider, or where the
/// SDK does not know the standard region, and then the error is a setup
/// error. The client that comes out remembers the plan, and
/// its handle is built as the plan asks.
pub fn build_client(plan: ClientPlan) -> (result: Result<BackendClient, ConfigError>)
    ensures
        match result {
            Ok(client) => {
                &&& proxy_fault(plan@) is None
                &&& client@.plan == plan@
                &&& built_as_planned(plan@, client@.handle)
            },
            Err(e) => match proxy_fault(plan@) {
                Some(fault) => e@ == fault,
                None => e@ is ClientSetup && setup_fault(plan@, e@),
            },
        },
{
    let proxy = match &plan.proxy {
        None => None,
        Some(text) => {
            let parsed = parse_uri(text.as_str());
            match proxy_address(text.as_str(), parsed) {
                Ok(address) => Some(proxy_for_all(address)),
                Err(e) => {
                    return Err(e);
                },
            }
        },
    };
    let tls = match tls_context() {
        Ok(tls) => tls,
        Err(reason) => {
            return Err(setup_error("TLS context: ", reason));
        },
    };
    let mut tcp = tcp_connector();
    let ghost fresh_tcp = tcp;
    enforce_http(&mut tcp, false);
    let https = https_connector(tcp, tls);
    assert(https == https_over(enforcing_http(fresh_tcp, false), tls));
    let layered = match proxy {
        Some(proxy) => proxied_connector(https, proxy),
        None => direct_connector(https),
    };
    let connector = match layered {
        Ok(connector) => connector,
        Err(reason) => {
            return Err(setup_error("proxy layer: ", reason));
        },
    };
    assert(transport_as_planned(plan@, connector));
    let mut builder = client_builder();
    let ghost fresh_builder = builder;
    if !plan.keep_idle_connections {
        pool_max_idle_per_host(&mut builder, 0);
        assert(builder == with_pool_max_idle(fresh_builder, 0));
    }
    assert(pooling_as_planned(plan@, builder));
    let ghost made_of = (builder, connector);
    let dispatcher = request_dispatcher(builder, connector);
    let ghost sending = dispatcher;
    let region = match &plan.region {
        RegionChoice::Standard => match named_region("us-east-1") {
            Some(region) => region,
            None => {
                return Err(setup_error("region: ", String::from_str("us-east-1 is not known")));
            },
        },
        RegionChoice::Custom { name, endpoint } => custom_region(name.clone(), endpoint.clone()),
    };
    assert(region_as_planned(plan@.region, region));
    let handle = match &plan.credentials {
        CredentialSource::Static { access_key, secret_key, token, valid_for } => {
            let token_copy = match token {
                Some(text) => Some(text.clone()),
                None => None,
            };
            let provider = static_provider(
                access_key.clone(),
                secret_key.clone(),
                token_copy,
                *valid_for,
            );
            let client = static_client(dispatcher, provider, region);
            assert(signing_in_region(plan@.credentials, sending, region, client));
            client
        },
        CredentialSource::Ambient => match ambient_provider() {
            Ok(provider) => {
                let client = ambient_client(dispatcher, provider, region);
                assert(client == ambient_client_of(sending, provider, region));
                assert(signing_in_region(plan@.credentials, sending, region, client));
                client
            },
            Err(reason) => {
                return Err(setup_error("credentials provider: ", reason));
            },
        },
    };
    assert(signing_as_planned(plan@, sending, handle));
    assert(built_as_planned(plan@, handle)) by {
        assert(sending == dispatcher_of(made_of.0, made_of.1));
    }
    Ok(BackendClient { plan, handle })
}

/// Builds a client from a link configuration.
///
/// A configuration that `checked_plan_of` refuses is refused with that very
/// error. For any other configuration the client is built as the plan asks
/// that `checked_plan_of` gives, or a setup error says which part the
/// platform refused.
pub fn client_for_config(config: &BackendConfig) -> (result: Result<BackendClient, ConfigError>)
    ensures
        match checked_plan_of(config@) {
            Err(fault) => client_result_view(result) == Err::<ClientPlanModel, ConfigErrorModel>(
                fault,
            ),
            Ok(plan) => match result {
                Ok(client) => client@.plan == plan && built_as_planned(plan, client@.handle),
                Err(e) => e@ is ClientSetup && setup_fault(plan, e@),
            },
        },
{
    match ClientPlan::from_config(config) {
        Ok(plan) => build_client(plan),
        Err(e) => Err(e),
    }
}

} // verus!

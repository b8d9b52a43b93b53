//! Bindings to the storage SDK and its HTTP stack.
//!
//! Everything here is taken on trust. The types are opaque: a value of one
//! can be carried from one call to the next and nothing can be seen inside
//! it. Each function makes one call into the SDK or the HTTP stack. None of
//! the calls panics, and none touches the network.
//!
//! Where a call's result is settled by its arguments, the result has a name
//! here, and the trusted claim is that the call returns what the name
//! stands for; what that is in detail is laid down by the outside source and
//! not restated. The library's contracts then say which value was made from
//! which. Some results have no such name, because they are settled by the
//! platform or made from no argument: a TLS context, the ambient credentials
//! provider, a fresh TCP connector and a fresh client builder. Of those the
//! contracts can say only that one was used.

use vstd::prelude::*;

verus! {

/// `rusoto_core::Region`: a region of the storage service.
#[verifier::external_type_specification]
#[verifier::external_body]
pub struct ExRegion(rusoto_core::Region);

/// `rusoto_core::credential::StaticProvider`: fixed credentials.
#[verifier::external_type_specification]
#[verifier::external_body]
pub struct ExStaticProvider(rusoto_core::credential::StaticProvider);

/// `rusoto_core::credential::DefaultCredentialsProvider`: credentials that
/// the platform discovers.
#[verifier::external_type_specification]
#[verifier::external_body]
pub struct ExDefaultCredentialsProvider(rusoto_core::credential::DefaultCredentialsProvider);

/// `hyper::Uri`: a parsed address.
#[verifier::external_type_specification]
#[verifier::external_body]
pub struct ExUri(hyper::Uri);

/// `hyper_proxy::Proxy`: a proxy and the requests it applies to.
#[verifier::external_type_specification]
#[verifier::external_body]
pub struct ExProxy(hyper_proxy::Proxy);

/// `hyper_proxy::ProxyConnector`: a connector that tunnels through proxies.
#[verifier::external_type_specification]
#[verifier::external_body]
#[verifier::reject_recursive_types(C)]
pub struct ExProxyConnector<C>(hyper_proxy::ProxyConnector<C>);

/// `hyper_tls::HttpsConnector`: a connector that speaks TLS.
#[verifier::external_type_specification]
#[verifier::external_body]
#[verifier::reject_recursive_types(T)]
pub struct ExHttpsConnector<T>(hyper_tls::HttpsConnector<T>);

/// `hyper::client::HttpConnector`: a connector over TCP.
#[verifier::external_type_specification]
#[verifier::external_body]
#[verifier::reject_recursive_types(R)]
pub struct ExHttpConnector<R>(hyper::client::HttpConnector<R>);

/// `hyper::client::connect::dns::GaiResolver`: the TCP connector's default
/// name resolver.
#[verifier::external_type_specification]
#[verifier::external_body]
pub struct ExGaiResolver(hyper::client::connect::dns::GaiResolver);

/// `hyper::client::Builder`: the settings of an HTTP client to be.
#[verifier::external_type_specification]
#[verifier::external_body]
pub struct ExBuilder(hyper::client::Builder);

/// `rusoto_core::HttpClient`: the SDK's request dispatcher.
#[verifier::external_type_specification]
#[verifier::external_body]
#[verifier::reject_recursive_types(C)]
pub struct ExHttpClient<C>(rusoto_core::HttpClient<C>);

/// `rusoto_s3::S3Client`: a client of the storage service, bound to one
/// region, one source of credentials and one transport.
#[verifier::external_type_specification]
#[verifier::external_body]
pub struct ExS3Client(rusoto_s3::S3Client);

/// `native_tls::TlsConnector`: a TLS context.
#[verifier::external_type_specification]
#[verifier::external_body]
pub struct ExTlsConnector(hyper_tls::native_tls::TlsConnector);

/// The connector every client is built on: TLS over TCP, behind a layer that
/// tunnels through a proxy when one is attached.
pub type Connector = hyper_proxy::ProxyConnector<
    hyper_tls::HttpsConnector<hyper::client::HttpConnector>,
>;

/// The address that `hyper::Uri` reads from `text`, if it reads one. What it
/// accepts is laid down by its parser and is not restated here.
pub uninterp spec fn parsed_uri(text: Seq<char>) -> Option<hyper::Uri>;

/// Whether `hyper::Uri` accepts `text` as an address.
pub open spec fn uri_accepts(text: Seq<char>) -> bool {
    parsed_uri(text) is Some
}

/// The region that the SDK knows by `name`, if it knows one. Which names it
/// knows is laid down by its list of regions and is not restated here.
pub uninterp spec fn region_named(name: Seq<char>) -> Option<rusoto_core::Region>;

/// The region that `Region::Custom` makes of a name and an endpoint.
pub uninterp spec fn custom_region_of(name: Seq<char>, endpoint: Seq<char>) -> rusoto_core::Region;

/// The provider that `StaticProvider::new` makes of a key pair, a token and
/// a lifetime.
pub uninterp spec fn static_provider_of(
    access_key: Seq<char>,
    secret_key: Seq<char>,
    token: Option<Seq<char>>,
    valid_for: Option<i64>,
) -> rusoto_core::credential::StaticProvider;

/// The TCP connector that `HttpConnector::enforce_http` leaves behind.
pub uninterp spec fn enforcing_http(
    connector: hyper::client::HttpConnector,
    enforced: bool,
) -> hyper::client::HttpConnector;

/// The connector that `HttpsConnector::from` makes of a TCP connector and a
/// TLS context.
pub uninterp spec fn https_over(
    tcp: hyper::client::HttpConnector,
    tls: hyper_tls::native_tls::TlsConnector,
) -> hyper_tls::HttpsConnector<hyper::client::HttpConnector>;

/// The proxy that `Proxy::new` makes of `Intercept::All` and an address.
pub uninterp spec fn proxy_for_all_at(address: hyper::Uri) -> hyper_proxy::Proxy;

/// The proxies attached to a proxy layer, in the order they were attached.
pub uninterp spec fn attached_proxies(connector: Connector) -> Seq<hyper_proxy::Proxy>;

/// The connector that a proxy layer was put on.
pub uninterp spec fn inner_connector(connector: Connector) -> hyper_tls::HttpsConnector<
    hyper::client::HttpConnector,
>;

/// The builder that `Builder::pool_max_idle_per_host` leaves behind.
pub uninterp spec fn with_pool_max_idle(
    builder: hyper::client::Builder,
    max_idle: usize,
) -> hyper::client::Builder;

/// The dispatcher that `HttpClient::from_builder` makes of a builder and a
/// connector.
pub uninterp spec fn dispatcher_of(
    builder: hyper::client::Builder,
    connector: Connector,
) -> rusoto_core::HttpClient<Connector>;

/// The client that `S3Client::new_with` makes of a dispatcher, a static
/// credentials provider and a region.
pub uninterp spec fn static_client_of(
    dispatcher: rusoto_core::HttpClient<Connector>,
    provider: rusoto_core::credential::StaticProvider,
    region: rusoto_core::Region,
) -> rusoto_s3::S3Client;

/// The client that `S3Client::new_with` makes of a dispatcher, the ambient
/// credentials provider and a region.
pub uninterp spec fn ambient_client_of(
    dispatcher: rusoto_core::HttpClient<Connector>,
    provider: rusoto_core::credential::DefaultCredentialsProvider,
    region: rusoto_core::Region,
) -> rusoto_s3::S3Client;

/// `hyper::Uri`'s `from_str`, by way of `str::parse`: parses `text` as an
/// address. Claimed, and not proved: the outcome, address included, is
/// settled by the characters of `text` alone.
#[verifier::external_body]
pub(crate) fn parse_uri(text: &str) -> (parsed: Option<hyper::Uri>)
    ensures
        parsed == parsed_uri(text@),
{
    text.parse::<hyper::Uri>().ok()
}

/// `Region`'s `from_str`, by way of `str::parse`: the region that the SDK
/// knows by `name`, if it knows one. Claimed: the outcome is settled by the
/// characters of `name` alone.
#[verifier::external_body]
pub(crate) fn named_region(name: &str) -> (region: Option<rusoto_core::Region>)
    ensures
        region == region_named(name@),
{
    name.parse::<rusoto_core::Region>().ok()
}

/// `Region::Custom`: a region of the given name, reached at the given
/// endpoint. Claimed: the region is settled by the two texts.
#[verifier::external_body]
pub(crate) fn custom_region(name: String, endpoint: String) -> (region: rusoto_core::Region)
    ensures
        region == custom_region_of(name@, endpoint@),
{
    rusoto_core::Region::Custom { name, endpoint }
}

/// `StaticProvider::new`: a credentials provider that always hands out the
/// given key pair, token and lifetime. Claimed: the provider is settled by
/// these four.
#[verifier::external_body]
pub(crate) fn static_provider(
    access_key: String,
    secret_key: String,
    token: Option<String>,
    valid_for: Option<i64>,
) -> (provider: rusoto_core::credential::StaticProvider)
    ensures
        provider == static_provider_of(access_key@, secret_key@, token.deep_view(), valid_for),
{
    rusoto_core::credential::StaticProvider::new(access_key, secret_key, token, valid_for)
}

/// `DefaultCredentialsProvider::new`: the provider that discovers credentials
/// from the environment, profile files and instance metadata. On failure the
/// SDK's error is returned as text. Nothing is claimed of the result: it
/// depends on the environment.
#[verifier::external_body]
pub(crate) fn ambient_provider() -> Result<
    rusoto_core::credential::DefaultCredentialsProvider,
    String,
> {
    rusoto_core::credential::DefaultCredentialsProvider::new().map_err(|e| e.to_string())
}

/// `native_tls::TlsConnector::new`: a TLS context with the platform's default
/// settings. On failure the error is returned as text. Nothing is claimed of
/// the result: it depends on the platform.
#[verifier::external_body]
pub(crate) fn tls_context() -> Result<hyper_tls::native_tls::TlsConnector, String> {
    hyper_tls::native_tls::TlsConnector::new().map_err(|e| e.to_string())
}

/// `HttpConnector::new`: hyper's TCP connector with its default resolver.
/// Nothing is claimed of the result.
#[verifier::external_body]
pub(crate) fn tcp_connector() -> hyper::client::HttpConnector {
    hyper::client::HttpConnector::new()
}

/// `HttpConnector::enforce_http`: sets whether the connector refuses
/// addresses whose scheme is not `http`. Claimed: the connector afterwards is
/// settled by the connector before and the flag.
#[verifier::external_body]
pub(crate) fn enforce_http(connector: &mut hyper::client::HttpConnector, enforced: bool)
    ensures
        *final(connector) == enforcing_http(*old(connector), enforced),
{
    connector.enforce_http(enforced)
}

/// `HttpsConnector::from`: TLS on top of the given TCP connector, with the
/// given TLS context. Claimed: the connector is settled by the two.
#[verifier::external_body]
pub(crate) fn https_connector(
    tcp: hyper::client::HttpConnector,
    tls: hyper_tls::native_tls::TlsConnector,
) -> (https: hyper_tls::HttpsConnector<hyper::client::HttpConnector>)
    ensures
        https == https_over(tcp, tls),
{
    hyper_tls::HttpsConnector::from((tcp, tls.into()))
}

/// `Proxy::new` with `Intercept::All`: a proxy at `address` that every
/// request goes through. Claimed: the proxy is settled by the address.
#[verifier::external_body]
pub(crate) fn proxy_for_all(address: hyper::Uri) -> (proxy: hyper_proxy::Proxy)
    ensures
        proxy == proxy_for_all_at(address),
{
    hyper_proxy::Proxy::new(hyper_proxy::Intercept::All, address)
}

/// `ProxyConnector::new`: the proxy layer with no proxy attached, so that
/// every request goes straight to `inner`. On failure to set up TLS for
/// tunnels the error is returned as text. Claimed of every layer that comes
/// out: it is put on `inner` and has no proxy attached. Whether one comes out
/// depends on the platform.
#[verifier::external_body]
pub(crate) fn direct_connector(
    inner: hyper_tls::HttpsConnector<hyper::client::HttpConnector>,
) -> (layered: Result<Connector, String>)
    ensures
        layered matches Ok(connector) ==> inner_connector(connector) == inner && attached_proxies(
            connector,
        ) == Seq::<hyper_proxy::Proxy>::empty(),
{
    hyper_proxy::ProxyConnector::new(inner).map_err(|e| e.to_string())
}

/// `ProxyConnector::from_proxy`: the proxy layer with `proxy` attached. On
/// failure to set up TLS for tunnels the error is returned as text. Claimed
/// of every layer that comes out: it is put on `inner` and has `proxy`
/// attached and no other. Whether one comes out depends on the platform.
#[verifier::external_body]
pub(crate) fn proxied_connector(
    inner: hyper_tls::HttpsConnector<hyper::client::HttpConnector>,
    proxy: hyper_proxy::Proxy,
) -> (layered: Result<Connector, String>)
    ensures
        layered matches Ok(connector) ==> inner_connector(connector) == inner && attached_proxies(
            connector,
        ) == seq![proxy],
{
    hyper_proxy::ProxyConnector::from_proxy(inner, proxy).map_err(|e| e.to_string())
}

/// `hyper::Client::builder`: a client builder with hyper's defaults. Nothing
/// is claimed of the result.
#[verifier::external_body]
pub(crate) fn client_builder() -> hyper::client::Builder {
    hyper::Client::builder()
}

/// `Builder::pool_max_idle_per_host`: limits how many idle connections are
/// kept per host. Claimed: the builder afterwards is settled by the builder
/// before and the limit.
#[verifier::external_body]
pub(crate) fn pool_max_idle_per_host(builder: &mut hyper::client::Builder, max_idle: usize)
    ensures
        *final(builder) == with_pool_max_idle(*old(builder), max_idle),
{
    builder.pool_max_idle_per_host(max_idle);
}

/// `HttpClient::from_builder`: the SDK's request dispatcher over a hyper
/// client made by `builder` on `connector`. Claimed: the dispatcher is
/// settled by the two.
#[verifier::external_body]
pub(crate) fn request_dispatcher(
    builder: hyper::client::Builder,
    connector: Connector,
) -> (dispatcher: rusoto_core::HttpClient<Connector>)
    ensures
        dispatcher == dispatcher_of(builder, connector),
{
    rusoto_core::HttpClient::from_builder(builder, connector)
}

/// `S3Client::new_with`, taken with a static credentials provider: a client
/// of the storage service that sends through `dispatcher`, signs with
/// `provider` and addresses `region`. Claimed: the client is settled by the
/// three.
#[verifier::external_body]
pub(crate) fn static_client(
    dispatcher: rusoto_core::HttpClient<Connector>,
    provider: rusoto_core::credential::StaticProvider,
    region: rusoto_core::Region,
) -> (client: rusoto_s3::S3Client)
    ensures
        client == static_client_of(dispatcher, provider, region),
{
    rusoto_s3::S3Client::new_with(dispatcher, provider, region)
}

/// `S3Client::new_with`, taken with the ambient credentials provider: a
/// client of the storage service that sends through `dispatcher`, signs with
/// `provider` and addresses `region`. Claimed: the client is settled by the
/// three.
#[verifier::external_body]
pub(crate) fn ambient_client(
    dispatcher: rusoto_core::HttpClient<Connector>,
    provider: rusoto_core::credential::DefaultCredentialsProvider,
    region: rusoto_core::Region,
) -> (client: rusoto_s3::S3Client)
    ensures
        client == ambient_client_of(dispatcher, provider, region),
{
    rusoto_s3::S3Client::new_with(dispatcher, provider, region)
}

} // verus!

//! Laws of the provider: what holds of every registry, every history of
//! lifecycle events and every method name.

use vstd::prelude::*;
use crate::config::{
    lookup, plan_of, region_of, token_lifetime_of, ClientPlanModel, ConfigErrorModel,
    CredentialModel,
};
use crate::factory::{
    built_as_planned, checked_plan_of, pooling_as_planned, region_as_planned, signing_as_planned,
    signing_in_region, transport_as_planned,
};
use crate::sdk::{
    ambient_client_of, attached_proxies, dispatcher_of, enforcing_http, https_over,
    inner_connector, parsed_uri, proxy_for_all_at, static_client_of, static_provider_of,
    with_pool_max_idle, Connector,
};
use crate::text::decimal_i64;
use crate::dispatch::{
    interface_name, kind_named, name_of, operation_name, routed, DispatchErrorModel, OperationKind,
};
use crate::model::BlobstoreResultModel;
use crate::operations::{
    backend_failure, creation_result, incomplete_listing, listing_result, removal_result,
    BackendCallModel, ObjectSummaryModel, OperationErrorModel,
};
use crate::provider::{
    after_event, after_events, answered, no_actor_message, not_linked_message, resolved, started,
    LifecycleEvent,
};
use crate::text::{first_index_of, lemma_first_index_of, lemma_first_index_unique};

verus! {

/// Registry isolation. Whatever happens to the link of tenant `a` (it is
/// established, refused or removed), another tenant `b` is served after it
/// exactly as before: by the same client, or by none.
pub proof fn law_links_are_isolated<H>(
    clients: Map<Seq<char>, H>,
    a: Seq<char>,
    b: Seq<char>,
    client: H,
)
    requires
        a != b,
    ensures
        resolved(
            after_event(clients, LifecycleEvent::LinkEstablished { actor: a, client }),
            Some(b),
        ) == resolved(clients, Some(b)),
        resolved(after_event(clients, LifecycleEvent::LinkRefused { actor: a }), Some(b))
            == resolved(clients, Some(b)),
        resolved(after_event(clients, LifecycleEvent::LinkRemoved { actor: a }), Some(b))
            == resolved(clients, Some(b)),
{
}

/// Replacement. After two links of the same tenant the second client serves
/// it, and the registry is what it would be had the first link never
/// happened: the first client is reachable through this tenant no more.
pub proof fn law_relink_replaces<H>(
    clients: Map<Seq<char>, H>,
    actor: Seq<char>,
    first: H,
    second: H,
)
    ensures
        ({
            let once = after_event(
                clients,
                LifecycleEvent::LinkEstablished { actor, client: first },
            );
            let twice = after_event(once, LifecycleEvent::LinkEstablished { actor, client: second });
            &&& resolved(twice, Some(actor)) == Ok::<H, OperationErrorModel>(second)
            &&& twice == after_event(
                clients,
                LifecycleEvent::LinkEstablished { actor, client: second },
            )
        }),
{
    let once = clients.insert(actor, first);
    assert(once.insert(actor, second) =~= clients.insert(actor, second));
}

/// A refused link leaves no trace: the tenant is served as before, by its
/// earlier client if it had one.
pub proof fn law_refused_link_changes_nothing<H>(clients: Map<Seq<char>, H>, actor: Seq<char>)
    ensures
        after_event(clients, LifecycleEvent::LinkRefused { actor }) == clients,
{
}

/// Unlinking is final and idempotent. Once a tenant's link is removed no
/// client serves it, whatever was registered before; and removing the link
/// of a tenant that has none changes nothing.
pub proof fn law_unlink_is_final<H>(clients: Map<Seq<char>, H>, actor: Seq<char>)
    ensures
        resolved(after_event(clients, LifecycleEvent::LinkRemoved { actor }), Some(actor)) == Err::<
            H,
            OperationErrorModel,
        >(OperationErrorModel::UnlinkedTenant(not_linked_message(actor))),
        !clients.contains_key(actor) ==> after_event(
            clients,
            LifecycleEvent::LinkRemoved { actor },
        ) == clients,
{
    if !clients.contains_key(actor) {
        assert(clients.remove(actor) =~= clients);
    }
}

/// After shutdown no tenant is served.
pub proof fn law_shutdown_forgets_all<H>(clients: Map<Seq<char>, H>, actor: Seq<char>)
    ensures
        resolved(after_event(clients, LifecycleEvent::Shutdown), Some(actor)) is Err,
{
}

/// Whether `event` establishes a link for `actor`.
pub open spec fn establishes<H>(event: LifecycleEvent<H>, actor: Seq<char>) -> bool {
    event matches LifecycleEvent::LinkEstablished { actor: linked, .. } && linked == actor
}

/// A tenant without an established link is registered nowhere: in a
/// provider that started empty, a tenant for which no link was ever
/// established has no client, whatever else happened.
pub proof fn law_never_linked_never_registered<H>(
    events: Seq<LifecycleEvent<H>>,
    actor: Seq<char>,
)
    requires
        forall|i: int| 0 <= i < events.len() ==> !establishes(#[trigger] events[i], actor),
    ensures
        !after_events(events).contains_key(actor),
    decreases events.len(),
{
    if events.len() > 0 {
        let earlier = events.drop_last();
        assert forall|i: int| 0 <= i < earlier.len() implies !establishes(
            #[trigger] earlier[i],
            actor,
        ) by {
            assert(earlier[i] == events[i]);
        }
        law_never_linked_never_registered(earlier, actor);
        assert(!establishes(events.last(), actor));
    }
}

/// Finitely many tenants are linked at any time: a provider that started
/// empty has finitely many clients after any history, and so the count of
/// linked tenants is a number. A first link raises it by one, a link anew
/// leaves it, and the removal of a link that is there lowers it by one.
pub proof fn law_finitely_many_are_linked<H>(
    events: Seq<LifecycleEvent<H>>,
    actor: Seq<char>,
    client: H,
)
    ensures
        after_events(events).dom().finite(),
        ({
            let clients = after_events(events);
            let linked = after_event(clients, LifecycleEvent::LinkEstablished { actor, client });
            let unlinked = after_event(clients, LifecycleEvent::LinkRemoved { actor });
            &&& linked.len() == clients.len() + (if clients.contains_key(actor) {
                0int
            } else {
                1int
            })
            &&& unlinked.len() == clients.len() - (if clients.contains_key(actor) {
                1int
            } else {
                0int
            })
        }),
{
    lemma_history_is_finite(events);
}

proof fn lemma_history_is_finite<H>(events: Seq<LifecycleEvent<H>>)
    ensures
        after_events(events).dom().finite(),
    decreases events.len(),
{
    if events.len() > 0 {
        lemma_history_is_finite(events.drop_last());
    }
}

/// Unlinked rejection. A caller that no client serves (it has no identity,
/// or its identity is not registered) gets the unlinked-tenant error from
/// every operation, and no operation produces a backend call for it.
pub proof fn law_unlinked_is_rejected<H, A>(
    clients: Map<Seq<char>, H>,
    actor: Option<Seq<char>>,
    call: BackendCallModel,
    answer: A,
)
    requires
        actor matches Some(id) ==> !clients.contains_key(id),
    ensures
        resolved(clients, actor) matches Err(e) && e is UnlinkedTenant,
        started(clients, actor, call) matches Err(e) && e is UnlinkedTenant,
        answered(clients, actor, answer) matches Err(e) && e is UnlinkedTenant,
{
}

/// A linked caller is always served: every operation that needs the
/// backend starts with exactly the call it was asked for, on the caller's
/// own client, and every operation that needs none answers.
pub proof fn law_linked_is_served<H, A>(
    clients: Map<Seq<char>, H>,
    actor: Seq<char>,
    call: BackendCallModel,
    answer: A,
)
    requires
        clients.contains_key(actor),
    ensures
        started(clients, Some(actor), call) == Ok::<(H, BackendCallModel), OperationErrorModel>(
            (clients[actor], call),
        ),
        answered(clients, Some(actor), answer) == Ok::<A, OperationErrorModel>(answer),
{
}

/// Every operation has a name of its own, and is found again by it.
pub proof fn law_names_identify_operations(kind: OperationKind)
    ensures
        kind_named(name_of(kind)) == Some(kind),
{
    reveal_operation_names();
}

proof fn reveal_operation_names()
    ensures
        name_of(OperationKind::CreateContainer).len() == 16,
        name_of(OperationKind::RemoveContainer).len() == 16,
        name_of(OperationKind::ListObjects).len() == 12,
        name_of(OperationKind::RemoveObject).len() == 13,
        name_of(OperationKind::UploadChunk).len() == 12,
        name_of(OperationKind::StartUpload).len() == 12,
        name_of(OperationKind::StartDownload).len() == 14,
        name_of(OperationKind::GetObjectInfo).len() == 15,
        name_of(OperationKind::CreateContainer)[0] == 'c',
        name_of(OperationKind::RemoveContainer)[0] == 'r',
        name_of(OperationKind::ListObjects)[0] == 'l',
        name_of(OperationKind::UploadChunk)[0] == 'u',
        name_of(OperationKind::StartUpload)[0] == 's',
        forall|kind: OperationKind| first_index_of(#[trigger] name_of(kind), '.') is None,
{
    reveal_strlit("create_container");
    reveal_strlit("remove_container");
    reveal_strlit("list_objects");
    reveal_strlit("remove_object");
    reveal_strlit("upload_chunk");
    reveal_strlit("start_upload");
    reveal_strlit("start_download");
    reveal_strlit("get_object_info");
    assert forall|kind: OperationKind| first_index_of(#[trigger] name_of(kind), '.') is None by {
        lemma_first_index_of(name_of(kind), '.');
    }
}

/// Dispatch routing. An operation is reached by its bare name and by its
/// name behind the interface's namespace, and by both alike.
pub proof fn law_namespace_is_optional(kind: OperationKind)
    ensures
        routed(name_of(kind)) == Some(kind),
        routed(interface_name() + seq!['.'] + name_of(kind)) == Some(kind),
{
    reveal_operation_names();
    law_names_identify_operations(kind);
    let name = name_of(kind);
    let method = interface_name() + seq!['.'] + name;
    reveal_strlit("Blobstore");
    let dot = interface_name().len() as int;
    assert(method[dot] == '.');
    assert forall|j: int| 0 <= j < dot implies method[j] != '.' by {
        assert(method[j] == interface_name()[j]);
    }
    lemma_first_index_unique(method, '.', dot);
    assert(method.take(dot) =~= interface_name());
    assert(method.skip(dot + 1) =~= name);
}

/// A method name behind any namespace but the interface's own routes
/// nowhere, whatever follows the dot.
pub proof fn law_foreign_namespace_is_unhandled(namespace: Seq<char>, rest: Seq<char>)
    requires
        namespace != interface_name(),
        first_index_of(namespace, '.') is None,
    ensures
        routed(namespace + seq!['.'] + rest) is None,
{
    let method = namespace + seq!['.'] + rest;
    let dot = namespace.len() as int;
    lemma_first_index_of(namespace, '.');
    assert(method[dot] == '.');
    assert forall|j: int| 0 <= j < dot implies method[j] != '.' by {
        assert(method[j] == namespace[j]);
    }
    lemma_first_index_unique(method, '.', dot);
    assert(method.take(dot) =~= namespace);
}

/// A name that is no operation's routes nowhere, with the interface's
/// namespace in front or without.
pub proof fn law_unknown_name_is_unhandled(name: Seq<char>)
    requires
        kind_named(name) is None,
        first_index_of(name, '.') is None,
    ensures
        routed(name) is None,
        routed(interface_name() + seq!['.'] + name) is None,
{
    let method = interface_name() + seq!['.'] + name;
    reveal_strlit("Blobstore");
    let dot = interface_name().len() as int;
    assert(method[dot] == '.');
    assert forall|j: int| 0 <= j < dot implies method[j] != '.' by {
        assert(method[j] == interface_name()[j]);
    }
    lemma_first_index_unique(method, '.', dot);
    assert(method.take(dot) =~= interface_name());
    assert(method.skip(dot + 1) =~= name);
}

/// Soft failure of removals. Whatever the backend says when it refuses to
/// remove a container or an object, the caller gets a result, not an error:
/// one that reports failure and carries a text that is not empty and ends
/// with the backend's words.
pub proof fn law_removal_fails_softly(operation: Seq<char>, reason: Seq<char>)
    ensures
        ({
            let result = removal_result(operation, Err(reason));
            &&& !result.success
            &&& result.error matches Some(text) && text.len() > 0 && text.skip(
                text.len() - reason.len(),
            ) == reason
        }),
        removal_result(operation, Ok(())) == (BlobstoreResultModel { success: true, error: None }),
{
    reveal_strlit(": ");
    let text = backend_failure(operation, reason);
    assert(text.skip(text.len() - reason.len()) =~= reason);
}

/// Hard failure of creation and listing. A backend failure of either comes
/// back as a backend error, never as a result; and a container is echoed
/// back only when the backend succeeded.
pub proof fn law_creation_and_listing_fail_hard(container_id: Seq<char>, reason: Seq<char>)
    ensures
        creation_result(container_id, Err(reason)) matches Err(e) && e is Backend,
        listing_result(container_id, Err(reason)) matches Err(e) && e is Backend,
        creation_result(container_id, Ok(())) == Ok::<Seq<char>, OperationErrorModel>(
            container_id,
        ),
        listing_result(container_id, Ok(None)) == Ok::<
            Seq<crate::model::FileBlobModel>,
            OperationErrorModel,
        >(Seq::empty()),
        listing_result(container_id, Ok(Some(Seq::<ObjectSummaryModel>::empty()))) == Ok::<
            Seq<crate::model::FileBlobModel>,
            OperationErrorModel,
        >(Seq::empty()),
{
    assert(crate::operations::blobs_of(container_id, Seq::<ObjectSummaryModel>::empty())
        =~= Seq::<crate::model::FileBlobModel>::empty());
}

/// Configuration validation. Whatever else a configuration holds: an access
/// key without its secret is refused as such; failing that, a token lifetime
/// that spells no integer is refused as such; and a configuration with
/// neither access key nor token lifetime nor proxy is accepted, with ambient
/// credentials and idle connections kept.
pub proof fn law_configuration_is_validated(config: Map<Seq<char>, Seq<char>>)
    ensures
        config.contains_key("AWS_ACCESS_KEY"@) && !config.contains_key("AWS_SECRET_ACCESS_KEY"@)
            ==> checked_plan_of(config) == Err::<ClientPlanModel, ConfigErrorModel>(
            ConfigErrorModel::MissingSecretKey,
        ),
        (config.contains_key("AWS_ACCESS_KEY"@) ==> config.contains_key("AWS_SECRET_ACCESS_KEY"@))
            && (lookup(config, "TOKEN_VALID_FOR"@) matches Some(text) && decimal_i64(text) is None)
            ==> checked_plan_of(config) == Err::<ClientPlanModel, ConfigErrorModel>(
            ConfigErrorModel::InvalidTokenLifetime(config["TOKEN_VALID_FOR"@]),
        ),
        !config.contains_key("AWS_ACCESS_KEY"@) && !config.contains_key("TOKEN_VALID_FOR"@)
            && !config.contains_key("HTTP_PROXY"@) ==> (checked_plan_of(config) matches Ok(plan)
            && plan.credentials == CredentialModel::Ambient && plan.keep_idle_connections
            && plan.proxy is None),
        checked_plan_of(config) matches Ok(plan) ==> plan_of(config) == Ok::<ClientPlanModel, ConfigErrorModel>(
            plan,
        ) && (plan.credentials is Static <==> config.contains_key("AWS_ACCESS_KEY"@))
            && plan.keep_idle_connections == (plan.credentials is Ambient),
{
}

/// A listing is all or nothing, and sizes are never made up. Where a
/// listing succeeds, there is one blob per object, in the backend's order,
/// named by the object's key, tagged with the container asked for, and with
/// the very size the backend gave, which is not negative. A listing with an
/// object that lacks its key or its size, or has a negative size, fails.
pub proof fn law_listing_keeps_keys_and_sizes(
    container_id: Seq<char>,
    objects: Seq<ObjectSummaryModel>,
)
    ensures
        match listing_result(container_id, Ok(Some(objects))) {
            Ok(blobs) => {
                &&& blobs.len() == objects.len()
                &&& forall|i: int|
                    0 <= i < objects.len() ==> {
                        &&& objects[i].key == Some((#[trigger] blobs[i]).id)
                        &&& objects[i].size matches Some(size) && size >= 0 && size
                            == blobs[i].byte_size
                        &&& blobs[i].container == container_id
                    }
            },
            Err(e) => {
                &&& e is Backend
                &&& exists|i: int|
                    0 <= i < objects.len() && ((#[trigger] objects[i]).key is None
                        || objects[i].size is None || objects[i].size->0 < 0)
            },
        },
{
}

/// Whether `handle` is bound to `config` by way of `builder`, `connector`
/// and `region`: the region follows `REGION` and `ENDPOINT`; the connector
/// is TLS over TCP with the proxy of `HTTP_PROXY` attached, and with none
/// where that key is absent; with `AWS_ACCESS_KEY` set the builder keeps no
/// idle connection and the handle signs with the static provider of key,
/// secret, token and lifetime; without it the handle signs with the ambient
/// provider.
pub open spec fn bound_to(
    config: Map<Seq<char>, Seq<char>>,
    builder: hyper::client::Builder,
    connector: Connector,
    region: rusoto_core::Region,
    handle: rusoto_s3::S3Client,
) -> bool {
    &&& region_as_planned(region_of(config), region)
    &&& exists|tcp: hyper::client::HttpConnector, tls: hyper_tls::native_tls::TlsConnector|
        inner_connector(connector) == #[trigger] https_over(enforcing_http(tcp, false), tls)
    &&& attached_proxies(connector) == match lookup(config, "HTTP_PROXY"@) {
        Some(text) => seq![proxy_for_all_at(parsed_uri(text).unwrap())],
        None => Seq::empty(),
    }
    &&& if config.contains_key("AWS_ACCESS_KEY"@) {
        &&& exists|fresh: hyper::client::Builder|
            builder == #[trigger] with_pool_max_idle(fresh, 0)
        &&& handle == static_client_of(
            dispatcher_of(builder, connector),
            static_provider_of(
                config["AWS_ACCESS_KEY"@],
                config["AWS_SECRET_ACCESS_KEY"@],
                lookup(config, "AWS_TOKEN"@),
                token_lifetime_of(config)->Ok_0,
            ),
            region,
        )
    } else {
        exists|provider: rusoto_core::credential::DefaultCredentialsProvider|
            handle == #[trigger] ambient_client_of(
                dispatcher_of(builder, connector),
                provider,
                region,
            )
    }
}

/// The handle follows the configuration. A handle built as the plan of an
/// accepted configuration asks is bound to that configuration, key by key:
/// to its region and endpoint, its proxy or none, its static credentials or
/// the ambient ones, and with static credentials to a pool without idle
/// connections. Two handles built from one configuration are bound alike.
pub proof fn law_handle_follows_configuration(
    config: Map<Seq<char>, Seq<char>>,
    handle: rusoto_s3::S3Client,
)
    requires
        checked_plan_of(config) matches Ok(plan) && built_as_planned(plan, handle),
    ensures
        exists|
            builder: hyper::client::Builder,
            connector: Connector,
            region: rusoto_core::Region,
        | #[trigger]
            bound_to(config, builder, connector, region, handle),
{
    let plan = checked_plan_of(config)->Ok_0;
    let (builder, connector): (hyper::client::Builder, Connector) = choose|
        builder: hyper::client::Builder,
        connector: Connector,
    |
        pooling_as_planned(plan, builder) && transport_as_planned(plan, connector)
            && signing_as_planned(plan, #[trigger] dispatcher_of(builder, connector), handle);
    let dispatcher = dispatcher_of(builder, connector);
    let region = choose|region: rusoto_core::Region|
        region_as_planned(plan.region, region) && #[trigger] signing_in_region(
            plan.credentials,
            dispatcher,
            region,
            handle,
        );
    assert(bound_to(config, builder, connector, region, handle));
}

/// Every failure carries a text: the message of a configuration error, of a
/// dispatch error, of the error of a caller that no client serves, and of
/// every backend failure, hard or soft, is never empty.
pub proof fn law_failures_carry_text<H>(
    config_error: ConfigErrorModel,
    dispatch_error: DispatchErrorModel,
    clients: Map<Seq<char>, H>,
    actor: Option<Seq<char>>,
    container_id: Seq<char>,
    backend_answer: Result<Option<Seq<ObjectSummaryModel>>, Seq<char>>,
    reason: Seq<char>,
)
    ensures
        config_error.message().len() > 0,
        dispatch_error.message().len() > 0,
        resolved(clients, actor) matches Err(e) ==> e.message().len() > 0,
        creation_result(container_id, Err(reason)) matches Err(e) && e.message().len() > 0,
        listing_result(container_id, backend_answer) matches Err(e) ==> e.message().len() > 0,
{
    reveal_strlit("AWS_ACCESS_KEY is set but AWS_SECRET_ACCESS_KEY is missing");
    reveal_strlit("TOKEN_VALID_FOR is not an integer: ");
    reveal_strlit("HTTP_PROXY is not a usable address: ");
    reveal_strlit("backend client could not be built: ");
    reveal_strlit("method not handled: ");
    reveal_strlit("no actor in request");
    reveal_strlit("actor not linked:");
    reveal_strlit(": ");
    reveal_strlit("list_objects: the backend listed an object without its key or a valid size");
    assert(no_actor_message().len() > 0);
    assert(incomplete_listing().len() > 0);
}

} // verus!

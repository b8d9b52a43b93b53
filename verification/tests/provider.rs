use blobstore_s3_provider::config::{BackendConfig, ConfigError, CredentialSource, RegionChoice};
use blobstore_s3_provider::model::{
    BlobstoreResult, Container, Context, FileBlob, FileChunk, GetObjectInfoRequest,
    RemoveObjectRequest, StartDownloadRequest,
};
use blobstore_s3_provider::operations::{
    container_created, container_removed, objects_listed, BackendCall, BackendTask,
    OperationError,
};
use blobstore_s3_provider::provider::{BlobstoreS3ProviderProvider, LinkDefinition, Provider};

/// A stand-in for a backend client: it counts what it is asked to do.
#[derive(Debug, PartialEq, Eq)]
struct FakeClient {
    name: &'static str,
}

/// A stand-in for the backend: records every call it is handed.
struct FakeBackend {
    calls: Vec<(&'static str, BackendCall)>,
}

impl FakeBackend {
    fn new() -> FakeBackend {
        FakeBackend { calls: Vec::new() }
    }

    fn perform(&mut self, task: BackendTask<'_, FakeClient>) {
        self.calls.push((task.client.name, task.call));
    }
}

fn caller(actor: &str) -> Context {
    Context { actor: Some(actor.to_string()) }
}

fn anonymous() -> Context {
    Context { actor: None }
}

fn link_of(actor: &str, pairs: &[(&str, &str)]) -> LinkDefinition {
    let mut values = BackendConfig::new();
    for (k, v) in pairs.iter() {
        values.set(k, v);
    }
    LinkDefinition { actor_id: actor.to_string(), values }
}

fn chunk() -> FileChunk {
    FileChunk {
        sequence_no: 0,
        container: Container { id: "c".to_string() },
        id: "blob".to_string(),
        total_bytes: 3,
        chunk_size: 3,
        context: None,
        chunk_bytes: vec![1, 2, 3],
    }
}

fn not_linked(actor: &str) -> OperationError {
    OperationError::UnlinkedTenant(format!("actor not linked:{}", actor))
}

fn no_actor() -> OperationError {
    OperationError::UnlinkedTenant("no actor in request".to_string())
}

/// Runs every operation for `ctx` and returns the errors they gave, handing
/// whatever call comes out to `backend`.
fn errors_of_all_operations(
    provider: &Provider<FakeClient>,
    ctx: &Context,
    backend: &mut FakeBackend,
) -> Vec<Option<OperationError>> {
    let mut errors = Vec::new();
    let remove = RemoveObjectRequest { id: "o".to_string(), container_id: "c".to_string() };
    for started in [
        provider.create_container(ctx, "c"),
        provider.remove_container(ctx, "c"),
        provider.list_objects(ctx, "c"),
        provider.remove_object(ctx, &remove),
    ] {
        match started {
            Ok(task) => {
                backend.perform(task);
                errors.push(None);
            }
            Err(e) => errors.push(Some(e)),
        }
    }
    let download = StartDownloadRequest {
        blob_id: "o".to_string(),
        container_id: "c".to_string(),
        chunk_size: 16,
        context: None,
    };
    let info = GetObjectInfoRequest { blob_id: "o".to_string(), container_id: "c".to_string() };
    errors.push(provider.upload_chunk(ctx, &chunk()).err());
    errors.push(provider.start_upload(ctx, &chunk()).err());
    errors.push(provider.start_download(ctx, &download).err());
    errors.push(provider.get_object_info(ctx, &info).err());
    errors
}

#[test]
fn new_provider_serves_nobody() {
    let provider: Provider<FakeClient> = Provider::new();
    assert_eq!(provider.linked_count(), 0);
    assert!(!provider.is_linked("actor-1"));
    assert_eq!(provider.client_for(&caller("actor-1")), Err(not_linked("actor-1")));
    assert_eq!(provider.client_for(&anonymous()), Err(no_actor()));
}

#[test]
fn link_registers_the_built_client() {
    let mut provider: Provider<FakeClient> = Provider::new();
    assert_eq!(provider.link("a", Ok(FakeClient { name: "one" })), Ok(true));
    assert!(provider.is_linked("a"));
    assert_eq!(provider.client_for(&caller("a")), Ok(&FakeClient { name: "one" }));
}

#[test]
fn refused_link_leaves_the_tenant_unlinked() {
    let mut provider: Provider<FakeClient> = Provider::new();
    assert_eq!(
        provider.link("a", Err(ConfigError::MissingSecretKey)),
        Err(ConfigError::MissingSecretKey)
    );
    assert!(!provider.is_linked("a"));
    assert_eq!(provider.linked_count(), 0);
}

#[test]
fn refused_relink_keeps_the_earlier_client() {
    let mut provider: Provider<FakeClient> = Provider::new();
    provider.link("a", Ok(FakeClient { name: "one" })).unwrap();
    assert!(provider.link("a", Err(ConfigError::InvalidProxy("".to_string()))).is_err());
    assert_eq!(provider.client_for(&caller("a")), Ok(&FakeClient { name: "one" }));
}

#[test]
fn linking_one_tenant_does_not_affect_another() {
    let mut provider: Provider<FakeClient> = Provider::new();
    provider.link("b", Ok(FakeClient { name: "b-client" })).unwrap();
    provider.link("a", Ok(FakeClient { name: "a-client" })).unwrap();
    assert_eq!(provider.client_for(&caller("b")), Ok(&FakeClient { name: "b-client" }));
    provider.link("a", Ok(FakeClient { name: "a-again" })).unwrap();
    assert_eq!(provider.client_for(&caller("b")), Ok(&FakeClient { name: "b-client" }));
    provider.delete_link("a");
    assert_eq!(provider.client_for(&caller("b")), Ok(&FakeClient { name: "b-client" }));
    assert_eq!(provider.client_for(&caller("a")), Err(not_linked("a")));
    assert_eq!(provider.linked_count(), 1);
}

#[test]
fn relink_replaces_the_client_for_all_later_calls() {
    let mut provider: Provider<FakeClient> = Provider::new();
    let mut backend = FakeBackend::new();
    provider.link("a", Ok(FakeClient { name: "first" })).unwrap();
    provider.link("a", Ok(FakeClient { name: "second" })).unwrap();
    assert_eq!(provider.linked_count(), 1);
    let ctx = caller("a");
    backend.perform(provider.create_container(&ctx, "c").unwrap());
    backend.perform(provider.list_objects(&ctx, "c").unwrap());
    backend.perform(provider.remove_container(&ctx, "c").unwrap());
    assert_eq!(backend.calls.len(), 3);
    for (client, _) in backend.calls.iter() {
        assert_eq!(*client, "second");
    }
}

#[test]
fn unlinked_tenant_is_rejected_without_any_backend_call() {
    let mut provider: Provider<FakeClient> = Provider::new();
    provider.link("someone-else", Ok(FakeClient { name: "x" })).unwrap();
    let mut backend = FakeBackend::new();
    let errors = errors_of_all_operations(&provider, &caller("stranger"), &mut backend);
    assert_eq!(errors.len(), 8);
    for e in errors {
        assert_eq!(e, Some(not_linked("stranger")));
    }
    assert_eq!(backend.calls.len(), 0);
}

#[test]
fn caller_without_identity_is_rejected_without_any_backend_call() {
    let mut provider: Provider<FakeClient> = Provider::new();
    provider.link("", Ok(FakeClient { name: "x" })).unwrap();
    let mut backend = FakeBackend::new();
    let errors = errors_of_all_operations(&provider, &anonymous(), &mut backend);
    assert_eq!(errors.len(), 8);
    for e in errors {
        assert_eq!(e, Some(no_actor()));
    }
    assert_eq!(backend.calls.len(), 0);
}

#[test]
fn linked_tenant_gets_one_backend_call_per_backend_operation() {
    let mut provider: Provider<FakeClient> = Provider::new();
    provider.link("a", Ok(FakeClient { name: "a-client" })).unwrap();
    let mut backend = FakeBackend::new();
    let errors = errors_of_all_operations(&provider, &caller("a"), &mut backend);
    assert_eq!(errors, vec![None, None, None, None, None, None, None, None]);
    assert_eq!(
        backend.calls,
        vec![
            ("a-client", BackendCall::CreateBucket { bucket: "c".to_string() }),
            ("a-client", BackendCall::DeleteBucket { bucket: "c".to_string() }),
            ("a-client", BackendCall::ListObjects { bucket: "c".to_string() }),
            ("a-client", BackendCall::DeleteObject { bucket: "c".to_string(), key: "o".to_string() }),
        ]
    );
}

#[test]
fn chunked_transfer_operations_answer_trivially() {
    let mut provider: Provider<FakeClient> = Provider::new();
    provider.link("a", Ok(FakeClient { name: "a-client" })).unwrap();
    let ctx = caller("a");
    let ok = BlobstoreResult { success: true, error: None };
    let download = StartDownloadRequest {
        blob_id: "o".to_string(),
        container_id: "c".to_string(),
        chunk_size: 16,
        context: Some("ctx".to_string()),
    };
    let info = GetObjectInfoRequest { blob_id: "o".to_string(), container_id: "c".to_string() };
    assert_eq!(provider.upload_chunk(&ctx, &chunk()), Ok(ok.clone()));
    assert_eq!(provider.start_upload(&ctx, &chunk()), Ok(ok.clone()));
    assert_eq!(provider.start_download(&ctx, &download), Ok(ok));
    assert_eq!(
        provider.get_object_info(&ctx, &info),
        Ok(FileBlob { id: String::new(), container: Container { id: String::new() }, byte_size: 0 })
    );
}

#[test]
fn delete_link_is_idempotent() {
    let mut provider: Provider<FakeClient> = Provider::new();
    provider.delete_link("never-linked");
    assert_eq!(provider.linked_count(), 0);
    provider.link("a", Ok(FakeClient { name: "x" })).unwrap();
    provider.delete_link("a");
    provider.delete_link("a");
    assert_eq!(provider.linked_count(), 0);
    assert!(!provider.is_linked("a"));
}

#[test]
fn shutdown_clears_all_links() {
    let mut provider: Provider<FakeClient> = Provider::new();
    provider.link("a", Ok(FakeClient { name: "x" })).unwrap();
    provider.link("b", Ok(FakeClient { name: "y" })).unwrap();
    provider.shutdown();
    assert_eq!(provider.linked_count(), 0);
    assert_eq!(provider.client_for(&caller("a")), Err(not_linked("a")));
    assert_eq!(provider.client_for(&caller("b")), Err(not_linked("b")));
}

#[test]
fn put_link_with_bad_configuration_leaves_the_tenant_unlinked() {
    let mut provider = BlobstoreS3ProviderProvider::new();
    assert_eq!(
        provider.put_link(&link_of("actor-1", &[("AWS_ACCESS_KEY", "x")])),
        Err(ConfigError::MissingSecretKey)
    );
    assert_eq!(
        provider.put_link(&link_of("actor-1", &[("TOKEN_VALID_FOR", "abc")])),
        Err(ConfigError::InvalidTokenLifetime("abc".to_string()))
    );
    assert_eq!(
        provider.put_link(&link_of("actor-1", &[("HTTP_PROXY", "")])),
        Err(ConfigError::InvalidProxy("".to_string()))
    );
    assert!(!provider.is_linked("actor-1"));
    assert_eq!(provider.linked_count(), 0);
}

#[test]
fn put_link_with_empty_configuration_succeeds() {
    let mut provider = BlobstoreS3ProviderProvider::new();
    assert_eq!(provider.put_link(&link_of("actor-1", &[])), Ok(true));
    assert!(provider.is_linked("actor-1"));
}

#[test]
fn put_link_twice_serves_the_tenant_with_the_second_configuration() {
    let mut provider = BlobstoreS3ProviderProvider::new();
    provider.put_link(&link_of("bystander", &[("REGION", "eu-west-1")])).unwrap();
    provider.put_link(&link_of("a", &[("REGION", "us-west-2")])).unwrap();
    provider
        .put_link(&link_of(
            "a",
            &[("REGION", "local"), ("AWS_ACCESS_KEY", "k"), ("AWS_SECRET_ACCESS_KEY", "s")],
        ))
        .unwrap();
    assert_eq!(provider.linked_count(), 2);
    let plan = provider.client_for(&caller("a")).ok().unwrap().plan();
    assert_eq!(
        plan.region,
        RegionChoice::Custom {
            name: "local".to_string(),
            endpoint: "s3.us-east-1.amazonaws.com".to_string(),
        }
    );
    assert_eq!(
        plan.credentials,
        CredentialSource::Static {
            access_key: "k".to_string(),
            secret_key: "s".to_string(),
            token: None,
            valid_for: None,
        }
    );
    assert!(!plan.keep_idle_connections);
    let task = provider.list_objects(&caller("a"), "c").ok().unwrap();
    assert_eq!(task.client.plan(), plan);
    let bystander = provider.client_for(&caller("bystander")).ok().unwrap().plan();
    assert_eq!(
        bystander.region,
        RegionChoice::Custom {
            name: "eu-west-1".to_string(),
            endpoint: "s3.us-east-1.amazonaws.com".to_string(),
        }
    );
}

#[test]
fn failed_put_link_keeps_the_earlier_client_and_other_tenants() {
    let mut provider = BlobstoreS3ProviderProvider::new();
    provider.put_link(&link_of("a", &[])).unwrap();
    provider.put_link(&link_of("b", &[("REGION", "eu-west-1")])).unwrap();
    assert!(provider.put_link(&link_of("a", &[("AWS_ACCESS_KEY", "x")])).is_err());
    assert!(provider.is_linked("a"));
    assert!(provider.is_linked("b"));
    assert_eq!(provider.linked_count(), 2);
    let plan = provider.client_for(&caller("a")).ok().unwrap().plan();
    assert_eq!(plan.region, RegionChoice::Standard);
    assert_eq!(plan.credentials, CredentialSource::Ambient);
}

#[test]
fn end_to_end_link_create_list_unlink() {
    let mut provider = BlobstoreS3ProviderProvider::new();
    assert_eq!(provider.put_link(&link_of("actor-1", &[("REGION", "us-west-2")])), Ok(true));
    let ctx = caller("actor-1");

    let task = provider.create_container(&ctx, "bucket-x").ok().unwrap();
    assert_eq!(task.call, BackendCall::CreateBucket { bucket: "bucket-x".to_string() });
    assert_eq!(
        container_created("bucket-x", Ok(())),
        Ok(Container { id: "bucket-x".to_string() })
    );

    let task = provider.list_objects(&ctx, "bucket-x").ok().unwrap();
    assert_eq!(task.call, BackendCall::ListObjects { bucket: "bucket-x".to_string() });
    assert_eq!(objects_listed("bucket-x", Ok(None)), Ok(vec![]));

    provider.delete_link("actor-1");
    assert_eq!(provider.create_container(&ctx, "bucket-y").err(), Some(not_linked("actor-1")));
}

#[test]
fn remove_container_round_trip_with_a_missing_bucket() {
    let mut provider: Provider<FakeClient> = Provider::new();
    provider.link("a", Ok(FakeClient { name: "a-client" })).unwrap();
    let task = provider.remove_container(&caller("a"), "no-such-bucket").unwrap();
    assert_eq!(task.client, &FakeClient { name: "a-client" });
    assert_eq!(task.call, BackendCall::DeleteBucket { bucket: "no-such-bucket".to_string() });
    let result = container_removed(Err("NoSuchBucket".to_string()));
    assert_eq!(
        result,
        BlobstoreResult { success: false, error: Some("remove_container: NoSuchBucket".to_string()) }
    );
}

//! The provider: the registry of tenant clients, the lifecycle events that
//! fill and empty it, and the first half of every operation, which finds the
//! caller's client and says what to ask the backend for.

use vstd::prelude::*;
use vstd::string::*;
use crate::config::{BackendConfig, ClientPlanModel, ConfigError, ConfigErrorModel};
use crate::factory::{
    built_as_planned, checked_plan_of, client_for_config, setup_fault, BackendClient,
};
use crate::model::{
    build_empty_blobstore_result, build_empty_fileblob, success_result, BlobstoreResult, Context,
    FileBlob, FileBlobModel, FileChunk, GetObjectInfoRequest, RemoveObjectRequest,
    StartDownloadRequest,
};
use crate::operations::{BackendCall, BackendCallModel, BackendTask, OperationError, OperationErrorModel};
use crate::registry::Registry;

verus! {

/// A link between a tenant and this provider: who the tenant is, and the
/// configuration its client is built from.
pub struct LinkDefinition {
    pub actor_id: String,
    pub values: BackendConfig,
}

/// The text shown when a call carries no tenant identity.
pub open spec fn no_actor_message() -> Seq<char> {
    "no actor in request"@
}

/// The text shown when no client is registered for the tenant `actor`.
pub open spec fn not_linked_message(actor: Seq<char>) -> Seq<char> {
    "actor not linked:"@ + actor
}

/// The client that serves a caller: the one registered under the caller's
/// identity. A caller without identity, or with an identity that nothing is
/// registered under, is served by none.
pub open spec fn resolved<H>(clients: Map<Seq<char>, H>, actor: Option<Seq<char>>) -> Result<
    H,
    OperationErrorModel,
> {
    match actor {
        None => Err(OperationErrorModel::UnlinkedTenant(no_actor_message())),
        Some(id) => if clients.contains_key(id) {
            Ok(clients[id])
        } else {
            Err(OperationErrorModel::UnlinkedTenant(not_linked_message(id)))
        },
    }
}

/// What can happen to the set of linked tenants.
pub enum LifecycleEvent<H> {
    /// A link was established and the tenant's client was built.
    LinkEstablished { actor: Seq<char>, client: H },
    /// A link was asked for and refused: no client could be built.
    LinkRefused { actor: Seq<char> },
    /// A link was removed.
    LinkRemoved { actor: Seq<char> },
    /// The provider was shut down.
    Shutdown,
}

/// The registered clients after `event`, given those before it.
pub open spec fn after_event<H>(clients: Map<Seq<char>, H>, event: LifecycleEvent<H>) -> Map<
    Seq<char>,
    H,
> {
    match event {
        LifecycleEvent::LinkEstablished { actor, client } => clients.insert(actor, client),
        LifecycleEvent::LinkRefused { actor } => clients,
        LifecycleEvent::LinkRemoved { actor } => clients.remove(actor),
        LifecycleEvent::Shutdown => Map::empty(),
    }
}

/// The registered clients of a provider that started empty and then saw
/// `events`, oldest first.
pub open spec fn after_events<H>(events: Seq<LifecycleEvent<H>>) -> Map<Seq<char>, H>
    decreases events.len(),
{
    if events.len() == 0 {
        Map::empty()
    } else {
        after_event(after_events(events.drop_last()), events.last())
    }
}

/// The event that the end of a link attempt amounts to.
pub open spec fn link_event<H>(actor: Seq<char>, built: Result<H, ConfigError>) -> LifecycleEvent<
    H,
> {
    match built {
        Ok(client) => LifecycleEvent::LinkEstablished { actor, client },
        Err(_) => LifecycleEvent::LinkRefused { actor },
    }
}

/// How an operation that needs the backend starts: with `call`, given to the
/// caller's client; or, for a caller that no client serves, with the error
/// that says so and with no call at all.
pub open spec fn started<H>(
    clients: Map<Seq<char>, H>,
    actor: Option<Seq<char>>,
    call: BackendCallModel,
) -> Result<(H, BackendCallModel), OperationErrorModel> {
    match resolved(clients, actor) {
        Ok(client) => Ok((client, call)),
        Err(e) => Err(e),
    }
}

/// How an operation that needs no backend ends: with `answer`, or, for a
/// caller that no client serves, with the error that says so.
pub open spec fn answered<H, A>(
    clients: Map<Seq<char>, H>,
    actor: Option<Seq<char>>,
    answer: A,
) -> Result<A, OperationErrorModel> {
    match resolved(clients, actor) {
        Ok(_) => Ok(answer),
        Err(e) => Err(e),
    }
}

/// Views a task by its client and the view of its call.
pub open spec fn task_view<H>(result: Result<BackendTask<'_, H>, OperationError>) -> Result<
    (H, BackendCallModel),
    OperationErrorModel,
> {
    match result {
        Ok(task) => Ok((*task.client, task.call@)),
        Err(e) => Err(e@),
    }
}

/// Views a result record or the error in its place.
pub open spec fn outcome_view(result: Result<BlobstoreResult, OperationError>) -> Result<
    crate::model::BlobstoreResultModel,
    OperationErrorModel,
> {
    match result {
        Ok(r) => Ok(r@),
        Err(e) => Err(e@),
    }
}

/// Views a blob or the error in its place.
pub open spec fn blob_view(result: Result<FileBlob, OperationError>) -> Result<
    FileBlobModel,
    OperationErrorModel,
> {
    match result {
        Ok(blob) => Ok(blob@),
        Err(e) => Err(e@),
    }
}

/// The provider's state: one client per linked tenant.
#[verifier::reject_recursive_types(H)]
pub struct Provider<H> {
    clients: Registry<H>,
}

/// The provider as deployed, with clients of the storage service.
pub type BlobstoreS3ProviderProvider = Provider<BackendClient>;

impl<H> View for Provider<H> {
    type V = Map<Seq<char>, H>;

    closed spec fn view(&self) -> Map<Seq<char>, H> {
        self.clients@
    }
}

impl<H> Default for Provider<H> {
    /// The provider with no tenant linked.
    fn default() -> (provider: Provider<H>)
        ensures
            provider@ == after_events(Seq::<LifecycleEvent<H>>::empty()),
            provider@.dom().finite(),
    {
        Provider::new()
    }
}

impl<H> Provider<H> {
    /// The provider with no tenant linked.
    pub fn new() -> (provider: Provider<H>)
        ensures
            provider@ == after_events(Seq::<LifecycleEvent<H>>::empty()),
            provider@.dom().finite(),
    {
        Provider { clients: Registry::new() }
    }

    /// Ends an attempt to link `actor_id`, given what building its client
    /// came to. A built client is registered, in place of any client the
    /// tenant had. A failure is passed on, and the registry stays as it was.
    pub fn link(&mut self, actor_id: &str, built: Result<H, ConfigError>) -> (result: Result<
        bool,
        ConfigError,
    >)
        ensures
            final(self)@ == after_event(old(self)@, link_event(actor_id@, built)),
            old(self)@.dom().finite() ==> final(self)@.dom().finite(),
            match built {
                Ok(_) => result == Ok::<bool, ConfigError>(true),
                Err(e) => result == Err::<bool, ConfigError>(e),
            },
    {
        match built {
            Ok(client) => {
                self.clients.put(actor_id, client);
                Ok(true)
            },
            Err(e) => Err(e),
        }
    }

    /// Handles the end of a link: the tenant's client is dropped. Unlinking
    /// a tenant that is not linked changes nothing.
    pub fn delete_link(&mut self, actor_id: &str)
        ensures
            final(self)@ == after_event(
                old(self)@,
                LifecycleEvent::LinkRemoved { actor: actor_id@ },
            ),
            old(self)@.dom().finite() ==> final(self)@.dom().finite(),
    {
        self.clients.remove(actor_id);
    }

    /// Handles shutdown: every client is dropped. Nothing is persisted.
    pub fn shutdown(&mut self)
        ensures
            final(self)@ == after_event(old(self)@, LifecycleEvent::Shutdown),
            final(self)@.dom().finite(),
    {
        self.clients.clear();
    }

    /// Whether a client is registered for `actor_id`.
    pub fn is_linked(&self, actor_id: &str) -> (linked: bool)
        ensures
            linked == self@.contains_key(actor_id@),
    {
        self.clients.contains(actor_id)
    }

    /// The number of linked tenants.
    pub fn linked_count(&self) -> (count: usize)
        ensures
            count == self@.len(),
    {
        self.clients.len()
    }

    /// Finds the client that serves the caller.
    pub fn client_for(&self, ctx: &Context) -> (result: Result<&H, OperationError>)
        ensures
            match result {
                Ok(client) => resolved(self@, ctx@) == Ok::<H, OperationErrorModel>(*client),
                Err(e) => resolved(self@, ctx@) == Err::<H, OperationErrorModel>(e@),
            },
    {
        match &ctx.actor {
            None => Err(OperationError::UnlinkedTenant(String::from_str("no actor in request"))),
            Some(actor_id) => match self.clients.get(actor_id.as_str()) {
                Some(client) => Ok(client),
                None => Err(
                    OperationError::UnlinkedTenant(
                        String::from_str("actor not linked:").concat(actor_id.as_str()),
                    ),
                ),
            },
        }
    }

    /// Starts an operation that needs the backend.
    fn start(&self, ctx: &Context, call: BackendCall) -> (result: Result<
        BackendTask<'_, H>,
        OperationError,
    >)
        ensures
            task_view(result) == started(self@, ctx@, call@),
    {
        match self.client_for(ctx) {
            Ok(client) => Ok(BackendTask { client, call }),
            Err(e) => Err(e),
        }
    }

    /// Starts the creation of the container named `arg`: the caller's client
    /// is to create the bucket of that name.
    pub fn create_container(&self, ctx: &Context, arg: &str) -> (result: Result<
        BackendTask<'_, H>,
        OperationError,
    >)
        ensures
            task_view(result) == started(
                self@,
                ctx@,
                BackendCallModel::CreateBucket { bucket: arg@ },
            ),
    {
        self.start(ctx, BackendCall::CreateBucket { bucket: String::from_str(arg) })
    }

    /// Starts the removal of the container named `arg`: the caller's client
    /// is to delete the bucket of that name.
    pub fn remove_container(&self, ctx: &Context, arg: &str) -> (result: Result<
        BackendTask<'_, H>,
        OperationError,
    >)
        ensures
            task_view(result) == started(
                self@,
                ctx@,
                BackendCallModel::DeleteBucket { bucket: arg@ },
            ),
    {
        self.start(ctx, BackendCall::DeleteBucket { bucket: String::from_str(arg) })
    }

    /// Starts the removal of an object: the caller's client is to delete the
    /// named key from the named bucket.
    pub fn remove_object(&self, ctx: &Context, arg: &RemoveObjectRequest) -> (result: Result<
        BackendTask<'_, H>,
        OperationError,
    >)
        ensures
            task_view(result) == started(
                self@,
                ctx@,
                BackendCallModel::DeleteObject { bucket: arg.container_id@, key: arg.id@ },
            ),
    {
        self.start(
            ctx,
            BackendCall::DeleteObject { bucket: arg.container_id.clone(), key: arg.id.clone() },
        )
    }

    /// Starts the listing of the container named `arg`: the caller's client
    /// is to list the objects of the bucket of that name.
    pub fn list_objects(&self, ctx: &Context, arg: &str) -> (result: Result<
        BackendTask<'_, H>,
        OperationError,
    >)
        ensures
            task_view(result) == started(
                self@,
                ctx@,
                BackendCallModel::ListObjects { bucket: arg@ },
            ),
    {
        self.start(ctx, BackendCall::ListObjects { bucket: String::from_str(arg) })
    }

    /// Accepts a chunk of an upload. Chunked transfer is not carried out:
    /// a caller with a client is told that all went well.
    pub fn upload_chunk(&self, ctx: &Context, _arg: &FileChunk) -> (result: Result<
        BlobstoreResult,
        OperationError,
    >)
        ensures
            outcome_view(result) == answered(self@, ctx@, success_result()),
    {
        match self.client_for(ctx) {
            Ok(_) => Ok(build_empty_blobstore_result()),
            Err(e) => Err(e),
        }
    }

    /// Accepts a request to download in chunks. Chunked transfer is not
    /// carried out: a caller with a client is told that all went well.
    pub fn start_download(&self, ctx: &Context, _arg: &StartDownloadRequest) -> (result: Result<
        BlobstoreResult,
        OperationError,
    >)
        ensures
            outcome_view(result) == answered(self@, ctx@, success_result()),
    {
        match self.client_for(ctx) {
            Ok(_) => Ok(build_empty_blobstore_result()),
            Err(e) => Err(e),
        }
    }

    /// Accepts the first chunk of an upload. Chunked transfer is not carried
    /// out: a caller with a client is told that all went well.
    pub fn start_upload(&self, ctx: &Context, _arg: &FileChunk) -> (result: Result<
        BlobstoreResult,
        OperationError,
    >)
        ensures
            outcome_view(result) == answered(self@, ctx@, success_result()),
    {
        match self.client_for(ctx) {
            Ok(_) => Ok(build_empty_blobstore_result()),
            Err(e) => Err(e),
        }
    }

    /// Describes a blob. Descriptions are not looked up: a caller with a
    /// client gets the blob that describes nothing.
    pub fn get_object_info(&self, ctx: &Context, _arg: &GetObjectInfoRequest) -> (result: Result<
        FileBlob,
        OperationError,
    >)
        ensures
            blob_view(result) == answered(
                self@,
                ctx@,
                FileBlobModel { id: Seq::empty(), container: Seq::empty(), byte_size: 0 },
            ),
    {
        match self.client_for(ctx) {
            Ok(_) => Ok(build_empty_fileblob()),
            Err(e) => Err(e),
        }
    }
}

impl Provider<BackendClient> {
    /// Handles a new link: builds the tenant's client from the link's
    /// configuration and registers it, in place of any client the tenant had.
    ///
    /// A configuration that `checked_plan_of` refuses is refused with that
    /// very error, and so is one for which the platform refuses to build a
    /// part of the client, with a setup error; either way the registry stays
    /// as it was. On success the registry differs from the old one in the
    /// tenant's entry alone, and the client registered there is built as the
    /// plan of this configuration asks.
    pub fn put_link(&mut self, ld: &LinkDefinition) -> (result: Result<bool, ConfigError>)
        ensures
            old(self)@.dom().finite() ==> final(self)@.dom().finite(),
            match result {
                Ok(linked) => {
                    &&& linked
                    &&& final(self)@ == after_event(
                        old(self)@,
                        LifecycleEvent::LinkEstablished {
                            actor: ld.actor_id@,
                            client: final(self)@[ld.actor_id@],
                        },
                    )
                    &&& checked_plan_of(ld.values@) == Ok::<ClientPlanModel, ConfigErrorModel>(
                        final(self)@[ld.actor_id@]@.plan,
                    )
                    &&& built_as_planned(
                        final(self)@[ld.actor_id@]@.plan,
                        final(self)@[ld.actor_id@]@.handle,
                    )
                },
                Err(e) => {
                    &&& final(self)@ == after_event(
                        old(self)@,
                        LifecycleEvent::LinkRefused { actor: ld.actor_id@ },
                    )
                    &&& match checked_plan_of(ld.values@) {
                        Err(fault) => e@ == fault,
                        Ok(plan) => e@ is ClientSetup && setup_fault(plan, e@),
                    }
                },
            },
    {
        let built = client_for_config(&ld.values);
        self.link(ld.actor_id.as_str(), built)
    }
}

} // verus!

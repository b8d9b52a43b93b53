//! The blob store operations, split around the backend call: what to ask the
//! backend for, and what its answer means to the caller.
//!
//! Two shapes of failure are kept apart on purpose. Creating a container and
//! listing objects fail hard: the caller gets an error. Removing a container
//! or an object fails softly: the caller gets a result that says so, and can
//! carry on.

use vstd::prelude::*;
use vstd::string::*;
use crate::model::{
    failure_result, success_result, BlobstoreResult, BlobstoreResultModel, Container, FileBlob,
    FileBlobModel,
};

verus! {

/// Why an operation did not produce its result.
#[derive(Clone, Debug, PartialEq, Eq)]
pub enum OperationError {
    /// The caller has no identity, or no client is registered for it. The
    /// text says which.
    UnlinkedTenant(String),
    /// The backend refused or failed the request. The text names the
    /// operation and carries the backend's words.
    Backend(String),
}

/// Mathematical view of an [`OperationError`].
pub enum OperationErrorModel {
    UnlinkedTenant(Seq<char>),
    Backend(Seq<char>),
}

impl OperationErrorModel {
    /// The text shown for this error.
    pub open spec fn message(self) -> Seq<char> {
        match self {
            OperationErrorModel::UnlinkedTenant(text) => text,
            OperationErrorModel::Backend(text) => text,
        }
    }
}

impl View for OperationError {
    type V = OperationErrorModel;

    open spec fn view(&self) -> OperationErrorModel {
        match self {
            OperationError::UnlinkedTenant(text) => OperationErrorModel::UnlinkedTenant(text@),
            OperationError::Backend(text) => OperationErrorModel::Backend(text@),
        }
    }
}

impl OperationError {
    /// Human-readable description of the error.
    pub fn message(&self) -> (text: String)
        ensures
            text@ == self@.message(),
    {
        match self {
            OperationError::UnlinkedTenant(text) => text.clone(),
            OperationError::Backend(text) => text.clone(),
        }
    }
}

/// A request to the storage backend.
#[derive(Clone, Debug, PartialEq, Eq)]
pub enum BackendCall {
    CreateBucket { bucket: String },
    DeleteBucket { bucket: String },
    /// Lists the objects of a bucket; only the first page is asked for.
    ListObjects { bucket: String },
    DeleteObject { bucket: String, key: String },
}

/// Mathematical view of a [`BackendCall`].
pub enum BackendCallModel {
    CreateBucket { bucket: Seq<char> },
    DeleteBucket { bucket: Seq<char> },
    ListObjects { bucket: Seq<char> },
    DeleteObject { bucket: Seq<char>, key: Seq<char> },
}

impl View for BackendCall {
    type V = BackendCallModel;

    open spec fn view(&self) -> BackendCallModel {
        match self {
            BackendCall::CreateBucket { bucket } => BackendCallModel::CreateBucket {
                bucket: bucket@,
            },
            BackendCall::DeleteBucket { bucket } => BackendCallModel::DeleteBucket {
                bucket: bucket@,
            },
            BackendCall::ListObjects { bucket } => BackendCallModel::ListObjects {
                bucket: bucket@,
            },
            BackendCall::DeleteObject { bucket, key } => BackendCallModel::DeleteObject {
                bucket: bucket@,
                key: key@,
            },
        }
    }
}

/// A backend request together with the client that is to carry it out.
pub struct BackendTask<'a, H> {
    pub client: &'a H,
    pub call: BackendCall,
}

/// What the backend reports of one object in a listing. Either part may be
/// missing from an answer.
#[derive(Clone, Debug, PartialEq, Eq)]
pub struct ObjectSummary {
    pub key: Option<String>,
    pub size: Option<i64>,
}

/// Mathematical view of an [`ObjectSummary`].
pub struct ObjectSummaryModel {
    pub key: Option<Seq<char>>,
    pub size: Option<i64>,
}

impl View for ObjectSummary {
    type V = ObjectSummaryModel;

    open spec fn view(&self) -> ObjectSummaryModel {
        ObjectSummaryModel { key: self.key.deep_view(), size: self.size }
    }
}

impl DeepView for ObjectSummary {
    type V = ObjectSummaryModel;

    open spec fn deep_view(&self) -> ObjectSummaryModel {
        self@
    }
}

/// The text of a backend failure as the caller sees it: the operation's
/// name, a colon and a blank, then the backend's words.
pub open spec fn backend_failure(operation: Seq<char>, reason: Seq<char>) -> Seq<char> {
    operation + ": "@ + reason
}

/// The text shown when a listing holds an object without a key or without
/// a size that is a number of bytes.
pub open spec fn incomplete_listing() -> Seq<char> {
    "list_objects: the backend listed an object without its key or a valid size"@
}

/// Whether `object` has what a blob needs: a key, and a size that is a
/// number of bytes, which a negative size is not.
pub open spec fn describes_a_blob(object: ObjectSummaryModel) -> bool {
    object.key is Some && (object.size matches Some(size) && size >= 0)
}

/// The blob that stands for `object` in a listing of `container`: named by
/// the object's key, sized by the object's size, and tagged with the
/// container asked for. None if the object lacks what a blob needs.
pub open spec fn blob_of(container: Seq<char>, object: ObjectSummaryModel) -> Option<
    FileBlobModel,
> {
    if describes_a_blob(object) {
        Some(
            FileBlobModel {
                id: object.key.unwrap(),
                container,
                byte_size: object.size.unwrap() as u64,
            },
        )
    } else {
        None
    }
}

/// Whether every object of a listing has what a blob needs.
pub open spec fn listing_complete(objects: Seq<ObjectSummaryModel>) -> bool {
    forall|i: int| 0 <= i < objects.len() ==> describes_a_blob(#[trigger] objects[i])
}

/// The blobs of a complete listing, in the backend's order.
pub open spec fn blobs_of(container: Seq<char>, objects: Seq<ObjectSummaryModel>) -> Seq<
    FileBlobModel,
> {
    Seq::new(objects.len(), |i: int| blob_of(container, objects[i]).unwrap())
}

/// What the answer to a bucket creation means: the container named
/// `container_id`, or a hard failure that passes on the backend's words.
pub open spec fn creation_result(container_id: Seq<char>, outcome: Result<(), Seq<char>>) -> Result<
    Seq<char>,
    OperationErrorModel,
> {
    match outcome {
        Ok(_) => Ok(container_id),
        Err(reason) => Err(
            OperationErrorModel::Backend(backend_failure("create_container"@, reason)),
        ),
    }
}

/// What the answer to a removal means: success, or a soft failure that
/// passes on the backend's words under the operation's name.
pub open spec fn removal_result(operation: Seq<char>, outcome: Result<(), Seq<char>>) -> BlobstoreResultModel {
    match outcome {
        Ok(_) => success_result(),
        Err(reason) => failure_result(backend_failure(operation, reason)),
    }
}

/// What the answer to a listing means: no blobs where the backend gave no
/// contents, one blob per object where it gave complete ones, and a hard
/// failure where the backend failed, left an object incomplete or gave one
/// a negative size.
pub open spec fn listing_result(
    container_id: Seq<char>,
    outcome: Result<Option<Seq<ObjectSummaryModel>>, Seq<char>>,
) -> Result<Seq<FileBlobModel>, OperationErrorModel> {
    match outcome {
        Err(reason) => Err(OperationErrorModel::Backend(backend_failure("list_objects"@, reason))),
        Ok(None) => Ok(Seq::empty()),
        Ok(Some(objects)) => if listing_complete(objects) {
            Ok(blobs_of(container_id, objects))
        } else {
            Err(OperationErrorModel::Backend(incomplete_listing()))
        },
    }
}

/// Views the outcome of a call that answers with nothing but success.
pub open spec fn unit_outcome_view(outcome: Result<(), String>) -> Result<(), Seq<char>> {
    match outcome {
        Ok(_) => Ok(()),
        Err(reason) => Err(reason@),
    }
}

/// Views the outcome of a listing.
pub open spec fn listing_outcome_view(outcome: Result<Option<Vec<ObjectSummary>>, String>) -> Result<
    Option<Seq<ObjectSummaryModel>>,
    Seq<char>,
> {
    match outcome {
        Ok(contents) => Ok(contents.deep_view()),
        Err(reason) => Err(reason@),
    }
}

/// Views a container or the error in its place.
pub open spec fn container_result_view(result: Result<Container, OperationError>) -> Result<
    Seq<char>,
    OperationErrorModel,
> {
    match result {
        Ok(container) => Ok(container@),
        Err(e) => Err(e@),
    }
}

/// Views a list of blobs or the error in its place.
pub open spec fn blobs_result_view(result: Result<Vec<FileBlob>, OperationError>) -> Result<
    Seq<FileBlobModel>,
    OperationErrorModel,
> {
    match result {
        Ok(blobs) => Ok(blobs.deep_view()),
        Err(e) => Err(e@),
    }
}

/// Puts the operation's name in front of the backend's words.
fn describe_failure(operation: &str, reason: &str) -> (text: String)
    ensures
        text@ == backend_failure(operation@, reason@),
{
    String::from_str(operation).concat(": ").concat(reason)
}

/// Finishes `create_container` once the backend has answered: the container
/// is echoed back only on success.
pub fn container_created(container_id: &str, outcome: Result<(), String>) -> (result: Result<
    Container,
    OperationError,
>)
    ensures
        container_result_view(result) == creation_result(
            container_id@,
            unit_outcome_view(outcome),
        ),
{
    match outcome {
        Ok(_) => Ok(Container { id: String::from_str(container_id) }),
        Err(reason) => Err(
            OperationError::Backend(describe_failure("create_container", reason.as_str())),
        ),
    }
}

/// Finishes `remove_container` once the backend has answered. A backend
/// failure is reported in the result, not as an error.
pub fn container_removed(outcome: Result<(), String>) -> (result: BlobstoreResult)
    ensures
        result@ == removal_result("remove_container"@, unit_outcome_view(outcome)),
{
    match outcome {
        Ok(_) => BlobstoreResult { success: true, error: None },
        Err(reason) => BlobstoreResult {
            success: false,
            error: Some(describe_failure("remove_container", reason.as_str())),
        },
    }
}

/// Finishes `remove_object` once the backend has answered. A backend
/// failure is reported in the result, not as an error.
pub fn object_removed(outcome: Result<(), String>) -> (result: BlobstoreResult)
    ensures
        result@ == removal_result("remove_object"@, unit_outcome_view(outcome)),
{
    match outcome {
        Ok(_) => BlobstoreResult { success: true, error: None },
        Err(reason) => BlobstoreResult {
            success: false,
            error: Some(describe_failure("remove_object", reason.as_str())),
        },
    }
}

/// Finishes `list_objects` once the backend has answered with its first
/// page.
pub fn objects_listed(
    container_id: &str,
    outcome: Result<Option<Vec<ObjectSummary>>, String>,
) -> (result: Result<Vec<FileBlob>, OperationError>)
    ensures
        blobs_result_view(result) == listing_result(container_id@, listing_outcome_view(outcome)),
{
    let ghost answer = listing_outcome_view(outcome);
    match outcome {
        Err(reason) => Err(
            OperationError::Backend(describe_failure("list_objects", reason.as_str())),
        ),
        Ok(None) => {
            let blobs: Vec<FileBlob> = Vec::new();
            assert(blobs.deep_view() =~= Seq::<FileBlobModel>::empty());
            Ok(blobs)
        },
        Ok(Some(objects)) => {
            let ghost listed = objects.deep_view();
            let mut blobs: Vec<FileBlob> = Vec::new();
            let mut i: usize = 0;
            while i < objects.len()
                invariant
                    i <= objects.len(),
                    listed == objects.deep_view(),
                    answer == listing_outcome_view(outcome),
                    answer == Ok::<Option<Seq<ObjectSummaryModel>>, Seq<char>>(Some(listed)),
                    blobs.len() == i,
                    forall|j: int| 0 <= j < i ==> describes_a_blob(#[trigger] listed[j]),
                    forall|j: int|
                        0 <= j < i ==> Some((#[trigger] blobs[j])@) == blob_of(
                            container_id@,
                            listed[j],
                        ),
                decreases objects.len() - i,
            {
                let object = &objects[i];
                assert(listed[i as int] == object@);
                match (&object.key, object.size) {
                    (Some(key), Some(size)) if size >= 0 => {
                        blobs.push(
                            FileBlob {
                                id: key.clone(),
                                container: Container { id: String::from_str(container_id) },
                                byte_size: size as u64,
                            },
                        );
                    },
                    _ => {
                        assert(!describes_a_blob(listed[i as int]));
                        assert(!listing_complete(listed));
                        return Err(
                            OperationError::Backend(
                                String::from_str(
                                    "list_objects: the backend listed an object without its key or a valid size",
                                ),
                            ),
                        );
                    },
                }
                i = i + 1;
            }
            assert(listing_complete(listed));
            assert(blobs.deep_view() =~= blobs_of(container_id@, listed));
            Ok(blobs)
        },
    }
}

} // verus!

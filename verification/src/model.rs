//! The blob store vocabulary: containers, blobs, results and the requests of
//! the chunked-transfer operations, each with its mathematical view.

use vstd::prelude::*;

verus! {

/// A named top-level collection of blobs. Nothing but the name is tracked
/// locally; whether the container exists is the backend's business.
#[derive(Clone, Debug, PartialEq, Eq)]
pub struct Container {
    pub id: String,
}

impl View for Container {
    type V = Seq<char>;

    /// A container is modelled by its identifier.
    open spec fn view(&self) -> Seq<char> {
        self.id@
    }
}

/// A named object inside a container, with its size in bytes. The container
/// is a snapshot of the identifier the listing was asked for.
#[derive(Clone, Debug, PartialEq, Eq)]
pub struct FileBlob {
    pub id: String,
    pub container: Container,
    pub byte_size: u64,
}

/// Mathematical view of a [`FileBlob`].
pub struct FileBlobModel {
    pub id: Seq<char>,
    pub container: Seq<char>,
    pub byte_size: u64,
}

impl View for FileBlob {
    type V = FileBlobModel;

    open spec fn view(&self) -> FileBlobModel {
        FileBlobModel { id: self.id@, container: self.container@, byte_size: self.byte_size }
    }
}

impl DeepView for FileBlob {
    type V = FileBlobModel;

    open spec fn deep_view(&self) -> FileBlobModel {
        self@
    }
}

/// Outcome of an operation that reports failure in its result rather than as
/// an error: success, or failure with a human-readable message.
#[derive(Clone, Debug, PartialEq, Eq)]
pub struct BlobstoreResult {
    pub success: bool,
    pub error: Option<String>,
}

/// Mathematical view of a [`BlobstoreResult`].
pub struct BlobstoreResultModel {
    pub success: bool,
    pub error: Option<Seq<char>>,
}

impl View for BlobstoreResult {
    type V = BlobstoreResultModel;

    open spec fn view(&self) -> BlobstoreResultModel {
        BlobstoreResultModel { success: self.success, error: self.error.deep_view() }
    }
}

/// The successful result without a message.
pub open spec fn success_result() -> BlobstoreResultModel {
    BlobstoreResultModel { success: true, error: None }
}

/// The failed result that carries `message`.
pub open spec fn failure_result(message: Seq<char>) -> BlobstoreResultModel {
    BlobstoreResultModel { success: false, error: Some(message) }
}

/// One piece of a blob in a chunked transfer.
#[derive(Clone, Debug, PartialEq, Eq)]
pub struct FileChunk {
    pub sequence_no: u64,
    pub container: Container,
    pub id: String,
    pub total_bytes: u64,
    pub chunk_size: u64,
    pub context: Option<String>,
    pub chunk_bytes: Vec<u8>,
}

/// Names the object to delete and the container that holds it.
#[derive(Clone, Debug, PartialEq, Eq)]
pub struct RemoveObjectRequest {
    pub id: String,
    pub container_id: String,
}

/// Asks for a blob to be sent in chunks of the given size.
#[derive(Clone, Debug, PartialEq, Eq)]
pub struct StartDownloadRequest {
    pub blob_id: String,
    pub container_id: String,
    pub chunk_size: u64,
    pub context: Option<String>,
}

/// Names the blob whose description is wanted.
#[derive(Clone, Debug, PartialEq, Eq)]
pub struct GetObjectInfoRequest {
    pub blob_id: String,
    pub container_id: String,
}

/// What an operation knows of its caller: the tenant identity, if the
/// transport delivered one.
#[derive(Clone, Debug, PartialEq, Eq)]
pub struct Context {
    pub actor: Option<String>,
}

impl View for Context {
    type V = Option<Seq<char>>;

    open spec fn view(&self) -> Option<Seq<char>> {
        self.actor.deep_view()
    }
}

/// The blob that describes nothing: empty identifier, empty container, size 0.
pub fn build_empty_fileblob() -> (blob: FileBlob)
    ensures
        blob@ == (FileBlobModel { id: Seq::empty(), container: Seq::empty(), byte_size: 0 }),
{
    FileBlob { byte_size: 0, container: build_empty_container(), id: String::new() }
}

/// The container with the empty identifier.
pub fn build_empty_container() -> (container: Container)
    ensures
        container@ == Seq::<char>::empty(),
{
    Container { id: String::new() }
}

/// The trivial success: no error message.
pub fn build_empty_blobstore_result() -> (result: BlobstoreResult)
    ensures
        result@ == success_result(),
{
    BlobstoreResult { error: None, success: true }
}

} // verus!

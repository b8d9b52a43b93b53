//! The dispatch router: from a method name, with or without the interface's
//! namespace in front, to the operation it names.

use vstd::prelude::*;
use vstd::string::*;
use crate::text::{find_char, first_index_of, str_eq};

verus! {

/// The operations of the blob store interface.
#[derive(Clone, Copy, Debug, PartialEq, Eq, Structural)]
pub enum OperationKind {
    CreateContainer,
    RemoveContainer,
    ListObjects,
    RemoveObject,
    UploadChunk,
    StartUpload,
    StartDownload,
    GetObjectInfo,
}

/// The namespace that method names of this interface may carry.
pub open spec fn interface_name() -> Seq<char> {
    "Blobstore"@
}

/// The name under which `kind` is called.
pub open spec fn name_of(kind: OperationKind) -> Seq<char> {
    match kind {
        OperationKind::CreateContainer => "create_container"@,
        OperationKind::RemoveContainer => "remove_container"@,
        OperationKind::ListObjects => "list_objects"@,
        OperationKind::RemoveObject => "remove_object"@,
        OperationKind::UploadChunk => "upload_chunk"@,
        OperationKind::StartUpload => "start_upload"@,
        OperationKind::StartDownload => "start_download"@,
        OperationKind::GetObjectInfo => "get_object_info"@,
    }
}

/// The operation called `name`, if there is one.
pub open spec fn kind_named(name: Seq<char>) -> Option<OperationKind> {
    if name == name_of(OperationKind::CreateContainer) {
        Some(OperationKind::CreateContainer)
    } else if name == name_of(OperationKind::RemoveContainer) {
        Some(OperationKind::RemoveContainer)
    } else if name == name_of(OperationKind::ListObjects) {
        Some(OperationKind::ListObjects)
    } else if name == name_of(OperationKind::RemoveObject) {
        Some(OperationKind::RemoveObject)
    } else if name == name_of(OperationKind::UploadChunk) {
        Some(OperationKind::UploadChunk)
    } else if name == name_of(OperationKind::StartUpload) {
        Some(OperationKind::StartUpload)
    } else if name == name_of(OperationKind::StartDownload) {
        Some(OperationKind::StartDownload)
    } else if name == name_of(OperationKind::GetObjectInfo) {
        Some(OperationKind::GetObjectInfo)
    } else {
        None
    }
}

/// The operation name inside a method name. A method name without a dot is
/// an operation name as it stands. One with a dot is split at its first dot:
/// what follows is the operation name if what precedes is this interface's
/// namespace, and there is no operation name otherwise.
pub open spec fn operation_name(method: Seq<char>) -> Option<Seq<char>> {
    match first_index_of(method, '.') {
        None => Some(method),
        Some(dot) => if method.take(dot) == interface_name() {
            Some(method.skip(dot + 1))
        } else {
            None
        },
    }
}

/// The operation that a method name routes to, if it routes to one.
pub open spec fn routed(method: Seq<char>) -> Option<OperationKind> {
    match operation_name(method) {
        Some(name) => kind_named(name),
        None => None,
    }
}

/// Why a call was not routed.
#[derive(Clone, Debug, PartialEq, Eq)]
pub enum DispatchError {
    /// The method name, as it arrived, names no operation of this interface.
    UnhandledMethod(String),
}

/// Mathematical view of a [`DispatchError`].
pub enum DispatchErrorModel {
    UnhandledMethod(Seq<char>),
}

impl DispatchErrorModel {
    /// The text shown for this error.
    pub open spec fn message(self) -> Seq<char> {
        match self {
            DispatchErrorModel::UnhandledMethod(method) => "method not handled: "@ + method,
        }
    }
}

impl View for DispatchError {
    type V = DispatchErrorModel;

    open spec fn view(&self) -> DispatchErrorModel {
        match self {
            DispatchError::UnhandledMethod(method) => DispatchErrorModel::UnhandledMethod(method@),
        }
    }
}

impl DispatchError {
    /// Human-readable description of the error.
    pub fn message(&self) -> (text: String)
        ensures
            text@ == self@.message(),
    {
        match self {
            DispatchError::UnhandledMethod(method) => String::from_str(
                "method not handled: ",
            ).concat(method.as_str()),
        }
    }
}

/// A routed call: the operation to run and the payload to run it on.
#[derive(Clone, Debug, PartialEq, Eq)]
pub struct Routed {
    pub operation: OperationKind,
    pub payload: Vec<u8>,
}

impl OperationKind {
    /// The name under which the operation is called.
    pub fn name(self) -> (name: &'static str)
        ensures
            name@ == name_of(self),
    {
        match self {
            OperationKind::CreateContainer => "create_container",
            OperationKind::RemoveContainer => "remove_container",
            OperationKind::ListObjects => "list_objects",
            OperationKind::RemoveObject => "remove_object",
            OperationKind::UploadChunk => "upload_chunk",
            OperationKind::StartUpload => "start_upload",
            OperationKind::StartDownload => "start_download",
            OperationKind::GetObjectInfo => "get_object_info",
        }
    }

    /// The operation called `name`, if there is one.
    pub fn from_name(name: &str) -> (kind: Option<OperationKind>)
        ensures
            kind == kind_named(name@),
    {
        if str_eq(name, "create_container") {
            Some(OperationKind::CreateContainer)
        } else if str_eq(name, "remove_container") {
            Some(OperationKind::RemoveContainer)
        } else if str_eq(name, "list_objects") {
            Some(OperationKind::ListObjects)
        } else if str_eq(name, "remove_object") {
            Some(OperationKind::RemoveObject)
        } else if str_eq(name, "upload_chunk") {
            Some(OperationKind::UploadChunk)
        } else if str_eq(name, "start_upload") {
            Some(OperationKind::StartUpload)
        } else if str_eq(name, "start_download") {
            Some(OperationKind::StartDownload)
        } else if str_eq(name, "get_object_info") {
            Some(OperationKind::GetObjectInfo)
        } else {
            None
        }
    }
}

/// Takes the interface's namespace off a method name.
pub fn strip_namespace(method: &str) -> (name: Option<&str>)
    ensures
        name.deep_view() == operation_name(method@),
{
    match find_char(method, '.') {
        None => Some(method),
        Some(dot) => {
            let len: usize = method.unicode_len();
            if str_eq(method.substring_char(0, dot), "Blobstore") {
                Some(method.substring_char(dot + 1, len))
            } else {
                None
            }
        },
    }
}

/// Routes a call: finds the operation that `method` names and hands the
/// payload on untouched. A foreign namespace, or a name that is no
/// operation's, is refused with the method name as it arrived, and nothing
/// is run.
pub fn route(method: &str, payload: Vec<u8>) -> (result: Result<Routed, DispatchError>)
    ensures
        match result {
            Ok(call) => routed(method@) == Some(call.operation) && call.payload@ == payload@,
            Err(e) => routed(method@) is None && e@ == DispatchErrorModel::UnhandledMethod(
                method@,
            ),
        },
{
    let kind = match strip_namespace(method) {
        Some(name) => OperationKind::from_name(name),
        None => None,
    };
    match kind {
        Some(operation) => Ok(Routed { operation, payload }),
        None => Err(DispatchError::UnhandledMethod(String::from_str(method))),
    }
}

} // verus!

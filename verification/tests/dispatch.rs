use blobstore_s3_provider::dispatch::{
    route, strip_namespace, DispatchError, OperationKind, Routed,
};

fn unhandled(method: &str) -> Result<Routed, DispatchError> {
    Err(DispatchError::UnhandledMethod(method.to_string()))
}

#[test]
fn namespaced_and_bare_names_route_to_create_container() {
    let a = route("Blobstore.create_container", vec![1, 2, 3]).unwrap();
    let b = route("create_container", vec![1, 2, 3]).unwrap();
    assert_eq!(a.operation, OperationKind::CreateContainer);
    assert_eq!(b.operation, OperationKind::CreateContainer);
    assert_eq!(a, b);
}

#[test]
fn foreign_namespace_is_unhandled() {
    assert_eq!(route("Other.create_container", vec![]), unhandled("Other.create_container"));
}

#[test]
fn unknown_operation_is_unhandled() {
    assert_eq!(route("Blobstore.nonexistent", vec![]), unhandled("Blobstore.nonexistent"));
    assert_eq!(route("nonexistent", vec![]), unhandled("nonexistent"));
}

#[test]
fn every_operation_is_routed_by_its_name() {
    let all = [
        (OperationKind::CreateContainer, "create_container"),
        (OperationKind::RemoveContainer, "remove_container"),
        (OperationKind::ListObjects, "list_objects"),
        (OperationKind::RemoveObject, "remove_object"),
        (OperationKind::UploadChunk, "upload_chunk"),
        (OperationKind::StartUpload, "start_upload"),
        (OperationKind::StartDownload, "start_download"),
        (OperationKind::GetObjectInfo, "get_object_info"),
    ];
    for (kind, name) in all.iter() {
        assert_eq!(kind.name(), *name);
        assert_eq!(OperationKind::from_name(name), Some(*kind));
        assert_eq!(route(name, vec![]).unwrap().operation, *kind);
        let namespaced = format!("Blobstore.{}", name);
        assert_eq!(route(&namespaced, vec![]).unwrap().operation, *kind);
        let foreign = format!("Keyvalue.{}", name);
        assert_eq!(route(&foreign, vec![]), unhandled(&foreign));
    }
}

#[test]
fn payload_is_handed_on_untouched() {
    let payload: Vec<u8> = (0..=255).collect();
    let call = route("Blobstore.list_objects", payload.clone()).unwrap();
    assert_eq!(call.operation, OperationKind::ListObjects);
    assert_eq!(call.payload, payload);
    assert_eq!(route("list_objects", vec![]).unwrap().payload, Vec::<u8>::new());
}

#[test]
fn method_names_are_split_at_the_first_dot() {
    assert_eq!(strip_namespace("create_container"), Some("create_container"));
    assert_eq!(strip_namespace("Blobstore.create_container"), Some("create_container"));
    assert_eq!(strip_namespace("Blobstore.a.b"), Some("a.b"));
    assert_eq!(strip_namespace("Blobstore."), Some(""));
    assert_eq!(strip_namespace(""), Some(""));
    assert_eq!(strip_namespace("Other.create_container"), None);
    assert_eq!(strip_namespace(".create_container"), None);
    assert_eq!(strip_namespace("a.Blobstore.create_container"), None);
}

#[test]
fn near_misses_are_unhandled() {
    for method in [
        "",
        ".",
        "Blobstore",
        "Blobstore.",
        ".create_container",
        "blobstore.create_container",
        "BLOBSTORE.create_container",
        "Blobstore .create_container",
        "Blobstore.create_container.",
        "Blobstore.Blobstore.create_container",
        "Blobstore.create_container.list_objects",
        "Blobstore.CreateContainer",
        "create_container ",
        " create_container",
        "Create_Container",
        "create-container",
    ] {
        assert_eq!(route(method, vec![9]), unhandled(method), "{:?}", method);
    }
}

#[test]
fn unhandled_method_message_names_the_method() {
    let e = route("Other.create_container", vec![]).unwrap_err();
    assert_eq!(e.message(), "method not handled: Other.create_container");
}

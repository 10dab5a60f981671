use app_context_core::error::AppContextError;
use app_context_core::meta::BaseInfo;
use app_context_core::meta::ObjectMeta;
use app_context_core::object::AppObject;
use app_context_core::object::ObjDynConstructor;
use app_context_core::registry::AppContext;
use app_context_core::registry::AppContextBuilder;

#[derive(Debug, PartialEq, Eq, Clone)]
enum Payload {
    Reader(String),
    Writer(String),
    Plain(u64),
}

fn info(name: &str, type_tag: &str) -> BaseInfo {
    BaseInfo::new(name.to_string(), type_tag.to_string())
}

fn meta(own: BaseInfo, caps: Vec<BaseInfo>) -> ObjectMeta {
    ObjectMeta { type_info: own, deps: Vec::new(), can_cast_to: caps }
}

fn two_object_registry() -> AppContext<Payload> {
    let mut builder = AppContextBuilder::new();
    builder.register(
        meta(info("svc-A", "ReaderImpl"), vec![info("svc-A", "Reader")]),
        Payload::Reader("alpha".to_string()),
    );
    builder.register(
        meta(info("svc-B", "WriterImpl"), vec![info("svc-B", "Writer")]),
        Payload::Writer("beta".to_string()),
    );
    builder.build()
}

#[test]
fn it_works() {}

#[test]
fn resolve_own_identity_casts() {
    let ctx = two_object_registry();
    let handle = ctx.get_obj(info("svc-A", "ReaderImpl")).expect("own identity must resolve");
    let obj = handle.try_downcast().expect("cast under own identity must succeed");
    assert_eq!(obj.value, Payload::Reader("alpha".to_string()));
    let view = obj.try_cast_to(&info("svc-A", "ReaderImpl")).expect("view must exist");
    assert_eq!(*view, Payload::Reader("alpha".to_string()));
}

#[test]
fn unregistered_identity_resolves_nothing() {
    let ctx = two_object_registry();
    assert!(ctx.get_obj(info("svc-C", "Reader")).is_none());
    let lazy = ctx.get_lazy_obj(info("svc-C", "Reader"));
    let err = lazy.try_downcast().expect_err("nothing to resolve");
    assert!(matches!(
        err,
        AppContextError::ObjectNotFound { ref obj_name, ref obj_type }
            if obj_name.as_str() == "svc-C" && obj_type.as_str() == "Reader"
    ));
}

#[test]
fn resolution_is_idempotent() {
    let ctx = two_object_registry();
    let h1 = ctx.get_obj(info("svc-A", "Reader")).expect("must resolve");
    let h2 = ctx.get_obj(info("svc-A", "Reader")).expect("must resolve");
    let a1 = h1.try_downcast().expect("alive");
    let a2 = h2.try_downcast().expect("alive");
    assert!(std::sync::Arc::ptr_eq(&a1, &a2));
}

#[test]
fn first_registered_wins() {
    let cap = info("shared", "Common");
    let mut builder = AppContextBuilder::new();
    builder.register(
        meta(info("first", "FirstImpl"), vec![cap.clone()]),
        Payload::Plain(1),
    );
    builder.register(
        meta(info("second", "SecondImpl"), vec![cap.clone()]),
        Payload::Plain(2),
    );
    let ctx = builder.build();
    let obj = ctx.get_obj(cap).expect("must resolve").try_downcast().expect("alive");
    assert_eq!(obj.value, Payload::Plain(1));
}

#[test]
fn dropped_registry_invalidates_handles() {
    let ctx = two_object_registry();
    let eager = ctx.get_obj(info("svc-A", "Reader")).expect("must resolve");
    let lazy = ctx.get_lazy_obj(info("svc-A", "Reader"));
    drop(ctx);
    let eager_err = eager.try_downcast().expect_err("registry is gone");
    assert!(matches!(eager_err, AppContextError::AppContextDropped));
    let lazy_err = lazy.try_downcast().expect_err("registry is gone");
    assert!(matches!(lazy_err, AppContextError::ObjectNotFound { .. }));
}

#[test]
fn lazy_handle_resolves_at_most_once() {
    let ctx = two_object_registry();
    let lazy = ctx.get_lazy_obj(info("svc-A", "Reader"));
    let first = lazy.try_downcast().expect("registry alive at first access");
    assert_eq!(first.value, Payload::Reader("alpha".to_string()));
    drop(first);
    drop(ctx);
    // The memoized reference is kept: a second access reports the dropped
    // registry. Resolving anew would instead report the object as not found.
    let err = lazy.try_downcast().expect_err("registry is gone");
    assert!(matches!(err, AppContextError::AppContextDropped));
}

#[test]
fn lazy_handle_reuses_resolved_object() {
    let ctx = two_object_registry();
    let lazy = ctx.get_lazy_obj(info("svc-B", "Writer"));
    let a1 = lazy.try_downcast().expect("alive");
    let a2 = lazy.try_downcast().expect("alive");
    assert!(std::sync::Arc::ptr_eq(&a1, &a2));
}

#[test]
fn cast_mismatch_is_excluded_from_matches() {
    let mut builder = AppContextBuilder::new();
    builder.register(
        meta(info("svc-A", "ReaderImpl"), vec![info("svc-A", "Reader")]),
        Payload::Reader("alpha".to_string()),
    );
    let ctx = builder.build();
    // The name matches a registered object, but no metadata declares the
    // requested capability: the object is never returned.
    assert!(ctx.get_obj(info("svc-A", "Mailer")).is_none());
}

#[test]
fn unsupported_cast_reports_both_types() {
    let obj = AppObject {
        meta: meta(info("svc-A", "ReaderImpl"), vec![info("svc-A", "Reader")]),
        value: Payload::Reader("alpha".to_string()),
    };
    let err = obj.try_cast_to(&info("svc-A", "Mailer")).expect_err("not castable");
    assert!(matches!(
        err,
        AppContextError::UnsupportedCast { ref obj_name, ref obj_type, ref expected_type }
            if obj_name.as_str() == "svc-A" && obj_type.as_str() == "ReaderImpl" && expected_type.as_str() == "Mailer"
    ));
}

#[test]
fn end_to_end_scenario() {
    let ctx = two_object_registry();
    let reader = ctx.get_obj(info("svc-A", "Reader")).expect("capability declared");
    let obj = reader.try_downcast().expect("alive");
    assert_eq!(obj.value, Payload::Reader("alpha".to_string()));
    // A name match alone is not enough: svc-A declares no Writer capability.
    assert!(ctx.get_obj(info("svc-A", "Writer")).is_none());
}

#[test]
fn collected_preserves_registration_order() {
    let records = vec![
        ObjDynConstructor {
            meta: meta(info("first", "FirstImpl"), vec![info("shared", "Common")]),
            value: Payload::Plain(1),
        },
        ObjDynConstructor {
            meta: meta(info("second", "SecondImpl"), vec![info("shared", "Common")]),
            value: Payload::Plain(2),
        },
    ];
    let ctx = AppContextBuilder::collected(records).build();
    let obj = ctx
        .get_obj(info("shared", "Common"))
        .expect("must resolve")
        .try_downcast()
        .expect("alive");
    assert_eq!(obj.value, Payload::Plain(1));
    let second = ctx
        .get_obj(info("second", "SecondImpl"))
        .expect("own identity resolves")
        .try_downcast()
        .expect("alive");
    assert_eq!(second.value, Payload::Plain(2));
}

#[test]
fn empty_constructor_list_gives_empty_registry() {
    let ctx: AppContext<Payload> = AppContextBuilder::collected(Vec::new()).build();
    assert!(ctx.get_obj(info("svc-A", "Reader")).is_none());
}

#[test]
fn cloned_registry_shares_the_same_objects() {
    let ctx = two_object_registry();
    let ctx2 = ctx.clone();
    let a1 = ctx.get_obj(info("svc-A", "Reader")).unwrap().try_downcast().unwrap();
    let a2 = ctx2.get_obj(info("svc-A", "Reader")).unwrap().try_downcast().unwrap();
    assert!(std::sync::Arc::ptr_eq(&a1, &a2));
    drop(a1);
    drop(a2);
    // A clone keeps the core alive: handles survive dropping the original.
    let eager = ctx.get_obj(info("svc-B", "Writer")).unwrap();
    drop(ctx);
    let obj = eager.try_downcast().expect("clone keeps the registry alive");
    assert_eq!(obj.value, Payload::Writer("beta".to_string()));
}

#[test]
fn cloned_handle_observes_the_same_object() {
    let ctx = two_object_registry();
    let handle = ctx.get_obj(info("svc-A", "Reader")).expect("must resolve");
    let copy = handle.clone();
    let a1 = handle.try_downcast().expect("alive");
    let a2 = copy.try_downcast().expect("alive");
    assert!(std::sync::Arc::ptr_eq(&a1, &a2));
    drop(a1);
    drop(a2);
    drop(ctx);
    let err = copy.try_downcast().expect_err("registry is gone");
    assert!(matches!(err, AppContextError::AppContextDropped));
}

#[test]
fn metadata_compatibility_and_dependencies() {
    let mut m = meta(info("svc-A", "ReaderImpl"), vec![info("svc-A", "Reader")]);
    m.deps = vec![info("svc-B", "Writer")];
    assert!(m.compat_with(&info("svc-A", "ReaderImpl")));
    assert!(m.compat_with(&info("svc-A", "Reader")));
    assert!(!m.compat_with(&info("svc-A", "Writer")));
    // Declared dependencies are informational and not part of compatibility.
    assert!(m.depends_on(&info("svc-B", "Writer")));
    assert!(!m.depends_on(&info("svc-A", "Reader")));
    assert!(!m.compat_with(&info("svc-B", "Writer")));
}

#[test]
fn unexpected_error_carries_its_message() {
    let err = AppContextError::UnexpectedError("wiring failed".to_string());
    assert!(matches!(err, AppContextError::UnexpectedError(ref msg) if msg.as_str() == "wiring failed"));
}

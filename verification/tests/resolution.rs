//! Link selection and target resolution.

use wasmbus_handler::handler::Handler;
use wasmbus_handler::errors::ResolveError;
use wasmbus_handler::iface::CallTargetInterface;
use wasmbus_handler::iface::canonical_instance;

fn iface(ns: &str, pkg: &str, name: &str) -> CallTargetInterface {
    CallTargetInterface {
        namespace: ns.to_string(),
        package: pkg.to_string(),
        interface: name.to_string(),
    }
}

fn handler() -> Handler {
    Handler::new("component-1".to_string(), "lattice-a".to_string(), 2000)
}

#[test]
fn canonical_form_strips_version() {
    assert_eq!(canonical_instance("wasi:keyvalue/store@0.2.0"), "wasi:keyvalue/store");
    assert_eq!(canonical_instance("wasi:keyvalue/store"), "wasi:keyvalue/store");
    assert_eq!(canonical_instance("@0.2.0"), "");
    assert_eq!(canonical_instance(""), "");
    assert_eq!(canonical_instance("a@b@c"), "a");
}

#[test]
fn interface_canonicalizes_to_instance() {
    let i = iface("wasi", "keyvalue", "store");
    assert_eq!(i.as_instance(), "wasi:keyvalue/store");
}

#[test]
fn select_then_resolve_returns_linked_destination() {
    let mut h = handler();
    h.insert_link("kv".to_string(), "wasi:keyvalue/store".to_string(), "kv-vault".to_string());
    h.insert_link(
        "default".to_string(),
        "wasi:keyvalue/store".to_string(),
        "kv-redis".to_string(),
    );
    let ifaces = vec![iface("wasi", "keyvalue", "store")];
    h.set_link_name("kv".to_string(), &ifaces);
    let key = "wasi:keyvalue/store".to_string();
    let inst = "wasi:keyvalue/store@0.2.0".to_string();
    let func = "get".to_string();
    let d = h.resolve_destination(&key, &inst, &func).expect("resolvable");
    assert_eq!(d, "kv-vault");
}

#[test]
fn select_default_removes_override_and_falls_back() {
    let mut h = handler();
    h.insert_link("kv".to_string(), "wasi:keyvalue/store".to_string(), "kv-vault".to_string());
    h.insert_link(
        "default".to_string(),
        "wasi:keyvalue/store".to_string(),
        "kv-redis".to_string(),
    );
    let ifaces = vec![iface("wasi", "keyvalue", "store")];
    h.set_link_name("kv".to_string(), &ifaces);
    h.set_link_name("default".to_string(), &ifaces);
    let key = "wasi:keyvalue/store".to_string();
    let inst = "wasi:keyvalue/store".to_string();
    let func = "get".to_string();
    let d = h.resolve_destination(&key, &inst, &func).expect("resolvable");
    assert_eq!(d, "kv-redis");
}

#[test]
fn resolve_without_link_reports_link_not_found() {
    let h = handler();
    let key = "wasi:keyvalue/store".to_string();
    let inst = "wasi:keyvalue/store".to_string();
    let func = "get".to_string();
    let e = h.resolve_destination(&key, &inst, &func).expect_err("no link");
    assert_eq!(
        e.message(),
        "link `default` not found for instance `wasi:keyvalue/store`"
    );
    assert!(matches!(e, ResolveError::LinkNotFound { .. }));
}

#[test]
fn resolve_without_destination_reports_target_not_found() {
    let mut h = handler();
    h.insert_link("default".to_string(), "wasi:logging/logging".to_string(), "log".to_string());
    let key = "wasi:keyvalue/store".to_string();
    let inst = "wasi:keyvalue/store@0.2.0".to_string();
    let func = "get".to_string();
    let e = h.resolve_destination(&key, &inst, &func).expect_err("not linked");
    assert_eq!(
        e.message(),
        "failed to call `get` in instance `wasi:keyvalue/store@0.2.0` (failed to find a \
         configured link with name `default` from component `component-1`, please check your \
         configuration)"
    );
    assert!(matches!(e, ResolveError::TargetNotFound { .. }));
}

#[test]
fn checked_selection_accepts_fully_linked_batch() {
    let mut h = handler();
    h.insert_link("kv".to_string(), "wasi:keyvalue/store".to_string(), "kv-vault".to_string());
    h.insert_link("kv".to_string(), "wasi:keyvalue/atomics".to_string(), "kv-vault".to_string());
    let ifaces = vec![iface("wasi", "keyvalue", "store"), iface("wasi", "keyvalue", "atomics")];
    let r = h.set_link_name_checked("kv".to_string(), &ifaces);
    assert_eq!(r, Ok(()));
    let key = "wasi:keyvalue/atomics".to_string();
    let inst = "wasi:keyvalue/atomics".to_string();
    let func = "increment".to_string();
    assert_eq!(h.resolve_destination(&key, &inst, &func), Ok("kv-vault".to_string()));
}

#[test]
fn checked_selection_rejects_whole_batch_on_first_missing_interface() {
    let mut h = handler();
    h.insert_link("kv".to_string(), "wasi:keyvalue/store".to_string(), "kv-vault".to_string());
    h.insert_link(
        "default".to_string(),
        "wasi:keyvalue/atomics".to_string(),
        "kv-redis".to_string(),
    );
    let ifaces = vec![iface("wasi", "keyvalue", "store"), iface("wasi", "keyvalue", "atomics")];
    let r = h.set_link_name_checked("kv".to_string(), &ifaces);
    assert_eq!(
        r,
        Err(
            "interface `wasi:keyvalue/atomics` does not have an existing link with name `kv`"
                .to_string(),
        )
    );
    // No partial mutation: the batch's first interface was not selected
    // either, so resolution of it still uses the default link.
    let key = "wasi:keyvalue/atomics".to_string();
    let inst = "wasi:keyvalue/atomics".to_string();
    let func = "increment".to_string();
    assert_eq!(h.resolve_destination(&key, &inst, &func), Ok("kv-redis".to_string()));
}

#[test]
fn copy_for_new_resets_targets_and_keeps_shared_state() {
    let mut h = handler();
    h.insert_link("kv".to_string(), "wasi:keyvalue/store".to_string(), "kv-vault".to_string());
    h.insert_link(
        "default".to_string(),
        "wasi:keyvalue/store".to_string(),
        "kv-redis".to_string(),
    );
    h.insert_config("retries".to_string(), "3".to_string());
    let ifaces = vec![iface("wasi", "keyvalue", "store")];
    h.set_link_name("kv".to_string(), &ifaces);

    let h2 = h.copy_for_new();
    let key = "wasi:keyvalue/store".to_string();
    let inst = "wasi:keyvalue/store".to_string();
    let func = "get".to_string();
    // The original instance keeps its selection; the new instance starts
    // from an empty target table and falls back to the default link.
    assert_eq!(h.resolve_destination(&key, &inst, &func), Ok("kv-vault".to_string()));
    assert_eq!(h2.resolve_destination(&key, &inst, &func), Ok("kv-redis".to_string()));
    // Shared state carried over.
    assert_eq!(h2.config_get(&"retries".to_string()), Some("3".to_string()));
    assert_eq!(h2.component_id, "component-1");
    assert_eq!(h2.lattice, "lattice-a");
    assert_eq!(h2.invocation_timeout_ms, 2000);
}

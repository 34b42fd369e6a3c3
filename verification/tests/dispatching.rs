//! The dual-path dispatcher and the in-process stream bridge.

use wasmbus_handler::dispatch::DispatchPlan;
use wasmbus_handler::dispatch::prepare_local_streams;
use wasmbus_handler::handler::Handler;
use wasmbus_handler::iface::ReplacedInstanceTarget;
use wasmbus_handler::stream::EitherIncoming;
use wasmbus_handler::stream::EitherOutgoing;
use wasmbus_handler::stream::LocalStep;
use wasmbus_handler::stream::MyDuplexStream;
use wasmbus_handler::stream::ReadOutcome;
use wasmbus_handler::stream::WriteOutcome;

fn handler() -> Handler {
    Handler::new("component-1".to_string(), "lattice-a".to_string(), 2000)
}

#[test]
fn unregistered_destination_dispatches_remotely() {
    // Link graph {"default": {"wasi:keyvalue/store": "kv-redis"}}, empty
    // component registry: the call goes remote to `<lattice>.kv-redis`.
    let mut h = handler();
    h.insert_link(
        "default".to_string(),
        "wasi:keyvalue/store".to_string(),
        "kv-redis".to_string(),
    );
    let func = "get".to_string();
    let plan = h
        .plan_invoke(&None, "wasi:keyvalue/store@0.2.0", &func)
        .expect("resolvable");
    match plan {
        DispatchPlan::Remote { address, headers, timeout_ms } => {
            assert_eq!(address, "lattice-a.kv-redis");
            assert_eq!(
                headers,
                vec![
                    ("source-id".to_string(), "component-1".to_string()),
                    ("link-name".to_string(), "default".to_string()),
                ]
            );
            assert_eq!(timeout_ms, 2000);
        },
        DispatchPlan::Local { .. } => panic!("expected the remote path"),
    }
}

#[test]
fn registered_destination_dispatches_locally() {
    // Same graph, but the registry holds "kv-redis": the call takes the
    // local path even though the remote one would also resolve.
    let mut h = handler();
    h.insert_link(
        "default".to_string(),
        "wasi:keyvalue/store".to_string(),
        "kv-redis".to_string(),
    );
    h.insert_component("kv-redis".to_string());
    let func = "get".to_string();
    let plan = h
        .plan_invoke(&None, "wasi:keyvalue/store@0.2.0", &func)
        .expect("resolvable");
    match plan {
        DispatchPlan::Local { destination } => assert_eq!(destination, "kv-redis"),
        DispatchPlan::Remote { .. } => panic!("expected the local path"),
    }
    // The callee observes exactly the request bytes followed by
    // end-of-stream on the single-slot pipe.
    let request = vec![1u8, 2, 3, 4];
    let mut streams = prepare_local_streams(request.clone());
    let observed = streams.host_to_guest.read_to_end();
    assert_eq!(observed, request);
    assert!(matches!(streams.host_to_guest.read(), ReadOutcome::Eof));
}

#[test]
fn pinned_interface_overrides_instance_string() {
    let mut h = handler();
    h.insert_link(
        "default".to_string(),
        "wasi:keyvalue/store".to_string(),
        "kv-redis".to_string(),
    );
    let func = "get".to_string();
    let plan = h
        .plan_invoke(&Some(ReplacedInstanceTarget::KeyvalueStore), "anything@9.9.9", &func)
        .expect("resolvable");
    assert!(matches!(plan, DispatchPlan::Remote { .. }));
}

#[test]
fn unresolvable_invoke_propagates_resolution_error() {
    let h = handler();
    let func = "get".to_string();
    let e = h
        .plan_invoke(&None, "wasi:keyvalue/store", &func)
        .expect_err("no link");
    assert_eq!(
        e.message(),
        "link `default` not found for instance `wasi:keyvalue/store`"
    );
}

#[test]
fn pipe_round_trip_in_order_with_eof_only_after_all_bytes() {
    let mut s = MyDuplexStream::new();
    assert!(matches!(s.read(), ReadOutcome::Pending));
    assert!(matches!(s.write(vec![10, 20]), WriteOutcome::Accepted));
    // Single slot: a second write observes back-pressure.
    assert!(matches!(s.write(vec![30]), WriteOutcome::Full));
    s.shutdown();
    match s.read() {
        ReadOutcome::Data(d) => assert_eq!(d, vec![10, 20]),
        _ => panic!("expected the pending chunk"),
    }
    assert!(matches!(s.read(), ReadOutcome::Eof));
}

#[test]
fn pipe_write_after_half_close_or_reader_drop_is_closed() {
    let mut s = MyDuplexStream::new();
    s.shutdown();
    assert!(matches!(s.write(vec![1]), WriteOutcome::Closed));

    let mut s2 = MyDuplexStream::new();
    s2.drop_reader();
    assert!(matches!(s2.write(vec![1]), WriteOutcome::Closed));
}

#[test]
fn index_fails_fast_on_the_local_path() {
    let s = MyDuplexStream::new();
    let e = s.index(&vec![0, 1]).err().unwrap();
    assert_eq!(e, "Index not implemented for MyDuplexStream");

    let outgoing: EitherOutgoing<u32> = EitherOutgoing::Local(MyDuplexStream::new());
    assert!(outgoing.index(&vec![0]).is_err());
    let remote_outgoing: EitherOutgoing<u32> = EitherOutgoing::Remote(7);
    assert!(remote_outgoing.index(&vec![0]).is_ok());
}

#[test]
fn either_streams_serve_local_and_defer_remote() {
    let mut outgoing: EitherOutgoing<u32> = EitherOutgoing::Local(MyDuplexStream::new());
    match outgoing.write(vec![5, 6]) {
        LocalStep::Done(WriteOutcome::Accepted) => {},
        _ => panic!("expected a local accepted write"),
    }
    assert!(matches!(outgoing.shutdown(), LocalStep::Done(())));

    let mut incoming: EitherIncoming<u32> = match outgoing {
        EitherOutgoing::Local(pipe) => EitherIncoming::Local(pipe),
        EitherOutgoing::Remote(_) => panic!("local by construction"),
    };
    match incoming.read() {
        LocalStep::Done(ReadOutcome::Data(d)) => assert_eq!(d, vec![5, 6]),
        _ => panic!("expected the pending chunk"),
    }
    match incoming.read() {
        LocalStep::Done(ReadOutcome::Eof) => {},
        _ => panic!("expected end-of-stream"),
    }

    let mut remote: EitherIncoming<u32> = EitherIncoming::Remote(9);
    assert!(matches!(remote.read(), LocalStep::Remote));
}

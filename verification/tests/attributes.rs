use proxy_sdk::downcast_box::DowncastBox;
use proxy_sdk::property::all::{
    AllAttributes, AllConnectionAttributes, AllRequestAttributes, AllWasmAttributes,
};
use proxy_sdk::property::envoy::{moment_of, Attributes, ListenerDirection};
use std::cell::RefCell;

#[test]
fn request_time_is_decoded() {
    let attributes = Attributes::get();
    let time = attributes.request.time(|name| {
        assert_eq!(name, "request.time");
        Some(vec![0x08, 0x05, 0x10, 0x07])
    });
    assert_eq!(time, Some((5, 7)));
    let later = attributes.request.time(|_| Some(vec![0x08, 0x80, 0x01]));
    assert_eq!(later, Some((128, 0)));
    assert_eq!(attributes.request.time(|_| Some(Vec::new())), Some((0, 0)));
    assert_eq!(attributes.request.time(|_| None), None);
}

#[test]
fn request_time_that_is_negative_or_no_timestamp_is_passed_over() {
    let attributes = Attributes::get();
    let negative = vec![0x08, 0xff, 0xff, 0xff, 0xff, 0xff, 0xff, 0xff, 0xff, 0xff, 0x01];
    assert_eq!(attributes.request.time(|_| Some(negative)), None);
    let negative_nanos =
        vec![0x08, 0x01, 0x10, 0xff, 0xff, 0xff, 0xff, 0xff, 0xff, 0xff, 0xff, 0xff, 0x01];
    assert_eq!(attributes.request.time(|_| Some(negative_nanos)), None);
    assert_eq!(attributes.request.time(|_| Some(vec![0x08])), None);
    assert_eq!(attributes.request.time(|_| Some(vec![0xff])), None);
}

#[test]
fn request_duration_is_decoded() {
    let attributes = Attributes::get();
    let duration = attributes.request.duration(|name| {
        assert_eq!(name, "request.duration");
        Some(vec![0x08, 0x02, 0x10, 0xe8, 0x07])
    });
    assert_eq!(duration, Some((2, 1000)));
    assert_eq!(attributes.request.duration(|_| Some(vec![0x0a])), None);
    assert_eq!(attributes.request.duration(|_| None), None);
}

#[test]
fn moments_need_both_fields_to_be_positive_or_zero() {
    assert_eq!(moment_of(Some((0, 0))), Some((0, 0)));
    assert_eq!(moment_of(Some((i64::MAX, i32::MAX))), Some((i64::MAX as u64, i32::MAX as u32)));
    assert_eq!(moment_of(Some((-1, 0))), None);
    assert_eq!(moment_of(Some((0, -1))), None);
    assert_eq!(moment_of(None), None);
}

fn number(n: i64) -> Option<Vec<u8>> {
    Some(n.to_le_bytes().to_vec())
}

fn read(name: &str) -> Option<Vec<u8>> {
    match name {
        "request.path" => Some(b"/p".to_vec()),
        "request.scheme" => Some(b"https".to_vec()),
        "request.method" => Some(b"GET".to_vec()),
        "request.size" => number(12),
        "request.time" => Some(vec![0x08, 0x09]),
        "request.headers" => Some(vec![1]),
        "source.port" => number(8080),
        "source.address" => Some(b"10.0.0.1:8080".to_vec()),
        "connection.mtls" => Some(vec![0]),
        "plugin_name" => Some(b"plugin".to_vec()),
        "listener_direction" => number(2),
        "node" => Some(vec![1, 2, 3]),
        "metadata" => Some(vec![4]),
        _ => None,
    }
}

fn decode_map(bytes: Vec<u8>) -> Option<Vec<(String, Vec<u8>)>> {
    Some(vec![("decoded".to_string(), bytes)])
}

#[test]
fn all_request_attributes_are_read() {
    let asked = RefCell::new(Vec::new());
    let reading = |name: &str| {
        asked.borrow_mut().push(name.to_string());
        read(name)
    };
    let all = AllRequestAttributes::get(&Attributes::get(), &reading, &decode_map);
    assert_eq!(all.path, Some("/p".to_string()));
    assert_eq!(all.scheme, Some("https".to_string()));
    assert_eq!(all.method, Some("GET".to_string()));
    assert_eq!(all.headers, Some(vec![("decoded".to_string(), vec![1])]));
    assert_eq!(all.time, Some((9, 0)));
    assert_eq!(all.duration, None);
    assert_eq!(all.size, Some(12));
    assert_eq!(all.total_size, None);
    assert_eq!(all.host, None);
    assert_eq!(asked.borrow().len(), 15);
    assert_eq!(asked.borrow()[0], "request.path");
    assert_eq!(asked.borrow()[14], "request.total_size");
}

#[test]
fn all_attributes_are_read() {
    let all: AllAttributes<u8, usize> = AllAttributes::get(
        &Attributes::get(),
        &read,
        &decode_map,
        &|bytes: Vec<u8>| bytes.first().copied(),
        &|bytes: Vec<u8>| Some(bytes.len()),
    );
    assert_eq!(all.request.path, Some("/p".to_string()));
    assert_eq!(all.response.code, None);
    assert_eq!(all.connection.source_port, Some(8080));
    assert_eq!(all.connection.source_address, Some("10.0.0.1:8080".to_string()));
    assert_eq!(all.connection.mtls, Some(false));
    assert_eq!(all.upstream.port, None);
    assert_eq!(all.metadata.metadata, Some(4));
    assert_eq!(all.metadata.filter_state, None);
    assert_eq!(all.configuration.cluster_metadata, None);
    assert_eq!(all.wasm.plugin_name, Some("plugin".to_string()));
    assert_eq!(all.wasm.node, Some(3));
    assert_eq!(all.wasm.listener_direction, Some(ListenerDirection::Outbound));
    let connection = AllConnectionAttributes::get(&Attributes::get(), &read);
    assert_eq!(connection.destination_port, None);
    let wasm: AllWasmAttributes<u8, u8> = AllWasmAttributes::get(
        &Attributes::get(),
        &read,
        &|_: Vec<u8>| None,
        &|_: Vec<u8>| None,
    );
    assert_eq!(wasm.node, None);
    assert_eq!(wasm.plugin_name, Some("plugin".to_string()));
}

#[test]
fn handle_recovers_the_concrete_value() {
    let mut handle: DowncastBox<u32> = DowncastBox::from_box(Box::new(7));
    assert_eq!(*handle.get(), 7);
    *handle.get_mut() += 1;
    assert_eq!(handle.downcast_ref::<u32>(), Some(&8));
    assert_eq!(handle.downcast_ref::<u64>(), None);
    *handle.downcast_mut::<u32>().expect("invalid root type") += 1;
    assert!(handle.downcast_mut::<i32>().is_none());
    assert_eq!(*handle.get(), 9);
}

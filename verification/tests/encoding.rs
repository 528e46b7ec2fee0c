use proxy_sdk::env::{var, vars, vars_ordered, Environment};
use proxy_sdk::hostcalls::{
    dequeue_shared_queue, deserialize_map_bytes, dispatch_http_call, done_of, found_of,
    get_buffer, get_grpc_status, get_map, get_shared_data, given_of, resolve_shared_queue,
    send_http_response, serialize_map, serialize_property_path, set_map, set_map_value,
    set_shared_data, timeout_of, BufferType, LogLevel, MapType, MetricType, StreamType,
};
use proxy_sdk::property::{
    get_property, get_property_bool, get_property_decode, get_property_int, get_property_string,
    property_path, set_property,
};
use proxy_sdk::upstream::Upstream;
use proxy_sdk::{calculate_range, RangeBound, Status};
use std::cell::RefCell;

#[test]
fn range_of_the_whole() {
    assert_eq!(calculate_range(RangeBound::Unbounded, RangeBound::Unbounded, 10), (0, 10));
    assert_eq!(calculate_range(RangeBound::Unbounded, RangeBound::Unbounded, 0), (0, 0));
}

#[test]
fn range_with_bounds() {
    assert_eq!(calculate_range(RangeBound::Included(2), RangeBound::Excluded(5), 10), (2, 3));
    assert_eq!(calculate_range(RangeBound::Included(2), RangeBound::Included(5), 10), (2, 4));
    assert_eq!(calculate_range(RangeBound::Excluded(2), RangeBound::Unbounded, 10), (1, 9));
    assert_eq!(calculate_range(RangeBound::Excluded(0), RangeBound::Unbounded, 10), (0, 10));
}

#[test]
fn range_is_cut_to_the_limit() {
    assert_eq!(calculate_range(RangeBound::Included(2), RangeBound::Excluded(50), 10), (2, 8));
    assert_eq!(calculate_range(RangeBound::Included(2), RangeBound::Included(9), 10), (2, 8));
    assert_eq!(calculate_range(RangeBound::Included(2), RangeBound::Included(10), 10), (2, 8));
    assert_eq!(
        calculate_range(RangeBound::Unbounded, RangeBound::Included(usize::MAX), 10),
        (0, 10)
    );
}

#[test]
fn range_that_ends_before_it_starts_is_empty() {
    assert_eq!(calculate_range(RangeBound::Included(7), RangeBound::Excluded(5), 10), (7, 0));
    assert_eq!(calculate_range(RangeBound::Included(12), RangeBound::Unbounded, 10), (12, 0));
    assert_eq!(calculate_range(RangeBound::Included(5), RangeBound::Excluded(5), 10), (5, 0));
}

#[test]
fn host_codes() {
    assert_eq!(Status::Success.code(), 0);
    assert_eq!(Status::InvalidMemoryAccess.code(), 6);
    assert_eq!(Status::Unimplemented.code(), 12);
    for code in 0..=12 {
        assert_eq!(Status::from_code(code).map(|s| s.code()), Some(code));
    }
    assert_eq!(Status::from_code(13), None);
    assert_eq!(LogLevel::Critical.code(), 5);
    assert_eq!(StreamType::Upstream.code(), 3);
    assert_eq!(BufferType::CallData.code(), 8);
    assert_eq!(BufferType::VmConfiguration.code(), 6);
    assert_eq!(MapType::HttpCallResponseTrailers.code(), 7);
    assert_eq!(MetricType::Histogram.code(), 2);
}

#[test]
fn property_path_of_parts() {
    assert_eq!(serialize_property_path(&[]), Vec::<u8>::new());
    assert_eq!(serialize_property_path(&["request"]), b"request".to_vec());
    assert_eq!(serialize_property_path(&["request", "path"]), b"request\0path".to_vec());
    assert_eq!(serialize_property_path(&["a", "", "b"]), b"a\0\0b".to_vec());
    assert_eq!(serialize_property_path(&[""]), Vec::<u8>::new());
}

#[test]
fn property_path_of_a_name() {
    assert_eq!(property_path("request.path"), b"request\0path".to_vec());
    assert_eq!(property_path("plugin_name"), b"plugin_name".to_vec());
    assert_eq!(property_path(""), Vec::<u8>::new());
    assert_eq!(property_path("a."), b"a\0".to_vec());
    assert_eq!(property_path("xds.é.b"), "xds\0é\0b".as_bytes().to_vec());
}

#[test]
fn map_in_the_form_of_the_host() {
    assert_eq!(serialize_map(&[]), vec![0, 0, 0, 0]);
    let bytes = serialize_map(&[(":path", b"/x"), ("a", b"")]);
    let mut expected = vec![2, 0, 0, 0, 5, 0, 0, 0, 2, 0, 0, 0, 1, 0, 0, 0, 0, 0, 0, 0];
    expected.extend_from_slice(b":path\0/x\0a\0\0");
    assert_eq!(bytes, expected);
}

#[test]
fn map_read_back() {
    let entries: Vec<(&str, &[u8])> = vec![(":path", b"/x"), ("a", b""), ("", b"\0\xff")];
    let read = deserialize_map_bytes(&serialize_map(&entries)).expect("map");
    assert_eq!(
        read,
        vec![
            (":path".to_string(), b"/x".to_vec()),
            ("a".to_string(), Vec::new()),
            (String::new(), b"\0\xff".to_vec()),
        ]
    );
}

#[test]
fn map_of_no_bytes_is_empty() {
    assert_eq!(deserialize_map_bytes(&[]), Ok(Vec::new()));
    assert_eq!(deserialize_map_bytes(&[0, 0, 0, 0]), Ok(Vec::new()));
}

#[test]
fn map_without_the_last_zero_byte() {
    let mut bytes = serialize_map(&[("k", b"v")]);
    bytes.pop();
    assert_eq!(deserialize_map_bytes(&bytes), Ok(vec![("k".to_string(), b"v".to_vec())]));
}

#[test]
fn map_that_is_cut_short_is_a_parse_failure() {
    assert_eq!(deserialize_map_bytes(&[1, 0, 0]), Err(Status::ParseFailure));
    assert_eq!(deserialize_map_bytes(&[1, 0, 0, 0]), Err(Status::ParseFailure));
    assert_eq!(deserialize_map_bytes(&[1, 0, 0, 0, 1, 0, 0, 0]), Err(Status::ParseFailure));
    let mut bytes = serialize_map(&[("k", b"v")]);
    bytes.truncate(bytes.len() - 2);
    assert_eq!(deserialize_map_bytes(&bytes), Err(Status::ParseFailure));
    let huge = [0xff, 0xff, 0xff, 0xff, 0, 0, 0, 0];
    assert_eq!(deserialize_map_bytes(&huge), Err(Status::ParseFailure));
    let long_name = [1, 0, 0, 0, 0xff, 0xff, 0xff, 0xff, 0, 0, 0, 0, b'k', 0, 0];
    assert_eq!(deserialize_map_bytes(&long_name), Err(Status::ParseFailure));
}

#[test]
fn map_with_a_name_that_is_no_text_is_a_parse_failure() {
    let bytes = [1, 0, 0, 0, 1, 0, 0, 0, 0, 0, 0, 0, 0xff, 0, 0];
    assert_eq!(deserialize_map_bytes(&bytes), Err(Status::ParseFailure));
}

#[test]
fn upstream_for_an_envoy_cluster() {
    let upstream = Upstream::envoy_upstream("c1", "auth");
    assert_eq!(upstream.0, b"\x0a\x0a\x0a\x02c1\x12\x04auth".to_vec());
    assert_eq!(Upstream::envoy_upstream("", "").0, vec![0x0a, 0x00]);
    assert_eq!(Upstream::envoy_upstream("c", "").0, b"\x0a\x03\x0a\x01c".to_vec());
}

#[test]
fn upstream_with_a_long_name() {
    let name = "n".repeat(200);
    let upstream = Upstream::envoy_upstream(&name, "");
    let mut expected = vec![0x0a, 0xcb, 0x01, 0x0a, 0xc8, 0x01];
    expected.extend_from_slice(name.as_bytes());
    assert_eq!(upstream.0, expected);
}

#[test]
fn upstream_for_a_plain_target() {
    let mut expected = b"\x12\x1f\x0a\x09host:1234\x22\x12".to_vec();
    expected.extend_from_slice(b"leaksignal_command");
    assert_eq!(Upstream::insecure_grpc_upstream("host:1234").0, expected);
    assert_eq!(Upstream::grpc_upstream("http://host:1234").0, expected);
}

#[test]
fn upstream_for_a_secure_target() {
    let mut expected = b"\x12\x23\x0a\x09host:1234\x12\x02\x0a\x00\x22\x12".to_vec();
    expected.extend_from_slice(b"leaksignal_command");
    assert_eq!(Upstream::grpc_upstream("https://host:1234").0, expected);
    assert_eq!(Upstream::grpc_upstream("host:1234").0, expected);
}

#[test]
fn upstream_keeps_a_scheme_it_does_not_know() {
    let mut expected = b"\x12\x1f\x0a\x0bftp://h:123\x12\x02\x0a\x00\x22\x12".to_vec();
    expected[1] = 0x25;
    expected.extend_from_slice(b"leaksignal_command");
    assert_eq!(Upstream::grpc_upstream("ftp://h:123").0, expected);
    let mut bare = b"\x12\x18\x12\x02\x0a\x00\x22\x12".to_vec();
    bare.extend_from_slice(b"leaksignal_command");
    assert_eq!(Upstream::grpc_upstream("https://").0, bare);
}

#[test]
fn upstream_from_bytes() {
    assert_eq!(Upstream::from(vec![1, 2]).0, vec![1, 2]);
    assert_eq!(Upstream::from_name("ab").0, b"ab".to_vec());
    assert_eq!(Upstream::empty().0, Vec::<u8>::new());
    assert_eq!(Upstream::default().0, Vec::<u8>::new());
}

#[test]
fn property_is_read_by_its_path() {
    let asked = RefCell::new(Vec::new());
    let value = get_property("request.path", |path| {
        asked.borrow_mut().push(path);
        Ok(Some(b"/x".to_vec()))
    });
    assert_eq!(value, Some(b"/x".to_vec()));
    assert_eq!(*asked.borrow(), vec![b"request\0path".to_vec()]);
    assert_eq!(get_property("a", |_| Ok(None)), None);
    assert_eq!(get_property("a", |_| Err(Status::InternalFailure)), None);
}

#[test]
fn property_is_set_by_its_path() {
    let asked = RefCell::new(Vec::new());
    assert_eq!(set_property("a.b", b"v", |path, value| {
        asked.borrow_mut().push((path, value.map(|v| v.to_vec())));
        Err(Status::BadArgument)
    }), Err(Status::BadArgument));
    assert_eq!(*asked.borrow(), vec![(b"a\0b".to_vec(), Some(b"v".to_vec()))]);
}

#[test]
fn property_as_text() {
    assert_eq!(
        get_property_string("n", |name| {
            assert_eq!(name, "n");
            Some("héllo".as_bytes().to_vec())
        }),
        Some("héllo".to_string())
    );
    assert_eq!(get_property_string("n", |_| Some(vec![b'a', 0xff, b'b'])), Some("a\u{fffd}b".to_string()));
    assert_eq!(get_property_string("n", |_| Some(Vec::new())), Some(String::new()));
    assert_eq!(get_property_string("n", |_| None), None);
}

#[test]
fn property_as_a_number() {
    assert_eq!(get_property_int("n", |_| Some(vec![1, 0, 0, 0, 0, 0, 0, 0])), Some(1));
    assert_eq!(get_property_int("n", |_| Some(vec![0, 1, 0, 0, 0, 0, 0, 0])), Some(256));
    assert_eq!(get_property_int("n", |_| Some(vec![0xff; 8])), Some(-1));
    assert_eq!(get_property_int("n", |_| Some(vec![0, 0, 0, 0, 0, 0, 0, 0x80])), Some(i64::MIN));
    assert_eq!(get_property_int("n", |_| Some(vec![0xff; 7])), None);
    assert_eq!(get_property_int("n", |_| Some(vec![0xff; 9])), None);
    assert_eq!(get_property_int("n", |_| Some(Vec::new())), None);
    assert_eq!(get_property_int("n", |_| None), None);
}

#[test]
fn property_as_a_truth_value() {
    assert_eq!(get_property_bool("n", |_| Some(vec![0])), Some(false));
    assert_eq!(get_property_bool("n", |_| Some(vec![1])), Some(true));
    assert_eq!(get_property_bool("n", |_| Some(vec![7])), Some(true));
    assert_eq!(get_property_bool("n", |_| Some(Vec::new())), None);
    assert_eq!(get_property_bool("n", |_| Some(vec![1, 1])), None);
    assert_eq!(get_property_bool("n", |_| None), None);
}

#[test]
fn property_as_a_message() {
    assert_eq!(get_property_decode("n", |_| Some(vec![3]), |bytes| Some(bytes.len())), Some(1));
    assert_eq!(get_property_decode("n", |_| Some(vec![3]), |_| None::<usize>), None);
    assert_eq!(
        get_property_decode("n", |_| None, |_| -> Option<usize> { panic!("nothing to decode") }),
        None
    );
}

fn environment() -> Environment {
    Environment::new(vec![
        ("A".to_string(), "1".to_string()),
        ("B".to_string(), "2".to_string()),
        ("A".to_string(), "3".to_string()),
    ])
}

#[test]
fn environment_variable_is_the_last_of_its_name() {
    let env = environment();
    assert_eq!(var(&env, "A"), Some("3"));
    assert_eq!(var(&env, "B"), Some("2"));
    assert_eq!(var(&env, "C"), None);
    assert_eq!(var(&Environment::new(Vec::new()), "A"), None);
}

#[test]
fn environment_variables_each_once() {
    let env = environment();
    assert_eq!(vars(&env), vec![("B", "2"), ("A", "3")]);
    assert_eq!(vars(&Environment::new(Vec::new())), Vec::<(&str, &str)>::new());
}

#[test]
fn environment_in_original_ordering() {
    let env = environment();
    assert_eq!(vars_ordered(&env).len(), 3);
    assert_eq!(vars_ordered(&env)[0], ("A".to_string(), "1".to_string()));
    assert_eq!(vars_ordered(&env)[2], ("A".to_string(), "3".to_string()));
}

#[test]
fn concerns_keep_the_value_or_fall_back() {
    assert_eq!(proxy_sdk::log_concern::<u32>(Ok(5)), 5);
    assert_eq!(proxy_sdk::log_concern::<u32>(Err(Status::InternalFailure)), 0);
    assert_eq!(proxy_sdk::log_concern::<Option<u8>>(Err(Status::NotFound)), None);
    assert_eq!(proxy_sdk::check_concern(Ok(5)), Some(5));
    assert_eq!(proxy_sdk::check_concern::<u32>(Err(Status::InternalFailure)), None);
}

#[test]
fn answers_of_the_host() {
    assert_eq!(done_of(Status::Success), Ok(()));
    assert_eq!(done_of(Status::NotFound), Err(Status::NotFound));
    assert_eq!(given_of(Status::Success, 3), Ok(3));
    assert_eq!(given_of(Status::Empty, 3), Err(Status::Empty));
    assert_eq!(found_of(Status::Success, Some(3)), Ok(Some(3)));
    assert_eq!(found_of(Status::NotFound, Some(3)), Ok(None));
    assert_eq!(found_of(Status::BadArgument, Some(3)), Err(Status::BadArgument));
    assert_eq!(
        get_buffer(BufferType::HttpRequestBody, 1, 2, |buffer, start, size| {
            assert_eq!((buffer, start, size), (BufferType::HttpRequestBody, 1, 2));
            (Status::Success, Some(vec![1]))
        }),
        Ok(Some(vec![1]))
    );
    assert_eq!(get_buffer(BufferType::HttpRequestBody, 1, 2, |_, _, _| (Status::NotFound, None)), Ok(None));
    let bytes = serialize_map(&[("k", b"v")]);
    assert_eq!(
        get_map(MapType::HttpRequestHeaders, |map| {
            assert_eq!(map, MapType::HttpRequestHeaders);
            (Status::Success, Some(bytes.clone()))
        }),
        Ok(Some(vec![("k".to_string(), b"v".to_vec())]))
    );
    assert_eq!(get_map(MapType::HttpRequestHeaders, |_| (Status::Success, None)), Ok(None));
    assert_eq!(get_map(MapType::HttpRequestHeaders, |_| (Status::NotFound, Some(vec![1]))), Ok(None));
    assert_eq!(get_map(MapType::HttpRequestHeaders, |_| (Status::Success, Some(vec![1]))), Err(Status::ParseFailure));
    assert_eq!(get_map(MapType::HttpRequestHeaders, |_| (Status::InternalFailure, None)), Err(Status::InternalFailure));
    assert_eq!(
        set_map(MapType::HttpRequestHeaders, &[("k", b"v")], |_, map| {
            assert_eq!(map, bytes);
            Status::Success
        }),
        Ok(())
    );
    assert_eq!(
        set_map_value(MapType::HttpRequestHeaders, "k", Some(b"v"), |_, k, v| {
            assert_eq!((k, v), ("k", &b"v"[..]));
            Status::Success
        }, |_, _| panic!("there is a value")),
        Ok(())
    );
    assert_eq!(
        set_map_value(MapType::HttpRequestHeaders, "k", None, |_, _, _| panic!("there is no value"), |_, k| {
            assert_eq!(k, "k");
            Status::NotFound
        }),
        Err(Status::NotFound)
    );
    assert_eq!(get_shared_data("k", |_| (Status::Success, Some(vec![1]), 0)), Ok((Some(vec![1]), None)));
    assert_eq!(get_shared_data("k", |_| (Status::Success, None, 7)), Ok((None, Some(7))));
    assert_eq!(get_shared_data("k", |_| (Status::NotFound, Some(vec![1]), 7)), Ok((None, None)));
    assert_eq!(get_shared_data("k", |_| (Status::BadArgument, None, 0)), Err(Status::BadArgument));
    assert_eq!(set_shared_data("k", None, None, |_, _, cas| {
        assert_eq!(cas, 0);
        Status::Success
    }), Ok(()));
    assert_eq!(set_shared_data("k", Some(b"v"), Some(9), |_, _, cas| {
        assert_eq!(cas, 9);
        Status::CasMismatch
    }), Err(Status::CasMismatch));
    assert_eq!(resolve_shared_queue("vm", "q", |_, _| (Status::Success, 4)), Ok(Some(4)));
    assert_eq!(resolve_shared_queue("vm", "q", |_, _| (Status::NotFound, 4)), Ok(None));
    assert_eq!(dequeue_shared_queue(1, |_| (Status::Success, vec![1])), Ok(Some(vec![1])));
    assert_eq!(dequeue_shared_queue(1, |_| (Status::Empty, Vec::new())), Ok(None));
    assert_eq!(dequeue_shared_queue(1, |_| (Status::NotFound, Vec::new())), Err(Status::NotFound));
    assert_eq!(get_grpc_status(|| (Status::Success, 3, Some(b"msg".to_vec()))), Ok((3, Some("msg".to_string()))));
    assert_eq!(get_grpc_status(|| (Status::Success, 3, Some(vec![0xff]))), Ok((3, None)));
    assert_eq!(get_grpc_status(|| (Status::Success, 3, None)), Ok((3, None)));
    assert_eq!(get_grpc_status(|| (Status::InternalFailure, 3, None)), Err(Status::InternalFailure));
    assert_eq!(send_http_response(403, &[("k", b"v")], Some(b"no"), |code, body, headers, grpc| {
        assert_eq!((code, body, grpc), (403, Some(&b"no"[..]), -1));
        assert_eq!(headers, bytes);
        Status::Success
    }), Ok(()));
    assert_eq!(timeout_of(10_000), 10_000);
    assert_eq!(timeout_of((1 << 32) + 7), 7);
    assert_eq!(dispatch_http_call(b"up", &[("k", b"v")], None, &[], 1500, |upstream, headers, body, trailers, timeout| {
        assert_eq!((upstream, body, timeout), (&b"up"[..], None, 1500));
        assert_eq!(headers, bytes);
        assert_eq!(trailers, vec![0, 0, 0, 0]);
        (Status::Success, 77)
    }), Ok(77));
}

use crate::property::envoy::{Attributes, ListenerDirection};
use crate::property::{bool_read, decode_read, int_read, string_read};
use crate::property::envoy::{duration_read, time_read};
use vstd::prelude::*;

verus! {

/// Whether `r` is the text of the property `name`, as `read` gives it.
pub open spec fn reads_string<P: Fn(&str) -> Option<Vec<u8>>>(
    read: &P,
    name: &str,
    r: Option<String>,
) -> bool {
    exists|raw: Option<Vec<u8>>| #[trigger] call_ensures(read, (name,), raw) && string_read(raw, r)
}

/// The number of the property `name`, as `read` gives it, cut to the
/// width of the result, is `r`.
pub open spec fn reads_usize<P: Fn(&str) -> Option<Vec<u8>>>(
    read: &P,
    name: &str,
    r: Option<usize>,
) -> bool {
    exists|raw: Option<Vec<u8>>|
        #[trigger] call_ensures(read, (name,), raw) && r == match int_read(raw) {
            Some(x) => Some(x as usize),
            None => None,
        }
}

/// The number of the property `name`, as `read` gives it, cut to the
/// width of the result, is `r`.
pub open spec fn reads_u32<P: Fn(&str) -> Option<Vec<u8>>>(
    read: &P,
    name: &str,
    r: Option<u32>,
) -> bool {
    exists|raw: Option<Vec<u8>>|
        #[trigger] call_ensures(read, (name,), raw) && r == match int_read(raw) {
            Some(x) => Some(x as u32),
            None => None,
        }
}

/// The number of the property `name`, as `read` gives it, cut to the
/// width of the result, is `r`.
pub open spec fn reads_u64<P: Fn(&str) -> Option<Vec<u8>>>(
    read: &P,
    name: &str,
    r: Option<u64>,
) -> bool {
    exists|raw: Option<Vec<u8>>|
        #[trigger] call_ensures(read, (name,), raw) && r == match int_read(raw) {
            Some(x) => Some(x as u64),
            None => None,
        }
}

/// The number of the property `name`, as `read` gives it, cut to the
/// width of the result, is `r`.
pub open spec fn reads_u16<P: Fn(&str) -> Option<Vec<u8>>>(
    read: &P,
    name: &str,
    r: Option<u16>,
) -> bool {
    exists|raw: Option<Vec<u8>>|
        #[trigger] call_ensures(read, (name,), raw) && r == match int_read(raw) {
            Some(x) => Some(x as u16),
            None => None,
        }
}

/// The direction that the number of the property `name` stands for, as
/// `read` gives it, is `r`.
pub open spec fn reads_direction<P: Fn(&str) -> Option<Vec<u8>>>(
    read: &P,
    name: &str,
    r: Option<ListenerDirection>,
) -> bool {
    exists|raw: Option<Vec<u8>>|
        #[trigger] call_ensures(read, (name,), raw) && r == match int_read(raw) {
            Some(x) => ListenerDirection::of(x),
            None => None,
        }
}

/// The truth value of the property `name`, as `read` gives it, is `r`.
pub open spec fn reads_bool<P: Fn(&str) -> Option<Vec<u8>>>(
    read: &P,
    name: &str,
    r: Option<bool>,
) -> bool {
    exists|raw: Option<Vec<u8>>| #[trigger] call_ensures(read, (name,), raw) && r == bool_read(raw)
}

/// Whether `r` is what `decode` makes of the property `name`, as `read`
/// gives it.
pub open spec fn reads_message<X, P: Fn(&str) -> Option<Vec<u8>>, D: Fn(Vec<u8>) -> Option<X>>(
    read: &P,
    decode: &D,
    name: &str,
    r: Option<X>,
) -> bool {
    exists|raw: Option<Vec<u8>>|
        #[trigger] call_ensures(read, (name,), raw) && decode_read(raw, decode, r)
}

/// The moment of the property `name`, as `read` gives it, is `r`.
pub open spec fn reads_time<P: Fn(&str) -> Option<Vec<u8>>>(
    read: &P,
    name: &str,
    r: Option<(u64, u32)>,
) -> bool {
    exists|raw: Option<Vec<u8>>| #[trigger] call_ensures(read, (name,), raw) && r == time_read(raw)
}

/// The span of the property `name`, as `read` gives it, is `r`.
pub open spec fn reads_duration<P: Fn(&str) -> Option<Vec<u8>>>(
    read: &P,
    name: &str,
    r: Option<(u64, u32)>,
) -> bool {
    exists|raw: Option<Vec<u8>>|
        #[trigger] call_ensures(read, (name,), raw) && r == duration_read(raw)
}

/// All the attributes of one group, read at once.
#[derive(Debug)]
pub struct AllRequestAttributes {
    pub path: Option<String>,
    pub url_path: Option<String>,
    pub host: Option<String>,
    pub scheme: Option<String>,
    pub method: Option<String>,
    pub headers: Option<Vec<(String, Vec<u8>)>>,
    pub referer: Option<String>,
    pub useragent: Option<String>,
    pub time: Option<(u64, u32)>,
    pub id: Option<String>,
    pub protocol: Option<String>,
    pub query: Option<String>,
    pub duration: Option<(u64, u32)>,
    pub size: Option<usize>,
    pub total_size: Option<usize>,
}

impl AllRequestAttributes {
    /// Whether each attribute is what `read` gives for its property.
    pub open spec fn was_read<
        P: Fn(&str) -> Option<Vec<u8>>,
        D: Fn(Vec<u8>) -> Option<Vec<(String, Vec<u8>)>>,
    >(
        self,
        read: &P,
        decode_map: &D,
    ) -> bool {
        &&& reads_string(read, "request.path", self.path)
        &&& reads_string(read, "request.url_path", self.url_path)
        &&& reads_string(read, "request.host", self.host)
        &&& reads_string(read, "request.scheme", self.scheme)
        &&& reads_string(read, "request.method", self.method)
        &&& reads_message(read, decode_map, "request.headers", self.headers)
        &&& reads_string(read, "request.referer", self.referer)
        &&& reads_string(read, "request.useragent", self.useragent)
        &&& reads_time(read, "request.time", self.time)
        &&& reads_string(read, "request.id", self.id)
        &&& reads_string(read, "request.protocol", self.protocol)
        &&& reads_string(read, "request.query", self.query)
        &&& reads_duration(read, "request.duration", self.duration)
        &&& reads_usize(read, "request.size", self.size)
        &&& reads_usize(read, "request.total_size", self.total_size)
    }

    /// Reads each attribute of the group through `read`.
    pub fn get<
        P: Fn(&str) -> Option<Vec<u8>>,
        D: Fn(Vec<u8>) -> Option<Vec<(String, Vec<u8>)>>,
    >(
        a: &Attributes,
        read: &P,
        decode_map: &D,
    ) -> (r: Self)
        requires
            forall|name: &str| call_requires(read, (name,)),
            forall|bytes: Vec<u8>| call_requires(decode_map, (bytes,)),
        ensures
            r.was_read(read, decode_map),
    {
        let path = a.request.path(read);
        let url_path = a.request.url_path(read);
        let host = a.request.host(read);
        let scheme = a.request.scheme(read);
        let method = a.request.method(read);
        let headers = a.request.headers(read, decode_map);
        let referer = a.request.referer(read);
        let useragent = a.request.useragent(read);
        let time = a.request.time(read);
        let id = a.request.id(read);
        let protocol = a.request.protocol(read);
        let query = a.request.query(read);
        let duration = a.request.duration(read);
        let size = a.request.size(read);
        let total_size = a.request.total_size(read);
        AllRequestAttributes {
            path,
            url_path,
            host,
            scheme,
            method,
            headers,
            referer,
            useragent,
            time,
            id,
            protocol,
            query,
            duration,
            size,
            total_size,
        }
    }
}

/// All the attributes of one group, read at once.
#[derive(Debug)]
pub struct AllResponseAttributes {
    pub code: Option<u32>,
    pub code_details: Option<String>,
    pub flags: Option<u64>,
    pub grpc_status: Option<u32>,
    pub headers: Option<Vec<(String, Vec<u8>)>>,
    pub trailers: Option<Vec<(String, Vec<u8>)>>,
    pub size: Option<usize>,
    pub total_size: Option<usize>,
}

impl AllResponseAttributes {
    /// Whether each attribute is what `read` gives for its property.
    pub open spec fn was_read<
        P: Fn(&str) -> Option<Vec<u8>>,
        D: Fn(Vec<u8>) -> Option<Vec<(String, Vec<u8>)>>,
    >(
        self,
        read: &P,
        decode_map: &D,
    ) -> bool {
        &&& reads_u32(read, "response.code", self.code)
        &&& reads_string(read, "response.code_details", self.code_details)
        &&& reads_u64(read, "response.flags", self.flags)
        &&& reads_u32(read, "response.grpc_status", self.grpc_status)
        &&& reads_message(read, decode_map, "response.headers", self.headers)
        &&& reads_message(read, decode_map, "response.trailers", self.trailers)
        &&& reads_usize(read, "response.size", self.size)
        &&& reads_usize(read, "response.total_size", self.total_size)
    }

    /// Reads each attribute of the group through `read`.
    pub fn get<
        P: Fn(&str) -> Option<Vec<u8>>,
        D: Fn(Vec<u8>) -> Option<Vec<(String, Vec<u8>)>>,
    >(
        a: &Attributes,
        read: &P,
        decode_map: &D,
    ) -> (r: Self)
        requires
            forall|name: &str| call_requires(read, (name,)),
            forall|bytes: Vec<u8>| call_requires(decode_map, (bytes,)),
        ensures
            r.was_read(read, decode_map),
    {
        let code = a.response.code(read);
        let code_details = a.response.code_details(read);
        let flags = a.response.flags(read);
        let grpc_status = a.response.grpc_status(read);
        let headers = a.response.headers(read, decode_map);
        let trailers = a.response.trailers(read, decode_map);
        let size = a.response.size(read);
        let total_size = a.response.total_size(read);
        AllResponseAttributes {
            code,
            code_details,
            flags,
            grpc_status,
            headers,
            trailers,
            size,
            total_size,
        }
    }
}

/// All the attributes of one group, read at once.
#[derive(Debug)]
pub struct AllConnectionAttributes {
    pub source_address: Option<String>,
    pub source_port: Option<u16>,
    pub destination_address: Option<String>,
    pub destination_port: Option<u16>,
    pub id: Option<u64>,
    pub mtls: Option<bool>,
    pub requested_server_name: Option<String>,
    pub tls_version: Option<String>,
    pub subject_local_certificate: Option<String>,
    pub subject_peer_certificate: Option<String>,
    pub dns_san_local_certificate: Option<String>,
    pub dns_san_peer_certificate: Option<String>,
    pub uri_san_local_certificate: Option<String>,
    pub uri_san_peer_certificate: Option<String>,
    pub sha256_peer_certificate_digest: Option<String>,
    pub termination_details: Option<String>,
}

impl AllConnectionAttributes {
    /// Whether each attribute is what `read` gives for its property.
    pub open spec fn was_read<P: Fn(&str) -> Option<Vec<u8>>>(
        self,
        read: &P,
    ) -> bool {
        &&& reads_string(read, "source.address", self.source_address)
        &&& reads_u16(read, "source.port", self.source_port)
        &&& reads_string(read, "destination.address", self.destination_address)
        &&& reads_u16(read, "destination.port", self.destination_port)
        &&& reads_u64(read, "connection.id", self.id)
        &&& reads_bool(read, "connection.mtls", self.mtls)
        &&& reads_string(read, "connection.requested_server_name", self.requested_server_name)
        &&& reads_string(read, "connection.tls_version", self.tls_version)
        &&& reads_string(read, "connection.subject_local_certificate",
            self.subject_local_certificate)
        &&& reads_string(read, "connection.subject_peer_certificate", self.subject_peer_certificate)
        &&& reads_string(read, "connection.dns_san_local_certificate",
            self.dns_san_local_certificate)
        &&& reads_string(read, "connection.dns_san_peer_certificate", self.dns_san_peer_certificate)
        &&& reads_string(read, "connection.uri_san_local_certificate",
            self.uri_san_local_certificate)
        &&& reads_string(read, "connection.uri_san_peer_certificate", self.uri_san_peer_certificate)
        &&& reads_string(read, "connection.sha256_peer_certificate_digest",
            self.sha256_peer_certificate_digest)
        &&& reads_string(read, "connection.termination_details", self.termination_details)
    }

    /// Reads each attribute of the group through `read`.
    pub fn get<P: Fn(&str) -> Option<Vec<u8>>>(
        a: &Attributes,
        read: &P,
    ) -> (r: Self)
        requires
            forall|name: &str| call_requires(read, (name,)),
        ensures
            r.was_read(read),
    {
        let source_address = a.connection.source_address(read);
        let source_port = a.connection.source_port(read);
        let destination_address = a.connection.destination_address(read);
        let destination_port = a.connection.destination_port(read);
        let id = a.connection.id(read);
        let mtls = a.connection.mtls(read);
        let requested_server_name = a.connection.requested_server_name(read);
        let tls_version = a.connection.tls_version(read);
        let subject_local_certificate = a.connection.subject_local_certificate(read);
        let subject_peer_certificate = a.connection.subject_peer_certificate(read);
        let dns_san_local_certificate = a.connection.dns_san_local_certificate(read);
        let dns_san_peer_certificate = a.connection.dns_san_peer_certificate(read);
        let uri_san_local_certificate = a.connection.uri_san_local_certificate(read);
        let uri_san_peer_certificate = a.connection.uri_san_peer_certificate(read);
        let sha256_peer_certificate_digest = a.connection.sha256_peer_certificate_digest(read);
        let termination_details = a.connection.termination_details(read);
        AllConnectionAttributes {
            source_address,
            source_port,
            destination_address,
            destination_port,
            id,
            mtls,
            requested_server_name,
            tls_version,
            subject_local_certificate,
            subject_peer_certificate,
            dns_san_local_certificate,
            dns_san_peer_certificate,
            uri_san_local_certificate,
            uri_san_peer_certificate,
            sha256_peer_certificate_digest,
            termination_details,
        }
    }
}

/// All the attributes of one group, read at once.
#[derive(Debug)]
pub struct AllUpstreamAttributes {
    pub address: Option<String>,
    pub port: Option<u16>,
    pub tls_version: Option<String>,
    pub subject_local_certificate: Option<String>,
    pub subject_peer_certificate: Option<String>,
    pub dns_san_local_certificate: Option<String>,
    pub dns_san_peer_certificate: Option<String>,
    pub uri_san_local_certificate: Option<String>,
    pub uri_san_peer_certificate: Option<String>,
    pub sha256_peer_certificate_digest: Option<String>,
    pub local_address: Option<String>,
    pub transport_failure_reason: Option<String>,
}

impl AllUpstreamAttributes {
    /// Whether each attribute is what `read` gives for its property.
    pub open spec fn was_read<P: Fn(&str) -> Option<Vec<u8>>>(
        self,
        read: &P,
    ) -> bool {
        &&& reads_string(read, "upstream.address", self.address)
        &&& reads_u16(read, "upstream.port", self.port)
        &&& reads_string(read, "upstream.tls_version", self.tls_version)
        &&& reads_string(read, "upstream.subject_local_certificate", self.subject_local_certificate)
        &&& reads_string(read, "upstream.subject_peer_certificate", self.subject_peer_certificate)
        &&& reads_string(read, "upstream.dns_san_local_certificate", self.dns_san_local_certificate)
        &&& reads_string(read, "upstream.dns_san_peer_certificate", self.dns_san_peer_certificate)
        &&& reads_string(read, "upstream.uri_san_local_certificate", self.uri_san_local_certificate)
        &&& reads_string(read, "upstream.uri_san_peer_certificate", self.uri_san_peer_certificate)
        &&& reads_string(read, "upstream.sha256_peer_certificate_digest",
            self.sha256_peer_certificate_digest)
        &&& reads_string(read, "upstream.local_address", self.local_address)
        &&& reads_string(read, "upstream.transport_failure_reason", self.transport_failure_reason)
    }

    /// Reads each attribute of the group through `read`.
    pub fn get<P: Fn(&str) -> Option<Vec<u8>>>(
        a: &Attributes,
        read: &P,
    ) -> (r: Self)
        requires
            forall|name: &str| call_requires(read, (name,)),
        ensures
            r.was_read(read),
    {
        let address = a.upstream.address(read);
        let port = a.upstream.port(read);
        let tls_version = a.upstream.tls_version(read);
        let subject_local_certificate = a.upstream.subject_local_certificate(read);
        let subject_peer_certificate = a.upstream.subject_peer_certificate(read);
        let dns_san_local_certificate = a.upstream.dns_san_local_certificate(read);
        let dns_san_peer_certificate = a.upstream.dns_san_peer_certificate(read);
        let uri_san_local_certificate = a.upstream.uri_san_local_certificate(read);
        let uri_san_peer_certificate = a.upstream.uri_san_peer_certificate(read);
        let sha256_peer_certificate_digest = a.upstream.sha256_peer_certificate_digest(read);
        let local_address = a.upstream.local_address(read);
        let transport_failure_reason = a.upstream.transport_failure_reason(read);
        AllUpstreamAttributes {
            address,
            port,
            tls_version,
            subject_local_certificate,
            subject_peer_certificate,
            dns_san_local_certificate,
            dns_san_peer_certificate,
            uri_san_local_certificate,
            uri_san_peer_certificate,
            sha256_peer_certificate_digest,
            local_address,
            transport_failure_reason,
        }
    }
}

/// All the attributes of one group, read at once.
#[derive(Debug)]
pub struct AllMetadataAttributes<M> {
    pub metadata: Option<M>,
    pub filter_state: Option<Vec<(String, Vec<u8>)>>,
}

impl<M> AllMetadataAttributes<M> {
    /// Whether each attribute is what `read` gives for its property.
    pub open spec fn was_read<
        P: Fn(&str) -> Option<Vec<u8>>,
        D: Fn(Vec<u8>) -> Option<Vec<(String, Vec<u8>)>>,
        DM: Fn(Vec<u8>) -> Option<M>,
    >(
        self,
        read: &P,
        decode_map: &D,
        decode_metadata: &DM,
    ) -> bool {
        &&& reads_message(read, decode_metadata, "metadata", self.metadata)
        &&& reads_message(read, decode_map, "filter_state", self.filter_state)
    }

    /// Reads each attribute of the group through `read`.
    pub fn get<
        P: Fn(&str) -> Option<Vec<u8>>,
        D: Fn(Vec<u8>) -> Option<Vec<(String, Vec<u8>)>>,
        DM: Fn(Vec<u8>) -> Option<M>,
    >(
        a: &Attributes,
        read: &P,
        decode_map: &D,
        decode_metadata: &DM,
    ) -> (r: Self)
        requires
            forall|name: &str| call_requires(read, (name,)),
            forall|bytes: Vec<u8>| call_requires(decode_map, (bytes,)),
            forall|bytes: Vec<u8>| call_requires(decode_metadata, (bytes,)),
        ensures
            r.was_read(read, decode_map, decode_metadata),
    {
        let metadata = a.metadata.metadata(read, decode_metadata);
        let filter_state = a.metadata.filter_state(read, decode_map);
        AllMetadataAttributes {
            metadata,
            filter_state,
        }
    }
}

/// All the attributes of one group, read at once.
#[derive(Debug)]
pub struct AllConfigurationAttributes<M> {
    pub cluster_name: Option<String>,
    pub cluster_metadata: Option<M>,
    pub route_name: Option<String>,
    pub route_metadata: Option<M>,
    pub upstream_host_metadata: Option<M>,
    pub filter_chain_name: Option<String>,
}

impl<M> AllConfigurationAttributes<M> {
    /// Whether each attribute is what `read` gives for its property.
    pub open spec fn was_read<
        P: Fn(&str) -> Option<Vec<u8>>,
        DM: Fn(Vec<u8>) -> Option<M>,
    >(
        self,
        read: &P,
        decode_metadata: &DM,
    ) -> bool {
        &&& reads_string(read, "xds.cluster_name", self.cluster_name)
        &&& reads_message(read, decode_metadata, "xds.cluster_metadata", self.cluster_metadata)
        &&& reads_string(read, "xds.route_name", self.route_name)
        &&& reads_message(read, decode_metadata, "xds.route_metadata", self.route_metadata)
        &&& reads_message(read, decode_metadata, "xds.upstream_host_metadata",
            self.upstream_host_metadata)
        &&& reads_string(read, "xds.filter_chain_name", self.filter_chain_name)
    }

    /// Reads each attribute of the group through `read`.
    pub fn get<
        P: Fn(&str) -> Option<Vec<u8>>,
        DM: Fn(Vec<u8>) -> Option<M>,
    >(
        a: &Attributes,
        read: &P,
        decode_metadata: &DM,
    ) -> (r: Self)
        requires
            forall|name: &str| call_requires(read, (name,)),
            forall|bytes: Vec<u8>| call_requires(decode_metadata, (bytes,)),
        ensures
            r.was_read(read, decode_metadata),
    {
        let cluster_name = a.configuration.cluster_name(read);
        let cluster_metadata = a.configuration.cluster_metadata(read, decode_metadata);
        let route_name = a.configuration.route_name(read);
        let route_metadata = a.configuration.route_metadata(read, decode_metadata);
        let upstream_host_metadata = a.configuration.upstream_host_metadata(read, decode_metadata);
        let filter_chain_name = a.configuration.filter_chain_name(read);
        AllConfigurationAttributes {
            cluster_name,
            cluster_metadata,
            route_name,
            route_metadata,
            upstream_host_metadata,
            filter_chain_name,
        }
    }
}

/// All the attributes of one group, read at once.
#[derive(Debug)]
pub struct AllWasmAttributes<M, N> {
    pub plugin_name: Option<String>,
    pub plugin_root_id: Option<String>,
    pub plugin_vm_id: Option<String>,
    pub node: Option<N>,
    pub cluster_name: Option<String>,
    pub cluster_metadata: Option<M>,
    pub listener_direction: Option<ListenerDirection>,
    pub listener_metadata: Option<M>,
    pub route_name: Option<String>,
    pub route_metadata: Option<M>,
    pub upstream_host_metadata: Option<M>,
}

impl<M, N> AllWasmAttributes<M, N> {
    /// Whether each attribute is what `read` gives for its property.
    pub open spec fn was_read<
        P: Fn(&str) -> Option<Vec<u8>>,
        DM: Fn(Vec<u8>) -> Option<M>,
        DN: Fn(Vec<u8>) -> Option<N>,
    >(
        self,
        read: &P,
        decode_metadata: &DM,
        decode_node: &DN,
    ) -> bool {
        &&& reads_string(read, "plugin_name", self.plugin_name)
        &&& reads_string(read, "plugin_root_id", self.plugin_root_id)
        &&& reads_string(read, "plugin_vm_id", self.plugin_vm_id)
        &&& reads_message(read, decode_node, "node", self.node)
        &&& reads_string(read, "cluster_name", self.cluster_name)
        &&& reads_message(read, decode_metadata, "cluster_metadata", self.cluster_metadata)
        &&& reads_direction(read, "listener_direction", self.listener_direction)
        &&& reads_message(read, decode_metadata, "listener_metadata", self.listener_metadata)
        &&& reads_string(read, "route_name", self.route_name)
        &&& reads_message(read, decode_metadata, "route_metadata", self.route_metadata)
        &&& reads_message(read, decode_metadata, "upstream_host_metadata",
            self.upstream_host_metadata)
    }

    /// Reads each attribute of the group through `read`.
    pub fn get<
        P: Fn(&str) -> Option<Vec<u8>>,
        DM: Fn(Vec<u8>) -> Option<M>,
        DN: Fn(Vec<u8>) -> Option<N>,
    >(
        a: &Attributes,
        read: &P,
        decode_metadata: &DM,
        decode_node: &DN,
    ) -> (r: Self)
        requires
            forall|name: &str| call_requires(read, (name,)),
            forall|bytes: Vec<u8>| call_requires(decode_metadata, (bytes,)),
            forall|bytes: Vec<u8>| call_requires(decode_node, (bytes,)),
        ensures
            r.was_read(read, decode_metadata, decode_node),
    {
        let plugin_name = a.wasm.plugin_name(read);
        let plugin_root_id = a.wasm.plugin_root_id(read);
        let plugin_vm_id = a.wasm.plugin_vm_id(read);
        let node = a.wasm.node(read, decode_node);
        let cluster_name = a.wasm.cluster_name(read);
        let cluster_metadata = a.wasm.cluster_metadata(read, decode_metadata);
        let listener_direction = a.wasm.listener_direction(read);
        let listener_metadata = a.wasm.listener_metadata(read, decode_metadata);
        let route_name = a.wasm.route_name(read);
        let route_metadata = a.wasm.route_metadata(read, decode_metadata);
        let upstream_host_metadata = a.wasm.upstream_host_metadata(read, decode_metadata);
        AllWasmAttributes {
            plugin_name,
            plugin_root_id,
            plugin_vm_id,
            node,
            cluster_name,
            cluster_metadata,
            listener_direction,
            listener_metadata,
            route_name,
            route_metadata,
            upstream_host_metadata,
        }
    }
}

/// All the attributes, read at once.
#[derive(Debug)]
pub struct AllAttributes<M, N> {
    pub request: AllRequestAttributes,
    pub response: AllResponseAttributes,
    pub connection: AllConnectionAttributes,
    pub upstream: AllUpstreamAttributes,
    pub metadata: AllMetadataAttributes<M>,
    pub configuration: AllConfigurationAttributes<M>,
    pub wasm: AllWasmAttributes<M, N>,
}

impl<M, N> AllAttributes<M, N> {
    /// Reads each attribute of each group through `read`.
    pub fn get<
        P: Fn(&str) -> Option<Vec<u8>>,
        D: Fn(Vec<u8>) -> Option<Vec<(String, Vec<u8>)>>,
        DM: Fn(Vec<u8>) -> Option<M>,
        DN: Fn(Vec<u8>) -> Option<N>,
    >(a: &Attributes, read: &P, decode_map: &D, decode_metadata: &DM, decode_node: &DN) -> (r: Self)
        requires
            forall|name: &str| call_requires(read, (name,)),
            forall|bytes: Vec<u8>| call_requires(decode_map, (bytes,)),
            forall|bytes: Vec<u8>| call_requires(decode_metadata, (bytes,)),
            forall|bytes: Vec<u8>| call_requires(decode_node, (bytes,)),
        ensures
            r.request.was_read(read, decode_map),
            r.response.was_read(read, decode_map),
            r.connection.was_read(read),
            r.upstream.was_read(read),
            r.metadata.was_read(read, decode_map, decode_metadata),
            r.configuration.was_read(read, decode_metadata),
            r.wasm.was_read(read, decode_metadata, decode_node),
    {
        AllAttributes {
            request: AllRequestAttributes::get(a, read, decode_map),
            response: AllResponseAttributes::get(a, read, decode_map),
            connection: AllConnectionAttributes::get(a, read),
            upstream: AllUpstreamAttributes::get(a, read),
            metadata: AllMetadataAttributes::get(a, read, decode_map, decode_metadata),
            configuration: AllConfigurationAttributes::get(a, read, decode_metadata),
            wasm: AllWasmAttributes::get(a, read, decode_metadata, decode_node),
        }
    }
}

} // verus!

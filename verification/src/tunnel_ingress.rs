//! The tunnel-ingress resource: per-route configuration for a tunnel.
//!
//! Its reconciler performs no routing materialization yet; it only
//! requeues each object on a long fixed timer, the hook point where route
//! synchronization would be driven from.

use crate::policy::{Action, Error};
use vstd::prelude::*;

verus! {

/// Interval, in seconds, between two passes over one tunnel-ingress
/// object.
pub const TUNNEL_INGRESS_TIMER: u64 = 3000;

/// Access control demanded of requests entering through a route.
#[derive(Debug, PartialEq)]
pub struct OriginRequestAccess {
    pub aud_tag: Vec<String>,
    pub required: bool,
    pub team_name: String,
}

/// Mathematical model of [`OriginRequestAccess`].
pub struct OriginRequestAccessView {
    pub aud_tag: Seq<Seq<char>>,
    pub required: bool,
    pub team_name: Seq<char>,
}

impl View for OriginRequestAccess {
    type V = OriginRequestAccessView;

    open spec fn view(&self) -> OriginRequestAccessView {
        OriginRequestAccessView {
            aud_tag: self.aud_tag.deep_view(),
            required: self.required,
            team_name: self.team_name@,
        }
    }
}

impl DeepView for OriginRequestAccess {
    type V = OriginRequestAccessView;

    open spec fn deep_view(&self) -> OriginRequestAccessView {
        self.view()
    }
}

/// How the tunnel agent talks to the origin behind a route.
#[derive(Debug, PartialEq)]
pub struct OriginRequest {
    pub access: Option<OriginRequestAccess>,
    pub ca_pool: Option<String>,
    pub connection_timeout: i32,
    pub disable_chunked_encoding: bool,
    pub http2origin: bool,
    pub http_host_header: Option<String>,
    pub keep_alive_connections: i32,
    pub keep_alive_timeout: i32,
    pub no_happy_eyeballs: bool,
    pub no_tls_verify: bool,
    pub origin_server_name: Option<String>,
    pub proxy_type: Option<String>,
    pub tcp_keep_alive: i32,
    pub tls_timeout: i32,
}

/// Mathematical model of [`OriginRequest`].
pub struct OriginRequestView {
    pub access: Option<OriginRequestAccessView>,
    pub ca_pool: Option<Seq<char>>,
    pub connection_timeout: i32,
    pub disable_chunked_encoding: bool,
    pub http2origin: bool,
    pub http_host_header: Option<Seq<char>>,
    pub keep_alive_connections: i32,
    pub keep_alive_timeout: i32,
    pub no_happy_eyeballs: bool,
    pub no_tls_verify: bool,
    pub origin_server_name: Option<Seq<char>>,
    pub proxy_type: Option<Seq<char>>,
    pub tcp_keep_alive: i32,
    pub tls_timeout: i32,
}

impl View for OriginRequest {
    type V = OriginRequestView;

    open spec fn view(&self) -> OriginRequestView {
        OriginRequestView {
            access: self.access.deep_view(),
            ca_pool: self.ca_pool.deep_view(),
            connection_timeout: self.connection_timeout,
            disable_chunked_encoding: self.disable_chunked_encoding,
            http2origin: self.http2origin,
            http_host_header: self.http_host_header.deep_view(),
            keep_alive_connections: self.keep_alive_connections,
            keep_alive_timeout: self.keep_alive_timeout,
            no_happy_eyeballs: self.no_happy_eyeballs,
            no_tls_verify: self.no_tls_verify,
            origin_server_name: self.origin_server_name.deep_view(),
            proxy_type: self.proxy_type.deep_view(),
            tcp_keep_alive: self.tcp_keep_alive,
            tls_timeout: self.tls_timeout,
        }
    }
}

impl DeepView for OriginRequest {
    type V = OriginRequestView;

    open spec fn deep_view(&self) -> OriginRequestView {
        self.view()
    }
}

/// Desired state of one tunnel-ingress object: one route of a tunnel.
#[derive(Debug, PartialEq)]
pub struct TunnelIngressCrd {
    /// Name of the tunnel the route belongs to.
    pub tunnel: String,
    pub hostname: Option<String>,
    pub origin_request: Option<OriginRequest>,
    pub path: Option<String>,
    pub service: String,
}

/// Mathematical model of [`TunnelIngressCrd`].
pub struct TunnelIngressCrdView {
    pub tunnel: Seq<char>,
    pub hostname: Option<Seq<char>>,
    pub origin_request: Option<OriginRequestView>,
    pub path: Option<Seq<char>>,
    pub service: Seq<char>,
}

impl View for TunnelIngressCrd {
    type V = TunnelIngressCrdView;

    open spec fn view(&self) -> TunnelIngressCrdView {
        TunnelIngressCrdView {
            tunnel: self.tunnel@,
            hostname: self.hostname.deep_view(),
            origin_request: self.origin_request.deep_view(),
            path: self.path.deep_view(),
            service: self.service.deep_view(),
        }
    }
}

impl DeepView for TunnelIngressCrd {
    type V = TunnelIngressCrdView;

    open spec fn deep_view(&self) -> TunnelIngressCrdView {
        self.view()
    }
}

/// One pass over a tunnel-ingress object: requeue it on the fixed timer.
pub fn reconciler(_object: &TunnelIngressCrd) -> (a: Action)
    ensures
        a == Action::Requeue(TUNNEL_INGRESS_TIMER),
{
    Action::Requeue(TUNNEL_INGRESS_TIMER)
}

/// A failed pass requeues on the same fixed timer.
pub fn on_err(_object: &TunnelIngressCrd, _error: &Error) -> (a: Action)
    ensures
        a == Action::Requeue(TUNNEL_INGRESS_TIMER),
{
    Action::Requeue(TUNNEL_INGRESS_TIMER)
}

} // verus!

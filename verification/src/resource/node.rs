//! The node: the host that owns every other resource.

use vstd::prelude::*;
use vstd::string::*;
use crate::href::{text_of, url_host, url_known_port, url_port, url_text, Href};
use crate::ident::{id_text, id_to_text};
use crate::resource::{
    Registerable, RegistrationRequest, ResourceCore, ResourceCoreBuilder, ResourceJson, TagView,
};
use crate::schema::{v1_0_x, v1_3_x};
use crate::text::{copy_optional_text};
use crate::version::APIVersion;

verus! {

/// A service that a node advertises.
#[derive(Debug, PartialEq, Eq)]
pub struct NodeService {
    pub href: String,
    pub type_: String,
}

/// Collects what a node will hold.
#[derive(Debug)]
pub struct NodeBuilder {
    pub core: ResourceCoreBuilder,
    pub href: String,
    pub hostname: Option<String>,
    pub services: Vec<NodeService>,
}

/// The node itself.
#[derive(Debug)]
pub struct Node {
    pub core: ResourceCore,
    pub href: Href,
    pub hostname: Option<String>,
    pub services: Vec<NodeService>,
}

/// The payload of a node under one of the supported revisions.
#[derive(Debug, PartialEq, Eq)]
pub enum NodeJson {
    V1_0(v1_0_x::Node),
    V1_3(v1_3_x::Node),
}

/// `out` lists the services in their order, href and type.
pub open spec fn services_v1_0(out: Seq<v1_0_x::NodeItemServices>, services: Seq<NodeService>) -> bool {
    &&& out.len() == services.len()
    &&& forall|i: int|
        0 <= i < out.len() ==> (#[trigger] out[i]).href@ == services[i].href@ && out[i].type_@
            == services[i].type_@
}

/// `out` lists the services in their order, href and type, none with a word
/// on authorization.
pub open spec fn services_v1_3(out: Seq<v1_3_x::NodeItemServices>, services: Seq<NodeService>) -> bool {
    &&& out.len() == services.len()
    &&& forall|i: int|
        0 <= i < out.len() ==> (#[trigger] out[i]).href@ == services[i].href@ && out[i].type_@
            == services[i].type_@ && out[i].authorization is None
}

impl NodeBuilder {
    /// A builder for a node with the given label and address, no hostname and
    /// no services.
    pub fn new(label: &str, href: &str) -> (r: NodeBuilder)
        ensures
            r.core.label@ == label@,
            r.core.description@ == Seq::<char>::empty(),
            r.core.tags@ == Seq::<TagView>::empty(),
            r.href@ == href@,
            r.hostname is None,
            r.services@.len() == 0,
    {
        NodeBuilder {
            core: ResourceCoreBuilder::new(label),
            href: href.to_owned(),
            hostname: None,
            services: Vec::new(),
        }
    }

    /// Adds a service after those already there.
    pub fn with_service(self, service: NodeService) -> (r: NodeBuilder)
        ensures
            r.core == self.core,
            r.href == self.href,
            r.hostname == self.hostname,
            r.services@ == self.services@.push(service),
    {
        let mut services = self.services;
        services.push(service);
        NodeBuilder { core: self.core, href: self.href, hostname: self.hostname, services }
    }

    /// The node at an address that was parsed already, with a fresh
    /// identifier and version stamp. The text of the address that the
    /// builder holds is not looked at.
    pub fn build_at(self, href: Href) -> (r: Node)
        ensures
            r.core.label == self.core.label,
            r.core.description == self.core.description,
            r.core.tags == self.core.tags,
            r.core.fresh(),
            r.href == href,
            r.hostname == self.hostname,
            r.services == self.services,
    {
        Node { core: self.core.build(), href, hostname: self.hostname, services: self.services }
    }

    /// The node, with a fresh identifier and version stamp. The address must
    /// be an absolute URL.
    pub fn build(self) -> (r: Node)
        requires
            url_text(self.href@) is Some,
        ensures
            r.core.label == self.core.label,
            r.core.description == self.core.description,
            r.core.tags == self.core.tags,
            r.core.fresh(),
            Some(r.href.text()) == url_text(self.href@),
            r.href.host() == url_host(self.href@),
            r.href.port() == url_port(self.href@),
            r.href.known_port() == url_known_port(self.href@),
            r.hostname == self.hostname,
            r.services == self.services,
    {
        let href = Href::parse(self.href.as_str()).unwrap();
        self.build_at(href)
    }

    /// The node, or `None` where the address is no absolute URL.
    pub fn try_build(self) -> (r: Option<Node>)
        ensures
            r is Some <==> url_text(self.href@) is Some,
            r matches Some(node) ==> {
                &&& node.core.label == self.core.label
                &&& node.core.description == self.core.description
                &&& node.core.tags == self.core.tags
                &&& node.core.fresh()
                &&& Some(node.href.text()) == url_text(self.href@)
                &&& node.href.host() == url_host(self.href@)
                &&& node.href.port() == url_port(self.href@)
                &&& node.href.known_port() == url_known_port(self.href@)
                &&& node.hostname == self.hostname
                &&& node.services == self.services
            },
    {
        if Href::parse(self.href.as_str()).is_some() {
            Some(self.build())
        } else {
            None
        }
    }
}

impl Node {
    /// A builder for a node with the given label and address.
    pub fn builder(label: &str, href: &str) -> (r: NodeBuilder)
        ensures
            r.core.label@ == label@,
            r.core.description@ == Seq::<char>::empty(),
            r.core.tags@ == Seq::<TagView>::empty(),
            r.href@ == href@,
            r.hostname is None,
            r.services@.len() == 0,
    {
        NodeBuilder::new(label, href)
    }

    /// Both nodes say the same.
    pub open spec fn same_as(self, other: Node) -> bool {
        &&& self.core.same_as(other.core)
        &&& self.href.text() == other.href.text()
        &&& self.href.host() == other.href.host()
        &&& self.href.port() == other.href.port()
        &&& self.href.known_port() == other.href.known_port()
        &&& text_of(self.hostname) == text_of(other.hostname)
        &&& self.services@.len() == other.services@.len()
        &&& forall|i: int|
            0 <= i < self.services@.len() ==> (#[trigger] self.services@[i]).href@
                == other.services@[i].href@ && self.services@[i].type_@ == other.services@[i].type_@
    }

    /// A copy of the node.
    pub fn duplicate(&self) -> (r: Node)
        ensures
            r.same_as(*self),
    {
        let mut services: Vec<NodeService> = Vec::new();
        let mut i: usize = 0;
        while i < self.services.len()
            invariant
                i <= self.services@.len(),
                services@.len() == i,
                forall|j: int|
                    0 <= j < i ==> (#[trigger] services@[j]).href@ == self.services@[j].href@
                        && services@[j].type_@ == self.services@[j].type_@,
            decreases self.services@.len() - i,
        {
            services.push(
                NodeService {
                    href: self.services[i].href.clone(),
                    type_: self.services[i].type_.clone(),
                },
            );
            i = i + 1;
        }
        Node {
            core: self.core.duplicate(),
            href: self.href.duplicate(),
            hostname: copy_optional_text(&self.hostname),
            services,
        }
    }

    /// `out` is this node as revision 1.0 writes it.
    pub open spec fn written_v1_0(self, out: v1_0_x::Node) -> bool {
        &&& out.id@ == id_text(self.core.id)
        &&& out.version@ == self.core.version.text()
        &&& out.label@ == self.core.label@
        &&& out.href@ == self.href.text()
        &&& text_of(out.hostname) == text_of(self.hostname)
        &&& services_v1_0(out.services@, self.services@)
    }

    /// `out` is this node as revision 1.3 writes it: one internal clock named
    /// `clk0`, no interfaces, and the endpoints of the node's address.
    pub open spec fn written_v1_3(self, out: v1_3_x::Node) -> bool {
        &&& out.description@ == self.core.description@
        &&& out.id@ == id_text(self.core.id)
        &&& out.version@ == self.core.version.text()
        &&& out.label@ == self.core.label@
        &&& out.href@ == self.href.text()
        &&& text_of(out.hostname) == text_of(self.hostname)
        &&& out.clocks@.len() == 1
        &&& out.clocks@[0].name@ == "clk0"@
        &&& out.clocks@[0].ref_type@ == "internal"@
        &&& out.interfaces@.len() == 0
        &&& out.api.versions@.len() == 1
        &&& out.api.versions@[0]@ == (APIVersion { major: 1, minor: 3 }).text()
        &&& self.written_endpoints(out.api.endpoints@)
        &&& out.tags@ == self.core.tags@
        &&& services_v1_3(out.services@, self.services@)
    }

    /// `out` lists the endpoints of the node's address. An address with a
    /// host and a port at which it is reached has one endpoint: that host
    /// and that port, which is the port the address names or else the
    /// default of its scheme, over plain `http` without authorization. An
    /// address without host, or without a port that is named or known, has
    /// no endpoint.
    pub open spec fn written_endpoints(self, out: Seq<v1_3_x::NodeApiItemEndpoints>) -> bool {
        match (self.href.host(), self.href.known_port()) {
            (Some(host), Some(port)) => {
                &&& out.len() == 1
                &&& out[0].host@ == host
                &&& out[0].port == port as i64
                &&& out[0].protocol@ == "http"@
                &&& out[0].authorization == Some(false)
            },
            _ => out.len() == 0,
        }
    }

    /// `out` is this node's payload under `api`.
    pub open spec fn rendered(self, api: APIVersion, out: NodeJson) -> bool {
        match out {
            NodeJson::V1_0(p) => api == (APIVersion { major: 1, minor: 0 }) && self.written_v1_0(p),
            NodeJson::V1_3(p) => api == (APIVersion { major: 1, minor: 3 }) && self.written_v1_3(p),
        }
    }

    fn endpoints_json(&self) -> (r: Vec<v1_3_x::NodeApiItemEndpoints>)
        ensures
            self.written_endpoints(r@),
    {
        let mut endpoints: Vec<v1_3_x::NodeApiItemEndpoints> = Vec::new();
        match (self.href.host_str(), self.href.known_port_number()) {
            (Some(host), Some(port)) => {
                endpoints.push(
                    v1_3_x::NodeApiItemEndpoints {
                        host: host.to_owned(),
                        port: port as i64,
                        protocol: "http".to_owned(),
                        authorization: Some(false),
                    },
                );
            },
            _ => {},
        }
        endpoints
    }

    fn services_json_v1_0(&self) -> (r: Vec<v1_0_x::NodeItemServices>)
        ensures
            services_v1_0(r@, self.services@),
    {
        let mut r: Vec<v1_0_x::NodeItemServices> = Vec::new();
        let mut i: usize = 0;
        while i < self.services.len()
            invariant
                i <= self.services@.len(),
                r@.len() == i,
                forall|j: int|
                    0 <= j < i ==> (#[trigger] r@[j]).href@ == self.services@[j].href@
                        && r@[j].type_@ == self.services@[j].type_@,
            decreases self.services@.len() - i,
        {
            r.push(
                v1_0_x::NodeItemServices {
                    href: self.services[i].href.clone(),
                    type_: self.services[i].type_.clone(),
                },
            );
            i = i + 1;
        }
        r
    }

    fn services_json_v1_3(&self) -> (r: Vec<v1_3_x::NodeItemServices>)
        ensures
            services_v1_3(r@, self.services@),
    {
        let mut r: Vec<v1_3_x::NodeItemServices> = Vec::new();
        let mut i: usize = 0;
        while i < self.services.len()
            invariant
                i <= self.services@.len(),
                r@.len() == i,
                forall|j: int|
                    0 <= j < i ==> (#[trigger] r@[j]).href@ == self.services@[j].href@
                        && r@[j].type_@ == self.services@[j].type_@ && r@[j].authorization is None,
            decreases self.services@.len() - i,
        {
            r.push(
                v1_3_x::NodeItemServices {
                    authorization: None,
                    href: self.services[i].href.clone(),
                    type_: self.services[i].type_.clone(),
                },
            );
            i = i + 1;
        }
        r
    }

    /// The node's payload under `api`.
    pub fn to_json(&self, api: &APIVersion) -> (r: NodeJson)
        requires
            api.supported(),
        ensures
            self.rendered(*api, r),
    {
        if api.minor == 0 {
            NodeJson::V1_0(
                v1_0_x::Node {
                    id: id_to_text(self.core.id),
                    version: self.core.version.to_text(),
                    label: self.core.label.clone(),
                    href: self.href.as_str().to_owned(),
                    hostname: copy_optional_text(&self.hostname),
                    caps: v1_0_x::Caps {  },
                    services: self.services_json_v1_0(),
                },
            )
        } else {
            let mut clocks: Vec<v1_3_x::NodeItemClocks> = Vec::new();
            clocks.push(
                v1_3_x::NodeItemClocks { name: "clk0".to_owned(), ref_type: "internal".to_owned() },
            );
            let mut versions: Vec<String> = Vec::new();
            versions.push(APIVersion::v1_3().to_text());
            let endpoints = self.endpoints_json();
            NodeJson::V1_3(
                v1_3_x::Node {
                    description: self.core.description.clone(),
                    id: id_to_text(self.core.id),
                    version: self.core.version.to_text(),
                    label: self.core.label.clone(),
                    href: self.href.as_str().to_owned(),
                    hostname: copy_optional_text(&self.hostname),
                    caps: v1_3_x::Caps {  },
                    clocks,
                    interfaces: Vec::new(),
                    api: v1_3_x::NodeApi { versions, endpoints },
                    tags: self.core.tags_json(),
                    services: self.services_json_v1_3(),
                },
            )
        }
    }
}

impl Registerable for Node {
    open spec fn path(&self) -> Seq<char> {
        "nodes/"@ + id_text(self.core.id)
    }

    open spec fn requested_by(&self, api: APIVersion, request: RegistrationRequest) -> bool {
        &&& request.type_@ == "node"@
        &&& request.data matches ResourceJson::Node(json)
        &&& self.rendered(api, json)
    }

    fn registry_path(&self) -> (r: String) {
        let mut r: String = "nodes/".to_owned();
        let id = id_to_text(self.core.id);
        r.append(id.as_str());
        r
    }

    fn registration_request(&self, api: &APIVersion) -> (r: RegistrationRequest) {
        RegistrationRequest { type_: "node".to_owned(), data: ResourceJson::Node(self.to_json(api)) }
    }
}

} // verus!

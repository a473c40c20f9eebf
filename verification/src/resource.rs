//! What every resource has in common: its core, its tags, the kinds of
//! media and transport, and what it takes to be registered.

pub mod capabilities;
pub mod device;
pub mod flow;
pub mod node;
pub mod receiver;
pub mod sender;
pub mod source;

use vstd::prelude::*;
use vstd::string::*;
use crate::ident::fresh_id;
use crate::tai::TaiTime;
use crate::text::{copy_texts, same_text, views};
use crate::version::APIVersion;
use crate::resource::device::{Device, DeviceJson};
use crate::resource::flow::{Flow, FlowJson};
use crate::resource::node::{Node, NodeJson};
use crate::resource::receiver::{Receiver, ReceiverJson};
use crate::resource::sender::{Sender, SenderJson};
use crate::resource::source::{Source, SourceJson};

verus! {

/// The kind of media that a source, flow or receiver handles.
#[derive(Clone, Copy, Debug, PartialEq, Eq, Structural)]
pub enum Format {
    Video,
    Audio,
    Data,
}

impl Format {
    /// The name of the format on the wire.
    pub open spec fn urn(self) -> Seq<char> {
        match self {
            Format::Video => "urn:x-nmos:format:video"@,
            Format::Audio => "urn:x-nmos:format:audio"@,
            Format::Data => "urn:x-nmos:format:data"@,
        }
    }

    /// Writes the name of the format.
    pub fn to_text(&self) -> (r: String)
        ensures
            r@ == self.urn(),
    {
        match self {
            Format::Video => "urn:x-nmos:format:video".to_owned(),
            Format::Audio => "urn:x-nmos:format:audio".to_owned(),
            Format::Data => "urn:x-nmos:format:data".to_owned(),
        }
    }
}

/// How a sender sends and a receiver receives.
#[derive(Clone, Copy, Debug, PartialEq, Eq, Structural)]
pub enum Transport {
    Rtp,
    RtpUnicast,
    RtpMulticast,
    Dash,
}

impl Transport {
    /// The name of the transport on the wire.
    pub open spec fn urn(self) -> Seq<char> {
        match self {
            Transport::Rtp => "urn:x-nmos:transport:rtp"@,
            Transport::RtpUnicast => "urn:x-nmos:transport:rtp.ucast"@,
            Transport::RtpMulticast => "urn:x-nmos:transport:rtp.mcast"@,
            Transport::Dash => "urn:x-nmos:transport:dash"@,
        }
    }

    /// Writes the name of the transport.
    pub fn to_text(&self) -> (r: String)
        ensures
            r@ == self.urn(),
    {
        match self {
            Transport::Rtp => "urn:x-nmos:transport:rtp".to_owned(),
            Transport::RtpUnicast => "urn:x-nmos:transport:rtp.ucast".to_owned(),
            Transport::RtpMulticast => "urn:x-nmos:transport:rtp.mcast".to_owned(),
            Transport::Dash => "urn:x-nmos:transport:dash".to_owned(),
        }
    }
}

/// One tag: a key and the values listed under it.
#[derive(Debug, PartialEq, Eq)]
pub struct Tag {
    pub key: String,
    pub values: Vec<String>,
}

/// A tag as characters.
pub struct TagView {
    pub key: Seq<char>,
    pub values: Seq<Seq<char>>,
}

impl View for Tag {
    type V = TagView;

    open spec fn view(&self) -> TagView {
        TagView { key: self.key@, values: views(self.values@) }
    }
}

/// The tags of a list, as characters.
pub open spec fn tag_views(tags: Seq<Tag>) -> Seq<TagView> {
    tags.map_values(|t: Tag| t@)
}

/// No key stands twice in the list.
pub open spec fn distinct_keys(tags: Seq<TagView>) -> bool {
    forall|i: int, j: int| 0 <= i < j < tags.len() ==> tags[i].key != tags[j].key
}

/// The list with `values` under `key`: in the place of the first tag of that
/// key if there is one, at the end if there is none.
pub open spec fn with_tag(tags: Seq<TagView>, key: Seq<char>, values: Seq<Seq<char>>) -> Seq<
    TagView,
>
    decreases tags.len(),
{
    if tags.len() == 0 {
        seq![TagView { key, values }]
    } else if tags[0].key == key {
        seq![TagView { key, values }] + tags.drop_first()
    } else {
        seq![tags[0]] + with_tag(tags.drop_first(), key, values)
    }
}

/// Where no tag before place `i` has the key, setting it is an update at `i`
/// if the tag there has the key, and a push if `i` is the end.
pub proof fn lemma_with_tag_at(
    tags: Seq<TagView>,
    key: Seq<char>,
    values: Seq<Seq<char>>,
    i: int,
)
    requires
        0 <= i <= tags.len(),
        forall|j: int| 0 <= j < i ==> tags[j].key != key,
        i < tags.len() ==> tags[i].key == key,
    ensures
        i < tags.len() ==> with_tag(tags, key, values) == tags.update(i, TagView { key, values }),
        i == tags.len() ==> with_tag(tags, key, values) == tags.push(TagView { key, values }),
    decreases tags.len(),
{
    if tags.len() == 0 {
        assert(with_tag(tags, key, values) =~= tags.push(TagView { key, values }));
    } else if i == 0 {
        assert(with_tag(tags, key, values) =~= tags.update(0, TagView { key, values }));
    } else {
        let rest = tags.drop_first();
        assert forall|j: int| 0 <= j < i - 1 implies rest[j].key != key by {
            assert(rest[j] == tags[j + 1]);
        }
        lemma_with_tag_at(rest, key, values, i - 1);
        if i < tags.len() {
            assert(with_tag(tags, key, values) =~= tags.update(i, TagView { key, values }));
        } else {
            assert(with_tag(tags, key, values) =~= tags.push(TagView { key, values }));
        }
    }
}

/// The tags of a resource: lists of values under keys, each key once, in the
/// order in which the keys were first set.
#[derive(Debug, PartialEq, Eq)]
pub struct Tags {
    entries: Vec<Tag>,
}

impl View for Tags {
    type V = Seq<TagView>;

    closed spec fn view(&self) -> Seq<TagView> {
        tag_views(self.entries@)
    }
}

impl Tags {
    #[verifier::type_invariant]
    spec fn keys_once(&self) -> bool {
        distinct_keys(tag_views(self.entries@))
    }

    /// No tags.
    pub fn new() -> (r: Tags)
        ensures
            r@ == Seq::<TagView>::empty(),
            distinct_keys(r@),
    {
        let entries: Vec<Tag> = Vec::new();
        assert(tag_views(entries@) =~= Seq::<TagView>::empty());
        Tags { entries }
    }

    pub fn is_empty(&self) -> (r: bool)
        ensures
            r == (self@.len() == 0),
    {
        self.entries.len() == 0
    }

    /// The number of tags. No key stands twice among them.
    pub fn len(&self) -> (r: usize)
        ensures
            r == self@.len(),
            distinct_keys(self@),
    {
        proof {
            use_type_invariant(self);
        }
        self.entries.len()
    }

    /// The key of the tag at place `i`.
    pub fn key_at(&self, i: usize) -> (r: &str)
        requires
            i < self@.len(),
        ensures
            r@ == self@[i as int].key,
    {
        self.entries[i].key.as_str()
    }

    /// The values of the tag at place `i`.
    pub fn values_at(&self, i: usize) -> (r: &Vec<String>)
        requires
            i < self@.len(),
        ensures
            views(r@) == self@[i as int].values,
    {
        &self.entries[i].values
    }

    /// The tags with `values` under `key`. A key that is there already keeps
    /// its place and loses its old values.
    pub fn with(self, key: &str, values: Vec<String>) -> (r: Tags)
        ensures
            r@ == with_tag(self@, key@, views(values@)),
            distinct_keys(r@),
    {
        proof {
            use_type_invariant(&self);
        }
        let ghost before = tag_views(self.entries@);
        let ghost new_tag = TagView { key: key@, values: views(values@) };
        let mut entries = self.entries;
        let n: usize = entries.len();
        let mut i: usize = 0;
        while i < n && !same_text(entries[i].key.as_str(), key)
            invariant
                i <= n,
                n == entries@.len(),
                before == tag_views(entries@),
                forall|j: int| 0 <= j < i ==> before[j].key != key@,
            decreases n - i,
        {
            i = i + 1;
        }
        proof {
            lemma_with_tag_at(before, key@, views(values@), i as int);
        }
        let tag = Tag { key: key.to_owned(), values };
        if i < n {
            entries.set(i, tag);
            proof {
                let after = before.update(i as int, new_tag);
                assert(tag_views(entries@) =~= after);
                assert forall|a: int, b: int| 0 <= a < b < after.len() implies after[a].key
                    != after[b].key by {
                    assert(after[a].key == before[a].key);
                    assert(after[b].key == before[b].key);
                }
            }
        } else {
            entries.push(tag);
            proof {
                let after = before.push(new_tag);
                assert(tag_views(entries@) =~= after);
                assert forall|a: int, b: int| 0 <= a < b < after.len() implies after[a].key
                    != after[b].key by {
                    if b < before.len() {
                        assert(after[a].key == before[a].key);
                        assert(after[b].key == before[b].key);
                    }
                }
            }
        }
        Tags { entries }
    }

    /// A copy of the tags.
    pub fn duplicate(&self) -> (r: Tags)
        ensures
            r@ == self@,
    {
        proof {
            use_type_invariant(self);
        }
        let mut entries: Vec<Tag> = Vec::new();
        let mut i: usize = 0;
        while i < self.entries.len()
            invariant
                i <= self.entries@.len(),
                tag_views(entries@) == tag_views(self.entries@).subrange(0, i as int),
            decreases self.entries.len() - i,
        {
            let ghost done = entries@;
            let tag = Tag {
                key: self.entries[i].key.clone(),
                values: copy_texts(&self.entries[i].values),
            };
            entries.push(tag);
            proof {
                assert(tag_views(entries@) =~= tag_views(done).push(tag@));
                assert(tag_views(self.entries@).subrange(0, i + 1) =~= tag_views(
                    self.entries@,
                ).subrange(0, i as int).push(self.entries@[i as int]@));
            }
            i = i + 1;
        }
        proof {
            assert(tag_views(self.entries@).subrange(0, self.entries@.len() as int) =~= tag_views(
                self.entries@,
            ));
        }
        Tags { entries }
    }
}

/// What every resource carries: its identifier, its version stamp and how
/// people describe it.
#[derive(Debug)]
pub struct ResourceCore {
    pub id: u128,
    pub version: TaiTime,
    pub label: String,
    pub description: String,
    pub tags: Tags,
}

impl ResourceCore {
    /// A copy of the tags, as payloads carry them.
    pub fn tags_json(&self) -> (r: Tags)
        ensures
            r@ == self.tags@,
    {
        self.tags.duplicate()
    }

    /// Both cores say the same.
    pub open spec fn same_as(self, other: ResourceCore) -> bool {
        &&& self.id == other.id
        &&& self.version == other.version
        &&& self.label@ == other.label@
        &&& self.description@ == other.description@
        &&& self.tags@ == other.tags@
    }

    /// A copy of the core.
    pub fn duplicate(&self) -> (r: ResourceCore)
        ensures
            r.same_as(*self),
    {
        ResourceCore {
            id: self.id,
            version: self.version,
            label: self.label.clone(),
            description: self.description.clone(),
            tags: self.tags.duplicate(),
        }
    }

    /// The core carries what a fresh core carries: an identifier of the
    /// random kind and a version stamp whose nanoseconds stay below one
    /// second.
    pub open spec fn fresh(self) -> bool {
        &&& (self.id >> 76u128) & 0xfu128 == 4u128
        &&& (self.id >> 62u128) & 0x3u128 == 2u128
        &&& self.version.nanoseconds < 1_000_000_000
    }
}

/// Collects what a resource's core will hold.
#[derive(Debug)]
pub struct ResourceCoreBuilder {
    pub label: String,
    pub description: String,
    pub tags: Tags,
}

impl ResourceCoreBuilder {
    /// A builder with the given label, an empty description and no tags.
    pub fn new(label: &str) -> (r: ResourceCoreBuilder)
        ensures
            r.label@ == label@,
            r.description@ == Seq::<char>::empty(),
            r.tags@ == Seq::<TagView>::empty(),
    {
        ResourceCoreBuilder { label: label.to_owned(), description: String::new(), tags: Tags::new() }
    }

    /// Sets the description.
    pub fn description(self, description: &str) -> (r: ResourceCoreBuilder)
        ensures
            r.label == self.label,
            r.description@ == description@,
            r.tags == self.tags,
    {
        ResourceCoreBuilder {
            label: self.label,
            description: description.to_owned(),
            tags: self.tags,
        }
    }

    /// Sets the values under a key.
    pub fn tag(self, key: &str, values: Vec<String>) -> (r: ResourceCoreBuilder)
        ensures
            r.label == self.label,
            r.description == self.description,
            r.tags@ == with_tag(self.tags@, key@, views(values@)),
    {
        ResourceCoreBuilder {
            label: self.label,
            description: self.description,
            tags: self.tags.with(key, values),
        }
    }

    /// The core with the given identifier and version stamp.
    pub fn build_with(self, id: u128, version: TaiTime) -> (r: ResourceCore)
        ensures
            r == (ResourceCore {
                id,
                version,
                label: self.label,
                description: self.description,
                tags: self.tags,
            }),
    {
        ResourceCore {
            id,
            version,
            label: self.label,
            description: self.description,
            tags: self.tags,
        }
    }

    /// The core with a fresh random identifier and the clock's time as its
    /// version stamp.
    pub fn build(self) -> (r: ResourceCore)
        ensures
            r.label == self.label,
            r.description == self.description,
            r.tags == self.tags,
            r.fresh(),
    {
        let id = fresh_id();
        let version = TaiTime::now();
        self.build_with(id, version)
    }
}

/// The payload of a resource of any kind.
#[derive(Debug, PartialEq, Eq)]
pub enum ResourceJson {
    Node(NodeJson),
    Device(DeviceJson),
    Source(SourceJson),
    Flow(FlowJson),
    Sender(SenderJson),
    Receiver(ReceiverJson),
}

/// What a registry is sent to register a resource: the name of the
/// resource's kind and its payload.
#[derive(Debug, PartialEq, Eq)]
pub struct RegistrationRequest {
    pub type_: String,
    pub data: ResourceJson,
}

/// What the registration logic asks of a resource, whatever its kind: its
/// place at a registry, and the request that registers it under any
/// supported revision.
pub trait Registerable: Send + Sync {
    /// The resource's place below a registry's resource root.
    spec fn path(&self) -> Seq<char>;

    /// Whether `request` is what registers this resource under `api`.
    spec fn requested_by(&self, api: APIVersion, request: RegistrationRequest) -> bool;

    /// Writes the resource's place below a registry's resource root.
    fn registry_path(&self) -> (r: String)
        ensures
            r@ == self.path(),
    ;

    /// The request that registers this resource under `api`. There is one
    /// for every resource under every supported revision.
    fn registration_request(&self, api: &APIVersion) -> (r: RegistrationRequest)
        requires
            api.supported(),
        ensures
            self.requested_by(*api, r),
    ;
}

/// The six kinds of resource, in the order in which a registry must learn
/// of them: each kind refers only to kinds before it.
#[derive(Clone, Copy, Debug, PartialEq, Eq, Structural)]
pub enum ResourceKind {
    Node,
    Device,
    Source,
    Flow,
    Sender,
    Receiver,
}

impl ResourceKind {
    /// The kind's place in the order of registration.
    pub open spec fn rank(self) -> nat {
        match self {
            ResourceKind::Node => 0,
            ResourceKind::Device => 1,
            ResourceKind::Source => 2,
            ResourceKind::Flow => 3,
            ResourceKind::Sender => 4,
            ResourceKind::Receiver => 5,
        }
    }

    /// The kind's place in the order of registration.
    pub fn order(&self) -> (r: u8)
        ensures
            r == self.rank(),
    {
        match self {
            ResourceKind::Node => 0,
            ResourceKind::Device => 1,
            ResourceKind::Source => 2,
            ResourceKind::Flow => 3,
            ResourceKind::Sender => 4,
            ResourceKind::Receiver => 5,
        }
    }
}

/// A resource that knows its identifier.
pub trait Identified {
    /// The identifier.
    spec fn ident(&self) -> u128;

    /// The identifier.
    fn id(&self) -> (r: u128)
        ensures
            r == self.ident(),
    ;
}

impl Identified for Node {
    open spec fn ident(&self) -> u128 {
        self.core.id
    }

    fn id(&self) -> (r: u128) {
        self.core.id
    }
}

impl Identified for Device {
    open spec fn ident(&self) -> u128 {
        self.core.id
    }

    fn id(&self) -> (r: u128) {
        self.core.id
    }
}

impl Identified for Source {
    open spec fn ident(&self) -> u128 {
        self.core.id
    }

    fn id(&self) -> (r: u128) {
        self.core.id
    }
}

impl Identified for Flow {
    open spec fn ident(&self) -> u128 {
        self.core.id
    }

    fn id(&self) -> (r: u128) {
        self.core.id
    }
}

impl Identified for Sender {
    open spec fn ident(&self) -> u128 {
        self.core.id
    }

    fn id(&self) -> (r: u128) {
        self.core.id
    }
}

impl Identified for Receiver {
    open spec fn ident(&self) -> u128 {
        self.core.id
    }

    fn id(&self) -> (r: u128) {
        self.core.id
    }
}

/// A resource of any kind.
#[derive(Debug)]
pub enum Resource {
    Node(Node),
    Device(Device),
    Source(Source),
    Flow(Flow),
    Sender(Sender),
    Receiver(Receiver),
}

impl Resource {
    /// The kind of the resource.
    pub open spec fn kind_of(self) -> ResourceKind {
        match self {
            Resource::Node(_) => ResourceKind::Node,
            Resource::Device(_) => ResourceKind::Device,
            Resource::Source(_) => ResourceKind::Source,
            Resource::Flow(_) => ResourceKind::Flow,
            Resource::Sender(_) => ResourceKind::Sender,
            Resource::Receiver(_) => ResourceKind::Receiver,
        }
    }

    /// The kind of the resource.
    pub fn kind(&self) -> (r: ResourceKind)
        ensures
            r == self.kind_of(),
    {
        match self {
            Resource::Node(_) => ResourceKind::Node,
            Resource::Device(_) => ResourceKind::Device,
            Resource::Source(_) => ResourceKind::Source,
            Resource::Flow(_) => ResourceKind::Flow,
            Resource::Sender(_) => ResourceKind::Sender,
            Resource::Receiver(_) => ResourceKind::Receiver,
        }
    }
}

impl Resource {
    /// Both resources are of one kind and say the same.
    pub open spec fn same_as(self, other: Resource) -> bool {
        match (self, other) {
            (Resource::Node(a), Resource::Node(b)) => a.same_as(b),
            (Resource::Device(a), Resource::Device(b)) => a.same_as(b),
            (Resource::Source(a), Resource::Source(b)) => a.same_as(b),
            (Resource::Flow(a), Resource::Flow(b)) => a.same_as(b),
            (Resource::Sender(a), Resource::Sender(b)) => a.same_as(b),
            (Resource::Receiver(a), Resource::Receiver(b)) => a.same_as(b),
            _ => false,
        }
    }

    /// A copy of the resource.
    pub fn duplicate(&self) -> (r: Resource)
        ensures
            r.same_as(*self),
    {
        match self {
            Resource::Node(a) => Resource::Node(a.duplicate()),
            Resource::Device(a) => Resource::Device(a.duplicate()),
            Resource::Source(a) => Resource::Source(a.duplicate()),
            Resource::Flow(a) => Resource::Flow(a.duplicate()),
            Resource::Sender(a) => Resource::Sender(a.duplicate()),
            Resource::Receiver(a) => Resource::Receiver(a.duplicate()),
        }
    }
}

impl Identified for Resource {
    open spec fn ident(&self) -> u128 {
        match self {
            Resource::Node(r) => r.core.id,
            Resource::Device(r) => r.core.id,
            Resource::Source(r) => r.core.id,
            Resource::Flow(r) => r.core.id,
            Resource::Sender(r) => r.core.id,
            Resource::Receiver(r) => r.core.id,
        }
    }

    fn id(&self) -> (r: u128) {
        match self {
            Resource::Node(r) => r.core.id,
            Resource::Device(r) => r.core.id,
            Resource::Source(r) => r.core.id,
            Resource::Flow(r) => r.core.id,
            Resource::Sender(r) => r.core.id,
            Resource::Receiver(r) => r.core.id,
        }
    }
}

impl Registerable for Resource {
    open spec fn path(&self) -> Seq<char> {
        match self {
            Resource::Node(r) => r.path(),
            Resource::Device(r) => r.path(),
            Resource::Source(r) => r.path(),
            Resource::Flow(r) => r.path(),
            Resource::Sender(r) => r.path(),
            Resource::Receiver(r) => r.path(),
        }
    }

    open spec fn requested_by(&self, api: APIVersion, request: RegistrationRequest) -> bool {
        match self {
            Resource::Node(r) => r.requested_by(api, request),
            Resource::Device(r) => r.requested_by(api, request),
            Resource::Source(r) => r.requested_by(api, request),
            Resource::Flow(r) => r.requested_by(api, request),
            Resource::Sender(r) => r.requested_by(api, request),
            Resource::Receiver(r) => r.requested_by(api, request),
        }
    }

    fn registry_path(&self) -> (r: String) {
        match self {
            Resource::Node(r) => r.registry_path(),
            Resource::Device(r) => r.registry_path(),
            Resource::Source(r) => r.registry_path(),
            Resource::Flow(r) => r.registry_path(),
            Resource::Sender(r) => r.registry_path(),
            Resource::Receiver(r) => r.registry_path(),
        }
    }

    fn registration_request(&self, api: &APIVersion) -> (r: RegistrationRequest) {
        match self {
            Resource::Node(r) => r.registration_request(api),
            Resource::Device(r) => r.registration_request(api),
            Resource::Source(r) => r.registration_request(api),
            Resource::Flow(r) => r.registration_request(api),
            Resource::Sender(r) => r.registration_request(api),
            Resource::Receiver(r) => r.registration_request(api),
        }
    }
}

/// Resources of every kind, to make a graph of in one step.
#[derive(Debug)]
pub struct ResourceBundle {
    pub nodes: Vec<Node>,
    pub devices: Vec<Device>,
    pub sources: Vec<Source>,
    pub flows: Vec<Flow>,
    pub senders: Vec<Sender>,
    pub receivers: Vec<Receiver>,
}

impl ResourceBundle {
    /// A bundle that holds nothing.
    pub fn new() -> (r: ResourceBundle)
        ensures
            r.nodes@.len() == 0,
            r.devices@.len() == 0,
            r.sources@.len() == 0,
            r.flows@.len() == 0,
            r.senders@.len() == 0,
            r.receivers@.len() == 0,
    {
        ResourceBundle {
            nodes: Vec::new(),
            devices: Vec::new(),
            sources: Vec::new(),
            flows: Vec::new(),
            senders: Vec::new(),
            receivers: Vec::new(),
        }
    }
}

} // verus!

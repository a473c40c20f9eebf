//! Registries as they are discovered: what the transport reports, and what
//! an advertisement must carry to name a registry.

use vstd::prelude::*;
use vstd::string::*;
use crate::href::{parse_url, text_of, url_text};
use crate::text::{
    bool_value, comma_pieces, decimal, decimal_text, parse_bool, parse_u8, same_text, signed_u8,
    split_commas, views,
};
use crate::version::{version_value, APIVersion};

verus! {

/// Settings of the discovery. There are none yet.
#[derive(Debug)]
pub struct NmosMdnsConfig {}

/// The services that are advertised and browsed for.
#[derive(Clone, Copy, Debug, PartialEq, Eq, Structural)]
pub enum NmosMdnsService {
    Node,
    Registration,
    Query,
}

/// The address of an advertisement as whoever runs the transport has read
/// it: the text of an IP address of one of the two families, or something
/// that is no IP address.
#[derive(Debug, PartialEq, Eq)]
pub enum AdvertisedAddress {
    Ipv4(String),
    Ipv6(String),
    Malformed,
}

/// One entry of an advertisement's metadata.
#[derive(Debug, PartialEq, Eq)]
pub struct TxtEntry {
    pub key: String,
    pub value: String,
}

/// One advertisement of a service, with its metadata if it has any.
#[derive(Debug, PartialEq, Eq)]
pub struct ServiceDiscovery {
    pub address: AdvertisedAddress,
    pub port: u16,
    pub txt: Option<Vec<TxtEntry>>,
}

/// What the transport reports: a service it found, or the outcome of
/// advertising one of ours. `None` and `false` stand for the transport's
/// errors.
#[derive(Debug)]
pub enum NmosMdnsEvent {
    Discovery(NmosMdnsService, Option<ServiceDiscovery>),
    Registration(NmosMdnsService, bool),
}

/// A registry that was discovered. A lower `pri` is a higher precedence.
#[derive(Debug, PartialEq, Eq)]
pub struct NmosMdnsRegistry {
    pub api_proto: String,
    pub api_ver: Vec<APIVersion>,
    pub api_auth: bool,
    pub pri: u8,
    pub url: String,
}

/// A discovered registry as characters and numbers.
pub struct RegistryView {
    pub api_proto: Seq<char>,
    pub api_ver: Seq<APIVersion>,
    pub api_auth: bool,
    pub pri: u8,
    pub url: Seq<char>,
}

impl View for NmosMdnsRegistry {
    type V = RegistryView;

    open spec fn view(&self) -> RegistryView {
        RegistryView {
            api_proto: self.api_proto@,
            api_ver: self.api_ver@,
            api_auth: self.api_auth,
            pri: self.pri,
            url: self.url@,
        }
    }
}

/// The value under `key` in the metadata: that of the first entry with the
/// key.
pub open spec fn txt_value(entries: Seq<TxtEntry>, key: Seq<char>) -> Option<Seq<char>>
    decreases entries.len(),
{
    if entries.len() == 0 {
        None
    } else if entries[0].key@ == key {
        Some(entries[0].value@)
    } else {
        txt_value(entries.drop_first(), key)
    }
}

/// The revisions that a list of texts writes; `None` where one of them
/// writes none.
pub open spec fn versions_value(pieces: Seq<Seq<char>>) -> Option<Seq<APIVersion>>
    decreases pieces.len(),
{
    if pieces.len() == 0 {
        Some(Seq::empty())
    } else {
        match (versions_value(pieces.drop_last()), version_value(pieces.last())) {
            (Some(before), Some(v)) => Some(before.push(v)),
            _ => None,
        }
    }
}

/// The root of a registry's registration interface:
/// `<protocol>://<address>:<port>/x-nmos/registration/`, an address of the
/// later family between brackets. There is none for an address that is no
/// IP address.
pub open spec fn registration_root(proto: Seq<char>, address: AdvertisedAddress, port: u16) -> Option<
    Seq<char>,
> {
    match address {
        AdvertisedAddress::Ipv4(a) => Some(
            proto + "://"@ + a@ + ":"@ + decimal(port as nat) + "/x-nmos/registration/"@,
        ),
        AdvertisedAddress::Ipv6(a) => Some(
            proto + "://["@ + a@ + "]:"@ + decimal(port as nat) + "/x-nmos/registration/"@,
        ),
        AdvertisedAddress::Malformed => None,
    }
}

/// The text that is handed to the URL parser for an advertisement: the
/// registration root under the advertised protocol. There is none without
/// metadata, without a protocol in it, or without an IP address.
pub open spec fn base_text(discovery: ServiceDiscovery) -> Option<Seq<char>> {
    match discovery.txt {
        None => None,
        Some(txt) => match txt_value(txt@, "api_proto"@) {
            None => None,
            Some(proto) => registration_root(proto, discovery.address, discovery.port),
        },
    }
}

/// The registry that an advertisement names, given what the URL parser made
/// of its base text. It names one only if the parser gave a URL and the
/// metadata carries a protocol, a list of revisions that all read as
/// revisions, an authorization flag that reads as a boolean and a priority
/// that reads as a number below 256.
pub open spec fn parsed_with(discovery: ServiceDiscovery, url: Option<Seq<char>>) -> Option<
    RegistryView,
> {
    match discovery.txt {
        None => None,
        Some(txt) => match (
            txt_value(txt@, "api_proto"@),
            txt_value(txt@, "api_ver"@),
            txt_value(txt@, "api_auth"@),
            txt_value(txt@, "pri"@),
            url,
        ) {
            (Some(proto), Some(ver), Some(auth), Some(pri), Some(u)) => match (
                versions_value(comma_pieces(ver)),
                bool_value(auth),
                signed_u8(pri),
            ) {
                (Some(versions), Some(a), Some(p)) => Some(
                    RegistryView {
                        api_proto: proto,
                        api_ver: versions,
                        api_auth: a,
                        pri: p,
                        url: u,
                    },
                ),
                _ => None,
            },
            _ => None,
        },
    }
}

/// The registry that an advertisement names.
pub open spec fn parsed(discovery: ServiceDiscovery) -> Option<RegistryView> {
    parsed_with(
        discovery,
        match base_text(discovery) {
            Some(base) => url_text(base),
            None => None,
        },
    )
}

/// The view of a registry that may be missing.
pub open spec fn registry_view(r: Option<NmosMdnsRegistry>) -> Option<RegistryView> {
    match r {
        Some(c) => Some(c@),
        None => None,
    }
}

/// Looks a key up in the metadata.
pub fn txt_get<'a>(entries: &'a Vec<TxtEntry>, key: &str) -> (r: Option<&'a str>)
    ensures
        match r {
            Some(v) => txt_value(entries@, key@) == Some(v@),
            None => txt_value(entries@, key@) is None,
        },
{
    let mut i: usize = 0;
    proof {
        assert(entries@.subrange(0, entries@.len() as int) =~= entries@);
    }
    while i < entries.len()
        invariant
            i <= entries@.len(),
            txt_value(entries@, key@) == txt_value(entries@.subrange(i as int, entries@.len() as int), key@),
        decreases entries@.len() - i,
    {
        let ghost rest = entries@.subrange(i as int, entries@.len() as int);
        proof {
            assert(rest[0] == entries@[i as int]);
            assert(rest.drop_first() =~= entries@.subrange(i + 1, entries@.len() as int));
        }
        if same_text(entries[i].key.as_str(), key) {
            return Some(entries[i].value.as_str());
        }
        i = i + 1;
    }
    None
}

/// Reads a comma-separated list of revisions; `None` where a piece is no
/// revision.
pub fn parse_versions(list: &str) -> (r: Option<Vec<APIVersion>>)
    ensures
        match r {
            Some(v) => versions_value(comma_pieces(list@)) == Some(v@),
            None => versions_value(comma_pieces(list@)) is None,
        },
{
    let pieces = split_commas(list);
    let ghost texts = views(pieces@);
    let mut r: Vec<APIVersion> = Vec::new();
    let mut i: usize = 0;
    while i < pieces.len()
        invariant
            i <= pieces@.len(),
            texts == views(pieces@),
            texts == comma_pieces(list@),
            versions_value(texts.subrange(0, i as int)) == Some(r@),
        decreases pieces@.len() - i,
    {
        let ghost upto = texts.subrange(0, i + 1);
        proof {
            assert(upto.drop_last() =~= texts.subrange(0, i as int));
            assert(upto.last() == pieces@[i as int]@);
        }
        match APIVersion::parse(pieces[i].as_str()) {
            Some(v) => {
                r.push(v);
            },
            None => {
                proof {
                    if versions_value(texts) is Some {
                        lemma_versions_prefix(texts, i + 1);
                    }
                }
                return None;
            },
        }
        i = i + 1;
    }
    proof {
        assert(texts.subrange(0, texts.len() as int) =~= texts);
    }
    Some(r)
}

/// Where a list of texts writes revisions, so does each of its beginnings.
pub proof fn lemma_versions_prefix(pieces: Seq<Seq<char>>, k: int)
    requires
        0 <= k <= pieces.len(),
        versions_value(pieces) is Some,
    ensures
        versions_value(pieces.subrange(0, k)) is Some,
    decreases pieces.len(),
{
    if k == pieces.len() {
        assert(pieces.subrange(0, k) =~= pieces);
    } else {
        lemma_versions_prefix(pieces.drop_last(), k);
        assert(pieces.drop_last().subrange(0, k) =~= pieces.subrange(0, k));
    }
}

impl NmosMdnsRegistry {
    /// Whether the registry speaks the revision `api`.
    pub open spec fn speaks(self, api: APIVersion) -> bool {
        self.api_ver@.contains(api)
    }

    /// Whether the registry speaks the revision `api`.
    pub fn is_compatible(&self, api: &APIVersion) -> (r: bool)
        ensures
            r == self.speaks(*api),
    {
        let mut i: usize = 0;
        while i < self.api_ver.len()
            invariant
                i <= self.api_ver@.len(),
                forall|j: int| 0 <= j < i ==> self.api_ver@[j] != *api,
            decreases self.api_ver@.len() - i,
        {
            if self.api_ver[i].major == api.major && self.api_ver[i].minor == api.minor {
                return true;
            }
            i = i + 1;
        }
        false
    }

    /// A copy of the registry.
    pub fn duplicate(&self) -> (r: NmosMdnsRegistry)
        ensures
            r@ == self@,
    {
        let mut api_ver: Vec<APIVersion> = Vec::new();
        let mut i: usize = 0;
        while i < self.api_ver.len()
            invariant
                i <= self.api_ver@.len(),
                api_ver@ == self.api_ver@.subrange(0, i as int),
            decreases self.api_ver@.len() - i,
        {
            api_ver.push(self.api_ver[i]);
            proof {
                assert(api_ver@ =~= self.api_ver@.subrange(0, i + 1));
            }
            i = i + 1;
        }
        proof {
            assert(self.api_ver@.subrange(0, self.api_ver@.len() as int) =~= self.api_ver@);
        }
        NmosMdnsRegistry {
            api_proto: self.api_proto.clone(),
            api_ver,
            api_auth: self.api_auth,
            pri: self.pri,
            url: self.url.clone(),
        }
    }

    /// Writes the text that is to be parsed as the registry's URL.
    pub fn base_url(discovery: &ServiceDiscovery) -> (r: Option<String>)
        ensures
            text_of(r) == base_text(*discovery),
    {
        let txt = match &discovery.txt {
            Some(txt) => txt,
            None => {
                return None;
            },
        };
        let proto = match txt_get(txt, "api_proto") {
            Some(p) => p,
            None => {
                return None;
            },
        };
        let mut base: String = proto.to_owned();
        match &discovery.address {
            AdvertisedAddress::Ipv4(a) => {
                base.append("://");
                base.append(a.as_str());
                base.append(":");
            },
            AdvertisedAddress::Ipv6(a) => {
                base.append("://[");
                base.append(a.as_str());
                base.append("]:");
            },
            AdvertisedAddress::Malformed => {
                return None;
            },
        }
        let port = decimal_text(discovery.port as u64);
        base.append(port.as_str());
        base.append("/x-nmos/registration/");
        Some(base)
    }

    /// The registry that the advertisement names, given what the URL parser
    /// made of its base text.
    pub fn with_url(discovery: &ServiceDiscovery, url: Option<String>) -> (r: Option<
        NmosMdnsRegistry,
    >)
        ensures
            registry_view(r) == parsed_with(*discovery, text_of(url)),
    {
        let txt = match &discovery.txt {
            Some(txt) => txt,
            None => {
                return None;
            },
        };
        match (
            txt_get(txt, "api_proto"),
            txt_get(txt, "api_ver"),
            txt_get(txt, "api_auth"),
            txt_get(txt, "pri"),
            url,
        ) {
            (Some(api_proto), Some(api_ver), Some(api_auth), Some(pri), Some(url)) => {
                match (parse_versions(api_ver), parse_bool(api_auth), parse_u8(pri)) {
                    (Some(api_ver), Some(api_auth), Some(pri)) => Some(
                        NmosMdnsRegistry {
                            api_proto: api_proto.to_owned(),
                            api_ver,
                            api_auth,
                            pri,
                            url,
                        },
                    ),
                    _ => None,
                }
            },
            _ => None,
        }
    }

    /// The registry that an advertisement names, if it names one.
    pub fn parse(discovery: &ServiceDiscovery) -> (r: Option<NmosMdnsRegistry>)
        ensures
            registry_view(r) == parsed(*discovery),
    {
        let url = match Self::base_url(discovery) {
            Some(base) => parse_url(base.as_str()),
            None => None,
        };
        Self::with_url(discovery, url)
    }
}

} // verus!

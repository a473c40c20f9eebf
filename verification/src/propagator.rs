//! Changes of single resources on their way to the registry that is served
//! when they are taken in hand.

use vstd::prelude::*;
use crate::href::text_of;
use crate::mdns::NmosMdnsRegistry;
use crate::registration::{
    after, delete_target, resource_target, Attempt, HttpOutcome, Progress, RegistrationApi,
};
use crate::resource::{Registerable, RegistrationRequest};
use crate::version::APIVersion;

verus! {

/// A change of one resource, of whatever kind can be registered.
pub enum ResourceUpdate {
    Update(Box<dyn Registerable>),
    Added(Box<dyn Registerable>),
    Removed(Box<dyn Registerable>),
}

/// The three ways in which a resource changes.
#[derive(Clone, Copy, Debug, PartialEq, Eq, Structural)]
pub enum UpdateMode {
    Update,
    Added,
    Removed,
}

impl ResourceUpdate {
    /// The way in which the resource changed.
    pub open spec fn mode(self) -> UpdateMode {
        match self {
            ResourceUpdate::Update(_) => UpdateMode::Update,
            ResourceUpdate::Added(_) => UpdateMode::Added,
            ResourceUpdate::Removed(_) => UpdateMode::Removed,
        }
    }

    /// The place of the resource below a registry's resource root.
    pub open spec fn path(self) -> Seq<char> {
        match self {
            ResourceUpdate::Update(r) => r.path(),
            ResourceUpdate::Added(r) => r.path(),
            ResourceUpdate::Removed(r) => r.path(),
        }
    }

    /// Whether `request` is what registers the resource under `api`.
    pub open spec fn requested_by(self, api: APIVersion, request: RegistrationRequest) -> bool {
        match self {
            ResourceUpdate::Update(r) => r.requested_by(api, request),
            ResourceUpdate::Added(r) => r.requested_by(api, request),
            ResourceUpdate::Removed(r) => r.requested_by(api, request),
        }
    }
}

/// What is to be done for a change.
#[derive(Clone, Copy, Debug, PartialEq, Eq, Structural)]
pub enum Dispatch {
    /// Make this call for the change in hand, then report the reply: a
    /// request is posted to the resource URL, a delete goes to the delete
    /// URL.
    Send(Attempt),
    /// The change is dealt with; it reached the registry or it did not.
    Done(bool),
    /// No registry is served: the change is dropped and counted, and no
    /// call is made.
    Dropped,
}

/// The change in hand.
#[derive(Debug)]
pub struct Pending {
    /// The way in which the resource changed.
    pub mode: UpdateMode,
    /// The call that is out.
    pub attempt: Attempt,
    /// Where resources are posted to.
    pub resource_url: String,
    /// Where the resource is deleted, once that is known.
    pub delete_url: String,
    /// The resource's place below the resource root.
    pub path: String,
    /// The request that registers the resource, unless it was removed.
    pub request: Option<RegistrationRequest>,
}

/// Takes changes one at a time and says which calls carry them to the
/// registry.
#[derive(Debug)]
pub struct Propagator {
    /// The revision of the protocol that is spoken.
    pub api_version: APIVersion,
    /// How many changes were dropped because no registry was served. The
    /// count stops at the largest number it can hold.
    pub dropped: u64,
    /// The change in hand, if a call for it is out.
    pub pending: Option<Pending>,
}

/// The count after one more drop.
pub open spec fn one_more(count: u64) -> u64 {
    if count == u64::MAX {
        count
    } else {
        (count + 1) as u64
    }
}

impl Propagator {
    /// What taking `update` in hand leads to: the propagator `result` and
    /// `action`. `served` says whether a registry is served, `url` is where
    /// resources are posted to there, and `target` where the resource of the
    /// update is deleted; either is `None` where it does not resolve.
    pub open spec fn takes_with(
        self,
        update: ResourceUpdate,
        served: bool,
        url: Option<Seq<char>>,
        target: Option<Seq<char>>,
        result: Propagator,
        action: Dispatch,
    ) -> bool {
        let api = self.api_version;
        &&& result.api_version == api
        &&& if !served {
            &&& action == Dispatch::Dropped
            &&& result.dropped == one_more(self.dropped)
            &&& result.pending is None
        } else {
            &&& result.dropped == self.dropped
            &&& match url {
                None => action == Dispatch::Done(false) && result.pending is None,
                Some(u) => match update.mode() {
                    UpdateMode::Removed => match target {
                        None => action == Dispatch::Done(false) && result.pending is None,
                        Some(t) => {
                            &&& action == Dispatch::Send(Attempt::Delete)
                            &&& result.pending matches Some(p)
                            &&& p.mode == UpdateMode::Removed
                            &&& p.attempt == Attempt::Delete
                            &&& p.resource_url@ == u
                            &&& p.delete_url@ == t
                            &&& p.path@ == update.path()
                            &&& p.request is None
                        },
                    },
                    mode => if api.supported() {
                        &&& action == Dispatch::Send(Attempt::Post)
                        &&& result.pending matches Some(p)
                        &&& p.mode == mode
                        &&& p.attempt == Attempt::Post
                        &&& p.resource_url@ == u
                        &&& p.path@ == update.path()
                        &&& p.request matches Some(request)
                        &&& update.requested_by(api, request)
                    } else {
                        action == Dispatch::Done(false) && result.pending is None
                    },
                },
            }
        }
    }

    /// What taking `update` in hand leads to, given the registry that is
    /// served: the propagator `result` and `action`.
    pub open spec fn takes(
        self,
        update: ResourceUpdate,
        registry: Option<NmosMdnsRegistry>,
        result: Propagator,
        action: Dispatch,
    ) -> bool {
        let url = match registry {
            Some(r) => resource_target(r.url@, self.api_version),
            None => None,
        };
        let target = match url {
            Some(u) => delete_target(u, update.path()),
            None => None,
        };
        self.takes_with(update, registry is Some, url, target, result, action)
    }

    /// What the reply `outcome` to the call that is out leads to: the
    /// propagator `result` and `action`. `target` is where the resource in
    /// hand is deleted, `None` where that does not resolve. A change that
    /// was an update or a removal is done with its one call. A resource that
    /// was added is registered as in a registration pass: met in the
    /// registry, it is deleted and posted once more.
    pub open spec fn hears_with(
        self,
        outcome: HttpOutcome,
        target: Option<Seq<char>>,
        result: Propagator,
        action: Dispatch,
    ) -> bool {
        &&& result.api_version == self.api_version
        &&& result.dropped == self.dropped
        &&& match self.pending {
            None => action == Dispatch::Done(false) && result.pending is None,
            Some(p) => if p.mode != UpdateMode::Added {
                action == Dispatch::Done(!outcome.refused()) && result.pending is None
            } else {
                match after(p.attempt, outcome) {
                    Progress::Call(Attempt::Delete) => match target {
                        None => action == Dispatch::Done(false) && result.pending is None,
                        Some(t) => {
                            &&& action == Dispatch::Send(Attempt::Delete)
                            &&& result.pending matches Some(q)
                            &&& q.delete_url@ == t
                            &&& q == (Pending {
                                attempt: Attempt::Delete,
                                delete_url: q.delete_url,
                                ..p
                            })
                        },
                    },
                    Progress::Call(again) => {
                        &&& action == Dispatch::Send(again)
                        &&& result.pending == Some(Pending { attempt: again, ..p })
                    },
                    Progress::Registered => action == Dispatch::Done(true) && result.pending is None,
                    Progress::Failed => action == Dispatch::Done(false) && result.pending is None,
                }
            },
        }
    }

    /// What the reply `outcome` to the call that is out leads to: the
    /// propagator `result` and `action`.
    pub open spec fn hears(self, outcome: HttpOutcome, result: Propagator, action: Dispatch) -> bool {
        self.hears_with(
            outcome,
            match self.pending {
                Some(p) => delete_target(p.resource_url@, p.path@),
                None => None,
            },
            result,
            action,
        )
    }

    /// A propagator with nothing in hand and nothing dropped.
    pub fn new(api_version: APIVersion) -> (r: Propagator)
        requires
            api_version.supported(),
        ensures
            r.api_version == api_version,
            r.dropped == 0,
            r.pending is None,
    {
        Propagator { api_version, dropped: 0, pending: None }
    }

    /// Takes a change in hand, given whether a registry is served and what
    /// its URLs resolved to. Without a registry the change is dropped and
    /// counted and nothing is sent. A change that was in hand before is
    /// forgotten.
    pub fn accept_with(
        &mut self,
        update: ResourceUpdate,
        served: bool,
        url: Option<String>,
        target: Option<String>,
    ) -> (action: Dispatch)
        ensures
            old(self).takes_with(update, served, text_of(url), text_of(target), *final(self), action),
    {
        self.pending = None;
        if !served {
            if self.dropped < u64::MAX {
                self.dropped = self.dropped + 1;
            }
            return Dispatch::Dropped;
        }
        let url = match url {
            Some(u) => u,
            None => {
                return Dispatch::Done(false);
            },
        };
        let (mode, resource) = match update {
            ResourceUpdate::Update(resource) => (UpdateMode::Update, resource),
            ResourceUpdate::Added(resource) => (UpdateMode::Added, resource),
            ResourceUpdate::Removed(resource) => (UpdateMode::Removed, resource),
        };
        match mode {
            UpdateMode::Removed => {
                match target {
                    Some(target) => {
                        self.pending =
                        Some(
                            Pending {
                                mode,
                                attempt: Attempt::Delete,
                                resource_url: url,
                                delete_url: target,
                                path: resource.registry_path(),
                                request: None,
                            },
                        );
                        Dispatch::Send(Attempt::Delete)
                    },
                    None => Dispatch::Done(false),
                }
            },
            _ => {
                if !self.api_version.is_supported() {
                    return Dispatch::Done(false);
                }
                self.pending =
                Some(
                    Pending {
                        mode,
                        attempt: Attempt::Post,
                        resource_url: url,
                        delete_url: String::new(),
                        path: resource.registry_path(),
                        request: Some(RegistrationApi::post_resource(&*resource, &self.api_version)),
                    },
                );
                Dispatch::Send(Attempt::Post)
            },
        }
    }

    /// Takes a change in hand for the registry that is served, if one is.
    pub fn accept(&mut self, update: ResourceUpdate, registry: &Option<NmosMdnsRegistry>) -> (action:
        Dispatch)
        ensures
            old(self).takes(update, *registry, *final(self), action),
    {
        let url = match registry {
            Some(r) => RegistrationApi::resource_url(r, &self.api_version),
            None => None,
        };
        let target = match (&url, &update) {
            (Some(u), ResourceUpdate::Removed(resource)) => RegistrationApi::delete_resource(
                u.as_str(),
                &**resource,
            ),
            _ => None,
        };
        self.accept_with(update, registry.is_some(), url, target)
    }

    /// Takes in the reply to the call that is out, given what the URL at
    /// which the resource in hand is deleted resolved to.
    pub fn reply_with(&mut self, outcome: HttpOutcome, target: Option<String>) -> (action: Dispatch)
        ensures
            old(self).hears_with(outcome, text_of(target), *final(self), action),
    {
        let p = match self.pending.take() {
            Some(p) => p,
            None => {
                return Dispatch::Done(false);
            },
        };
        if p.mode != UpdateMode::Added {
            return Dispatch::Done(!outcome.is_refused());
        }
        match RegistrationApi::register_resource(p.attempt, outcome) {
            Progress::Call(Attempt::Delete) => {
                match target {
                    Some(target) => {
                        self.pending =
                        Some(Pending { attempt: Attempt::Delete, delete_url: target, ..p });
                        Dispatch::Send(Attempt::Delete)
                    },
                    None => Dispatch::Done(false),
                }
            },
            Progress::Call(again) => {
                self.pending = Some(Pending { attempt: again, ..p });
                Dispatch::Send(again)
            },
            Progress::Registered => Dispatch::Done(true),
            Progress::Failed => Dispatch::Done(false),
        }
    }

    /// Takes in the reply to the call that is out.
    pub fn reply(&mut self, outcome: HttpOutcome) -> (action: Dispatch)
        ensures
            old(self).hears(outcome, *final(self), action),
    {
        let target = match &self.pending {
            Some(p) => if p.mode == UpdateMode::Added && RegistrationApi::register_resource(
                p.attempt,
                outcome,
            ) == Progress::Call(Attempt::Delete) {
                RegistrationApi::delete_url(p.resource_url.as_str(), p.path.as_str())
            } else {
                None
            },
            None => None,
        };
        self.reply_with(outcome, target)
    }
}

/// A change that is taken in hand while no registry is served causes no
/// call; it is dropped, and the count of dropped changes shows it.
pub proof fn lemma_no_registry_no_call(
    before: Propagator,
    update: ResourceUpdate,
    after: Propagator,
    action: Dispatch,
)
    requires
        before.takes(update, None, after, action),
    ensures
        action == Dispatch::Dropped,
        after.pending is None,
        before.dropped < u64::MAX ==> after.dropped == before.dropped + 1,
{
}

} // verus!

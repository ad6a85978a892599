//! A node as the reconciler sees it: what was asked of it, and what was last
//! observed of it.

use vstd::prelude::*;
use crate::state::BoxState;
use crate::text::{copy_text, text_in};
use crate::time::Timestamp;

verus! {

/// How a node can be reached.
#[derive(Debug, PartialEq, Eq)]
pub struct BoxAccessSpec {
    /// The address to reach the node at, once one has been discovered.
    pub primary: Option<String>,
}

/// What is asked of a node.
#[derive(Debug, PartialEq, Eq)]
pub struct BoxSpec {
    /// The group that the node is to serve in.
    pub group: String,
}

/// What was last observed of a node.
#[derive(Debug, PartialEq, Eq)]
pub struct BoxStatus {
    pub state: BoxState,
    pub access: BoxAccessSpec,
    /// The group that the node was last bound to.
    pub bind_group: Option<String>,
    /// When this status was written.
    pub last_updated: Timestamp,
}

/// A node: its name, what is asked of it and what was observed of it.
#[derive(Debug, PartialEq, Eq)]
pub struct BoxCrd {
    pub name: String,
    pub spec: BoxSpec,
    pub status: Option<BoxStatus>,
    pub creation_timestamp: Option<Timestamp>,
}

pub struct BoxAccessView {
    pub primary: Option<Seq<char>>,
}

pub struct BoxStatusView {
    pub state: BoxState,
    pub access: BoxAccessView,
    pub bind_group: Option<Seq<char>>,
    pub last_updated: Timestamp,
}

pub struct BoxCrdView {
    pub name: Seq<char>,
    pub group: Seq<char>,
    pub status: Option<BoxStatusView>,
    pub creation_timestamp: Option<Timestamp>,
}

impl View for BoxAccessSpec {
    type V = BoxAccessView;

    open spec fn view(&self) -> BoxAccessView {
        BoxAccessView { primary: text_in(self.primary) }
    }
}

impl View for BoxStatus {
    type V = BoxStatusView;

    open spec fn view(&self) -> BoxStatusView {
        BoxStatusView {
            state: self.state,
            access: self.access@,
            bind_group: text_in(self.bind_group),
            last_updated: self.last_updated,
        }
    }
}

impl View for BoxCrd {
    type V = BoxCrdView;

    open spec fn view(&self) -> BoxCrdView {
        BoxCrdView {
            name: self.name@,
            group: self.spec.group@,
            status: match self.status {
                Some(status) => Some(status@),
                None => None,
            },
            creation_timestamp: self.creation_timestamp,
        }
    }
}

impl BoxAccessView {
    /// No way to reach the node is known.
    pub open spec fn unknown() -> BoxAccessView {
        BoxAccessView { primary: None }
    }
}

impl Clone for BoxAccessSpec {
    fn clone(&self) -> (copy: BoxAccessSpec)
        ensures
            copy@ == self@,
    {
        BoxAccessSpec { primary: copy_text(&self.primary) }
    }
}

impl Default for BoxAccessSpec {
    fn default() -> (access: BoxAccessSpec)
        ensures
            access@ == BoxAccessView::unknown(),
    {
        BoxAccessSpec { primary: None }
    }
}

impl Clone for BoxStatus {
    fn clone(&self) -> (copy: BoxStatus)
        ensures
            copy@ == self@,
    {
        BoxStatus {
            state: self.state,
            access: self.access.clone(),
            bind_group: copy_text(&self.bind_group),
            last_updated: self.last_updated,
        }
    }
}

impl BoxStatus {
    /// The status that a status record stands for. A record that does not say
    /// when it was written stands for no status at all.
    pub fn observed(
        state: BoxState,
        access: BoxAccessSpec,
        bind_group: Option<String>,
        last_updated: Option<Timestamp>,
    ) -> (status: Option<BoxStatus>)
        ensures
            last_updated is None ==> status is None,
            last_updated is Some ==> status is Some && status->0@ == (BoxStatusView {
                state,
                access: access@,
                bind_group: text_in(bind_group),
                last_updated: last_updated->0,
            }),
    {
        match last_updated {
            Some(at) => Some(BoxStatus { state, access, bind_group, last_updated: at }),
            None => None,
        }
    }
}

impl BoxCrdView {
    /// The stage the node is in. A node that nothing was observed of yet is
    /// new.
    pub open spec fn state(self) -> BoxState {
        match self.status {
            Some(status) => status.state,
            None => BoxState::New,
        }
    }

    /// Whether a way to reach the node has been discovered.
    pub open spec fn reachable(self) -> bool {
        self.status is Some && self.status->0.access.primary is Some
    }

    /// The instant that the node's time limits count from: when its status
    /// was last written or, while it has none, when it was created.
    pub open spec fn since(self) -> Option<Timestamp> {
        match self.status {
            Some(status) => Some(status.last_updated),
            None => self.creation_timestamp,
        }
    }

    /// Whether the node is bound to the group that is asked for.
    pub open spec fn bound_as_asked(self) -> bool {
        self.status is Some && self.status->0.bind_group == Some(self.group)
    }

    /// This node with its status replaced.
    pub open spec fn with_status(self, status: BoxStatusView) -> BoxCrdView {
        BoxCrdView { status: Some(status), ..self }
    }
}

impl BoxCrd {
    pub fn state(&self) -> (state: BoxState)
        ensures
            state == self@.state(),
    {
        match &self.status {
            Some(status) => status.state,
            None => BoxState::New,
        }
    }

    pub fn reachable(&self) -> (reachable: bool)
        ensures
            reachable == self@.reachable(),
    {
        match &self.status {
            Some(status) => status.access.primary.is_some(),
            None => false,
        }
    }

    pub fn since(&self) -> (since: Option<Timestamp>)
        ensures
            since == self@.since(),
    {
        match &self.status {
            Some(status) => Some(status.last_updated),
            None => self.creation_timestamp,
        }
    }

    pub fn bound_as_asked(&self) -> (bound: bool)
        ensures
            bound == self@.bound_as_asked(),
    {
        match &self.status {
            Some(status) => match &status.bind_group {
                Some(bind_group) => *bind_group == self.spec.group,
                None => false,
            },
            None => false,
        }
    }
}

} // verus!

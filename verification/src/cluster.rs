//! A cluster, as far as pulling it up reads it.

use vstd::prelude::*;
use crate::channel::{Channel, ChannelView, ReleaseChannel, opt_str_view};

verus! {

/// A node pool of a cluster.
#[derive(Debug)]
pub struct NodePool {
    pub name: String,
}

/// A GKE cluster.
#[derive(Debug)]
pub struct Cluster {
    pub name: String,
    pub description: String,
    /// The version that the cluster master runs.
    pub current_master_version: String,
    /// The release channel the cluster is subscribed to, if any.
    pub release_channel: Option<ReleaseChannel>,
    pub node_pools: Vec<NodePool>,
}

/// The names of `pools`, in order.
pub open spec fn pool_names(pools: Seq<NodePool>) -> Seq<Seq<char>> {
    pools.map_values(|p: NodePool| p.name@)
}

impl Cluster {
    /// The channel the cluster follows: its release channel, REGULAR where it
    /// is subscribed to none.
    pub open spec fn channel_or_regular(self) -> ChannelView {
        match self.release_channel {
            Some(rc) => rc.channel@,
            None => ChannelView::Regular,
        }
    }

    /// Whether the cluster's release channel, if it has one, is well formed.
    pub open spec fn channel_well_formed(self) -> bool {
        match self.release_channel {
            Some(rc) => rc.channel@.well_formed(),
            None => true,
        }
    }

    /// The name of the cluster's release channel, none where it is subscribed
    /// to none.
    pub open spec fn channel_name(self) -> Option<Seq<char>> {
        match self.release_channel {
            Some(rc) => rc.channel@.name(),
            None => None,
        }
    }

    /// How the cluster is announced: its name, followed by its description in
    /// brackets where it has one.
    pub open spec fn display_name_of(self) -> Seq<char> {
        if self.description@.len() == 0 {
            self.name@
        } else {
            self.name@ + " ("@ + self.description@ + ")"@
        }
    }

    /// The release channel the cluster is subscribed to, if any.
    pub fn release_channel(&self) -> (r: Option<&ReleaseChannel>)
        ensures
            r == (match self.release_channel {
                Some(rc) => Some(&rc),
                None => None,
            }),
    {
        match &self.release_channel {
            Some(rc) => Some(rc),
            None => None,
        }
    }

    /// The cluster's release channel, REGULAR where it is subscribed to none.
    pub fn release_channel_or_regular(&self) -> (r: ReleaseChannel)
        ensures
            r.channel@ == self.channel_or_regular(),
            self.channel_well_formed() ==> r.channel@.well_formed(),
    {
        match self.release_channel() {
            Some(rc) => rc.clone(),
            None => ReleaseChannel { channel: Channel::Regular },
        }
    }

    /// The name of the cluster's release channel.
    pub fn release_channel_name(&self) -> (r: Option<&str>)
        ensures
            opt_str_view(r) == self.channel_name(),
    {
        match self.release_channel() {
            Some(rc) => rc.channel.name(),
            None => None,
        }
    }

    /// The name under which the cluster is announced.
    pub fn display_name(&self) -> (r: String)
        ensures
            r@ == self.display_name_of(),
    {
        if self.description.as_str().is_empty() {
            self.name.clone()
        } else {
            let mut shown = self.name.clone();
            shown.append(" (");
            shown.append(self.description.as_str());
            shown.append(")");
            shown
        }
    }
}

impl Default for Cluster {
    fn default() -> (r: Self)
        ensures
            r.name@.len() == 0,
            r.description@.len() == 0,
            r.current_master_version@.len() == 0,
            r.release_channel is None,
            r.node_pools@.len() == 0,
    {
        Cluster {
            name: String::new(),
            description: String::new(),
            current_master_version: String::new(),
            release_channel: None,
            node_pools: Vec::new(),
        }
    }
}

} // verus!

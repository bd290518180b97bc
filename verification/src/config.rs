//! The server configuration of a location: the versions GKE offers, by
//! release channel.

use vstd::prelude::*;
use crate::channel::{Channel, ChannelView, ReleaseChannel, opt_str_view};
use crate::text::str_eq;

verus! {

/// Whether `i` is the first index of `s` whose item meets `p`.
pub open spec fn is_first<A>(s: Seq<A>, p: spec_fn(A) -> bool, i: int) -> bool {
    &&& 0 <= i < s.len()
    &&& p(s[i])
    &&& forall|j: int| 0 <= j < i ==> !p(#[trigger] s[j])
}

/// The first index of `s` whose item meets `p`, if there is one.
pub open spec fn first_index<A>(s: Seq<A>, p: spec_fn(A) -> bool) -> Option<int> {
    if exists|i: int| 0 <= i < s.len() && p(#[trigger] s[i]) {
        Some(choose|i: int| is_first(s, p, i))
    } else {
        None
    }
}

/// A first index is what [`first_index`] gives.
pub proof fn lemma_first_index<A>(s: Seq<A>, p: spec_fn(A) -> bool, i: int)
    requires
        is_first(s, p, i),
    ensures
        first_index(s, p) == Some(i),
{
    assert(0 <= i < s.len() && p(s[i]));
    let k = choose|k: int| is_first(s, p, k);
    assert(is_first(s, p, k));
    if k < i {
        assert(!p(s[k]));
    } else if i < k {
        assert(!p(s[i]));
    }
}

/// Where some item meets `p`, there is a first one.
proof fn lemma_first_exists<A>(s: Seq<A>, p: spec_fn(A) -> bool, w: int)
    requires
        0 <= w < s.len(),
        p(s[w]),
    ensures
        exists|i: int| is_first(s, p, i),
    decreases w,
{
    if forall|j: int| 0 <= j < w ==> !p(#[trigger] s[j]) {
        assert(is_first(s, p, w));
    } else {
        let j = choose|j: int| 0 <= j < w && !!p(#[trigger] s[j]);
        lemma_first_exists(s, p, j);
    }
}

/// What [`first_index`] gives is a first index.
pub proof fn lemma_first_index_is_first<A>(s: Seq<A>, p: spec_fn(A) -> bool)
    requires
        first_index(s, p) is Some,
    ensures
        is_first(s, p, first_index(s, p)->0),
{
    let w = choose|i: int| 0 <= i < s.len() && p(#[trigger] s[i]);
    lemma_first_exists(s, p, w);
}

/// Where no item meets `p`, [`first_index`] gives none.
pub proof fn lemma_no_index<A>(s: Seq<A>, p: spec_fn(A) -> bool)
    requires
        forall|j: int| 0 <= j < s.len() ==> !p(#[trigger] s[j]),
    ensures
        first_index(s, p) is None,
{
}

/// What GKE offers on one release channel.
#[derive(Debug)]
pub struct ReleaseChannelConfig {
    pub channel: Channel,
    /// The version that new clusters on the channel get.
    pub default_version: String,
    /// The versions that clusters on the channel may run.
    pub valid_versions: Vec<String>,
    /// The version that clusters on the channel are upgraded to.
    pub upgrade_target_version: String,
}

/// The server configuration of a location.
#[derive(Debug)]
pub struct ServerConfig {
    /// The version that new clusters get.
    pub default_cluster_version: String,
    /// The versions that a cluster master may run.
    pub valid_master_versions: Vec<String>,
    /// What each release channel offers.
    pub channels: Vec<ReleaseChannelConfig>,
}

/// Channel configurations whose channel bears `name`.
pub open spec fn named(name: Seq<char>) -> spec_fn(ReleaseChannelConfig) -> bool {
    |c: ReleaseChannelConfig| c.channel@.name() == Some(name)
}

/// Channel configurations of the channel `ch`.
pub open spec fn of_channel(ch: ChannelView) -> spec_fn(ReleaseChannelConfig) -> bool {
    |c: ReleaseChannelConfig| c.channel@ == ch
}

/// The characters of each string of `s`.
pub open spec fn strings_view(s: Seq<String>) -> Seq<Seq<char>> {
    s.map_values(|v: String| v@)
}

/// The order in which channels are listed: by channel number, a channel that
/// has none first.
pub open spec fn key_lt(a: Option<i32>, b: Option<i32>) -> bool {
    match (a, b) {
        (None, Some(_)) => true,
        (Some(x), Some(y)) => x < y,
        _ => false,
    }
}

/// [`key_lt`], computed.
fn key_less(a: Option<i32>, b: Option<i32>) -> (r: bool)
    ensures
        r == key_lt(a, b),
{
    match (a, b) {
        (None, Some(_)) => true,
        (Some(x), Some(y)) => x < y,
        _ => false,
    }
}

impl ServerConfig {
    /// The index of the first channel configuration whose channel bears `name`.
    pub open spec fn index_named(self, name: Seq<char>) -> Option<int> {
        first_index(self.channels@, named(name))
    }

    /// The index of the first channel configuration of the channel `ch`.
    pub open spec fn index_of(self, ch: ChannelView) -> Option<int> {
        first_index(self.channels@, of_channel(ch))
    }

    /// The upgrade target version of the first configuration of `ch`.
    pub open spec fn upgrade_target_of(self, ch: ChannelView) -> Option<Seq<char>> {
        match self.index_of(ch) {
            Some(i) => Some(self.channels@[i].upgrade_target_version@),
            None => None,
        }
    }

    /// The version that a cluster on `ch` is pulled up to by default: its
    /// channel's upgrade target, else the default cluster version.
    pub open spec fn target_or_default(self, ch: ChannelView) -> Seq<char> {
        match self.upgrade_target_of(ch) {
            Some(v) => v,
            None => self.default_cluster_version@,
        }
    }

    /// The versions valid on the first configuration of `ch`, none if there is
    /// no such configuration.
    pub open spec fn valid_versions_of(self, ch: ChannelView) -> Seq<Seq<char>> {
        match self.index_of(ch) {
            Some(i) => strings_view(self.channels@[i].valid_versions@),
            None => Seq::empty(),
        }
    }

    /// Whether channel configuration `i` is listed before channel
    /// configuration `j`: by channel number, then in the order of `channels`.
    pub open spec fn listed_before(self, i: int, j: int) -> bool {
        let a = self.channels@[i].channel@.value();
        let b = self.channels@[j].channel@.value();
        key_lt(a, b) || (a == b && i < j)
    }

    /// The first channel configuration whose channel bears `name`.
    pub fn release_channel_by_name(&self, name: &str) -> (r: Option<&ReleaseChannelConfig>)
        ensures
            r == (match self.index_named(name@) {
                Some(i) => Some(&self.channels@[i]),
                None => None,
            }),
    {
        let n = self.channels.len();
        let mut i: usize = 0;
        while i < n
            invariant
                n == self.channels@.len(),
                i <= n,
                forall|j: int| 0 <= j < i ==> !named(name@)(#[trigger] self.channels@[j]),
            decreases n - i,
        {
            let found = match self.channels[i].channel.name() {
                Some(candidate) => str_eq(candidate, name),
                None => false,
            };
            if found {
                proof {
                    lemma_first_index(self.channels@, named(name@), i as int);
                }
                return Some(&self.channels[i]);
            }
            i = i + 1;
        }
        proof {
            lemma_no_index(self.channels@, named(name@));
        }
        None
    }

    /// The first channel configuration of the channel that `channel` names.
    pub fn release_channel_config(&self, channel: &ReleaseChannel) -> (r: Option<&ReleaseChannelConfig>)
        ensures
            r == (match self.index_of(channel.channel@) {
                Some(i) => Some(&self.channels@[i]),
                None => None,
            }),
    {
        let n = self.channels.len();
        let mut i: usize = 0;
        while i < n
            invariant
                n == self.channels@.len(),
                i <= n,
                forall|j: int| 0 <= j < i ==> !of_channel(channel.channel@)(#[trigger] self.channels@[j]),
            decreases n - i,
        {
            if self.channels[i].channel == channel.channel {
                proof {
                    lemma_first_index(self.channels@, of_channel(channel.channel@), i as int);
                }
                return Some(&self.channels[i]);
            }
            i = i + 1;
        }
        proof {
            lemma_no_index(self.channels@, of_channel(channel.channel@));
        }
        None
    }

    /// The upgrade target version of the first configuration of the channel
    /// that `channel` names.
    pub fn release_channel_upgrade_target_version(&self, channel: &ReleaseChannel) -> (r: Option<&str>)
        ensures
            opt_str_view(r) == self.upgrade_target_of(channel.channel@),
    {
        match self.release_channel_config(channel) {
            Some(config) => Some(config.upgrade_target_version.as_str()),
            None => None,
        }
    }

    /// The channel configurations in the order in which they are listed:
    /// the indices of `channels`, sorted by channel number (a channel without
    /// a number first), configurations of equal number kept in their order.
    /// Each index occurs once.
    pub fn channels_in_display_order(&self) -> (r: Vec<usize>)
        ensures
            r@.len() == self.channels@.len(),
            forall|k: int| 0 <= k < r@.len() ==> #[trigger] r@[k] < self.channels@.len(),
            forall|k: int, l: int|
                0 <= k < l < r@.len() ==> self.listed_before(#[trigger] r@[k] as int, #[trigger] r@[l] as int),
            forall|j: usize| j < self.channels@.len() ==> #[trigger] r@.contains(j),
    {
        let n = self.channels.len();
        let mut order: Vec<usize> = Vec::new();
        let mut k: usize = 0;
        while k < n
            invariant
                n == self.channels@.len(),
                k <= n,
                order@.len() == k,
                forall|q: int| 0 <= q < k ==> #[trigger] order@[q] < k,
                forall|q: int, l: int|
                    0 <= q < l < k ==> self.listed_before(#[trigger] order@[q] as int, #[trigger] order@[l] as int),
                forall|j: usize| j < k ==> #[trigger] order@.contains(j),
            decreases n - k,
        {
            let key = self.channels[k].channel.value();
            let mut p: usize = 0;
            while p < order.len() && !key_less(key, self.channels[order[p]].channel.value())
                invariant
                    n == self.channels@.len(),
                    k < n,
                    order@.len() == k,
                    p <= k,
                    forall|q: int| 0 <= q < k ==> #[trigger] order@[q] < k,
                    key == self.channels@[k as int].channel@.value(),
                    forall|q: int|
                        0 <= q < p ==> !key_lt(key, self.channels@[#[trigger] order@[q] as int].channel@.value()),
                decreases k - p,
            {
                p = p + 1;
            }
            let ghost old_order = order@;
            proof {
                assert forall|q: int| p <= q < k implies key_lt(
                    key,
                    self.channels@[#[trigger] old_order[q] as int].channel@.value(),
                ) by {
                    if q > p {
                        assert(self.listed_before(old_order[p as int] as int, old_order[q] as int));
                    }
                }
            }
            order.insert(p, k);
            proof {
                assert forall|q: int| 0 <= q < k + 1 implies #[trigger] order@[q] < k + 1 by {
                    if q < p {
                        assert(order@[q] == old_order[q]);
                    } else if q > p {
                        assert(order@[q] == old_order[q - 1]);
                    }
                }
                assert forall|q: int, l: int|
                    0 <= q < l < k + 1 implies self.listed_before(
                    #[trigger] order@[q] as int,
                    #[trigger] order@[l] as int,
                ) by {
                    if l < p {
                        assert(order@[q] == old_order[q] && order@[l] == old_order[l]);
                    } else if l == p {
                        assert(order@[q] == old_order[q]);
                        assert(old_order[q] < k);
                    } else if q < p {
                        assert(order@[q] == old_order[q] && order@[l] == old_order[l - 1]);
                    } else if q == p {
                        assert(order@[l] == old_order[l - 1]);
                    } else {
                        assert(order@[q] == old_order[q - 1] && order@[l] == old_order[l - 1]);
                        assert(self.listed_before(old_order[q - 1] as int, old_order[l - 1] as int));
                    }
                }
                assert forall|j: usize| j < k + 1 implies #[trigger] order@.contains(j) by {
                    if j == k {
                        assert(order@[p as int] == k);
                    } else {
                        assert(old_order.contains(j));
                        let w = choose|w: int| 0 <= w < old_order.len() && old_order[w] == j;
                        if w < p {
                            assert(order@[w] == j);
                        } else {
                            assert(order@[w + 1] == j);
                        }
                    }
                }
            }
            k = k + 1;
        }
        order
    }
}

impl Default for ReleaseChannelConfig {
    fn default() -> (r: Self)
        ensures
            r.channel@ == ChannelView::Unspecified,
            r.default_version@.len() == 0,
            r.valid_versions@.len() == 0,
            r.upgrade_target_version@.len() == 0,
    {
        ReleaseChannelConfig {
            channel: Channel::Unspecified,
            default_version: String::new(),
            valid_versions: Vec::new(),
            upgrade_target_version: String::new(),
        }
    }
}

impl Default for ServerConfig {
    fn default() -> (r: Self)
        ensures
            r.default_cluster_version@.len() == 0,
            r.valid_master_versions@.len() == 0,
            r.channels@.len() == 0,
    {
        ServerConfig {
            default_cluster_version: String::new(),
            valid_master_versions: Vec::new(),
            channels: Vec::new(),
        }
    }
}

} // verus!

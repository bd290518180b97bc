//! Release channels, as GKE names and numbers them.

use vstd::prelude::*;
use vstd::std_specs::cmp::PartialEqSpecImpl;
use crate::text::str_eq;

verus! {

/// A GKE release channel.
///
/// The API may hand back a channel that this library does not know; such a
/// channel keeps the number or the name it came with.
#[derive(Debug)]
pub enum Channel {
    Unspecified,
    Rapid,
    Regular,
    Stable,
    Extended,
    /// An unknown channel received by its number.
    UnknownValue(i32),
    /// An unknown channel received by its name.
    UnknownName(String),
}

/// The mathematical value of a [`Channel`].
pub enum ChannelView {
    Unspecified,
    Rapid,
    Regular,
    Stable,
    Extended,
    UnknownValue(i32),
    UnknownName(Seq<char>),
}

impl ChannelView {
    /// Whether the channel is as GKE makes channels: an unknown channel never
    /// holds the number or the name of a known one.
    pub open spec fn well_formed(self) -> bool {
        match self {
            ChannelView::UnknownValue(v) => !(0 <= v <= 4),
            ChannelView::UnknownName(name) => {
                &&& name != "UNSPECIFIED"@
                &&& name != "RAPID"@
                &&& name != "REGULAR"@
                &&& name != "STABLE"@
                &&& name != "EXTENDED"@
            },
            _ => true,
        }
    }

    /// The channel's name: the API's spelling for a known channel, the name it
    /// came with for an unknown one, none for one that came as a number.
    pub open spec fn name(self) -> Option<Seq<char>> {
        match self {
            ChannelView::Unspecified => Some("UNSPECIFIED"@),
            ChannelView::Rapid => Some("RAPID"@),
            ChannelView::Regular => Some("REGULAR"@),
            ChannelView::Stable => Some("STABLE"@),
            ChannelView::Extended => Some("EXTENDED"@),
            ChannelView::UnknownValue(_) => None,
            ChannelView::UnknownName(name) => Some(name),
        }
    }

    /// The channel's number: the API's number for a known channel, the number
    /// it came with for an unknown one, none for one that came as a name.
    pub open spec fn value(self) -> Option<i32> {
        match self {
            ChannelView::Unspecified => Some(0i32),
            ChannelView::Rapid => Some(1i32),
            ChannelView::Regular => Some(2i32),
            ChannelView::Stable => Some(3i32),
            ChannelView::Extended => Some(4i32),
            ChannelView::UnknownValue(v) => Some(v),
            ChannelView::UnknownName(_) => None,
        }
    }
}

impl View for Channel {
    type V = ChannelView;

    open spec fn view(&self) -> ChannelView {
        match self {
            Channel::Unspecified => ChannelView::Unspecified,
            Channel::Rapid => ChannelView::Rapid,
            Channel::Regular => ChannelView::Regular,
            Channel::Stable => ChannelView::Stable,
            Channel::Extended => ChannelView::Extended,
            Channel::UnknownValue(v) => ChannelView::UnknownValue(*v),
            Channel::UnknownName(name) => ChannelView::UnknownName(name@),
        }
    }
}

/// The channel that GKE gives the number `v`.
pub open spec fn channel_of_value(v: i32) -> ChannelView {
    if v == 0 {
        ChannelView::Unspecified
    } else if v == 1 {
        ChannelView::Rapid
    } else if v == 2 {
        ChannelView::Regular
    } else if v == 3 {
        ChannelView::Stable
    } else if v == 4 {
        ChannelView::Extended
    } else {
        ChannelView::UnknownValue(v)
    }
}

/// The channel that GKE gives the name `name`.
pub open spec fn channel_of_name(name: Seq<char>) -> ChannelView {
    if name == "UNSPECIFIED"@ {
        ChannelView::Unspecified
    } else if name == "RAPID"@ {
        ChannelView::Rapid
    } else if name == "REGULAR"@ {
        ChannelView::Regular
    } else if name == "STABLE"@ {
        ChannelView::Stable
    } else if name == "EXTENDED"@ {
        ChannelView::Extended
    } else {
        ChannelView::UnknownName(name)
    }
}

/// The characters of an optional string slice.
pub open spec fn opt_str_view(s: Option<&str>) -> Option<Seq<char>> {
    match s {
        Some(s) => Some(s@),
        None => None,
    }
}

impl Channel {
    /// The channel of number `v`, known or not.
    pub fn from_value(v: i32) -> (r: Channel)
        ensures
            r@ == channel_of_value(v),
            r@.well_formed(),
            r@.value() == Some(v),
    {
        if v == 0 {
            Channel::Unspecified
        } else if v == 1 {
            Channel::Rapid
        } else if v == 2 {
            Channel::Regular
        } else if v == 3 {
            Channel::Stable
        } else if v == 4 {
            Channel::Extended
        } else {
            Channel::UnknownValue(v)
        }
    }

    /// The channel of name `name`, known or not.
    pub fn from_name(name: &str) -> (r: Channel)
        ensures
            r@ == channel_of_name(name@),
            r@.well_formed(),
            r@.name() == Some(name@),
    {
        if str_eq(name, "UNSPECIFIED") {
            Channel::Unspecified
        } else if str_eq(name, "RAPID") {
            Channel::Rapid
        } else if str_eq(name, "REGULAR") {
            Channel::Regular
        } else if str_eq(name, "STABLE") {
            Channel::Stable
        } else if str_eq(name, "EXTENDED") {
            Channel::Extended
        } else {
            Channel::UnknownName(name.to_owned())
        }
    }

    /// The channel's name, as [`ChannelView::name`] gives it.
    pub fn name(&self) -> (r: Option<&str>)
        ensures
            opt_str_view(r) == self@.name(),
    {
        match self {
            Channel::Unspecified => Some("UNSPECIFIED"),
            Channel::Rapid => Some("RAPID"),
            Channel::Regular => Some("REGULAR"),
            Channel::Stable => Some("STABLE"),
            Channel::Extended => Some("EXTENDED"),
            Channel::UnknownValue(_) => None,
            Channel::UnknownName(name) => Some(name.as_str()),
        }
    }

    /// The channel's number, as [`ChannelView::value`] gives it.
    pub fn value(&self) -> (r: Option<i32>)
        ensures
            r == self@.value(),
    {
        match self {
            Channel::Unspecified => Some(0),
            Channel::Rapid => Some(1),
            Channel::Regular => Some(2),
            Channel::Stable => Some(3),
            Channel::Extended => Some(4),
            Channel::UnknownValue(v) => Some(*v),
            Channel::UnknownName(_) => None,
        }
    }
}

impl Clone for Channel {
    fn clone(&self) -> (r: Self)
        ensures
            r == *self,
    {
        match self {
            Channel::Unspecified => Channel::Unspecified,
            Channel::Rapid => Channel::Rapid,
            Channel::Regular => Channel::Regular,
            Channel::Stable => Channel::Stable,
            Channel::Extended => Channel::Extended,
            Channel::UnknownValue(v) => Channel::UnknownValue(*v),
            Channel::UnknownName(name) => Channel::UnknownName(name.clone()),
        }
    }
}

impl PartialEq for Channel {
    fn eq(&self, other: &Self) -> (r: bool) {
        match (self, other) {
            (Channel::Unspecified, Channel::Unspecified) => true,
            (Channel::Rapid, Channel::Rapid) => true,
            (Channel::Regular, Channel::Regular) => true,
            (Channel::Stable, Channel::Stable) => true,
            (Channel::Extended, Channel::Extended) => true,
            (Channel::UnknownValue(a), Channel::UnknownValue(b)) => *a == *b,
            (Channel::UnknownName(a), Channel::UnknownName(b)) => a.eq(b),
            _ => false,
        }
    }
}

impl PartialEqSpecImpl for Channel {
    open spec fn obeys_eq_spec() -> bool {
        true
    }

    open spec fn eq_spec(&self, other: &Channel) -> bool {
        self@ == other@
    }
}

/// The names of the known channels differ from one another.
proof fn lemma_known_names_differ()
    ensures
        "UNSPECIFIED"@.len() == 11,
        "RAPID"@.len() == 5,
        "REGULAR"@.len() == 7,
        "STABLE"@.len() == 6,
        "EXTENDED"@.len() == 8,
{
    reveal_strlit("UNSPECIFIED");
    reveal_strlit("RAPID");
    reveal_strlit("REGULAR");
    reveal_strlit("STABLE");
    reveal_strlit("EXTENDED");
}

/// Well-formed channels are told apart by their names: two that bear the same
/// name are the same channel.
pub proof fn law_names_identify_channels(a: ChannelView, b: ChannelView)
    requires
        a.well_formed(),
        b.well_formed(),
        a.name() is Some,
        a.name() == b.name(),
    ensures
        a == b,
{
    lemma_known_names_differ();
}

/// Well-formed channels are told apart by their numbers: two that bear the
/// same number are the same channel.
pub proof fn law_numbers_identify_channels(a: ChannelView, b: ChannelView)
    requires
        a.well_formed(),
        b.well_formed(),
        a.value() is Some,
        a.value() == b.value(),
    ensures
        a == b,
{
}

/// Naming or numbering a channel and reading the name or number back gives
/// the same channel.
pub proof fn law_channel_round_trips(c: ChannelView)
    requires
        c.well_formed(),
    ensures
        c.name() matches Some(n) ==> channel_of_name(n) == c,
        c.value() matches Some(v) ==> channel_of_value(v) == c,
{
    lemma_known_names_differ();
}

/// The release channel that a cluster is subscribed to.
#[derive(Debug)]
pub struct ReleaseChannel {
    pub channel: Channel,
}

impl Clone for ReleaseChannel {
    fn clone(&self) -> (r: Self)
        ensures
            r == *self,
    {
        ReleaseChannel { channel: self.channel.clone() }
    }
}

impl Default for ReleaseChannel {
    fn default() -> (r: Self)
        ensures
            r.channel@ == ChannelView::Unspecified,
            r.channel@.well_formed(),
    {
        ReleaseChannel { channel: Channel::Unspecified }
    }
}

} // verus!

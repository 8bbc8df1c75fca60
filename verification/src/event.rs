//! The alert events and the host data they carry.

use vstd::prelude::*;

verus! {

/// Two-letter country code of a host, as two ASCII letters.
#[derive(Clone, Copy, Debug, PartialEq, Eq, Hash)]
pub struct CountryCode(pub u8, pub u8);

/// Handle by which the rendering layer finds the traffic statistics of a host.
/// The library carries it through and never looks inside.
#[derive(Clone, Copy, Debug, PartialEq, Eq, Hash)]
pub struct TrafficStatsRef(pub u64);

/// What is known of the host behind a favorite-transmission event.
#[derive(Clone, Debug, PartialEq, Eq)]
pub struct HostSummary {
    pub domain: String,
    /// Name of the autonomous system; empty when unknown.
    pub asn_name: String,
    pub country: CountryCode,
    pub traffic_stats: TrafficStatsRef,
}

/// Mathematical model of a [`HostSummary`].
pub struct HostSummaryView {
    pub domain: Seq<char>,
    pub asn_name: Seq<char>,
    pub country: CountryCode,
    pub traffic_stats: TrafficStatsRef,
}

impl View for HostSummary {
    type V = HostSummaryView;

    open spec fn view(&self) -> HostSummaryView {
        HostSummaryView {
            domain: self.domain@,
            asn_name: self.asn_name@,
            country: self.country,
            traffic_stats: self.traffic_stats,
        }
    }
}

/// The packet rate went over its threshold.
#[derive(Clone, Debug, PartialEq, Eq)]
pub struct PacketsThresholdExceeded {
    /// Packets per second, as configured when the event fired.
    pub threshold: u32,
    pub incoming: u32,
    pub outgoing: u32,
    pub timestamp: String,
}

/// Mathematical model of a [`PacketsThresholdExceeded`].
pub struct PacketsThresholdExceededView {
    pub threshold: u32,
    pub incoming: u32,
    pub outgoing: u32,
    pub timestamp: Seq<char>,
}

impl PacketsThresholdExceededView {
    /// Packets seen in both directions.
    pub open spec fn total(self) -> int {
        self.incoming + self.outgoing
    }
}

impl View for PacketsThresholdExceeded {
    type V = PacketsThresholdExceededView;

    open spec fn view(&self) -> PacketsThresholdExceededView {
        PacketsThresholdExceededView {
            threshold: self.threshold,
            incoming: self.incoming,
            outgoing: self.outgoing,
            timestamp: self.timestamp@,
        }
    }
}

impl PacketsThresholdExceeded {
    /// Packets seen in both directions. The sum is taken in 64 bits, where two
    /// 32-bit counts cannot overflow.
    pub fn total(&self) -> (t: u64)
        ensures
            t == self@.total(),
    {
        self.incoming as u64 + self.outgoing as u64
    }
}

/// The byte rate went over its threshold.
#[derive(Clone, Debug, PartialEq, Eq)]
pub struct BytesThresholdExceeded {
    /// Bytes per second before unit scaling, as configured when the event fired.
    pub threshold: u32,
    pub incoming: u64,
    pub outgoing: u64,
    pub timestamp: String,
}

/// Mathematical model of a [`BytesThresholdExceeded`].
pub struct BytesThresholdExceededView {
    pub threshold: u32,
    pub incoming: u64,
    pub outgoing: u64,
    pub timestamp: Seq<char>,
}

impl BytesThresholdExceededView {
    /// Bytes seen in both directions.
    pub open spec fn total(self) -> int {
        self.incoming + self.outgoing
    }
}

impl View for BytesThresholdExceeded {
    type V = BytesThresholdExceededView;

    open spec fn view(&self) -> BytesThresholdExceededView {
        BytesThresholdExceededView {
            threshold: self.threshold,
            incoming: self.incoming,
            outgoing: self.outgoing,
            timestamp: self.timestamp@,
        }
    }
}

impl BytesThresholdExceeded {
    /// Bytes seen in both directions. Each count is widened to 128 bits before
    /// the sum, so the result is the exact sum for every pair of 64-bit counts.
    pub fn total(&self) -> (t: u128)
        ensures
            t == self@.total(),
    {
        self.incoming as u128 + self.outgoing as u128
    }
}

/// A favorite host was seen transmitting.
#[derive(Clone, Debug, PartialEq, Eq)]
pub struct FavoriteTransmitted {
    pub host: HostSummary,
    pub timestamp: String,
}

/// Mathematical model of a [`FavoriteTransmitted`].
pub struct FavoriteTransmittedView {
    pub host: HostSummaryView,
    pub timestamp: Seq<char>,
}

impl View for FavoriteTransmitted {
    type V = FavoriteTransmittedView;

    open spec fn view(&self) -> FavoriteTransmittedView {
        FavoriteTransmittedView { host: self.host@, timestamp: self.timestamp@ }
    }
}

/// One alert, as the detection engine recorded it.
#[derive(Clone, Debug, PartialEq, Eq)]
pub enum NotificationEvent {
    PacketsThresholdExceeded(PacketsThresholdExceeded),
    BytesThresholdExceeded(BytesThresholdExceeded),
    FavoriteTransmitted(FavoriteTransmitted),
}

/// Mathematical model of a [`NotificationEvent`].
pub enum NotificationEventView {
    PacketsThresholdExceeded(PacketsThresholdExceededView),
    BytesThresholdExceeded(BytesThresholdExceededView),
    FavoriteTransmitted(FavoriteTransmittedView),
}

impl View for NotificationEvent {
    type V = NotificationEventView;

    open spec fn view(&self) -> NotificationEventView {
        match self {
            NotificationEvent::PacketsThresholdExceeded(e) => {
                NotificationEventView::PacketsThresholdExceeded(e@)
            },
            NotificationEvent::BytesThresholdExceeded(e) => {
                NotificationEventView::BytesThresholdExceeded(e@)
            },
            NotificationEvent::FavoriteTransmitted(e) => {
                NotificationEventView::FavoriteTransmitted(e@)
            },
        }
    }
}

impl NotificationEvent {
    /// The instant at which the event fired, as the producer formatted it.
    pub fn timestamp(&self) -> (t: &String)
        ensures
            t@ == self@.timestamp(),
    {
        match self {
            NotificationEvent::PacketsThresholdExceeded(e) => &e.timestamp,
            NotificationEvent::BytesThresholdExceeded(e) => &e.timestamp,
            NotificationEvent::FavoriteTransmitted(e) => &e.timestamp,
        }
    }
}

impl NotificationEventView {
    /// The instant at which the event fired.
    pub open spec fn timestamp(self) -> Seq<char> {
        match self {
            NotificationEventView::PacketsThresholdExceeded(e) => e.timestamp,
            NotificationEventView::BytesThresholdExceeded(e) => e.timestamp,
            NotificationEventView::FavoriteTransmitted(e) => e.timestamp,
        }
    }
}

/// The views of a run of events, in the same order.
pub open spec fn event_views(events: Seq<NotificationEvent>) -> Seq<NotificationEventView> {
    Seq::new(events.len(), |i: int| events[i]@)
}

} // verus!

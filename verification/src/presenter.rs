//! Maps each event to the record that the rendering layer paints.
//!
//! The wording comes from two collaborators, handed in as functions: the
//! localiser, which turns a [`Phrase`] into display text, and the unit
//! formatter, which turns a byte count into a scaled amount. The functions
//! that take the collaborators' answers as arguments say exactly which record
//! results; the functions that call the collaborators say that the record is
//! built from what the calls returned.

use vstd::prelude::*;
use crate::event::{
    BytesThresholdExceeded, BytesThresholdExceededView, CountryCode, FavoriteTransmitted,
    FavoriteTransmittedView, NotificationEvent, NotificationEventView, PacketsThresholdExceeded,
    PacketsThresholdExceededView, TrafficStatsRef, event_views,
};
use crate::log::{CAP, NotificationLog};
use crate::text::{
    decimal, decimal_string, joined, joined_string, labelled, labelled_string, rated, rated_string,
};

verus! {

/// What the localiser is asked for. A templated phrase carries the value that
/// goes into the template.
#[derive(Clone, Debug, PartialEq, Eq)]
pub enum Phrase {
    Threshold,
    PerSecond,
    Incoming,
    Outgoing,
    PacketsExceeded,
    /// The sentence that reports this many packets.
    PacketsExceededValue(u64),
    BytesExceeded,
    /// The sentence that reports this scaled amount of bytes.
    BytesExceededValue(String),
    FavoriteTransmitted,
    ClearAll,
    OnlyLast30,
    NoNotificationsSet,
    NoNotificationsReceived,
}

/// Mathematical model of a [`Phrase`].
pub enum PhraseView {
    Threshold,
    PerSecond,
    Incoming,
    Outgoing,
    PacketsExceeded,
    PacketsExceededValue(u64),
    BytesExceeded,
    BytesExceededValue(Seq<char>),
    FavoriteTransmitted,
    ClearAll,
    OnlyLast30,
    NoNotificationsSet,
    NoNotificationsReceived,
}

impl View for Phrase {
    type V = PhraseView;

    open spec fn view(&self) -> PhraseView {
        match self {
            Phrase::Threshold => PhraseView::Threshold,
            Phrase::PerSecond => PhraseView::PerSecond,
            Phrase::Incoming => PhraseView::Incoming,
            Phrase::Outgoing => PhraseView::Outgoing,
            Phrase::PacketsExceeded => PhraseView::PacketsExceeded,
            Phrase::PacketsExceededValue(count) => PhraseView::PacketsExceededValue(*count),
            Phrase::BytesExceeded => PhraseView::BytesExceeded,
            Phrase::BytesExceededValue(amount) => PhraseView::BytesExceededValue(amount@),
            Phrase::FavoriteTransmitted => PhraseView::FavoriteTransmitted,
            Phrase::ClearAll => PhraseView::ClearAll,
            Phrase::OnlyLast30 => PhraseView::OnlyLast30,
            Phrase::NoNotificationsSet => PhraseView::NoNotificationsSet,
            Phrase::NoNotificationsReceived => PhraseView::NoNotificationsReceived,
        }
    }
}

/// The glyph that stands beside a record.
#[derive(Clone, Copy, Debug, PartialEq, Eq)]
pub enum IconKind {
    PacketsThreshold,
    BytesThreshold,
    Star,
}

/// What the flag of a favorite host and its tooltip are drawn from.
#[derive(Clone, Copy, Debug, PartialEq, Eq)]
pub struct FlagTooltip {
    pub country: CountryCode,
    pub traffic_stats: TrafficStatsRef,
}

/// One event, ready to be painted.
#[derive(Clone, Debug, PartialEq, Eq)]
pub struct PresentationRecord {
    pub icon_kind: IconKind,
    /// The phrase of the title; the rendering layer localises it.
    pub title_key: Phrase,
    pub timestamp: String,
    pub subtitle_lines: Vec<String>,
    pub detail_lines: Vec<String>,
    /// Present for a favorite host only.
    pub flag: Option<FlagTooltip>,
}

/// Mathematical model of a [`PresentationRecord`].
pub struct PresentationRecordView {
    pub icon_kind: IconKind,
    pub title_key: PhraseView,
    pub timestamp: Seq<char>,
    pub subtitle_lines: Seq<Seq<char>>,
    pub detail_lines: Seq<Seq<char>>,
    pub flag: Option<FlagTooltip>,
}

impl View for PresentationRecord {
    type V = PresentationRecordView;

    open spec fn view(&self) -> PresentationRecordView {
        PresentationRecordView {
            icon_kind: self.icon_kind,
            title_key: self.title_key@,
            timestamp: self.timestamp@,
            subtitle_lines: self.subtitle_lines.deep_view(),
            detail_lines: self.detail_lines.deep_view(),
            flag: self.flag,
        }
    }
}

/// The four words that the lines of a threshold record are built around, in
/// the operator's language.
#[derive(Clone, Debug, PartialEq, Eq)]
pub struct Labels {
    pub threshold: String,
    pub per_second: String,
    pub incoming: String,
    pub outgoing: String,
}

/// Mathematical model of [`Labels`].
pub struct LabelsView {
    pub threshold: Seq<char>,
    pub per_second: Seq<char>,
    pub incoming: Seq<char>,
    pub outgoing: Seq<char>,
}

impl View for Labels {
    type V = LabelsView;

    open spec fn view(&self) -> LabelsView {
        LabelsView {
            threshold: self.threshold@,
            per_second: self.per_second@,
            incoming: self.incoming@,
            outgoing: self.outgoing@,
        }
    }
}

/// The texts of a byte-threshold record that come from the collaborators.
#[derive(Clone, Debug, PartialEq, Eq)]
pub struct BytesTexts {
    /// The threshold as a scaled amount.
    pub threshold: String,
    /// The sentence that reports the scaled total.
    pub total_line: String,
    /// The incoming bytes as a scaled amount.
    pub incoming: String,
    /// The outgoing bytes as a scaled amount.
    pub outgoing: String,
}

/// Mathematical model of [`BytesTexts`].
pub struct BytesTextsView {
    pub threshold: Seq<char>,
    pub total_line: Seq<char>,
    pub incoming: Seq<char>,
    pub outgoing: Seq<char>,
}

impl View for BytesTexts {
    type V = BytesTextsView;

    open spec fn view(&self) -> BytesTextsView {
        BytesTextsView {
            threshold: self.threshold@,
            total_line: self.total_line@,
            incoming: self.incoming@,
            outgoing: self.outgoing@,
        }
    }
}

/// The record of a packet-threshold event: the threshold as a plain rate, then
/// the total sentence and the two directions as plain numbers.
pub open spec fn packets_record(
    event: PacketsThresholdExceededView,
    labels: LabelsView,
    total_line: Seq<char>,
) -> PresentationRecordView {
    PresentationRecordView {
        icon_kind: IconKind::PacketsThreshold,
        title_key: PhraseView::PacketsExceeded,
        timestamp: event.timestamp,
        subtitle_lines: seq![
            rated(labels.threshold, decimal(event.threshold as nat), labels.per_second),
        ],
        detail_lines: seq![
            total_line,
            labelled(labels.incoming, decimal(event.incoming as nat)),
            labelled(labels.outgoing, decimal(event.outgoing as nat)),
        ],
        flag: None,
    }
}

/// The record of a byte-threshold event: the threshold as a scaled rate, then
/// the total sentence and the two directions as scaled amounts.
pub open spec fn bytes_record(
    event: BytesThresholdExceededView,
    labels: LabelsView,
    texts: BytesTextsView,
) -> PresentationRecordView {
    PresentationRecordView {
        icon_kind: IconKind::BytesThreshold,
        title_key: PhraseView::BytesExceeded,
        timestamp: event.timestamp,
        subtitle_lines: seq![rated(labels.threshold, texts.threshold, labels.per_second)],
        detail_lines: seq![
            texts.total_line,
            labelled(labels.incoming, texts.incoming),
            labelled(labels.outgoing, texts.outgoing),
        ],
        flag: None,
    }
}

/// The record of a favorite-transmission event: the host's domain, followed by
/// the name of its autonomous system where that is known.
pub open spec fn favorite_record(event: FavoriteTransmittedView) -> PresentationRecordView {
    PresentationRecordView {
        icon_kind: IconKind::Star,
        title_key: PhraseView::FavoriteTransmitted,
        timestamp: event.timestamp,
        subtitle_lines: Seq::empty(),
        detail_lines: seq![joined(event.host.domain, event.host.asn_name)],
        flag: Some(
            FlagTooltip { country: event.host.country, traffic_stats: event.host.traffic_stats },
        ),
    }
}

/// Builds the record of a packet-threshold event from the labels and the
/// localised total sentence.
pub fn packets_notification_log(
    event: &PacketsThresholdExceeded,
    labels: &Labels,
    total_line: String,
) -> (record: PresentationRecord)
    ensures
        record@ == packets_record(event@, labels@, total_line@),
{
    let threshold = decimal_string(event.threshold as u64);
    let incoming = decimal_string(event.incoming as u64);
    let outgoing = decimal_string(event.outgoing as u64);
    let mut subtitle_lines: Vec<String> = Vec::new();
    subtitle_lines.push(
        rated_string(labels.threshold.as_str(), threshold.as_str(), labels.per_second.as_str()),
    );
    let mut detail_lines: Vec<String> = Vec::new();
    detail_lines.push(total_line);
    detail_lines.push(labelled_string(labels.incoming.as_str(), incoming.as_str()));
    detail_lines.push(labelled_string(labels.outgoing.as_str(), outgoing.as_str()));
    let record = PresentationRecord {
        icon_kind: IconKind::PacketsThreshold,
        title_key: Phrase::PacketsExceeded,
        timestamp: event.timestamp.clone(),
        subtitle_lines,
        detail_lines,
        flag: None,
    };
    proof {
        let model = packets_record(event@, labels@, total_line@);
        assert(record@.subtitle_lines =~= model.subtitle_lines);
        assert(record@.detail_lines =~= model.detail_lines);
    }
    record
}

/// Builds the record of a byte-threshold event from the labels and the texts
/// that the collaborators returned.
pub fn bytes_notification_log(
    event: &BytesThresholdExceeded,
    labels: &Labels,
    texts: BytesTexts,
) -> (record: PresentationRecord)
    ensures
        record@ == bytes_record(event@, labels@, texts@),
{
    let mut subtitle_lines: Vec<String> = Vec::new();
    subtitle_lines.push(
        rated_string(
            labels.threshold.as_str(),
            texts.threshold.as_str(),
            labels.per_second.as_str(),
        ),
    );
    let incoming = labelled_string(labels.incoming.as_str(), texts.incoming.as_str());
    let outgoing = labelled_string(labels.outgoing.as_str(), texts.outgoing.as_str());
    let mut detail_lines: Vec<String> = Vec::new();
    detail_lines.push(texts.total_line);
    detail_lines.push(incoming);
    detail_lines.push(outgoing);
    let record = PresentationRecord {
        icon_kind: IconKind::BytesThreshold,
        title_key: Phrase::BytesExceeded,
        timestamp: event.timestamp.clone(),
        subtitle_lines,
        detail_lines,
        flag: None,
    };
    proof {
        let model = bytes_record(event@, labels@, texts@);
        assert(record@.subtitle_lines =~= model.subtitle_lines);
        assert(record@.detail_lines =~= model.detail_lines);
    }
    record
}

/// Builds the record of a favorite-transmission event.
pub fn favorite_notification_log(event: &FavoriteTransmitted) -> (record: PresentationRecord)
    ensures
        record@ == favorite_record(event@),
{
    let mut detail_lines: Vec<String> = Vec::new();
    detail_lines.push(joined_string(event.host.domain.as_str(), event.host.asn_name.as_str()));
    let record = PresentationRecord {
        icon_kind: IconKind::Star,
        title_key: Phrase::FavoriteTransmitted,
        timestamp: event.timestamp.clone(),
        subtitle_lines: Vec::new(),
        detail_lines,
        flag: Some(
            FlagTooltip { country: event.host.country, traffic_stats: event.host.traffic_stats },
        ),
    };
    proof {
        let model = favorite_record(event@);
        assert(record@.subtitle_lines =~= model.subtitle_lines);
        assert(record@.detail_lines =~= model.detail_lines);
    }
    record
}

/// Whether `labels` holds what the localiser returned for the four words.
pub open spec fn labels_resolved<L: Fn(Phrase) -> String>(localize: L, labels: Labels) -> bool {
    &&& call_ensures(localize, (Phrase::Threshold,), labels.threshold)
    &&& call_ensures(localize, (Phrase::PerSecond,), labels.per_second)
    &&& call_ensures(localize, (Phrase::Incoming,), labels.incoming)
    &&& call_ensures(localize, (Phrase::Outgoing,), labels.outgoing)
}

/// Whether `record` is the record of the packet-threshold event `event`, built
/// from these answers of the localiser: the labels, and the total sentence for
/// the sum of both directions.
pub open spec fn packets_presented<L: Fn(Phrase) -> String>(
    localize: L,
    event: PacketsThresholdExceededView,
    record: PresentationRecordView,
    labels: Labels,
    total_line: String,
) -> bool {
    &&& labels_resolved(localize, labels)
    &&& call_ensures(localize, (Phrase::PacketsExceededValue(event.total() as u64),), total_line)
    &&& record == packets_record(event, labels@, total_line@)
}

/// Whether `record` is the record of the byte-threshold event `event`, built
/// from these answers of the collaborators: the labels; the threshold, the sum
/// of both directions and each direction, every one as a 128-bit count handed
/// to the unit formatter; and the total sentence for the scaled sum.
pub open spec fn bytes_presented<L: Fn(Phrase) -> String, F: Fn(u128) -> String>(
    localize: L,
    format: F,
    event: BytesThresholdExceededView,
    record: PresentationRecordView,
    labels: Labels,
    texts: BytesTexts,
    total: String,
) -> bool {
    &&& labels_resolved(localize, labels)
    &&& call_ensures(format, (event.threshold as u128,), texts.threshold)
    &&& call_ensures(format, (event.total() as u128,), total)
    &&& call_ensures(localize, (Phrase::BytesExceededValue(total),), texts.total_line)
    &&& call_ensures(format, (event.incoming as u128,), texts.incoming)
    &&& call_ensures(format, (event.outgoing as u128,), texts.outgoing)
    &&& record == bytes_record(event, labels@, texts@)
}

/// Whether `record` is the record of the packet-threshold event `event` for
/// some answers of the localiser.
pub open spec fn presents_packets<L: Fn(Phrase) -> String>(
    localize: L,
    event: PacketsThresholdExceededView,
    record: PresentationRecordView,
) -> bool {
    exists|labels: Labels, total_line: String| #[trigger]
        packets_presented(localize, event, record, labels, total_line)
}

/// Whether `record` is the record of the byte-threshold event `event` for some
/// answers of the two collaborators.
pub open spec fn presents_bytes<L: Fn(Phrase) -> String, F: Fn(u128) -> String>(
    localize: L,
    format: F,
    event: BytesThresholdExceededView,
    record: PresentationRecordView,
) -> bool {
    exists|labels: Labels, texts: BytesTexts, total: String| #[trigger]
        bytes_presented(localize, format, event, record, labels, texts, total)
}

/// Whether `record` presents `event` with wording that the two collaborators
/// returned.
pub open spec fn presents<L: Fn(Phrase) -> String, F: Fn(u128) -> String>(
    localize: L,
    format: F,
    event: NotificationEventView,
    record: PresentationRecordView,
) -> bool {
    match event {
        NotificationEventView::PacketsThresholdExceeded(e) => presents_packets(localize, e, record),
        NotificationEventView::BytesThresholdExceeded(e) => presents_bytes(
            localize,
            format,
            e,
            record,
        ),
        NotificationEventView::FavoriteTransmitted(e) => record == favorite_record(e),
    }
}

/// Whether the localiser is stable: one phrase always gets one text.
pub open spec fn localizer_stable<L: Fn(Phrase) -> String>(localize: L) -> bool {
    forall|first: Phrase, second: Phrase, first_text: String, second_text: String|
        #![trigger
            call_ensures(localize, (first,), first_text),
            call_ensures(localize, (second,), second_text)]
        first@ == second@ && call_ensures(localize, (first,), first_text) && call_ensures(
            localize,
            (second,),
            second_text,
        ) ==> first_text@ == second_text@
}

/// Whether the unit formatter is stable: one amount always gets one text.
pub open spec fn formatter_stable<F: Fn(u128) -> String>(format: F) -> bool {
    forall|amount: u128, first_text: String, second_text: String|
        #![trigger
            call_ensures(format, (amount,), first_text),
            call_ensures(format, (amount,), second_text)]
        call_ensures(format, (amount,), first_text) && call_ensures(
            format,
            (amount,),
            second_text,
        ) ==> first_text@ == second_text@
}

/// Asks the localiser for the four words of a threshold record.
pub fn resolve_labels<L: Fn(Phrase) -> String>(localize: &L) -> (labels: Labels)
    requires
        forall|phrase: Phrase| call_requires(*localize, (phrase,)),
    ensures
        labels_resolved(*localize, labels),
{
    Labels {
        threshold: localize(Phrase::Threshold),
        per_second: localize(Phrase::PerSecond),
        incoming: localize(Phrase::Incoming),
        outgoing: localize(Phrase::Outgoing),
    }
}

/// Presents one event: asks the collaborators for the wording that its kind
/// needs and builds the record from their answers.
pub fn present<L: Fn(Phrase) -> String, F: Fn(u128) -> String>(
    event: &NotificationEvent,
    localize: &L,
    format: &F,
) -> (record: PresentationRecord)
    requires
        forall|phrase: Phrase| call_requires(*localize, (phrase,)),
        forall|amount: u128| call_requires(*format, (amount,)),
    ensures
        presents(*localize, *format, event@, record@),
{
    match event {
        NotificationEvent::PacketsThresholdExceeded(e) => {
            let labels = resolve_labels(localize);
            let total_line = localize(Phrase::PacketsExceededValue(e.total()));
            let record = packets_notification_log(e, &labels, total_line);
            assert(packets_presented(*localize, e@, record@, labels, total_line));
            record
        },
        NotificationEvent::BytesThresholdExceeded(e) => {
            let labels = resolve_labels(localize);
            let threshold = format(e.threshold as u128);
            let total = format(e.total());
            let total_line = localize(Phrase::BytesExceededValue(total));
            let incoming = format(e.incoming as u128);
            let outgoing = format(e.outgoing as u128);
            let texts = BytesTexts { threshold, total_line, incoming, outgoing };
            let record = bytes_notification_log(e, &labels, texts);
            assert(bytes_presented(*localize, *format, e@, record@, labels, texts, total));
            record
        },
        NotificationEvent::FavoriteTransmitted(e) => favorite_notification_log(e),
    }
}

/// Presents every retained event, oldest first.
pub fn logged_notifications<L: Fn(Phrase) -> String, F: Fn(u128) -> String>(
    log: &NotificationLog,
    localize: &L,
    format: &F,
) -> (records: Vec<PresentationRecord>)
    requires
        forall|phrase: Phrase| call_requires(*localize, (phrase,)),
        forall|amount: u128| call_requires(*format, (amount,)),
    ensures
        records@.len() == log@.len(),
        records@.len() <= CAP,
        forall|i: int|
            0 <= i < records@.len() ==> presents(
                *localize,
                *format,
                log@[i],
                #[trigger] records@[i]@,
            ),
{
    let events = log.iter();
    let mut records: Vec<PresentationRecord> = Vec::new();
    let mut index: usize = 0;
    while index < events.len()
        invariant
            index <= events.len(),
            events@.len() <= CAP,
            records@.len() == index,
            event_views(events@) == log@,
            forall|phrase: Phrase| call_requires(*localize, (phrase,)),
            forall|amount: u128| call_requires(*format, (amount,)),
            forall|i: int|
                0 <= i < index ==> presents(*localize, *format, log@[i], #[trigger] records@[i]@),
        decreases events.len() - index,
    {
        let record = present(&events[index], localize, format);
        records.push(record);
        index += 1;
    }
    records
}

} // verus!

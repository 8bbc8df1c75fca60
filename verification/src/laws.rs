//! What holds of the log, the page and the records across several operations.

use vstd::prelude::*;
use crate::event::{
    BytesThresholdExceededView, FavoriteTransmittedView, NotificationEventView,
    PacketsThresholdExceededView,
};
use crate::log::{CAP, appended, appended_all, cleared, retained};
use crate::page_state::{PageKind, ThresholdConfig, page_kind};
use crate::presenter::{
    BytesTexts, Labels, LabelsView, Phrase, PresentationRecordView, bytes_presented,
    favorite_record, formatter_stable, localizer_stable, packets_presented, packets_record,
    presents,
};
use crate::text::{decimal, digit, digit_value, is_digit, numeral_value};

verus! {

/// Clearing is idempotent: a second clear-all right after the first leaves the
/// same log as the first alone, and that log is empty.
pub proof fn law_clear_all_idempotent(log: Seq<NotificationEventView>)
    ensures
        cleared(cleared(log)) == cleared(log),
        cleared(log).len() == 0,
{
}

/// After a clear-all the page follows the configuration alone: it waits for
/// events where something is switched on, and asks for configuration where
/// nothing is. It never shows events.
pub proof fn law_cleared_page_follows_configuration(
    config: ThresholdConfig,
    log: Seq<NotificationEventView>,
)
    ensures
        config.any_enabled() ==> page_kind(config, cleared(log).len())
            == PageKind::WaitingForEvents,
        !config.any_enabled() ==> page_kind(config, cleared(log).len()) == PageKind::Unconfigured,
{
}

/// One arrival on a log within the cap: the log stays within the cap, ends
/// with the arrival, and keeps what it held, in order, but for the oldest
/// event of a full log.
pub proof fn law_append_keeps_order(log: Seq<NotificationEventView>, event: NotificationEventView)
    requires
        log.len() <= CAP,
    ensures
        appended(log, event).len() <= CAP,
        appended(log, event).last() == event,
        log.len() < CAP ==> appended(log, event) == log.push(event),
        log.len() == CAP ==> appended(log, event) == log.subrange(1, CAP as int).push(event),
{
    if log.len() == CAP {
        assert(appended(log, event) =~= log.subrange(1, CAP as int).push(event));
    }
}

/// Any run of arrivals on a log within the cap leaves what bounded retention
/// keeps of the old log followed by the arrivals: all of it while it fits,
/// else its most recent `CAP` entries, in arrival order.
pub proof fn law_retention(log: Seq<NotificationEventView>, events: Seq<NotificationEventView>)
    requires
        log.len() <= CAP,
    ensures
        appended_all(log, events) == retained(log + events),
        appended_all(log, events).len() <= CAP,
    decreases events.len(),
{
    if events.len() == 0 {
        assert(log + events =~= log);
    } else {
        let earlier = events.drop_last();
        law_retention(log, earlier);
        assert((log + earlier).push(events.last()) =~= log + events);
        assert(retained(retained(log + earlier).push(events.last())) =~= retained(log + events));
    }
}

/// Arrivals on an empty log: the log holds as many events as arrived, up to
/// the cap, and it is at the cap exactly when at least `CAP` events arrived.
/// So the thirty-first arrival leaves thirty events, the oldest gone.
pub proof fn law_cap_reached_at_exactly_cap(events: Seq<NotificationEventView>)
    ensures
        appended_all(Seq::empty(), events) == retained(events),
        events.len() <= CAP ==> appended_all(Seq::empty(), events).len() == events.len(),
        events.len() > CAP ==> appended_all(Seq::empty(), events).len() == CAP,
        appended_all(Seq::empty(), events).len() >= CAP <==> events.len() >= CAP,
{
    law_retention(Seq::empty(), events);
    assert(Seq::<NotificationEventView>::empty() + events =~= events);
}

/// The totals that the collaborators are asked about are the exact sums of
/// both directions: the width in which each is taken holds every sum of two
/// counts.
pub proof fn law_totals_are_exact(
    packets: PacketsThresholdExceededView,
    bytes: BytesThresholdExceededView,
)
    ensures
        (packets.total() as u64) as int == packets.incoming as int + packets.outgoing as int,
        (bytes.total() as u128) as int == bytes.incoming as int + bytes.outgoing as int,
{
}

/// A packet-threshold record shows the event's own numbers as plain decimal
/// numerals: the threshold between its label and the rate unit, then the total
/// sentence as it was handed in, then each direction behind its label.
pub proof fn law_packets_record_shows_the_counts(
    event: PacketsThresholdExceededView,
    labels: LabelsView,
    total_line: Seq<char>,
)
    ensures
        packets_record(event, labels, total_line).subtitle_lines == seq![
            labels.threshold + seq![':', ' '] + decimal(event.threshold as nat) + seq![' ']
                + labels.per_second,
        ],
        packets_record(event, labels, total_line).detail_lines == seq![
            total_line,
            labels.incoming + seq![':', ' '] + decimal(event.incoming as nat),
            labels.outgoing + seq![':', ' '] + decimal(event.outgoing as nat),
        ],
{
}

/// The detail of a favorite host is its domain alone where the name of its
/// autonomous system is empty; otherwise it is the domain, then ` - `, then the
/// name, and nothing more.
pub proof fn law_favorite_detail(event: FavoriteTransmittedView)
    ensures
        favorite_record(event).detail_lines.len() == 1,
        event.host.asn_name.len() == 0 ==> favorite_record(event).detail_lines[0]
            == event.host.domain,
        event.host.asn_name.len() > 0 ==> favorite_record(event).detail_lines[0]
            == event.host.domain + seq![' ', '-', ' '] + event.host.asn_name,
{
}

/// With stable collaborators, presenting is a function of the event: any two
/// records that present one event are the same record.
pub proof fn law_presentation_is_a_function<L: Fn(Phrase) -> String, F: Fn(u128) -> String>(
    localize: L,
    format: F,
    event: NotificationEventView,
    first: PresentationRecordView,
    second: PresentationRecordView,
)
    requires
        localizer_stable(localize),
        formatter_stable(format),
        presents(localize, format, event, first),
        presents(localize, format, event, second),
    ensures
        first == second,
{
    match event {
        NotificationEventView::PacketsThresholdExceeded(e) => {
            let (labels1, line1) = choose|labels: Labels, line: String| #[trigger]
                packets_presented(localize, e, first, labels, line);
            let (labels2, line2) = choose|labels: Labels, line: String| #[trigger]
                packets_presented(localize, e, second, labels, line);
            assert(labels1@ == labels2@);
            assert(line1@ == line2@);
        },
        NotificationEventView::BytesThresholdExceeded(e) => {
            let (labels1, texts1, total1) = choose|
                labels: Labels,
                texts: BytesTexts,
                total: String,
            | #[trigger] bytes_presented(localize, format, e, first, labels, texts, total);
            let (labels2, texts2, total2) = choose|
                labels: Labels,
                texts: BytesTexts,
                total: String,
            | #[trigger] bytes_presented(localize, format, e, second, labels, texts, total);
            assert(labels1@ == labels2@);
            assert(total1@ == total2@);
            assert(Phrase::BytesExceededValue(total1)@ == Phrase::BytesExceededValue(total2)@);
            assert(texts1@ == texts2@);
        },
        NotificationEventView::FavoriteTransmitted(e) => {},
    }
}

/// The page after an arrival shows events, whatever the configuration and
/// whatever the log held.
pub proof fn law_arrival_populates_page(
    config: ThresholdConfig,
    log: Seq<NotificationEventView>,
    event: NotificationEventView,
)
    ensures
        page_kind(config, appended(log, event).len()) == PageKind::Populated,
{
}

/// A decimal numeral is a non-empty run of digits that reads back as the
/// number it was made from, and only the numeral of zero starts with a zero.
/// So different numbers have different numerals.
pub proof fn law_decimal_reads_back(n: nat)
    ensures
        decimal(n).len() >= 1,
        forall|i: int| 0 <= i < decimal(n).len() ==> is_digit(#[trigger] decimal(n)[i]),
        numeral_value(decimal(n)) == n,
        n > 0 ==> decimal(n)[0] != '0',
    decreases n,
{
    if n < 10 {
        let text = decimal(n);
        assert(text.drop_last() =~= Seq::<char>::empty());
        assert(numeral_value(text.drop_last()) == 0);
        assert(digit_value(digit(n as int)) == n);
    } else {
        law_decimal_reads_back(n / 10);
        let text = decimal(n);
        assert(text.drop_last() =~= decimal(n / 10));
        assert(digit_value(digit((n % 10) as int)) == n % 10);
        assert(text[0] == decimal(n / 10)[0]);
    }
}

} // verus!

//! Decides what the notifications page shows.
//!
//! The page is classified afresh on every render pass from the configuration
//! and the log; nothing is remembered between passes. A log that holds
//! anything is always shown, whatever the configuration says by then.

use vstd::prelude::*;
use crate::log::{CAP, NotificationLog, cleared};
use crate::presenter::{Phrase, PresentationRecord, logged_notifications, presents};

verus! {

/// The notification kinds an operator may have switched on.
#[derive(Clone, Copy, Debug, PartialEq, Eq)]
pub struct ThresholdConfig {
    pub packets_threshold: Option<u32>,
    pub bytes_threshold: Option<u32>,
    pub favorite_notify_enabled: bool,
}

impl ThresholdConfig {
    /// Whether at least one notification kind is switched on.
    pub open spec fn any_enabled(self) -> bool {
        self.packets_threshold is Some || self.bytes_threshold is Some
            || self.favorite_notify_enabled
    }
}

/// The three things the page can be.
#[derive(Clone, Copy, Debug, PartialEq, Eq)]
pub enum PageKind {
    /// Nothing is switched on and nothing was logged: guidance to the settings.
    Unconfigured,
    /// Something is switched on and nothing was logged yet.
    WaitingForEvents,
    /// The log holds events.
    Populated,
}

/// The page for a configuration and a log of `len` events.
pub open spec fn page_kind(config: ThresholdConfig, len: nat) -> PageKind {
    if len > 0 {
        PageKind::Populated
    } else if config.any_enabled() {
        PageKind::WaitingForEvents
    } else {
        PageKind::Unconfigured
    }
}

/// Classifies the page.
pub fn select_page_state(config: &ThresholdConfig, log: &NotificationLog) -> (kind: PageKind)
    ensures
        kind == page_kind(*config, log@.len()),
        log@.len() == 0 && !config.any_enabled() ==> kind == PageKind::Unconfigured,
        log@.len() == 0 && config.any_enabled() ==> kind == PageKind::WaitingForEvents,
        log@.len() > 0 ==> kind == PageKind::Populated,
{
    if config.packets_threshold.is_none() && config.bytes_threshold.is_none()
        && !config.favorite_notify_enabled && log.is_empty() {
        PageKind::Unconfigured
    } else if log.is_empty() {
        PageKind::WaitingForEvents
    } else {
        PageKind::Populated
    }
}

/// What the rendering layer paints in one pass.
#[derive(Clone, Debug, PartialEq, Eq)]
pub enum PageState {
    Unconfigured,
    WaitingForEvents,
    Populated {
        /// One record for each retained event, oldest first.
        records: Vec<PresentationRecord>,
        /// Whether to warn that older events may be missing.
        disclaimer: bool,
    },
}

impl PageState {
    /// Which of the three pages this is.
    pub open spec fn spec_kind(&self) -> PageKind {
        match self {
            PageState::Unconfigured => PageKind::Unconfigured,
            PageState::WaitingForEvents => PageKind::WaitingForEvents,
            PageState::Populated { .. } => PageKind::Populated,
        }
    }

    /// The notice of the page, if it has one.
    pub open spec fn spec_notice(&self) -> Option<Phrase> {
        match self {
            PageState::Unconfigured => Some(Phrase::NoNotificationsSet),
            PageState::WaitingForEvents => Some(Phrase::NoNotificationsReceived),
            PageState::Populated { disclaimer, .. } => if *disclaimer {
                Some(Phrase::OnlyLast30)
            } else {
                None
            },
        }
    }

    /// The command behind the page's clear-all control, if it has one.
    pub open spec fn spec_clear_command(&self) -> Option<Command> {
        match self {
            PageState::Populated { .. } => Some(Command::ClearAll),
            _ => None,
        }
    }

    /// Which of the three pages this is.
    #[verifier::when_used_as_spec(spec_kind)]
    pub fn kind(&self) -> (kind: PageKind)
        ensures
            kind == self.spec_kind(),
    {
        match self {
            PageState::Unconfigured => PageKind::Unconfigured,
            PageState::WaitingForEvents => PageKind::WaitingForEvents,
            PageState::Populated { .. } => PageKind::Populated,
        }
    }

    /// The phrase of the notice that the page shows: the guidance of the two
    /// empty pages, or the warning of a log at the cap. A log under the cap
    /// shows none.
    #[verifier::when_used_as_spec(spec_notice)]
    pub fn notice(&self) -> (phrase: Option<Phrase>)
        ensures
            phrase == self.spec_notice(),
    {
        match self {
            PageState::Unconfigured => Some(Phrase::NoNotificationsSet),
            PageState::WaitingForEvents => Some(Phrase::NoNotificationsReceived),
            PageState::Populated { disclaimer, .. } => if *disclaimer {
                Some(Phrase::OnlyLast30)
            } else {
                None
            },
        }
    }

    /// The command that the page's clear-all control requests. Only a page
    /// that shows events has the control.
    #[verifier::when_used_as_spec(spec_clear_command)]
    pub fn clear_command(&self) -> (command: Option<Command>)
        ensures
            command == self.spec_clear_command(),
    {
        match self {
            PageState::Populated { .. } => Some(Command::ClearAll),
            _ => None,
        }
    }
}

/// Computes what the notifications page shows: classifies it and, where the
/// log holds events, presents each of them and decides on the disclaimer.
pub fn notifications_page<L: Fn(Phrase) -> String, F: Fn(u128) -> String>(
    config: &ThresholdConfig,
    log: &NotificationLog,
    localize: &L,
    format: &F,
) -> (page: PageState)
    requires
        forall|phrase: Phrase| call_requires(*localize, (phrase,)),
        forall|amount: u128| call_requires(*format, (amount,)),
    ensures
        page.kind() == page_kind(*config, log@.len()),
        page.notice() == Some(Phrase::OnlyLast30) <==> log@.len() >= CAP,
        page matches PageState::Populated { records, disclaimer } ==> {
            &&& disclaimer == (log@.len() >= CAP)
            &&& records@.len() == log@.len()
            &&& records@.len() <= CAP
            &&& forall|i: int|
                0 <= i < records@.len() ==> presents(
                    *localize,
                    *format,
                    log@[i],
                    #[trigger] records@[i]@,
                )
        },
{
    match select_page_state(config, log) {
        PageKind::Unconfigured => PageState::Unconfigured,
        PageKind::WaitingForEvents => PageState::WaitingForEvents,
        PageKind::Populated => {
            let records = logged_notifications(log, localize, format);
            PageState::Populated { records, disclaimer: log.at_or_over_cap() }
        },
    }
}

/// What the operator can ask of the log.
#[derive(Clone, Copy, Debug, PartialEq, Eq)]
pub enum Command {
    /// Remove every retained event.
    ClearAll,
}

/// Carries out a command of the operator on the log.
pub fn handle_command(log: &mut NotificationLog, command: Command)
    ensures
        final(log)@ == cleared(old(log)@),
{
    match command {
        Command::ClearAll => log.clear_all(),
    }
}

} // verus!

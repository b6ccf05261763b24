use vstd::prelude::*;
use vstd::string::StringExecFns;

use crate::timestamp::{
    can_sum, empty_report, error_report, success_report, sum, Report, ERROR_SLEEP_NANOS,
};

verus! {

/// What happens in a download, step by step.
pub enum DownloadEvent {
    /// The request for the next card succeeded after this many nanoseconds.
    CardFound(u128),
    /// The line of the card just found, and the report of counting its copies.
    CardEntry(Seq<char>, Report),
    /// The request for the next card failed after this many nanoseconds.
    CardError(u128),
}

/// The card list and the report of a download.
pub struct DownloadState {
    pub card_list: Seq<char>,
    pub report: Report,
}

/// The report that an event adds.
pub open spec fn event_report(event: DownloadEvent) -> Report {
    match event {
        DownloadEvent::CardFound(n) => success_report(n),
        DownloadEvent::CardEntry(_, r) => r,
        DownloadEvent::CardError(n) => error_report(n),
    }
}

/// The state after one more event.
pub open spec fn step(state: DownloadState, event: DownloadEvent) -> DownloadState {
    DownloadState {
        card_list: match event {
            DownloadEvent::CardEntry(entry, _) => state.card_list + "\n"@ + entry,
            _ => state.card_list,
        },
        report: sum(state.report, event_report(event)),
    }
}

/// The state after a run of events, from nothing found.
pub open spec fn run(events: Seq<DownloadEvent>) -> DownloadState
    decreases events.len(),
{
    if events.len() == 0 {
        DownloadState { card_list: Seq::empty(), report: empty_report() }
    } else {
        step(run(events.drop_last()), events.last())
    }
}

/// No report of the run overflows.
pub open spec fn fits(events: Seq<DownloadEvent>) -> bool
    decreases events.len(),
{
    events.len() == 0 || (fits(events.drop_last()) && can_sum(
        run(events.drop_last()).report,
        event_report(events.last()),
    ))
}

/// The events of a run that are not failed requests, in their order.
pub open spec fn without_errors(events: Seq<DownloadEvent>) -> Seq<DownloadEvent>
    decreases events.len(),
{
    if events.len() == 0 {
        Seq::empty()
    } else if events.last() is CardError {
        without_errors(events.drop_last())
    } else {
        without_errors(events.drop_last()).push(events.last())
    }
}

/// The number of failed requests in a run.
pub open spec fn error_count(events: Seq<DownloadEvent>) -> nat
    decreases events.len(),
{
    if events.len() == 0 {
        0
    } else if events.last() is CardError {
        error_count(events.drop_last()) + 1
    } else {
        error_count(events.drop_last())
    }
}

/// The time the server took on the failed requests of a run.
pub open spec fn error_nanos(events: Seq<DownloadEvent>) -> nat
    decreases events.len(),
{
    if events.len() == 0 {
        0
    } else if let DownloadEvent::CardError(n) = events.last() {
        error_nanos(events.drop_last()) + n as nat
    } else {
        error_nanos(events.drop_last())
    }
}

/// Failed requests change only the error counters: a run has the card list, the card count
/// and the success times of the same run without its failed requests, and each failed
/// request adds one error, its server time and `ERROR_SLEEP_NANOS` of pause. Where the run
/// fits in the report's counters, so does the run without its failed requests.
pub proof fn lemma_errors_only_count(events: Seq<DownloadEvent>)
    requires
        fits(events),
    ensures
        fits(without_errors(events)),
        run(events).card_list == run(without_errors(events)).card_list,
        run(events).report.number_of_cards == run(without_errors(events)).report.number_of_cards,
        run(events).report.success_sleep_nanos == run(
            without_errors(events),
        ).report.success_sleep_nanos,
        run(events).report.success_server_nanos == run(
            without_errors(events),
        ).report.success_server_nanos,
        run(events).report.number_of_errors == run(without_errors(events)).report.number_of_errors
            + error_count(events),
        run(events).report.error_sleep_nanos == run(without_errors(events)).report.error_sleep_nanos
            + error_count(events) * ERROR_SLEEP_NANOS,
        run(events).report.error_server_nanos == run(
            without_errors(events),
        ).report.error_server_nanos + error_nanos(events),
    decreases events.len(),
{
    if events.len() > 0 {
        let before = events.drop_last();
        lemma_errors_only_count(before);
        if !(events.last() is CardError) {
            let w = without_errors(before);
            assert(without_errors(events).drop_last() =~= w);
            assert(without_errors(events).last() == events.last());
        }
    }
}

/// Two runs that differ only in their failed requests give the same card list, the same
/// card count and the same success times; their error counters differ by the failed
/// requests that one has more than the other.
pub proof fn lemma_failed_requests_skip_no_card(
    a: Seq<DownloadEvent>,
    b: Seq<DownloadEvent>,
)
    requires
        fits(a),
        fits(b),
        without_errors(a) == without_errors(b),
    ensures
        run(b).card_list == run(a).card_list,
        run(b).report.number_of_cards == run(a).report.number_of_cards,
        run(b).report.success_sleep_nanos == run(a).report.success_sleep_nanos,
        run(b).report.success_server_nanos == run(a).report.success_server_nanos,
        run(b).report.number_of_errors + error_count(a) == run(a).report.number_of_errors
            + error_count(b),
        run(b).report.error_sleep_nanos + error_count(a) * ERROR_SLEEP_NANOS
            == run(a).report.error_sleep_nanos + error_count(b) * ERROR_SLEEP_NANOS,
        run(b).report.error_server_nanos + error_nanos(a) == run(a).report.error_server_nanos
            + error_nanos(b),
{
    lemma_errors_only_count(a);
    lemma_errors_only_count(b);
}

/// What the stream of search results gave for the next card.
#[derive(Clone, Copy, Debug, PartialEq, Eq, Structural)]
pub enum StreamItem {
    /// There are no more cards.
    Exhausted,
    /// The next card came, after this many nanoseconds.
    Card(u128),
    /// The request for the next card failed after this many nanoseconds.
    Failed(u128),
}

/// What the download does next.
#[derive(Clone, Copy, Debug, PartialEq, Eq, Structural)]
pub enum DownloadAction {
    /// The list is complete.
    Stop,
    /// Make the line of the card just found, then ask for the next card.
    MakeEntry,
    /// Go back to where the failed request started, and ask again.
    RetryFromBackup,
}

/// Whether the report can take in what a stream item adds.
pub open spec fn item_fits(report: Report, item: StreamItem) -> bool {
    match item {
        StreamItem::Exhausted => true,
        StreamItem::Card(n) => can_sum(report, success_report(n)),
        StreamItem::Failed(n) => can_sum(report, error_report(n)),
    }
}

/// The state after a stream item.
pub open spec fn after_item(state: DownloadState, item: StreamItem) -> DownloadState {
    match item {
        StreamItem::Exhausted => state,
        StreamItem::Card(n) => step(state, DownloadEvent::CardFound(n)),
        StreamItem::Failed(n) => step(state, DownloadEvent::CardError(n)),
    }
}

/// The action that follows a stream item.
pub open spec fn action_after(item: StreamItem) -> DownloadAction {
    match item {
        StreamItem::Exhausted => DownloadAction::Stop,
        StreamItem::Card(_) => DownloadAction::MakeEntry,
        StreamItem::Failed(_) => DownloadAction::RetryFromBackup,
    }
}

/// A card list being downloaded: the lines found so far, and the report of the requests.
pub struct ListDownload {
    /// One line for each card, each line preceded by a line break.
    pub card_list: String,
    pub report: Report,
}

impl ListDownload {
    /// The card list and the report, as values.
    pub open spec fn state(&self) -> DownloadState {
        DownloadState { card_list: self.card_list@, report: self.report }
    }

    /// Nothing found yet.
    pub fn new() -> (res: Self)
        ensures
            res.card_list@ == Seq::<char>::empty(),
            res.report == empty_report(),
            res.state() == run(Seq::empty()),
    {
        ListDownload { card_list: String::new(), report: Report::new() }
    }

    /// The request for the next card succeeded after `server_nanos`.
    pub fn record_card_found(&mut self, server_nanos: u128)
        requires
            can_sum(old(self).report, success_report(server_nanos)),
        ensures
            final(self).card_list@ == old(self).card_list@,
            final(self).report == sum(old(self).report, success_report(server_nanos)),
            final(self).state() == step(old(self).state(), DownloadEvent::CardFound(server_nanos)),
    {
        self.report = self.report.add(Report::card_success(server_nanos));
    }

    /// The line of the card just found is `entry`, and counting its copies took the requests
    /// of `entry_report`.
    pub fn record_card_entry(&mut self, entry: &str, entry_report: Report)
        requires
            can_sum(old(self).report, entry_report),
        ensures
            final(self).card_list@ == old(self).card_list@ + "\n"@ + entry@,
            final(self).report == sum(old(self).report, entry_report),
            final(self).state() == step(
                old(self).state(),
                DownloadEvent::CardEntry(entry@, entry_report),
            ),
    {
        self.report = self.report.add(entry_report);
        self.card_list.append("\n");
        self.card_list.append(entry);
    }

    /// Takes in what the stream gave for the next card, and says what to do next: stop at
    /// the end of the stream, make the line of a card found, or go back and ask again after
    /// a failed request.
    pub fn on_stream_item(&mut self, item: StreamItem) -> (action: DownloadAction)
        requires
            item_fits(old(self).report, item),
        ensures
            action == action_after(item),
            final(self).state() == after_item(old(self).state(), item),
    {
        match item {
            StreamItem::Exhausted => DownloadAction::Stop,
            StreamItem::Card(n) => {
                self.record_card_found(n);
                DownloadAction::MakeEntry
            },
            StreamItem::Failed(n) => {
                self.record_card_error(n);
                DownloadAction::RetryFromBackup
            },
        }
    }

    /// The request for the next card failed after `server_nanos`; the caller goes back to
    /// where the request started.
    pub fn record_card_error(&mut self, server_nanos: u128)
        requires
            can_sum(old(self).report, error_report(server_nanos)),
        ensures
            final(self).card_list@ == old(self).card_list@,
            final(self).report == sum(old(self).report, error_report(server_nanos)),
            final(self).state() == step(old(self).state(), DownloadEvent::CardError(server_nanos)),
    {
        self.report = self.report.add(Report::card_error(server_nanos));
    }
}

} // verus!

use card_lists::download::{DownloadAction, StreamItem};
use card_lists::card_entry::{
    card_entry_text, count_copies, first_face_name, CopySearch, Printing, Rarity,
};
use card_lists::download::ListDownload;
use card_lists::instructions::CountCopiesConfig;
use card_lists::timestamp::Report;

fn p(rarity: Rarity, set_id: u128) -> Printing {
    Printing { rarity, set_id }
}

#[test]
fn default_config_counts_distinct_sets() {
    let c = CountCopiesConfig::default();
    assert!(!c.only_same_rarity);
    assert!(c.only_different_sets);
    let prints = vec![
        p(Rarity::Common, 1),
        p(Rarity::Uncommon, 1),
        p(Rarity::Common, 2),
        p(Rarity::Rare, 3),
        p(Rarity::Common, 2),
    ];
    assert_eq!(count_copies(c, Rarity::Common, &prints), 3);
}

#[test]
fn same_rarity_filter() {
    let prints = vec![
        p(Rarity::Common, 1),
        p(Rarity::Uncommon, 1),
        p(Rarity::Common, 2),
        p(Rarity::Common, 2),
    ];
    let c = CountCopiesConfig::from_parts(true, false);
    assert_eq!(count_copies(c, Rarity::Common, &prints), 3);
    assert_eq!(count_copies(c, Rarity::Uncommon, &prints), 1);
    assert_eq!(count_copies(c, Rarity::Mythic, &prints), 0);
    let both = CountCopiesConfig::from_parts(true, true);
    assert_eq!(count_copies(both, Rarity::Common, &prints), 2);
    let none = CountCopiesConfig::from_parts(false, false);
    assert_eq!(count_copies(none, Rarity::Mythic, &prints), 4);
    assert_eq!(count_copies(none, Rarity::Mythic, &vec![]), 0);
}

#[test]
fn first_face_of_names() {
    assert_eq!(first_face_name("Fire // Ice"), "Fire ");
    assert_eq!(first_face_name("Lightning Bolt"), "Lightning Bolt");
    assert_eq!(first_face_name("a//b//c"), "a");
    assert_eq!(first_face_name("//x"), "");
    assert_eq!(first_face_name("/"), "/");
    assert_eq!(first_face_name(""), "");
    assert_eq!(first_face_name("a/b/c"), "a/b/c");
    assert_eq!(first_face_name("Lim-Dûl's Vault // Æther"), "Lim-Dûl's Vault ");
}

#[test]
fn card_entry_lines() {
    assert_eq!(card_entry_text(3, "Fire // Ice"), "3 Fire ");
    assert_eq!(card_entry_text(0, "Shahrazad"), "0 Shahrazad");
    assert_eq!(card_entry_text(12, "Æther Vial"), "12 Æther Vial");
}

#[test]
fn search_without_config_needs_no_request() {
    let s = CopySearch::start(None, Rarity::Rare);
    assert!(!s.wants_fetch());
    assert_eq!(s.copies, 1);
    assert_eq!(s.report, Report::new());
}

#[test]
fn search_gives_up_after_three_failures() {
    let mut s = CopySearch::start(Some(CountCopiesConfig::default()), Rarity::Rare);
    let mut tries = 0;
    while s.wants_fetch() {
        s.record_fetch_error(5);
        tries += 1;
    }
    assert_eq!(tries, 3);
    assert_eq!(s.copies, 0);
    assert_eq!(s.report.number_of_errors, 3);
    assert_eq!(s.report.error_server_nanos, 15);
}

#[test]
fn search_stops_at_first_success() {
    let mut s = CopySearch::start(Some(CountCopiesConfig::from_parts(false, false)), Rarity::Rare);
    assert!(s.wants_fetch());
    s.record_fetch_error(7);
    assert!(s.wants_fetch());
    s.record_prints(&vec![p(Rarity::Rare, 1), p(Rarity::Common, 1)], 9);
    assert!(!s.wants_fetch());
    assert_eq!(s.copies, 2);
    assert_eq!(s.report, Report::card_error(7).add(Report::card_success(9)));
}

#[test]
fn list_download_collects_lines() {
    let mut d = ListDownload::new();
    assert_eq!(d.card_list, "");
    d.record_card_found(10);
    d.record_card_entry("2 Fire ", Report::card_success(4));
    d.record_card_error(3);
    d.record_card_found(11);
    d.record_card_entry("1 Shahrazad", Report::new());
    assert_eq!(d.card_list, "\n2 Fire \n1 Shahrazad");
    assert_eq!(d.report.number_of_cards, 3);
    assert_eq!(d.report.number_of_errors, 1);
    assert_eq!(d.report.success_server_nanos, 25);
    assert_eq!(d.report.error_server_nanos, 3);
}

#[test]
fn first_face_twice_is_first_face() {
    for name in ["Fire // Ice", "a//b", "x/y", "", "//", "Wear // Tear"] {
        let once = first_face_name(name);
        assert_eq!(first_face_name(once.as_str()), once);
        assert!(!once.contains("//"));
        assert!(name.starts_with(once.as_str()));
    }
}

#[test]
fn filters_only_leave_out_on_values() {
    let prints = vec![p(Rarity::Common, 1), p(Rarity::Rare, 1), p(Rarity::Rare, 2)];
    let all = count_copies(CountCopiesConfig::from_parts(false, false), Rarity::Rare, &prints);
    assert_eq!(all, 3);
    for (a, b) in [(true, false), (false, true), (true, true)] {
        let c = CountCopiesConfig::from_parts(a, b);
        assert!(count_copies(c, Rarity::Rare, &prints) <= all);
    }
    let mut more = prints.clone();
    more.push(p(Rarity::Mythic, 2));
    let distinct = CountCopiesConfig::from_parts(false, true);
    assert_eq!(
        count_copies(distinct, Rarity::Rare, &more),
        count_copies(distinct, Rarity::Rare, &prints)
    );
}

#[test]
fn failed_requests_change_only_error_counters() {
    let mut a = ListDownload::new();
    a.record_card_found(10);
    a.record_card_entry("2 Fire ", Report::card_success(4));
    a.record_card_found(11);
    a.record_card_entry("1 Shahrazad", Report::new());

    let mut b = ListDownload::new();
    b.record_card_error(3);
    b.record_card_found(10);
    b.record_card_entry("2 Fire ", Report::card_success(4));
    b.record_card_error(6);
    b.record_card_error(1);
    b.record_card_found(11);
    b.record_card_entry("1 Shahrazad", Report::new());

    assert_eq!(b.card_list, a.card_list);
    assert_eq!(b.report.number_of_cards, a.report.number_of_cards);
    assert_eq!(b.report.success_sleep_nanos, a.report.success_sleep_nanos);
    assert_eq!(b.report.success_server_nanos, a.report.success_server_nanos);
    assert_eq!(b.report.number_of_errors, a.report.number_of_errors + 3);
    assert_eq!(
        b.report.error_sleep_nanos,
        a.report.error_sleep_nanos + 3 * card_lists::timestamp::ERROR_SLEEP_NANOS
    );
    assert_eq!(b.report.error_server_nanos, a.report.error_server_nanos + 10);
}

#[test]
fn stream_items_decide_the_next_step() {
    let mut d = ListDownload::new();
    assert_eq!(d.on_stream_item(StreamItem::Card(8)), DownloadAction::MakeEntry);
    assert_eq!(d.report, Report::card_success(8));
    assert_eq!(d.on_stream_item(StreamItem::Failed(2)), DownloadAction::RetryFromBackup);
    assert_eq!(d.report, Report::card_success(8).add(Report::card_error(2)));
    let before = d.report;
    assert_eq!(d.on_stream_item(StreamItem::Exhausted), DownloadAction::Stop);
    assert_eq!(d.report, before);
    assert_eq!(d.card_list, "");
}

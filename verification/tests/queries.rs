use card_lists::instructions::{CountCopiesConfig, DiscreteQuery, Order};
use card_lists::query::{GameFormat, SearchQuery, SearchTerm};
use card_lists::query_operations::default_formats;
use card_lists::specifics::{
    basics, conspiracy, default_plus, draft_involved, for_allstars, for_constructed, for_draft,
    for_sealed, for_twostep_black, for_twostep_prologue, for_twostep_white, meld_duds,
    rebalanced, test_formats, unfun, vintage_taste_ban,
};

fn t(term: SearchTerm) -> SearchQuery {
    SearchQuery::Term(term)
}

fn n(q: SearchQuery) -> SearchQuery {
    SearchQuery::Not(Box::new(q))
}

#[test]
fn building_blocks() {
    assert_eq!(basics(), t(SearchTerm::TypeLine("basic")));
    assert_eq!(conspiracy(), t(SearchTerm::TypeLine("conspiracy")));
    assert_eq!(rebalanced(), t(SearchTerm::NameRegex("^A-")));
    assert_eq!(
        draft_involved(),
        SearchQuery::And(vec![t(SearchTerm::OracleText("draft")), n(t(SearchTerm::Name("draft")))])
    );
    assert_eq!(
        meld_duds(),
        SearchQuery::And(vec![t(SearchTerm::IsMeld), n(t(SearchTerm::FullOracleText("meld")))])
    );
    assert_eq!(
        vintage_taste_ban(),
        SearchQuery::Or(vec![
            SearchQuery::And(vec![
                t(SearchTerm::LegalIn(GameFormat::Vintage)),
                n(t(SearchTerm::ExactName("Hobble"))),
            ]),
            t(SearchTerm::ExactName("Stone-Throwing Devils")),
            t(SearchTerm::ExactName("Pradesh Gypsies")),
            t(SearchTerm::ExactName("Shahrazad")),
        ])
    );
    match unfun() {
        SearchQuery::And(parts) => {
            assert_eq!(parts.len(), 4);
            assert_eq!(parts[3], n(t(SearchTerm::Name("Fatal Attraction"))));
        }
        other => panic!("unexpected {:?}", other),
    }
}

#[test]
fn draft_pool_shape() {
    let order = for_draft();
    assert_eq!(order.destination_file, "./for-subset-draft.txt");
    assert_eq!(order.discrete_query.count_copies, Some(CountCopiesConfig::default()));
    match order.discrete_query.query {
        SearchQuery::Or(options) => {
            assert_eq!(options.len(), 3);
            assert_eq!(options[0], rebalanced());
            assert_eq!(options[2], conspiracy());
            match &options[1] {
                SearchQuery::And(curated) => {
                    assert_eq!(curated.len(), 5);
                    assert_eq!(curated[0], vintage_taste_ban());
                    assert_eq!(curated[1], n(basics()));
                }
                other => panic!("unexpected {:?}", other),
            }
        }
        other => panic!("unexpected {:?}", other),
    }
}

#[test]
fn pools_differ_as_documented() {
    let sealed = for_sealed();
    assert_eq!(sealed.destination_file, "./for-subset-sealed.txt");
    match sealed.discrete_query.query {
        SearchQuery::Or(options) => assert_eq!(options.len(), 2),
        other => panic!("unexpected {:?}", other),
    }
    assert_eq!(for_allstars().destination_file, "./for-subset-allstars.txt");
    assert_eq!(for_constructed().destination_file, "./for-subset-constructed.txt");
}

#[test]
fn default_plus_appends_the_pool() {
    let q = default_plus(vec![basics()]);
    assert_eq!(q.count_copies, Some(CountCopiesConfig::default()));
    match q.query {
        SearchQuery::And(parts) => {
            assert_eq!(parts.len(), 2);
            assert_eq!(parts[0], basics());
            match &parts[1] {
                SearchQuery::Or(options) => assert_eq!(options.len(), 3),
                other => panic!("unexpected {:?}", other),
            }
        }
        other => panic!("unexpected {:?}", other),
    }
}

#[test]
fn twostep_orders() {
    let o = for_twostep_white();
    assert_eq!(o.destination_file, "./for-twostep_white.txt");
    match o.discrete_query.query {
        SearchQuery::And(parts) => {
            assert_eq!(parts.len(), 2);
            assert_eq!(parts[0], t(SearchTerm::ColorIdentityAtLeast("W")));
        }
        other => panic!("unexpected {:?}", other),
    }
    assert_eq!(for_twostep_black().destination_file, "./for-twostep_black.txt");
    match for_twostep_prologue().discrete_query.query {
        SearchQuery::And(parts) => assert_eq!(parts[0], t(SearchTerm::ColorIdentity("0"))),
        other => panic!("unexpected {:?}", other),
    }
}

#[test]
fn test_formats_list() {
    let orders = test_formats();
    let files: Vec<&str> = orders.iter().map(|o| o.destination_file).collect();
    assert_eq!(
        files,
        vec![
            "./basics.txt",
            "./draft_involved.txt",
            "./meld_duds.txt",
            "./unfun.txt",
            "./commander_synergy.txt",
            "./conspiracy.txt",
            "./rebalanced.txt",
        ]
    );
    assert_eq!(orders[0].discrete_query.count_copies, None);
    assert_eq!(orders[1].discrete_query.count_copies, Some(CountCopiesConfig::default()));
    assert_eq!(orders[6].discrete_query.count_copies, None);
}

#[test]
fn default_formats_list() {
    let formats = default_formats();
    assert_eq!(formats[0], ("./basics.txt", basics()));
    assert_eq!(formats[5].0, "./rebalanced.txt");
    assert_eq!(formats[6].0, "./for-subset-draft.txt");
    assert_eq!(formats[6].1, for_draft().discrete_query.query);
    assert_eq!(formats[9].1, for_allstars().discrete_query.query);
}

#[test]
fn order_paths_and_parts() {
    let order = Order::from_parts("./x.txt", DiscreteQuery::from_parts(basics(), None));
    assert_eq!(order.list_path(), "lists/./x.txt");
    assert_eq!(order.report_path(), "reports/./x.txt");
    let c = CountCopiesConfig::from_parts(true, false);
    assert!(c.only_same_rarity && !c.only_different_sets);
}

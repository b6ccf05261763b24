use vstd::prelude::*;

use crate::instructions::{default_count_copies, CountCopiesConfig, DiscreteQuery, Order};
use crate::query::{
    all_of, any_of, lemma_models_pointwise, models, negated, not, term, term_model, GameFormat,
    QueryModel, SearchQuery, SearchTerm,
};

verus! {

// ---------------------------------------------------------------------------
// The models of the building blocks
// ---------------------------------------------------------------------------

pub open spec fn vintage_taste_ban_model() -> QueryModel {
    QueryModel::Or(
        seq![
            QueryModel::And(
                seq![
                    term_model(SearchTerm::LegalIn(GameFormat::Vintage)),
                    negated(term_model(SearchTerm::ExactName("Hobble"))),
                ],
            ),
            term_model(SearchTerm::ExactName("Stone-Throwing Devils")),
            term_model(SearchTerm::ExactName("Pradesh Gypsies")),
            term_model(SearchTerm::ExactName("Shahrazad")),
        ],
    )
}

pub open spec fn basics_model() -> QueryModel {
    term_model(SearchTerm::TypeLine("basic"))
}

pub open spec fn draft_involved_model() -> QueryModel {
    QueryModel::And(
        seq![
            term_model(SearchTerm::OracleText("draft")),
            negated(term_model(SearchTerm::Name("draft"))),
        ],
    )
}

pub open spec fn meld_duds_model() -> QueryModel {
    QueryModel::And(
        seq![term_model(SearchTerm::IsMeld), negated(term_model(SearchTerm::FullOracleText("meld")))],
    )
}

pub open spec fn unfun_model() -> QueryModel {
    QueryModel::And(
        seq![
            QueryModel::Or(
                seq![
                    term_model(SearchTerm::FullOracleText("sticker")),
                    term_model(SearchTerm::FullOracleText("ticket")),
                    term_model(SearchTerm::FullOracleText("{TK}")),
                    term_model(SearchTerm::FullOracleText("attraction")),
                ],
            ),
            negated(term_model(SearchTerm::ExactName("Ticket Tortoise"))),
            negated(term_model(SearchTerm::Name("Ticket Booth"))),
            negated(term_model(SearchTerm::Name("Fatal Attraction"))),
        ],
    )
}

pub open spec fn commander_synergy_model() -> QueryModel {
    QueryModel::And(
        seq![
            term_model(SearchTerm::OracleText("commander")),
            negated(term_model(SearchTerm::Name("commander"))),
            negated(term_model(SearchTerm::FullOracleText("can be your commander"))),
        ],
    )
}

pub open spec fn rebalanced_model() -> QueryModel {
    term_model(SearchTerm::NameRegex("^A-"))
}

pub open spec fn conspiracy_model() -> QueryModel {
    term_model(SearchTerm::TypeLine("conspiracy"))
}

/// The cards of the vintage pool that none of the `exclusions` match.
pub open spec fn curated_model(exclusions: Seq<QueryModel>) -> QueryModel {
    QueryModel::And(
        seq![vintage_taste_ban_model()] + exclusions.map_values(|m: QueryModel| negated(m)),
    )
}

/// The card pool for draft: equal access, low choice.
pub open spec fn draft_pool_model() -> QueryModel {
    QueryModel::Or(
        seq![
            rebalanced_model(),
            curated_model(
                seq![basics_model(), meld_duds_model(), unfun_model(), commander_synergy_model()],
            ),
            conspiracy_model(),
        ],
    )
}

/// The card pool for constructed: equal access, high choice.
pub open spec fn constructed_pool_model() -> QueryModel {
    QueryModel::Or(
        seq![
            rebalanced_model(),
            curated_model(
                seq![basics_model(), meld_duds_model(), unfun_model(), draft_involved_model()],
            ),
            conspiracy_model(),
        ],
    )
}

/// The card pool for sealed: unequal access, low choice.
pub open spec fn sealed_pool_model() -> QueryModel {
    QueryModel::Or(
        seq![
            rebalanced_model(),
            curated_model(
                seq![
                    basics_model(),
                    meld_duds_model(),
                    unfun_model(),
                    commander_synergy_model(),
                    draft_involved_model(),
                ],
            ),
        ],
    )
}

/// The card pool for all-stars: unequal access, high choice.
pub open spec fn allstars_pool_model() -> QueryModel {
    QueryModel::Or(
        seq![
            rebalanced_model(),
            curated_model(
                seq![basics_model(), meld_duds_model(), unfun_model(), draft_involved_model()],
            ),
        ],
    )
}

/// The pool that `default_plus` narrows down.
pub open spec fn default_pool_model() -> QueryModel {
    QueryModel::Or(
        seq![
            rebalanced_model(),
            curated_model(
                seq![
                    basics_model(),
                    meld_duds_model(),
                    unfun_model(),
                    commander_synergy_model(),
                    draft_involved_model(),
                ],
            ),
            conspiracy_model(),
        ],
    )
}


// ---------------------------------------------------------------------------
// What the queries search for
// ---------------------------------------------------------------------------

/// The conditions that a query joins by AND; the query itself where it is no conjunction.
pub open spec fn conjuncts(q: QueryModel) -> Seq<QueryModel> {
    match q {
        QueryModel::And(parts) => parts,
        _ => seq![q],
    }
}

/// The alternatives that a query joins by OR; the query itself where it is no disjunction.
pub open spec fn alternatives(q: QueryModel) -> Seq<QueryModel> {
    match q {
        QueryModel::Or(parts) => parts,
        _ => seq![q],
    }
}

/// The curated part of a pool: its second alternative, the vintage pool minus exclusions.
pub open spec fn curated_part(pool: QueryModel) -> Seq<QueryModel> {
    conjuncts(alternatives(pool)[1])
}

/// The building blocks search for what their names say: commander synergy is rules text
/// that mentions "commander", from cards whose name does not, leaving out the cards that can
/// be your commander; the draft-involved cards mention "draft" in their rules text but not in
/// their name; meld duds meld without "meld" in their full rules text; the basics, the
/// conspiracies and the rebalanced cards are one condition each.
pub proof fn lemma_building_blocks()
    ensures
        conjuncts(commander_synergy_model()).len() == 3,
        conjuncts(commander_synergy_model())[0] == term_model(SearchTerm::OracleText("commander")),
        conjuncts(commander_synergy_model())[1] == negated(term_model(SearchTerm::Name("commander"))),
        conjuncts(commander_synergy_model())[2] == negated(
            term_model(SearchTerm::FullOracleText("can be your commander")),
        ),
        conjuncts(draft_involved_model()).len() == 2,
        conjuncts(draft_involved_model())[0] == term_model(SearchTerm::OracleText("draft")),
        conjuncts(draft_involved_model())[1] == negated(term_model(SearchTerm::Name("draft"))),
        conjuncts(meld_duds_model()).len() == 2,
        conjuncts(meld_duds_model())[0] == term_model(SearchTerm::IsMeld),
        conjuncts(meld_duds_model())[1] == negated(term_model(SearchTerm::FullOracleText("meld"))),
        conjuncts(unfun_model()).len() == 4,
        alternatives(conjuncts(unfun_model())[0]) == seq![
            term_model(SearchTerm::FullOracleText("sticker")),
            term_model(SearchTerm::FullOracleText("ticket")),
            term_model(SearchTerm::FullOracleText("{TK}")),
            term_model(SearchTerm::FullOracleText("attraction")),
        ],
        conjuncts(unfun_model())[1] == negated(term_model(SearchTerm::ExactName("Ticket Tortoise"))),
        conjuncts(unfun_model())[2] == negated(term_model(SearchTerm::Name("Ticket Booth"))),
        conjuncts(unfun_model())[3] == negated(term_model(SearchTerm::Name("Fatal Attraction"))),
        alternatives(vintage_taste_ban_model()).len() == 4,
        conjuncts(alternatives(vintage_taste_ban_model())[0]) == seq![
            term_model(SearchTerm::LegalIn(GameFormat::Vintage)),
            negated(term_model(SearchTerm::ExactName("Hobble"))),
        ],
        alternatives(vintage_taste_ban_model())[1] == term_model(
            SearchTerm::ExactName("Stone-Throwing Devils"),
        ),
        alternatives(vintage_taste_ban_model())[2] == term_model(
            SearchTerm::ExactName("Pradesh Gypsies"),
        ),
        alternatives(vintage_taste_ban_model())[3] == term_model(SearchTerm::ExactName("Shahrazad")),
        basics_model() == term_model(SearchTerm::TypeLine("basic")),
        conspiracy_model() == term_model(SearchTerm::TypeLine("conspiracy")),
        rebalanced_model() == term_model(SearchTerm::NameRegex("^A-")),
{
    assert(conjuncts(alternatives(vintage_taste_ban_model())[0]) =~= seq![
        term_model(SearchTerm::LegalIn(GameFormat::Vintage)),
        negated(term_model(SearchTerm::ExactName("Hobble"))),
    ]);
    assert(alternatives(conjuncts(unfun_model())[0]) =~= seq![
        term_model(SearchTerm::FullOracleText("sticker")),
        term_model(SearchTerm::FullOracleText("ticket")),
        term_model(SearchTerm::FullOracleText("{TK}")),
        term_model(SearchTerm::FullOracleText("attraction")),
    ]);
}

/// No two of the exclusions are the same query.
proof fn lemma_exclusions_differ()
    ensures
        negated(draft_involved_model()) != negated(commander_synergy_model()),
        negated(draft_involved_model()) != negated(basics_model()),
        negated(draft_involved_model()) != negated(meld_duds_model()),
        negated(draft_involved_model()) != negated(unfun_model()),
        negated(draft_involved_model()) != vintage_taste_ban_model(),
        negated(commander_synergy_model()) != negated(basics_model()),
        negated(commander_synergy_model()) != negated(meld_duds_model()),
        negated(commander_synergy_model()) != negated(unfun_model()),
        negated(commander_synergy_model()) != vintage_taste_ban_model(),
{
    assert(conjuncts(draft_involved_model()).len() != conjuncts(commander_synergy_model()).len());
    assert(conjuncts(draft_involved_model()).len() != conjuncts(unfun_model()).len());
    assert(conjuncts(commander_synergy_model()).len() != conjuncts(unfun_model()).len());
    assert(conjuncts(commander_synergy_model()).len() != conjuncts(meld_duds_model()).len());
    assert(conjuncts(draft_involved_model())[0] != conjuncts(meld_duds_model())[0]);
}

/// The draft pool: the rebalanced cards, the conspiracies, and the vintage pool without the
/// basics, the meld duds, the unfun cards and the commander-synergy cards, in that order.
/// Draft-involved cards stay in it.
pub proof fn lemma_draft_pool()
    ensures
        alternatives(draft_pool_model()).len() == 3,
        alternatives(draft_pool_model())[0] == rebalanced_model(),
        alternatives(draft_pool_model())[2] == conspiracy_model(),
        curated_part(draft_pool_model()).len() == 5,
        curated_part(draft_pool_model())[0] == vintage_taste_ban_model(),
        curated_part(draft_pool_model())[1] == negated(basics_model()),
        curated_part(draft_pool_model())[2] == negated(meld_duds_model()),
        curated_part(draft_pool_model())[3] == negated(unfun_model()),
        curated_part(draft_pool_model())[4] == negated(commander_synergy_model()),
        !curated_part(draft_pool_model()).contains(negated(draft_involved_model())),
{
    lemma_exclusions_differ();
    let c = curated_part(draft_pool_model());
    assert(c =~= seq![
        vintage_taste_ban_model(),
        negated(basics_model()),
        negated(meld_duds_model()),
        negated(unfun_model()),
        negated(commander_synergy_model()),
    ]);
    assert(!c.contains(negated(draft_involved_model()))) by {
        if c.contains(negated(draft_involved_model())) {
            let k = choose|k: int| 0 <= k < c.len() && c[k] == negated(draft_involved_model());
            assert(0 <= k < 5);
        }
    }
}

/// The constructed pool differs from the draft pool only in its last exclusion: it leaves
/// out the draft-involved cards and keeps the commander-synergy cards.
pub proof fn lemma_constructed_pool()
    ensures
        alternatives(constructed_pool_model()).len() == 3,
        alternatives(constructed_pool_model())[0] == alternatives(draft_pool_model())[0],
        alternatives(constructed_pool_model())[2] == alternatives(draft_pool_model())[2],
        curated_part(constructed_pool_model()).len() == 5,
        forall|i: int|
            0 <= i < 4 ==> #[trigger] curated_part(constructed_pool_model())[i] == curated_part(
                draft_pool_model(),
            )[i],
        curated_part(constructed_pool_model())[4] == negated(draft_involved_model()),
        !curated_part(constructed_pool_model()).contains(negated(commander_synergy_model())),
{
    lemma_exclusions_differ();
    let c = curated_part(constructed_pool_model());
    assert(c =~= seq![
        vintage_taste_ban_model(),
        negated(basics_model()),
        negated(meld_duds_model()),
        negated(unfun_model()),
        negated(draft_involved_model()),
    ]);
    assert(curated_part(draft_pool_model()) =~= seq![
        vintage_taste_ban_model(),
        negated(basics_model()),
        negated(meld_duds_model()),
        negated(unfun_model()),
        negated(commander_synergy_model()),
    ]);
    assert(!c.contains(negated(commander_synergy_model()))) by {
        if c.contains(negated(commander_synergy_model())) {
            let k = choose|k: int| 0 <= k < c.len() && c[k] == negated(commander_synergy_model());
            assert(0 <= k < 5);
        }
    }
}

/// The sealed pool is the draft pool without the conspiracies, and with the draft-involved
/// cards left out as well.
pub proof fn lemma_sealed_pool()
    ensures
        alternatives(sealed_pool_model()).len() == 2,
        alternatives(sealed_pool_model())[0] == alternatives(draft_pool_model())[0],
        curated_part(sealed_pool_model()) == curated_part(draft_pool_model()).push(
            negated(draft_involved_model()),
        ),
{
    assert(curated_part(sealed_pool_model()) =~= curated_part(draft_pool_model()).push(
        negated(draft_involved_model()),
    ));
}

/// The all-stars pool is the constructed pool without the conspiracies.
pub proof fn lemma_allstars_pool()
    ensures
        alternatives(allstars_pool_model()).len() == 2,
        alternatives(allstars_pool_model())[0] == alternatives(constructed_pool_model())[0],
        curated_part(allstars_pool_model()) == curated_part(constructed_pool_model()),
{
    assert(curated_part(allstars_pool_model()) =~= curated_part(constructed_pool_model()));
}

/// The pool that the two-step orders narrow down leaves out both the commander-synergy and
/// the draft-involved cards: its curated part is the sealed pool's, six members ending with
/// the negated draft-involved query, and it keeps the conspiracies as the draft pool does.
pub proof fn lemma_default_pool()
    ensures
        alternatives(default_pool_model()).len() == 3,
        alternatives(default_pool_model())[0] == alternatives(draft_pool_model())[0],
        alternatives(default_pool_model())[2] == alternatives(draft_pool_model())[2],
        curated_part(default_pool_model()) == curated_part(sealed_pool_model()),
        curated_part(default_pool_model()).len() == 6,
        curated_part(default_pool_model())[4] == negated(commander_synergy_model()),
        curated_part(default_pool_model())[5] == negated(draft_involved_model()),
{
    lemma_draft_pool();
    lemma_sealed_pool();
    assert(curated_part(default_pool_model()) =~= curated_part(sealed_pool_model()));
}

// ---------------------------------------------------------------------------
// The building blocks
// ---------------------------------------------------------------------------

/// The vintage card pool, without Hobble, with three cards banned for taste.
pub fn vintage_taste_ban() -> (res: SearchQuery)
    ensures
        res@ == vintage_taste_ban_model(),
{
    let legal = vec![
        term(SearchTerm::LegalIn(GameFormat::Vintage)),
        not(term(SearchTerm::ExactName("Hobble"))),
    ];
    proof {
        lemma_models_pointwise(legal@);
    }
    assert(models(legal@) =~= seq![
        term_model(SearchTerm::LegalIn(GameFormat::Vintage)),
        negated(term_model(SearchTerm::ExactName("Hobble"))),
    ]);
    let options = vec![
        all_of(legal),
        term(SearchTerm::ExactName("Stone-Throwing Devils")),
        term(SearchTerm::ExactName("Pradesh Gypsies")),
        term(SearchTerm::ExactName("Shahrazad")),
    ];
    proof {
        lemma_models_pointwise(options@);
    }
    assert(models(options@) =~= vintage_taste_ban_model()->Or_0);
    any_of(options)
}

pub fn basics() -> (res: SearchQuery)
    ensures
        res@ == basics_model(),
{
    term(SearchTerm::TypeLine("basic"))
}

pub fn draft_involved() -> (res: SearchQuery)
    ensures
        res@ == draft_involved_model(),
{
    let parts = vec![term(SearchTerm::OracleText("draft")), not(term(SearchTerm::Name("draft")))];
    proof {
        lemma_models_pointwise(parts@);
    }
    assert(models(parts@) =~= draft_involved_model()->And_0);
    all_of(parts)
}

pub fn meld_duds() -> (res: SearchQuery)
    ensures
        res@ == meld_duds_model(),
{
    let parts = vec![term(SearchTerm::IsMeld), not(term(SearchTerm::FullOracleText("meld")))];
    proof {
        lemma_models_pointwise(parts@);
    }
    assert(models(parts@) =~= meld_duds_model()->And_0);
    all_of(parts)
}

pub fn unfun() -> (res: SearchQuery)
    ensures
        res@ == unfun_model(),
{
    let texts = vec![
        term(SearchTerm::FullOracleText("sticker")),
        term(SearchTerm::FullOracleText("ticket")),
        term(SearchTerm::FullOracleText("{TK}")),
        term(SearchTerm::FullOracleText("attraction")),
    ];
    proof {
        lemma_models_pointwise(texts@);
    }
    assert(models(texts@) =~= seq![
        term_model(SearchTerm::FullOracleText("sticker")),
        term_model(SearchTerm::FullOracleText("ticket")),
        term_model(SearchTerm::FullOracleText("{TK}")),
        term_model(SearchTerm::FullOracleText("attraction")),
    ]);
    let parts = vec![
        any_of(texts),
        not(term(SearchTerm::ExactName("Ticket Tortoise"))),
        not(term(SearchTerm::Name("Ticket Booth"))),
        not(term(SearchTerm::Name("Fatal Attraction"))),
    ];
    proof {
        lemma_models_pointwise(parts@);
    }
    assert(models(parts@) =~= unfun_model()->And_0);
    all_of(parts)
}

/// Often a dud in limited.
pub fn commander_synergy() -> (res: SearchQuery)
    ensures
        res@ == commander_synergy_model(),
{
    let parts = vec![
        term(SearchTerm::OracleText("commander")),
        not(term(SearchTerm::Name("commander"))),
        not(term(SearchTerm::FullOracleText("can be your commander"))),
    ];
    proof {
        lemma_models_pointwise(parts@);
    }
    assert(models(parts@) =~= commander_synergy_model()->And_0);
    all_of(parts)
}

pub fn rebalanced() -> (res: SearchQuery)
    ensures
        res@ == rebalanced_model(),
{
    term(SearchTerm::NameRegex("^A-"))
}

pub fn conspiracy() -> (res: SearchQuery)
    ensures
        res@ == conspiracy_model(),
{
    term(SearchTerm::TypeLine("conspiracy"))
}

// ---------------------------------------------------------------------------
// The card pools
// ---------------------------------------------------------------------------

/// Equal access, low choice.
pub fn draft_pool() -> (res: SearchQuery)
    ensures
        res@ == draft_pool_model(),
{
    let curated = vec![vintage_taste_ban(), not(basics()), not(meld_duds()), not(unfun()), not(commander_synergy())];
    proof {
        lemma_models_pointwise(curated@);
    }
    assert(models(curated@) =~= curated_model(seq![basics_model(), meld_duds_model(), unfun_model(), commander_synergy_model()])->And_0);
    let options = vec![rebalanced(), all_of(curated), conspiracy()];
    proof {
        lemma_models_pointwise(options@);
    }
    assert(models(options@) =~= draft_pool_model()->Or_0);
    any_of(options)
}

/// Equal access, high choice.
pub fn constructed_pool() -> (res: SearchQuery)
    ensures
        res@ == constructed_pool_model(),
{
    let curated = vec![vintage_taste_ban(), not(basics()), not(meld_duds()), not(unfun()), not(draft_involved())];
    proof {
        lemma_models_pointwise(curated@);
    }
    assert(models(curated@) =~= curated_model(seq![basics_model(), meld_duds_model(), unfun_model(), draft_involved_model()])->And_0);
    let options = vec![rebalanced(), all_of(curated), conspiracy()];
    proof {
        lemma_models_pointwise(options@);
    }
    assert(models(options@) =~= constructed_pool_model()->Or_0);
    any_of(options)
}

/// Unequal access, low choice; also appropriate for fundamental magic.
pub fn sealed_pool() -> (res: SearchQuery)
    ensures
        res@ == sealed_pool_model(),
{
    let curated = vec![vintage_taste_ban(), not(basics()), not(meld_duds()), not(unfun()), not(commander_synergy()), not(draft_involved())];
    proof {
        lemma_models_pointwise(curated@);
    }
    assert(models(curated@) =~= curated_model(seq![basics_model(), meld_duds_model(), unfun_model(), commander_synergy_model(), draft_involved_model()])->And_0);
    let options = vec![rebalanced(), all_of(curated)];
    proof {
        lemma_models_pointwise(options@);
    }
    assert(models(options@) =~= sealed_pool_model()->Or_0);
    any_of(options)
}

/// Unequal access, high choice.
pub fn allstars_pool() -> (res: SearchQuery)
    ensures
        res@ == allstars_pool_model(),
{
    let curated = vec![vintage_taste_ban(), not(basics()), not(meld_duds()), not(unfun()), not(draft_involved())];
    proof {
        lemma_models_pointwise(curated@);
    }
    assert(models(curated@) =~= curated_model(seq![basics_model(), meld_duds_model(), unfun_model(), draft_involved_model()])->And_0);
    let options = vec![rebalanced(), all_of(curated)];
    proof {
        lemma_models_pointwise(options@);
    }
    assert(models(options@) =~= allstars_pool_model()->Or_0);
    any_of(options)
}

/// The pool that `default_plus` narrows down.
pub fn default_pool() -> (res: SearchQuery)
    ensures
        res@ == default_pool_model(),
{
    let curated = vec![vintage_taste_ban(), not(basics()), not(meld_duds()), not(unfun()), not(commander_synergy()), not(draft_involved())];
    proof {
        lemma_models_pointwise(curated@);
    }
    assert(models(curated@) =~= curated_model(seq![basics_model(), meld_duds_model(), unfun_model(), commander_synergy_model(), draft_involved_model()])->And_0);
    let options = vec![rebalanced(), all_of(curated), conspiracy()];
    proof {
        lemma_models_pointwise(options@);
    }
    assert(models(options@) =~= default_pool_model()->Or_0);
    any_of(options)
}

// ---------------------------------------------------------------------------
// The orders
// ---------------------------------------------------------------------------

/// Equal access, low choice.
pub fn for_draft() -> (res: Order)
    ensures
        res.destination_file == "./for-subset-draft.txt",
        res.discrete_query.query@ == draft_pool_model(),
        res.discrete_query.count_copies == Some(default_count_copies()),
{
    Order::from_parts(
        "./for-subset-draft.txt",
        DiscreteQuery::from_parts(draft_pool(), Some(CountCopiesConfig::default())),
    )
}

/// Equal access, high choice.
pub fn for_constructed() -> (res: Order)
    ensures
        res.destination_file == "./for-subset-constructed.txt",
        res.discrete_query.query@ == constructed_pool_model(),
        res.discrete_query.count_copies == Some(default_count_copies()),
{
    Order::from_parts(
        "./for-subset-constructed.txt",
        DiscreteQuery::from_parts(constructed_pool(), Some(CountCopiesConfig::default())),
    )
}

/// Unequal access, low choice; also appropriate for fundamental magic.
pub fn for_sealed() -> (res: Order)
    ensures
        res.destination_file == "./for-subset-sealed.txt",
        res.discrete_query.query@ == sealed_pool_model(),
        res.discrete_query.count_copies == Some(default_count_copies()),
{
    Order::from_parts(
        "./for-subset-sealed.txt",
        DiscreteQuery::from_parts(sealed_pool(), Some(CountCopiesConfig::default())),
    )
}

/// Unequal access, high choice.
pub fn for_allstars() -> (res: Order)
    ensures
        res.destination_file == "./for-subset-allstars.txt",
        res.discrete_query.query@ == allstars_pool_model(),
        res.discrete_query.count_copies == Some(default_count_copies()),
{
    Order::from_parts(
        "./for-subset-allstars.txt",
        DiscreteQuery::from_parts(allstars_pool(), Some(CountCopiesConfig::default())),
    )
}

/// The conjunction of the given queries and the default pool, with copies counted the
/// default way.
pub fn default_plus(res: Vec<SearchQuery>) -> (query: DiscreteQuery)
    ensures
        query.query@ == QueryModel::And(models(res@).push(default_pool_model())),
        query.count_copies == Some(default_count_copies()),
{
    let mut resa = res;
    let ghost before = resa@;
    let pool = default_pool();
    resa.push(pool);
    assert(resa@.drop_last() =~= before);
    DiscreteQuery::from_parts(all_of(resa), Some(CountCopiesConfig::default()))
}

/// Equal access, low choice.
pub fn for_twostep_prologue() -> (res: Order)
    ensures
        res.destination_file == "./for-twostep_prologue.txt",
        res.discrete_query.query@ == QueryModel::And(
            seq![term_model(SearchTerm::ColorIdentity("0")), default_pool_model()],
        ),
        res.discrete_query.count_copies == Some(default_count_copies()),
{
    let extra = vec![term(SearchTerm::ColorIdentity("0"))];
    proof {
        lemma_models_pointwise(extra@);
    }
    assert(models(extra@).push(default_pool_model()) =~= seq![term_model(SearchTerm::ColorIdentity("0")), default_pool_model()]);
    Order::from_parts("./for-twostep_prologue.txt", default_plus(extra))
}

/// Equal access, low choice.
pub fn for_twostep_white() -> (res: Order)
    ensures
        res.destination_file == "./for-twostep_white.txt",
        res.discrete_query.query@ == QueryModel::And(
            seq![term_model(SearchTerm::ColorIdentityAtLeast("W")), default_pool_model()],
        ),
        res.discrete_query.count_copies == Some(default_count_copies()),
{
    let extra = vec![term(SearchTerm::ColorIdentityAtLeast("W"))];
    proof {
        lemma_models_pointwise(extra@);
    }
    assert(models(extra@).push(default_pool_model()) =~= seq![term_model(SearchTerm::ColorIdentityAtLeast("W")), default_pool_model()]);
    Order::from_parts("./for-twostep_white.txt", default_plus(extra))
}

/// Equal access, low choice.
pub fn for_twostep_blue() -> (res: Order)
    ensures
        res.destination_file == "./for-twostep_blue.txt",
        res.discrete_query.query@ == QueryModel::And(
            seq![term_model(SearchTerm::ColorIdentityAtLeast("U")), default_pool_model()],
        ),
        res.discrete_query.count_copies == Some(default_count_copies()),
{
    let extra = vec![term(SearchTerm::ColorIdentityAtLeast("U"))];
    proof {
        lemma_models_pointwise(extra@);
    }
    assert(models(extra@).push(default_pool_model()) =~= seq![term_model(SearchTerm::ColorIdentityAtLeast("U")), default_pool_model()]);
    Order::from_parts("./for-twostep_blue.txt", default_plus(extra))
}

/// Equal access, low choice.
pub fn for_twostep_black() -> (res: Order)
    ensures
        res.destination_file == "./for-twostep_black.txt",
        res.discrete_query.query@ == QueryModel::And(
            seq![term_model(SearchTerm::ColorIdentityAtLeast("B")), default_pool_model()],
        ),
        res.discrete_query.count_copies == Some(default_count_copies()),
{
    let extra = vec![term(SearchTerm::ColorIdentityAtLeast("B"))];
    proof {
        lemma_models_pointwise(extra@);
    }
    assert(models(extra@).push(default_pool_model()) =~= seq![term_model(SearchTerm::ColorIdentityAtLeast("B")), default_pool_model()]);
    Order::from_parts("./for-twostep_black.txt", default_plus(extra))
}

/// Equal access, low choice.
pub fn for_twostep_red() -> (res: Order)
    ensures
        res.destination_file == "./for-twostep_red.txt",
        res.discrete_query.query@ == QueryModel::And(
            seq![term_model(SearchTerm::ColorIdentityAtLeast("R")), default_pool_model()],
        ),
        res.discrete_query.count_copies == Some(default_count_copies()),
{
    let extra = vec![term(SearchTerm::ColorIdentityAtLeast("R"))];
    proof {
        lemma_models_pointwise(extra@);
    }
    assert(models(extra@).push(default_pool_model()) =~= seq![term_model(SearchTerm::ColorIdentityAtLeast("R")), default_pool_model()]);
    Order::from_parts("./for-twostep_red.txt", default_plus(extra))
}

/// Equal access, low choice.
pub fn for_twostep_green() -> (res: Order)
    ensures
        res.destination_file == "./for-twostep_green.txt",
        res.discrete_query.query@ == QueryModel::And(
            seq![term_model(SearchTerm::ColorIdentityAtLeast("G")), default_pool_model()],
        ),
        res.discrete_query.count_copies == Some(default_count_copies()),
{
    let extra = vec![term(SearchTerm::ColorIdentityAtLeast("G"))];
    proof {
        lemma_models_pointwise(extra@);
    }
    assert(models(extra@).push(default_pool_model()) =~= seq![term_model(SearchTerm::ColorIdentityAtLeast("G")), default_pool_model()]);
    Order::from_parts("./for-twostep_green.txt", default_plus(extra))
}

/// One order for each building block, to try them out on their own.
pub fn test_formats() -> (res: Vec<Order>)
    ensures
        res@.len() == 7,
        res@[0].destination_file == "./basics.txt",
        res@[0].discrete_query.query@ == basics_model(),
        res@[0].discrete_query.count_copies is None,
        res@[1].destination_file == "./draft_involved.txt",
        res@[1].discrete_query.query@ == draft_involved_model(),
        res@[1].discrete_query.count_copies == Some(default_count_copies()),
        res@[2].destination_file == "./meld_duds.txt",
        res@[2].discrete_query.query@ == meld_duds_model(),
        res@[2].discrete_query.count_copies == Some(default_count_copies()),
        res@[3].destination_file == "./unfun.txt",
        res@[3].discrete_query.query@ == unfun_model(),
        res@[3].discrete_query.count_copies == Some(default_count_copies()),
        res@[4].destination_file == "./commander_synergy.txt",
        res@[4].discrete_query.query@ == commander_synergy_model(),
        res@[4].discrete_query.count_copies == Some(default_count_copies()),
        res@[5].destination_file == "./conspiracy.txt",
        res@[5].discrete_query.query@ == conspiracy_model(),
        res@[5].discrete_query.count_copies == Some(default_count_copies()),
        res@[6].destination_file == "./rebalanced.txt",
        res@[6].discrete_query.query@ == rebalanced_model(),
        res@[6].discrete_query.count_copies is None,
{
    vec![
        Order::from_parts(
            "./basics.txt",
            DiscreteQuery::from_parts(basics(), None),
        ),
        Order::from_parts(
            "./draft_involved.txt",
            DiscreteQuery::from_parts(draft_involved(), Some(CountCopiesConfig::default())),
        ),
        Order::from_parts(
            "./meld_duds.txt",
            DiscreteQuery::from_parts(meld_duds(), Some(CountCopiesConfig::default())),
        ),
        Order::from_parts(
            "./unfun.txt",
            DiscreteQuery::from_parts(unfun(), Some(CountCopiesConfig::default())),
        ),
        Order::from_parts(
            "./commander_synergy.txt",
            DiscreteQuery::from_parts(commander_synergy(), Some(CountCopiesConfig::default())),
        ),
        Order::from_parts(
            "./conspiracy.txt",
            DiscreteQuery::from_parts(conspiracy(), Some(CountCopiesConfig::default())),
        ),
        Order::from_parts(
            "./rebalanced.txt",
            DiscreteQuery::from_parts(rebalanced(), None),
        ),
    ]
}

} // verus!

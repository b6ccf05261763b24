use vstd::prelude::*;

verus! {

/// The game formats in which a card can be legal.
#[derive(Clone, Copy, Debug, PartialEq, Eq, Structural)]
pub enum GameFormat {
    Standard,
    Modern,
    Legacy,
    Vintage,
    Commander,
    Future,
    Pauper,
    Pioneer,
    Penny,
    Duel,
    OldSchool,
    Historic,
    Gladiator,
    Brawl,
    Premodern,
    PauperCommander,
    Alchemy,
    Explorer,
    Predh,
    Oathbreaker,
    Timeless,
    StandardBrawl,
    HistoricBrawl,
}

/// A single search parameter.
#[derive(Clone, Copy, Debug, PartialEq, Eq)]
pub enum SearchTerm {
    /// The card's name is exactly this text.
    ExactName(&'static str),
    /// The card's name contains this text.
    Name(&'static str),
    /// The card's name matches this regular expression.
    NameRegex(&'static str),
    /// The card's type line contains this text.
    TypeLine(&'static str),
    /// The card's rules text contains this text.
    OracleText(&'static str),
    /// The card's full rules text, reminder text included, contains this text.
    FullOracleText(&'static str),
    /// The card is legal in this format.
    LegalIn(GameFormat),
    /// The card melds with another card.
    IsMeld,
    /// The card's color identity is exactly this color set.
    ColorIdentity(&'static str),
    /// The card's color identity includes this color set.
    ColorIdentityAtLeast(&'static str),
}

/// A search query: a tree of AND, OR and NOT over search terms.
#[derive(Debug, PartialEq, Eq)]
pub enum SearchQuery {
    And(Vec<SearchQuery>),
    Or(Vec<SearchQuery>),
    Not(Box<SearchQuery>),
    Term(SearchTerm),
}

/// The mathematical form of a search query.
pub enum QueryModel {
    And(Seq<QueryModel>),
    Or(Seq<QueryModel>),
    Not(Box<QueryModel>),
    Term(SearchTerm),
}

/// The models of a sequence of queries, element by element.
pub open spec fn models(queries: Seq<SearchQuery>) -> Seq<QueryModel>
    decreases queries,
{
    if queries.len() == 0 {
        Seq::empty()
    } else {
        models(queries.drop_last()).push(model(queries.last()))
    }
}

/// The model of one query.
pub open spec fn model(query: SearchQuery) -> QueryModel
    decreases query,
{
    match query {
        SearchQuery::And(v) => QueryModel::And(models(v@)),
        SearchQuery::Or(v) => QueryModel::Or(models(v@)),
        SearchQuery::Not(b) => QueryModel::Not(Box::new(model(*b))),
        SearchQuery::Term(t) => QueryModel::Term(t),
    }
}

impl View for SearchQuery {
    type V = QueryModel;

    open spec fn view(&self) -> QueryModel {
        model(*self)
    }
}

/// The model of a term on its own.
pub open spec fn term_model(t: SearchTerm) -> QueryModel {
    QueryModel::Term(t)
}

/// The model of a negated query.
pub open spec fn negated(m: QueryModel) -> QueryModel {
    QueryModel::Not(Box::new(m))
}

/// `models` maps each query to its model, keeping the length and the order.
pub proof fn lemma_models_pointwise(queries: Seq<SearchQuery>)
    ensures
        models(queries).len() == queries.len(),
        forall|i: int| 0 <= i < queries.len() ==> #[trigger] models(queries)[i] == model(queries[i]),
    decreases queries.len(),
{
    if queries.len() > 0 {
        lemma_models_pointwise(queries.drop_last());
    }
}

/// A query made of one search term.
pub fn term(t: SearchTerm) -> (res: SearchQuery)
    ensures
        res@ == term_model(t),
{
    SearchQuery::Term(t)
}

/// The negation of a query: it matches the cards that `query` does not match.
pub fn not(query: SearchQuery) -> (res: SearchQuery)
    ensures
        res@ == negated(query@),
{
    SearchQuery::Not(Box::new(query))
}

/// The conjunction of queries: it matches the cards that every one of them matches.
pub fn all_of(queries: Vec<SearchQuery>) -> (res: SearchQuery)
    ensures
        res@ == QueryModel::And(models(queries@)),
{
    SearchQuery::And(queries)
}

/// The disjunction of queries: it matches the cards that at least one of them matches.
pub fn any_of(queries: Vec<SearchQuery>) -> (res: SearchQuery)
    ensures
        res@ == QueryModel::Or(models(queries@)),
{
    SearchQuery::Or(queries)
}

} // verus!

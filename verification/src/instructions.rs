use vstd::prelude::*;
use vstd::string::StringExecFns;

use crate::query::SearchQuery;

verus! {

/// How the copies of a card are counted among its printings.
#[derive(Clone, Copy, Debug, PartialEq, Eq, Structural)]
pub struct CountCopiesConfig {
    /// ignore copies with a rarity different from the selected card
    pub only_same_rarity: bool,
    /// ignore copies with the same set as each-other
    pub only_different_sets: bool,
}

/// The configuration that `CountCopiesConfig::default` gives.
pub open spec fn default_count_copies() -> CountCopiesConfig {
    CountCopiesConfig { only_same_rarity: false, only_different_sets: true }
}

impl CountCopiesConfig {
    pub fn from_parts(same_rarity: bool, different_sets: bool) -> (res: Self)
        ensures
            res.only_same_rarity == same_rarity,
            res.only_different_sets == different_sets,
    {
        CountCopiesConfig { only_same_rarity: same_rarity, only_different_sets: different_sets }
    }
}

impl Default for CountCopiesConfig {
    fn default() -> (res: Self)
        ensures
            res == default_count_copies(),
    {
        CountCopiesConfig { only_same_rarity: false, only_different_sets: true }
    }
}

/// A search query, and whether (and how) the copies of each card found are counted.
#[derive(Debug, PartialEq, Eq)]
pub struct DiscreteQuery {
    pub query: SearchQuery,
    pub count_copies: Option<CountCopiesConfig>,
}

impl DiscreteQuery {
    pub fn from_parts(query: SearchQuery, count_copies: Option<CountCopiesConfig>) -> (res: Self)
        ensures
            res.query == query,
            res.count_copies == count_copies,
    {
        DiscreteQuery { query, count_copies }
    }
}

/// A query, and the name of the file where its card list and report are saved.
#[derive(Debug, PartialEq, Eq)]
pub struct Order {
    pub destination_file: &'static str,
    pub discrete_query: DiscreteQuery,
}

impl Order {
    pub fn from_parts(destination_file: &'static str, discrete_query: DiscreteQuery) -> (res: Self)
        ensures
            res.destination_file == destination_file,
            res.discrete_query == discrete_query,
    {
        Order { destination_file, discrete_query }
    }

    /// The path of the file that receives the card list: the file name under `lists/`.
    pub fn list_path(&self) -> (res: String)
        ensures
            res@ == "lists/"@ + self.destination_file@,
    {
        String::from_str("lists/").concat(self.destination_file)
    }

    /// The path of the file that receives the report: the file name under `reports/`.
    pub fn report_path(&self) -> (res: String)
        ensures
            res@ == "reports/"@ + self.destination_file@,
    {
        String::from_str("reports/").concat(self.destination_file)
    }
}

} // verus!

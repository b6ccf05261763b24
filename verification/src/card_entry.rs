use vstd::prelude::*;
use vstd::string::{StrSliceExecFns, StringExecFns};

use crate::instructions::CountCopiesConfig;
use crate::number_text::{decimal, decimal_text};
use crate::timestamp::{can_sum, empty_report, error_report, success_report, sum, Report};

verus! {

/// The rarity of a printing.
#[derive(Clone, Copy, Debug, PartialEq, Eq, Structural)]
pub enum Rarity {
    Common,
    Uncommon,
    Rare,
    Special,
    Mythic,
    Bonus,
}

/// What the copy count reads of one printing of a card.
#[derive(Clone, Copy, Debug, PartialEq, Eq, Structural)]
pub struct Printing {
    pub rarity: Rarity,
    /// The set that the printing belongs to, by its id.
    pub set_id: u128,
}

/// Whether a printing counts as a copy of a card of rarity `card_rarity`.
pub open spec fn counts(config: CountCopiesConfig, card_rarity: Rarity, printing: Printing) -> bool {
    !config.only_same_rarity || printing.rarity == card_rarity
}

/// The printings that count as copies, in their order.
pub open spec fn counted(config: CountCopiesConfig, card_rarity: Rarity, prints: Seq<Printing>) -> Seq<
    Printing,
> {
    prints.filter(|p: Printing| counts(config, card_rarity, p))
}

/// The set of a printing.
pub open spec fn set_of(p: Printing) -> u128 {
    p.set_id
}

/// The number of copies among `prints`: the printings that count, or, where only different
/// sets count, the number of different sets among them.
pub open spec fn copies_in(config: CountCopiesConfig, card_rarity: Rarity, prints: Seq<Printing>) -> nat {
    let kept = counted(config, card_rarity, prints);
    if config.only_different_sets {
        kept.map_values(|p: Printing| set_of(p)).to_set().len()
    } else {
        kept.len()
    }
}

/// The filters only ever leave printings out: the copies counted under any configuration
/// are at most the copies counted with no filter, which are all the printings.
pub proof fn lemma_filters_only_leave_out(
    config: CountCopiesConfig,
    card_rarity: Rarity,
    prints: Seq<Printing>,
)
    ensures
        copies_in(
            CountCopiesConfig { only_same_rarity: false, only_different_sets: false },
            card_rarity,
            prints,
        ) == prints.len(),
        copies_in(config, card_rarity, prints) <= prints.len(),
{
    let none = CountCopiesConfig { only_same_rarity: false, only_different_sets: false };
    let all = |p: Printing| counts(none, card_rarity, p);
    lemma_filter_keeps_all(prints, all);
    let kept = counted(config, card_rarity, prints);
    prints.lemma_filter_len(|p: Printing| counts(config, card_rarity, p));
    let sets = kept.map_values(|p: Printing| set_of(p));
    sets.lemma_cardinality_of_set();
}

/// Where only different sets count, a printing from a set that a counted printing already
/// comes from adds no copy.
pub proof fn lemma_repeated_set_adds_no_copy(
    config: CountCopiesConfig,
    card_rarity: Rarity,
    prints: Seq<Printing>,
    earlier: int,
    printing: Printing,
)
    requires
        config.only_different_sets,
        0 <= earlier < prints.len(),
        counts(config, card_rarity, prints[earlier]),
        prints[earlier].set_id == printing.set_id,
    ensures
        copies_in(config, card_rarity, prints.push(printing)) == copies_in(config, card_rarity, prints),
{
    let pred = |p: Printing| counts(config, card_rarity, p);
    let f = |p: Printing| set_of(p);
    let kept = prints.filter(pred);
    prints.lemma_filter_push(printing, pred);
    if pred(printing) {
        assert(prints.contains(prints[earlier]));
        prints.lemma_filter_contains_rev(pred, prints[earlier]);
        assert(kept.contains(prints[earlier]));
        let k = choose|k: int| 0 <= k < kept.len() && kept[k] == prints[earlier];
        assert(kept.map_values(f)[k] == printing.set_id);
        assert(kept.map_values(f).to_set().contains(printing.set_id));
        assert(kept.push(printing).map_values(f) =~= kept.map_values(f).push(printing.set_id));
        kept.map_values(f).lemma_push_to_set_commute(printing.set_id);
        assert(kept.map_values(f).to_set().insert(printing.set_id) =~= kept.map_values(f).to_set());
    }
}

/// Where only the card's rarity counts (and sets do not matter), the copies are exactly the
/// printings of the card's rarity.
pub proof fn lemma_same_rarity_counts_that_rarity(
    config: CountCopiesConfig,
    card_rarity: Rarity,
    prints: Seq<Printing>,
)
    requires
        config.only_same_rarity,
        !config.only_different_sets,
    ensures
        copies_in(config, card_rarity, prints) == prints.filter(
            |p: Printing| p.rarity == card_rarity,
        ).len(),
{
    let pred = |p: Printing| counts(config, card_rarity, p);
    let same = |p: Printing| p.rarity == card_rarity;
    assert(pred =~= same);
}

/// Where only the card's rarity counts, a printing of another rarity adds no copy, whatever
/// the sets.
pub proof fn lemma_other_rarity_adds_no_copy(
    config: CountCopiesConfig,
    card_rarity: Rarity,
    prints: Seq<Printing>,
    printing: Printing,
)
    requires
        config.only_same_rarity,
        printing.rarity != card_rarity,
    ensures
        copies_in(config, card_rarity, prints.push(printing)) == copies_in(config, card_rarity, prints),
{
    let pred = |p: Printing| counts(config, card_rarity, p);
    prints.lemma_filter_push(printing, pred);
}

/// Filtering by a predicate that holds everywhere keeps the whole sequence.
proof fn lemma_filter_keeps_all(s: Seq<Printing>, pred: spec_fn(Printing) -> bool)
    requires
        forall|p: Printing| #[trigger] pred(p),
    ensures
        s.filter(pred) == s,
    decreases s.len(),
{
    reveal(Seq::filter);
    if s.len() > 0 {
        lemma_filter_keeps_all(s.drop_last(), pred);
        assert(s.drop_last().push(s.last()) =~= s);
    } else {
        assert(s.filter(pred) =~= s);
    }
}

/// Whether `sets` holds `set`.
fn holds(sets: &Vec<u128>, set: u128) -> (res: bool)
    ensures
        res == sets@.contains(set),
{
    let mut i: usize = 0;
    while i < sets.len()
        invariant
            i <= sets.len(),
            forall|j: int| 0 <= j < i ==> sets@[j] != set,
        decreases sets.len() - i,
    {
        if sets[i] == set {
            return true;
        }
        i += 1;
    }
    false
}

/// Counts the copies of a card of rarity `card_rarity` among the printings `prints`.
pub fn count_copies(config: CountCopiesConfig, card_rarity: Rarity, prints: &Vec<Printing>) -> (res: u64)
    ensures
        res == copies_in(config, card_rarity, prints@),
{
    let ghost pred = |p: Printing| counts(config, card_rarity, p);
    let ghost f = |p: Printing| set_of(p);
    let mut copies: u64 = 0;
    let mut sets_found: Vec<u128> = Vec::new();
    let mut i: usize = 0;
    while i < prints.len()
        invariant
            i <= prints.len(),
            copies <= i,
            pred == (|p: Printing| counts(config, card_rarity, p)),
            f == (|p: Printing| set_of(p)),
            config.only_different_sets ==> {
                &&& copies == sets_found@.len()
                &&& sets_found@.no_duplicates()
                &&& sets_found@.to_set() == prints@.take(i as int).filter(pred).map_values(f).to_set()
            },
            !config.only_different_sets ==> copies == prints@.take(i as int).filter(pred).len(),
        decreases prints.len() - i,
    {
        let printing = prints[i];
        let ghost before = prints@.take(i as int);
        assert(prints@.take(i + 1) =~= before.push(printing));
        proof {
            before.lemma_filter_push(printing, pred);
        }
        if config.only_same_rarity && printing.rarity != card_rarity {
            i += 1;
            continue;
        }
        assert(prints@.take(i + 1).filter(pred) == before.filter(pred).push(printing));
        assert(before.filter(pred).push(printing).map_values(f) =~= before.filter(pred).map_values(
            f,
        ).push(printing.set_id));
        proof {
            before.filter(pred).map_values(f).lemma_push_to_set_commute(printing.set_id);
        }
        if config.only_different_sets {
            let this_set = printing.set_id;
            if holds(&sets_found, this_set) {
                assert(before.filter(pred).map_values(f).to_set().contains(this_set));
                assert(before.filter(pred).map_values(f).to_set().insert(this_set)
                    =~= before.filter(pred).map_values(f).to_set());
                i += 1;
                continue;
            }
            proof {
                sets_found@.lemma_push_to_set_commute(this_set);
            }
            sets_found.push(this_set);
        }
        copies += 1;
        i += 1;
    }
    assert(prints@.take(i as int) =~= prints@);
    if config.only_different_sets {
        proof {
            sets_found@.unique_seq_to_set();
        }
    }
    copies
}

/// A card's name up to the first `//`, which separates the faces of a card with several
/// faces ("Fire // Ice" gives "Fire "); the whole name where there is none.
pub open spec fn first_face(name: Seq<char>) -> Seq<char>
    decreases name.len(),
{
    if name.len() < 2 {
        name
    } else if name[0] == '/' && name[1] == '/' {
        Seq::empty()
    } else {
        seq![name[0]] + first_face(name.drop_first())
    }
}

/// `//` stands at index `i` of `name`.
pub open spec fn separator_at(name: Seq<char>, i: int) -> bool {
    0 <= i && i + 1 < name.len() && name[i] == '/' && name[i + 1] == '/'
}

/// The first face is the longest prefix of the name in which no `//` begins: it is a prefix,
/// no `//` begins in it, and where it is shorter than the name a `//` begins right after it.
pub proof fn lemma_first_face_is_prefix_before_separator(name: Seq<char>)
    ensures
        first_face(name).len() <= name.len(),
        first_face(name) == name.take(first_face(name).len() as int),
        forall|i: int| 0 <= i < first_face(name).len() ==> !separator_at(name, i),
        first_face(name).len() < name.len() ==> separator_at(name, first_face(name).len() as int),
    decreases name.len(),
{
    if name.len() < 2 {
        assert(name.take(name.len() as int) =~= name);
    } else if name[0] == '/' && name[1] == '/' {
        assert(name.take(0) =~= Seq::<char>::empty());
    } else {
        let rest = name.drop_first();
        lemma_first_face_is_prefix_before_separator(rest);
        let k: int = first_face(rest).len() as int;
        assert(first_face(name) =~= name.take(k + 1 as int));
        assert forall|i: int| 0 <= i < first_face(name).len() implies !separator_at(name, i) by {
            if i > 0 {
                assert(!separator_at(rest, i - 1));
            }
        }
        if first_face(name).len() < name.len() {
            assert(separator_at(rest, k));
        }
    }
}

/// Taking the first face twice gives the first face.
pub proof fn lemma_first_face_idempotent(name: Seq<char>)
    ensures
        first_face(first_face(name)) == first_face(name),
    decreases name.len(),
{
    if name.len() >= 2 && !(name[0] == '/' && name[1] == '/') {
        let rest = name.drop_first();
        lemma_first_face_idempotent(rest);
        let f = first_face(rest);
        let whole = seq![name[0]] + f;
        assert(whole == first_face(name));
        if whole.len() >= 2 {
            assert(whole[0] == name[0]);
            assert(whole.drop_first() =~= f);
            if whole[1] == '/' {
                // whole[1] == f[0]; f starts where rest starts
                lemma_first_face_is_prefix_before_separator(rest);
                assert(f[0] == rest[0]);
                assert(rest[0] == name[1]);
            }
        }
    }
}

/// Splitting `name` at index `i`, before which no `//` begins, leaves its first face whole.
proof fn lemma_first_face_split(name: Seq<char>, i: int)
    requires
        0 <= i < name.len() - 1,
        !(name[i] == '/' && name[i + 1] == '/'),
        first_face(name) == name.take(i) + first_face(name.skip(i)),
    ensures
        first_face(name) == name.take(i + 1) + first_face(name.skip(i + 1)),
{
    let tail = name.skip(i);
    assert(tail.drop_first() =~= name.skip(i + 1));
    assert(tail[0] == name[i]);
    assert(tail[1] == name[i + 1]);
    assert(first_face(tail) == seq![name[i]] + first_face(name.skip(i + 1)));
    assert(name.take(i) + (seq![name[i]] + first_face(name.skip(i + 1))) =~= name.take(i + 1)
        + first_face(name.skip(i + 1)));
}

/// The name of a card's first face: the name up to the first `//`.
pub fn first_face_name(name: &str) -> (res: String)
    ensures
        res@ == first_face(name@),
{
    let n = name.unicode_len();
    let mut i: usize = 0;
    assert(name@.take(0) + name@.skip(0) =~= name@);
    while n >= 2 && i < n - 1
        invariant
            n == name@.len(),
            i <= n,
            first_face(name@) == name@.take(i as int) + first_face(name@.skip(i as int)),
        decreases n - i,
    {
        if name.get_char(i) == '/' && name.get_char(i + 1) == '/' {
            let ghost tail = name@.skip(i as int);
            assert(tail[0] == '/' && tail[1] == '/');
            assert(first_face(tail) == Seq::<char>::empty());
            assert(name@.take(i as int) + Seq::<char>::empty() =~= name@.take(i as int));
            return String::from_str(name.substring_char(0, i));
        }
        proof {
            lemma_first_face_split(name@, i as int);
        }
        i += 1;
    }
    let ghost tail = name@.skip(i as int);
    assert(tail.len() < 2);
    assert(name@.take(i as int) + tail =~= name@);
    String::from_str(name)
}

/// The line of the card list for a card: the number of copies, a space, and the name of
/// the card's first face.
pub fn card_entry_text(copies: u64, card_name: &str) -> (res: String)
    ensures
        res@ == decimal(copies as nat) + " "@ + first_face(card_name@),
{
    let face = first_face_name(card_name);
    decimal_text(copies).concat(" ").concat(face.as_str())
}

/// The printings of a card are requested at most `MAX_RETRIES - 1` times.
pub const MAX_RETRIES: usize = 4;

/// The count of the copies of one card: the requests for its printings made so far, and
/// what they gave.
pub struct CopySearch {
    /// How copies are counted; none where they are not counted at all.
    pub config: Option<CountCopiesConfig>,
    pub card_rarity: Rarity,
    pub copies: u64,
    /// The requests made for the printings.
    pub report: Report,
    pub attempts: usize,
    /// A request succeeded, or no request is needed.
    pub finished: bool,
}

impl CopySearch {
    /// The states that the search can be in.
    pub open spec fn wf(&self) -> bool {
        &&& self.attempts < MAX_RETRIES
        &&& self.config is None ==> {
            &&& self.finished
            &&& self.copies == 1
            &&& self.report == empty_report()
            &&& self.attempts == 0
        }
        &&& (self.config is Some && !self.finished) ==> self.copies == 0
    }

    /// Whether the printings are to be requested (again).
    pub open spec fn fetch_pending(&self) -> bool {
        !self.finished && self.attempts < MAX_RETRIES - 1
    }

    /// The search for a card of rarity `card_rarity`: where `config` is none, copies are not
    /// counted and the card counts once.
    pub fn start(config: Option<CountCopiesConfig>, card_rarity: Rarity) -> (res: Self)
        ensures
            res.wf(),
            res.config == config,
            res.card_rarity == card_rarity,
            res.attempts == 0,
            res.report == empty_report(),
            res.finished == (config is None),
            res.copies == (if config is None { 1u64 } else { 0u64 }),
    {
        match config {
            None => CopySearch {
                config,
                card_rarity,
                copies: 1,
                report: Report::new(),
                attempts: 0,
                finished: true,
            },
            Some(_) => CopySearch {
                config,
                card_rarity,
                copies: 0,
                report: Report::new(),
                attempts: 0,
                finished: false,
            },
        }
    }

    /// Whether the printings are to be requested (again).
    pub fn wants_fetch(&self) -> (res: bool)
        ensures
            res == self.fetch_pending(),
    {
        !self.finished && self.attempts < MAX_RETRIES - 1
    }

    /// The request for the printings succeeded after `server_nanos` and gave `prints`: the
    /// copies among them are counted, and the search is over.
    pub fn record_prints(&mut self, prints: &Vec<Printing>, server_nanos: u128)
        requires
            old(self).wf(),
            old(self).fetch_pending(),
            can_sum(old(self).report, success_report(server_nanos)),
        ensures
            final(self).wf(),
            final(self).finished,
            final(self).config == old(self).config,
            final(self).card_rarity == old(self).card_rarity,
            final(self).attempts == old(self).attempts + 1,
            final(self).report == sum(old(self).report, success_report(server_nanos)),
            final(self).copies == copies_in(old(self).config->0, old(self).card_rarity, prints@),
    {
        self.report = self.report.add(Report::card_success(server_nanos));
        let config = self.config.unwrap();
        self.copies = count_copies(config, self.card_rarity, prints);
        self.attempts = self.attempts + 1;
        self.finished = true;
    }

    /// The request for the printings failed after `server_nanos`: it is tried again while
    /// attempts are left.
    pub fn record_fetch_error(&mut self, server_nanos: u128)
        requires
            old(self).wf(),
            old(self).fetch_pending(),
            can_sum(old(self).report, error_report(server_nanos)),
        ensures
            final(self).wf(),
            !final(self).finished,
            final(self).config == old(self).config,
            final(self).card_rarity == old(self).card_rarity,
            final(self).attempts == old(self).attempts + 1,
            final(self).report == sum(old(self).report, error_report(server_nanos)),
            final(self).copies == 0,
    {
        self.report = self.report.add(Report::card_error(server_nanos));
        self.attempts = self.attempts + 1;
    }
}

} // verus!

//! Composes a chat message: picks a scenario, draws distinct names for its
//! placeholders in one sampling step, and fills the template.

use vstd::prelude::*;
use crate::text::texts;
use std::collections::HashMap;

verus! {

/// The random source that the composer draws from.
#[verifier::external_type_specification]
#[verifier::external_body]
pub struct ExRng(fastrand::Rng);

/// Why the formatting crate rejected a template.
#[verifier::external_type_specification]
#[verifier::external_body]
pub struct ExFmtError(strfmt::FmtError);

/// What `strfmt::strfmt` makes of a template and a map from placeholder to
/// value: the formatted text, or `None` where it rejects the template.
pub uninterp spec fn strfmt_result(
    template: Seq<char>,
    values: Map<Seq<char>, Seq<char>>,
) -> Option<Seq<char>>;

/// The bank that messages are composed from.
#[derive(Debug, Clone)]
pub struct MessageComponents {
    pub scenarios: Vec<Scenario>,
    pub mods: Vec<String>,
}

/// A template with the names of its placeholders, in two groups.
#[derive(Debug, Clone)]
pub struct Scenario {
    pub template: String,
    pub winners: Vec<String>,
    pub others: Vec<String>,
}

/// Why no message was composed.
#[derive(Debug, Clone, Copy, PartialEq, Eq, Structural)]
pub enum ScenarioError {
    /// The bank holds no scenario.
    ScenarioSelectionFailed,
    /// The pool holds fewer names than the scenario has placeholders.
    InsufficientCandidates,
    /// The names given do not match the placeholders, or the template
    /// cannot be filled from them.
    PlaceholderMismatch,
}

impl ScenarioError {
    /// The error as a line of text.
    pub fn message(&self) -> (line: &'static str)
        ensures
            line@ == match *self {
                ScenarioError::ScenarioSelectionFailed => "Failed to select a scenario"@,
                ScenarioError::InsufficientCandidates => "Failed to pick enough mods"@,
                ScenarioError::PlaceholderMismatch => "Failed to format string"@,
            },
    {
        match self {
            ScenarioError::ScenarioSelectionFailed => "Failed to select a scenario",
            ScenarioError::InsufficientCandidates => "Failed to pick enough mods",
            ScenarioError::PlaceholderMismatch => "Failed to format string",
        }
    }
}

/// The map that binds each key to the value at its position; where a key
/// occurs twice, the later value stands.
pub open spec fn bindings(keys: Seq<Seq<char>>, values: Seq<Seq<char>>) -> Map<
    Seq<char>,
    Seq<char>,
>
    decreases keys.len(),
{
    if keys.len() == 0 || values.len() == 0 {
        Map::empty()
    } else {
        bindings(keys.drop_last(), values.drop_last()).insert(keys.last(), values.last())
    }
}

/// A template without braces: it holds no placeholder and no escape.
pub open spec fn is_plain(template: Seq<char>) -> bool {
    forall|i: int| 0 <= i < template.len() ==> template[i] != '{' && template[i] != '}'
}

/// `amount` distinct positions of a pool of `pool` items.
pub open spec fn is_draw(at: Seq<usize>, pool: nat, amount: nat) -> bool {
    &&& at.len() == amount
    &&& forall|i: int| 0 <= i < at.len() ==> at[i] < pool
    &&& at.no_duplicates()
}

/// The names that stand at the drawn positions, in the order of the draw.
pub open spec fn picked(pool: Seq<String>, at: Seq<usize>) -> Seq<Seq<char>> {
    Seq::new(at.len(), |i: int| pool[at[i] as int]@)
}

/// A composer's result, with the message by its characters.
pub open spec fn outcome(res: Result<String, ScenarioError>) -> Result<Seq<char>, ScenarioError> {
    match res {
        Ok(s) => Ok(s@),
        Err(e) => Err(e),
    }
}

/// The text that the formatting crate returned, if it returned one.
pub open spec fn formatted(out: Result<String, strfmt::FmtError>) -> Option<Seq<char>> {
    match out {
        Ok(s) => Some(s@),
        Err(_) => None,
    }
}

/// Calls `fastrand::Rng::choice` on the positions `0..len`. It returns
/// `None` for an empty range and one position of the range otherwise; which
/// one depends on the generator's state.
#[verifier::external_body]
fn choice_position(rng: &mut fastrand::Rng, len: usize) -> (pick: Option<usize>)
    ensures
        len == 0 ==> pick is None,
        len > 0 ==> pick is Some && pick->0 < len,
{
    rng.choice(0..len)
}

/// Calls `fastrand::Rng::choose_multiple` on the positions of `pool`. It
/// fills a reservoir with the first `amount` positions and then overwrites
/// slots with later ones, so each position comes out at most once; which
/// ones depends on the generator's state.
#[verifier::external_body]
fn choose_positions(rng: &mut fastrand::Rng, pool: &[String], amount: usize) -> (picks: Vec<usize>)
    requires
        amount <= pool@.len(),
    ensures
        is_draw(picks@, pool@.len(), amount as nat),
{
    rng.choose_multiple(0..pool.len(), amount)
}

/// Calls `strfmt::strfmt` with the map that binds each key to the value at
/// its position. The result is the crate's own; of it the contract says
/// only that a template without braces comes back unchanged, since the
/// crate copies every character outside braces.
#[verifier::external_body]
fn format_template(template: &str, keys: &Vec<String>, values: &Vec<String>) -> (out: Result<String, strfmt::FmtError>)
    requires
        keys@.len() == values@.len(),
    ensures
        formatted(out) == strfmt_result(template@, bindings(texts(keys@), texts(values@))),
        is_plain(template@) ==> formatted(out) == Some(template@),
{
    let vars: HashMap<String, String> = keys.iter().cloned().zip(values.iter().cloned()).collect();
    strfmt::strfmt(template, &vars)
}

/// Turns what the formatting crate returned into the composer's result.
pub fn built_message(out: Result<String, strfmt::FmtError>) -> (res: Result<String, ScenarioError>)
    ensures
        out matches Ok(s) ==> res == Ok::<String, ScenarioError>(s),
        out is Err ==> res == Err::<String, ScenarioError>(ScenarioError::PlaceholderMismatch),
{
    match out {
        Ok(s) => Ok(s),
        Err(_) => Err(ScenarioError::PlaceholderMismatch),
    }
}

/// Appends copies of `src` to `dst`.
fn append_names(dst: &mut Vec<String>, src: &[String])
    ensures
        texts(final(dst)@) == texts(old(dst)@) + texts(src@),
{
    let mut i: usize = 0;
    while i < src.len()
        invariant
            i <= src@.len(),
            texts(dst@) == texts(old(dst)@) + texts(src@.take(i as int)),
        decreases src@.len() - i,
    {
        let ghost before = dst@;
        dst.push(src[i].clone());
        proof {
            assert(src@.take(i + 1) =~= src@.take(i as int).push(src@[i as int]));
            assert(texts(src@.take(i + 1)) =~= texts(src@.take(i as int)).push(src@[i as int]@));
            assert(texts(dst@) =~= texts(before).push(src@[i as int]@));
            assert(texts(dst@) =~= texts(old(dst)@) + texts(src@.take(i + 1)));
        }
        i += 1;
    }
    assert(src@.take(i as int) =~= src@);
}

impl Scenario {
    pub fn get_template(&self) -> (template: &str)
        ensures
            template@ == self.template@,
    {
        self.template.as_str()
    }

    pub fn get_winners(&self) -> (winners: &[String])
        ensures
            winners@ == self.winners@,
    {
        self.winners.as_slice()
    }

    pub fn get_others(&self) -> (others: &[String])
        ensures
            others@ == self.others@,
    {
        self.others.as_slice()
    }

    /// The map from each placeholder to the name that fills it: the winners'
    /// placeholders first, then the others'.
    pub open spec fn substitution(self, winners: Seq<Seq<char>>, others: Seq<Seq<char>>) -> Map<
        Seq<char>,
        Seq<char>,
    > {
        bindings(texts(self.winners@) + texts(self.others@), winners + others)
    }

    /// What `build` returns: a mismatch where either group has another
    /// count than the scenario declares; else a template without braces as
    /// it stands, and any other as formatted, or a mismatch where it cannot
    /// be filled.
    pub open spec fn built(self, winners: Seq<Seq<char>>, others: Seq<Seq<char>>) -> Result<
        Seq<char>,
        ScenarioError,
    > {
        if self.winners@.len() != winners.len() || self.others@.len() != others.len() {
            Err(ScenarioError::PlaceholderMismatch)
        } else if is_plain(self.template@) {
            Ok(self.template@)
        } else {
            match strfmt_result(self.template@, self.substitution(winners, others)) {
                Some(s) => Ok(s),
                None => Err(ScenarioError::PlaceholderMismatch),
            }
        }
    }

    /// Fills the template with the given names, by position.
    pub fn build(&self, winners: &[String], others: &[String]) -> (res: Result<
        String,
        ScenarioError,
    >)
        ensures
            outcome(res) == self.built(texts(winners@), texts(others@)),
    {
        if self.winners.len() != winners.len() {
            return Err(ScenarioError::PlaceholderMismatch);
        }
        if self.others.len() != others.len() {
            return Err(ScenarioError::PlaceholderMismatch);
        }
        let mut keys: Vec<String> = Vec::new();
        let mut values: Vec<String> = Vec::new();
        append_names(&mut keys, self.winners.as_slice());
        append_names(&mut values, winners);
        append_names(&mut keys, self.others.as_slice());
        append_names(&mut values, others);
        assert(texts(keys@) =~= texts(self.winners@) + texts(self.others@));
        assert(texts(values@) =~= texts(winners@) + texts(others@));
        assert(keys@.len() == values@.len()) by {
            assert(texts(keys@).len() == texts(values@).len());
        }
        let out = format_template(self.template.as_str(), &keys, &values);
        built_message(out)
    }
}

impl MessageComponents {
    pub fn get_mods(&self) -> (mods: &[String])
        ensures
            mods@ == self.mods@,
    {
        self.mods.as_slice()
    }

    pub fn get_scenarios(&self) -> (scenarios: &[Scenario])
        ensures
            scenarios@ == self.scenarios@,
    {
        self.scenarios.as_slice()
    }
}

/// How many items a pick of `amount` from `len` items holds.
pub open spec fn pick_count(len: nat, amount: nat) -> nat {
    if amount <= len {
        amount
    } else {
        len
    }
}

/// Draws distinct positions of `haystack`: none from an empty one or for
/// `amount` zero, one by a single choice, more in one sampling step.
fn pick_positions(haystack: &[String], amount: usize, rng: &mut fastrand::Rng) -> (at: Vec<usize>)
    ensures
        is_draw(at@, haystack@.len(), pick_count(haystack@.len(), amount as nat)),
{
    let len = haystack.len();
    if len == 0 || amount == 0 {
        return Vec::new();
    }
    if amount == 1 {
        let mut single: Vec<usize> = Vec::new();
        match choice_position(rng, len) {
            Some(p) => {
                single.push(p);
            },
            None => {},
        }
        return single;
    }
    let capped = if amount > len {
        len
    } else {
        amount
    };
    choose_positions(rng, haystack, capped)
}

/// Copies the items of `haystack` at the given positions.
fn items_at(haystack: &[String], at: &Vec<usize>) -> (items: Vec<String>)
    requires
        forall|i: int| 0 <= i < at@.len() ==> at@[i] < haystack@.len(),
    ensures
        texts(items@) == picked(haystack@, at@),
{
    let mut items: Vec<String> = Vec::new();
    let mut i: usize = 0;
    while i < at.len()
        invariant
            i <= at@.len(),
            forall|j: int| 0 <= j < at@.len() ==> at@[j] < haystack@.len(),
            texts(items@) == picked(haystack@, at@.take(i as int)),
        decreases at@.len() - i,
    {
        let ghost before = items@;
        items.push(haystack[at[i]].clone());
        proof {
            assert(texts(items@) =~= texts(before).push(haystack@[at@[i as int] as int]@));
            assert(texts(items@) =~= picked(haystack@, at@.take(i + 1)));
        }
        i += 1;
    }
    assert(at@.take(i as int) =~= at@);
    items
}

/// Picks up to `amount` items of `haystack` at random, none of them from
/// the same position twice.
pub fn pick_random(haystack: &[String], amount: usize, rng: &mut fastrand::Rng) -> (picks: Vec<String>)
    ensures
        picks@.len() == pick_count(haystack@.len(), amount as nat),
        exists|at: Seq<usize>| #[trigger]
            is_draw(at, haystack@.len(), picks@.len()) && texts(picks@) == picked(haystack@, at),
{
    let at = pick_positions(haystack, amount, rng);
    let picks = items_at(haystack, &at);
    assert(picks@.len() == at@.len()) by {
        assert(texts(picks@).len() == picked(haystack@, at@).len());
    }
    picks
}

/// The first `m` names of a draw play the winners, the rest the others:
/// every name comes from the pool, and no position of the pool fills two
/// placeholders.
pub open spec fn is_cast(
    pool: Seq<String>,
    at: Seq<usize>,
    winners: Seq<Seq<char>>,
    others: Seq<Seq<char>>,
) -> bool {
    &&& is_draw(at, pool.len(), winners.len() + others.len())
    &&& winners == picked(pool, at).take(winners.len() as int)
    &&& others == picked(pool, at).skip(winners.len() as int)
}

/// What a composition from one scenario and a pool can be: too few
/// candidates, or the scenario built with some cast drawn from the pool.
pub open spec fn composed_with(
    scenario: Scenario,
    pool: Seq<String>,
    out: Result<Seq<char>, ScenarioError>,
) -> bool {
    let m = scenario.winners@.len();
    let n = scenario.others@.len();
    if m + n > pool.len() {
        out == Err::<Seq<char>, ScenarioError>(ScenarioError::InsufficientCandidates)
    } else {
        exists|at: Seq<usize>| #[trigger]
            is_draw(at, pool.len(), m + n) && out == scenario.built(
                picked(pool, at).take(m as int),
                picked(pool, at).skip(m as int),
            )
    }
}

/// What a composition from a bank can be: no scenario to select where the
/// bank holds none, else a composition from one of its scenarios.
pub open spec fn is_composed(bank: MessageComponents, out: Result<Seq<char>, ScenarioError>) -> bool {
    if bank.scenarios@.len() == 0 {
        out == Err::<Seq<char>, ScenarioError>(ScenarioError::ScenarioSelectionFailed)
    } else {
        exists|s: int|
            0 <= s < bank.scenarios@.len() && #[trigger] composed_with(
                bank.scenarios@[s],
                bank.mods@,
                out,
            )
    }
}

/// Composes a message from a bank with a random source.
pub trait MessageBuilder {
    fn build_from_templates(message_components: &MessageComponents, rng: &mut fastrand::Rng) -> Result<
        String,
        ScenarioError,
    >;
}

/// The composer.
pub struct Robochick {}

impl Robochick {
    pub fn new() -> Robochick {
        Robochick {  }
    }

    /// Draws the names for `winners` winner placeholders and `others` other
    /// placeholders from the pool in one sampling step, and splits the draw
    /// by position.
    pub fn draw(pool: &[String], winners: usize, others: usize, rng: &mut fastrand::Rng) -> (res:
        Result<(Vec<String>, Vec<String>), ScenarioError>)
        ensures
            match res {
                Ok(cast) => {
                    &&& winners + others <= pool@.len()
                    &&& cast.0@.len() == winners
                    &&& cast.1@.len() == others
                    &&& exists|at: Seq<usize>| #[trigger]
                        is_cast(pool@, at, texts(cast.0@), texts(cast.1@))
                    &&& from_pool(texts(pool@), texts(cast.0@))
                    &&& from_pool(texts(pool@), texts(cast.1@))
                    &&& texts(pool@).no_duplicates() ==> apart(texts(cast.0@), texts(cast.1@))
                },
                Err(e) => winners + others > pool@.len() && e
                    == ScenarioError::InsufficientCandidates,
            },
    {
        let len = pool.len();
        if winners > len || others > len - winners {
            return Err(ScenarioError::InsufficientCandidates);
        }
        let mut first = pick_random(pool, winners + others, rng);
        let ghost drawn = first@;
        let ghost at = choose|at: Seq<usize>| #[trigger]
            is_draw(at, pool@.len(), drawn.len()) && texts(drawn) == picked(pool@, at);
        let second = first.split_off(winners);
        proof {
            assert(texts(first@) =~= picked(pool@, at).take(winners as int));
            assert(texts(second@) =~= picked(pool@, at).skip(winners as int));
            assert(texts(first@).len() == winners);
            assert(texts(second@).len() == others);
            assert(is_cast(pool@, at, texts(first@), texts(second@)));
            lemma_cast_from_pool(pool@, at, texts(first@), texts(second@));
            if texts(pool@).no_duplicates() {
                lemma_cast_apart(pool@, at, texts(first@), texts(second@));
            }
        }
        Ok((first, second))
    }
}

impl MessageBuilder for Robochick {
    /// Picks a scenario, draws its cast from the pool of mods and fills the
    /// template.
    fn build_from_templates(message_components: &MessageComponents, rng: &mut fastrand::Rng) -> (res:
        Result<String, ScenarioError>)
        ensures
            is_composed(*message_components, outcome(res)),
    {
        let mods = message_components.get_mods();
        let scenarios = message_components.get_scenarios();
        match choice_position(rng, scenarios.len()) {
            Some(s) => {
                let scenario = &scenarios[s];
                let m = scenario.get_winners().len();
                let n = scenario.get_others().len();
                let res = match Robochick::draw(mods, m, n, rng) {
                    Ok(cast) => {
                        let res = scenario.build(cast.0.as_slice(), cast.1.as_slice());
                        proof {
                            let at = choose|at: Seq<usize>| #[trigger]
                                is_cast(mods@, at, texts(cast.0@), texts(cast.1@));
                            assert(texts(cast.0@).len() == m);
                            assert(is_draw(at, mods@.len(), (m + n) as nat));
                        }
                        res
                    },
                    Err(e) => Err(e),
                };
                assert(composed_with(scenarios@[s as int], mods@, outcome(res)));
                res
            },
            None => Err(ScenarioError::ScenarioSelectionFailed),
        }
    }
}

/// Every name of `names` occurs in `pool`.
pub open spec fn from_pool(pool: Seq<Seq<char>>, names: Seq<Seq<char>>) -> bool {
    forall|i: int| 0 <= i < names.len() ==> pool.contains(#[trigger] names[i])
}

/// No name of `winners` is a name of `others`.
pub open spec fn apart(winners: Seq<Seq<char>>, others: Seq<Seq<char>>) -> bool {
    forall|i: int, j: int|
        0 <= i < winners.len() && 0 <= j < others.len() ==> #[trigger] winners[i]
            != #[trigger] others[j]
}

/// Each name of a cast belongs to the pool it was drawn from.
pub proof fn lemma_cast_from_pool(
    pool: Seq<String>,
    at: Seq<usize>,
    winners: Seq<Seq<char>>,
    others: Seq<Seq<char>>,
)
    requires
        is_cast(pool, at, winners, others),
    ensures
        from_pool(texts(pool), winners),
        from_pool(texts(pool), others),
{
    let m = winners.len() as int;
    assert forall|i: int| 0 <= i < winners.len() implies texts(pool).contains(
        #[trigger] winners[i],
    ) by {
        assert(texts(pool)[at[i] as int] == winners[i]);
    }
    assert forall|j: int| 0 <= j < others.len() implies texts(pool).contains(
        #[trigger] others[j],
    ) by {
        assert(texts(pool)[at[m + j] as int] == others[j]);
    }
}

/// Drawn from a pool that holds no name twice, the winners and the others
/// share no name: one sampling step fills both groups, so no position of
/// the pool is used twice.
pub proof fn lemma_cast_apart(
    pool: Seq<String>,
    at: Seq<usize>,
    winners: Seq<Seq<char>>,
    others: Seq<Seq<char>>,
)
    requires
        is_cast(pool, at, winners, others),
        texts(pool).no_duplicates(),
    ensures
        apart(winners, others),
{
    let m = winners.len() as int;
    assert forall|i: int, j: int| 0 <= i < winners.len() && 0 <= j < others.len() implies
        #[trigger] winners[i] != #[trigger] others[j] by {
        assert(at[i] != at[m + j]);
        assert(texts(pool)[at[i] as int] == winners[i]);
        assert(texts(pool)[at[m + j] as int] == others[j]);
    }
}

/// A message composed from a pool that is large enough and holds no name
/// twice is the scenario built with winners and others that all come from
/// the pool and share no name.
pub proof fn lemma_composed_from_disjoint_cast(
    scenario: Scenario,
    pool: Seq<String>,
    out: Result<Seq<char>, ScenarioError>,
)
    requires
        composed_with(scenario, pool, out),
        scenario.winners@.len() + scenario.others@.len() <= pool.len(),
        texts(pool).no_duplicates(),
    ensures
        exists|winners: Seq<Seq<char>>, others: Seq<Seq<char>>|
            {
                &&& out == #[trigger] scenario.built(winners, others)
                &&& winners.len() == scenario.winners@.len()
                &&& others.len() == scenario.others@.len()
                &&& from_pool(texts(pool), winners)
                &&& from_pool(texts(pool), others)
                &&& apart(winners, others)
            },
{
    let m = scenario.winners@.len();
    let n = scenario.others@.len();
    let at = choose|at: Seq<usize>| #[trigger]
        is_draw(at, pool.len(), m + n) && out == scenario.built(
            picked(pool, at).take(m as int),
            picked(pool, at).skip(m as int),
        );
    let winners = picked(pool, at).take(m as int);
    let others = picked(pool, at).skip(m as int);
    assert(is_cast(pool, at, winners, others));
    lemma_cast_from_pool(pool, at, winners, others);
    lemma_cast_apart(pool, at, winners, others);
    assert(out == scenario.built(winners, others));
}

/// A pool smaller than the placeholders of a scenario yields no message:
/// the composition fails for want of candidates.
pub proof fn lemma_small_pool_fails(
    scenario: Scenario,
    pool: Seq<String>,
    out: Result<Seq<char>, ScenarioError>,
)
    requires
        composed_with(scenario, pool, out),
        pool.len() < scenario.winners@.len() + scenario.others@.len(),
    ensures
        out == Err::<Seq<char>, ScenarioError>(ScenarioError::InsufficientCandidates),
{
}

/// A scenario without placeholders whose template holds no brace is
/// composed to its template, whatever the pool.
pub proof fn lemma_plain_scenario_unchanged(
    scenario: Scenario,
    pool: Seq<String>,
    out: Result<Seq<char>, ScenarioError>,
)
    requires
        composed_with(scenario, pool, out),
        scenario.winners@.len() == 0,
        scenario.others@.len() == 0,
        is_plain(scenario.template@),
    ensures
        out == Ok::<Seq<char>, ScenarioError>(scenario.template@),
{
}

/// Names in another number than the scenario declares for either group are
/// rejected, whatever the template.
pub proof fn lemma_wrong_count_rejected(
    scenario: Scenario,
    winners: Seq<Seq<char>>,
    others: Seq<Seq<char>>,
)
    requires
        scenario.winners@.len() != winners.len() || scenario.others@.len() != others.len(),
    ensures
        scenario.built(winners, others) == Err::<Seq<char>, ScenarioError>(
            ScenarioError::PlaceholderMismatch,
        ),
{
}

} // verus!

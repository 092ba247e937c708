//! The rounds of the bot: when the registries are read again, which markets are liquidated,
//! and how long the bot sleeps.
//!
//! Times are readings of one monotonic clock, in nanoseconds since a moment that the caller
//! chose.

use vstd::prelude::*;

use crate::account::AccountId;
use crate::error::RpcResult;
use crate::send_tx::CLOCK_MAX;

verus! {

/// The bot between two rounds.
#[derive(Debug, PartialEq, Eq)]
pub struct Bot {
    /// The seconds between two readings of the registries.
    pub registry_refresh_interval: u64,
    /// The seconds between two rounds.
    pub interval: u64,
    /// The clock reading from which on the registries are read again.
    pub next_refresh: u128,
    /// The markets, each once.
    pub markets: Vec<AccountId>,
}

/// The bot in a round.
#[derive(Debug, PartialEq, Eq)]
pub struct Round {
    pub bot: Bot,
    /// How many markets have been liquidated in this round.
    pub visited: usize,
}

/// How a round begins.
#[derive(Debug, PartialEq, Eq)]
pub enum RoundStart {
    /// The registries are to be read first.
    Refresh(Bot),
    /// The markets are known.
    Liquidate(Round),
}

/// What to do next in a round.
#[derive(Debug, PartialEq, Eq)]
pub enum RoundStep {
    /// Run the liquidations of a market.
    Liquidate { market: AccountId, round: Round },
    /// The round is over: sleep for some seconds.
    Sleep { seconds: u64, bot: Bot },
}

/// The texts of some identifiers.
pub open spec fn texts(ids: Seq<AccountId>) -> Seq<Seq<char>> {
    ids.map_values(|id: AccountId| id@)
}

/// The entries of a list without those that occurred before, in the order of the list.
pub open spec fn distinct<A>(s: Seq<A>) -> Seq<A>
    decreases s.len(),
{
    if s.len() == 0 {
        s
    } else if distinct(s.drop_last()).contains(s.last()) {
        distinct(s.drop_last())
    } else {
        distinct(s.drop_last()).push(s.last())
    }
}

/// Starts the bot at the time `now`, with no market known and the registries due.
pub fn run_bot(registry_refresh_interval: u64, interval: u64, now: u128) -> (bot: Bot)
    ensures
        bot.registry_refresh_interval == registry_refresh_interval,
        bot.interval == interval,
        bot.next_refresh == now,
        bot.markets@ == Seq::<AccountId>::empty(),
        bot.well_formed(),
{
    Bot { registry_refresh_interval, interval, next_refresh: now, markets: Vec::new() }
}

impl Bot {
    /// No market occurs twice.
    pub open spec fn well_formed(self) -> bool {
        texts(self.markets@).no_duplicates()
    }

    /// Whether a round begins like this at the time `now`: with the registries where they are
    /// due, with the markets otherwise.
    pub open spec fn starts(self, now: u128, start: RoundStart) -> bool {
        if now >= self.next_refresh {
            start == RoundStart::Refresh(self)
        } else {
            start == RoundStart::Liquidate(Round { bot: self, visited: 0 })
        }
    }

    /// Whether a round is the one that begins once the registries deployed `all` at the time
    /// `now`: the markets are replaced, and the next reading is due an interval later.
    pub open spec fn takes_in(self, all: Seq<AccountId>, now: u128, round: Round) -> bool {
        &&& round.visited == 0
        &&& round.bot.registry_refresh_interval == self.registry_refresh_interval
        &&& round.bot.interval == self.interval
        &&& round.bot.next_refresh == now + self.registry_refresh_interval * 1_000_000_000
        &&& texts(round.bot.markets@) == distinct(texts(all))
    }

    /// Begins a round at the time `now`.
    pub fn wake(self, now: u128) -> (start: RoundStart)
        ensures
            self.starts(now, start),
    {
        if now >= self.next_refresh {
            RoundStart::Refresh(self)
        } else {
            RoundStart::Liquidate(Round { bot: self, visited: 0 })
        }
    }

    /// Takes in what the registries deployed, read until the time `now`. A failure to read
    /// them ends the bot.
    pub fn on_listed(self, listed: RpcResult<Vec<AccountId>>, now: u128) -> (round: RpcResult<
        Round,
    >)
        requires
            now <= CLOCK_MAX,
        ensures
            match listed {
                Ok(all) => round matches Ok(round) && self.takes_in(all@, now, round)
                    && round.well_formed(),
                Err(error) => round == Err::<Round, _>(error),
            },
    {
        let all = match listed {
            Ok(all) => all,
            Err(error) => return Err(error),
        };
        let markets = distinct_markets(all);
        let next_refresh: u128 = now + self.registry_refresh_interval as u128 * 1_000_000_000;
        Ok(Round { bot: Bot { next_refresh, markets, ..self }, visited: 0 })
    }
}

impl Round {
    /// No market occurs twice, and no more have been liquidated than there are.
    pub open spec fn well_formed(self) -> bool {
        self.bot.well_formed() && self.visited <= self.bot.markets@.len()
    }

    /// Whether a step is the next one: the next market, or the sleep after the last one.
    pub open spec fn follows(self, step: RoundStep) -> bool {
        if self.visited < self.bot.markets@.len() {
            &&& step matches RoundStep::Liquidate { market, round }
            &&& market@ == self.bot.markets@[self.visited as int]@
            &&& round.bot == self.bot
            &&& round.visited == self.visited + 1
        } else {
            step == (RoundStep::Sleep { seconds: self.bot.interval, bot: self.bot })
        }
    }

    /// Says what to do next, after what the liquidations of the market before led to. Their
    /// failure ends the bot.
    pub fn next<E>(self, previous: Result<(), E>) -> (step: Result<RoundStep, E>)
        ensures
            match previous {
                Ok(_) => {
                    &&& step matches Ok(step)
                    &&& self.follows(step)
                    &&& self.well_formed() ==> match step {
                        RoundStep::Liquidate { round, .. } => round.well_formed(),
                        RoundStep::Sleep { bot, .. } => bot.well_formed(),
                    }
                },
                Err(error) => step == Err::<RoundStep, _>(error),
            },
    {
        match previous {
            Err(error) => Err(error),
            Ok(_) => {
                if self.visited < self.bot.markets.len() {
                    let market = self.bot.markets[self.visited].clone();
                    let visited: usize = self.visited + 1;
                    Ok(RoundStep::Liquidate { market, round: Round { visited, ..self } })
                } else {
                    Ok(RoundStep::Sleep { seconds: self.bot.interval, bot: self.bot })
                }
            },
        }
    }
}

fn contains_market(markets: &Vec<AccountId>, market: &AccountId) -> (found: bool)
    ensures
        found == texts(markets@).contains(market@),
{
    let mut i: usize = 0;
    while i < markets.len()
        invariant
            i <= markets@.len(),
            forall|j: int| 0 <= j < i ==> texts(markets@)[j] != market@,
        decreases markets@.len() - i,
    {
        if markets[i].same_as(market) {
            assert(texts(markets@)[i as int] == market@);
            return true;
        }
        i += 1;
    }
    false
}

fn distinct_markets(all: Vec<AccountId>) -> (markets: Vec<AccountId>)
    ensures
        texts(markets@) == distinct(texts(all@)),
        texts(markets@).no_duplicates(),
{
    let mut markets: Vec<AccountId> = Vec::new();
    let mut i: usize = 0;
    assert(texts(markets@) =~= distinct(texts(all@).take(0)));
    while i < all.len()
        invariant
            i <= all@.len(),
            texts(markets@) == distinct(texts(all@).take(i as int)),
            texts(markets@).no_duplicates(),
        decreases all@.len() - i,
    {
        let ghost before = markets@;
        let ghost prefix = texts(all@).take(i + 1);
        assert(prefix.drop_last() =~= texts(all@).take(i as int));
        assert(prefix.last() == all@[i as int]@);
        if !contains_market(&markets, &all[i]) {
            markets.push(all[i].clone());
            assert(texts(markets@) =~= texts(before).push(all@[i as int]@));
        }
        i += 1;
    }
    assert(texts(all@).take(all@.len() as int) =~= texts(all@));
    markets
}

/// Leaving out what occurred before loses nothing, adds nothing and keeps nothing twice.
pub proof fn lemma_distinct<A>(s: Seq<A>)
    ensures
        distinct(s).no_duplicates(),
        forall|a: A| distinct(s).contains(a) <==> s.contains(a),
    decreases s.len(),
{
    if s.len() > 0 {
        lemma_distinct(s.drop_last());
        assert forall|a: A| distinct(s).contains(a) <==> s.contains(a) by {
            if s.contains(a) {
                let i = choose|i: int| 0 <= i < s.len() && s[i] == a;
                if i < s.len() - 1 {
                    assert(s.drop_last()[i] == a);
                    assert(s.drop_last().contains(a));
                    let j = choose|j: int|
                        0 <= j < distinct(s.drop_last()).len() && distinct(s.drop_last())[j] == a;
                    assert(distinct(s)[j] == a);
                } else if !distinct(s.drop_last()).contains(a) {
                    assert(distinct(s).last() == a);
                }
            }
            if distinct(s).contains(a) {
                let j = choose|j: int| 0 <= j < distinct(s).len() && distinct(s)[j] == a;
                if j < distinct(s.drop_last()).len() {
                    assert(distinct(s.drop_last())[j] == a);
                    assert(s.drop_last().contains(a));
                    let i = choose|i: int| 0 <= i < s.len() - 1 && s.drop_last()[i] == a;
                    assert(s[i] == a);
                } else {
                    assert(s[s.len() - 1] == a);
                }
            }
        }
    }
}

/// A run through a round: the liquidations of `visits[i]` lead from `rounds[i]` to
/// `rounds[i + 1]`.
pub open spec fn round_run(rounds: Seq<Round>, visits: Seq<AccountId>) -> bool {
    &&& rounds.len() == visits.len() + 1
    &&& forall|i: int|
        #![trigger visits[i]]
        0 <= i < visits.len() ==> rounds[i].follows(
            RoundStep::Liquidate { market: visits[i], round: rounds[i + 1] },
        )
}

proof fn lemma_round_run(rounds: Seq<Round>, visits: Seq<AccountId>, k: int)
    requires
        round_run(rounds, visits),
        rounds[0].visited == 0,
        0 <= k < rounds.len(),
    ensures
        rounds[k].bot == rounds[0].bot,
        rounds[k].visited == k,
        k <= rounds[0].bot.markets@.len(),
        forall|i: int| 0 <= i < k ==> #[trigger] visits[i]@ == rounds[0].bot.markets@[i]@,
    decreases k,
{
    if k > 0 {
        lemma_round_run(rounds, visits, k - 1);
        let _ = visits[k - 1];
    }
}

/// A round that began with what the registries deployed ends, with its sleep, once every
/// deployed market has been liquidated, each exactly once; the bot comes out of the round as
/// it went in.
pub proof fn lemma_round_complete(
    deployed: Seq<AccountId>,
    rounds: Seq<Round>,
    visits: Seq<AccountId>,
    seconds: u64,
    bot: Bot,
)
    requires
        round_run(rounds, visits),
        rounds[0].visited == 0,
        texts(rounds[0].bot.markets@) == distinct(texts(deployed)),
        rounds.last().follows(RoundStep::Sleep { seconds, bot }),
    ensures
        texts(visits).no_duplicates(),
        forall|market: Seq<char>|
            #![auto]
            texts(visits).contains(market) <==> texts(deployed).contains(market),
        seconds == rounds[0].bot.interval,
        bot == rounds[0].bot,
{
    let last = rounds.len() - 1;
    lemma_round_run(rounds, visits, last);
    assert(visits.len() == rounds[0].bot.markets@.len());
    assert(texts(visits) =~= texts(rounds[0].bot.markets@));
    lemma_distinct(texts(deployed));
}

/// A round ends: it liquidates no more markets than there are.
pub proof fn lemma_round_ends(rounds: Seq<Round>, visits: Seq<AccountId>)
    requires
        round_run(rounds, visits),
        rounds[0].visited == 0,
    ensures
        visits.len() <= rounds[0].bot.markets@.len(),
{
    lemma_round_run(rounds, visits, rounds.len() - 1);
}

/// The registries are read again in the first round that begins a refresh interval or more
/// after they were last read, and in none before it: `bot` is what a round that read them at
/// `listed_at` left.
pub proof fn lemma_refresh_on_time(
    before: Bot,
    deployed: Seq<AccountId>,
    listed_at: u128,
    rounds: Seq<Round>,
    visits: Seq<AccountId>,
    seconds: u64,
    bot: Bot,
    now: u128,
    start: RoundStart,
)
    requires
        before.takes_in(deployed, listed_at, rounds[0]),
        round_run(rounds, visits),
        rounds.last().follows(RoundStep::Sleep { seconds, bot }),
        bot.starts(now, start),
    ensures
        start is Refresh <==> now - listed_at >= before.registry_refresh_interval * 1_000_000_000,
{
    lemma_round_run(rounds, visits, rounds.len() - 1);
}

} // verus!

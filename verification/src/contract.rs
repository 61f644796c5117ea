//! Player club contracts: salary, expiration and the per-tick check.
//!
//! Money is held in integer cents so that fractional salaries carry no
//! rounding surprises: a weekly salary of 100000.0 currency units is
//! 10_000_000 cents. Week-salary reports truncate to whole currency units.

use vstd::prelude::*;
use crate::context::SimulationContext;
use crate::date::Date;
use crate::date::current_date;

verus! {

/// Extra clauses of a contract.
#[derive(Clone, Copy, Debug, PartialEq, Eq, Structural)]
pub struct AdditionalOptions {
    /// Percentage by which the wage grows each year.
    pub yearly_increase_wage: u16,
}

/// The agreement between one player and the club: who it binds (by player
/// id), what it pays per week (in cents), and when it runs out.
#[derive(Clone, Copy, Debug, PartialEq, Eq, Structural)]
pub struct PlayerClubContract {
    /// Id of the player the contract binds. A contract is owned by at most
    /// one player at a time.
    pub player_id: u32,
    /// Weekly salary in cents of the currency unit; never negative by
    /// construction.
    pub salary_cents: u64,
    /// The calendar date the contract runs out.
    pub expired: Date,
    pub additional_options: AdditionalOptions,
}

/// The default weekly salary of a fresh signing: 100000 currency units,
/// in cents.
pub const DEFAULT_SALARY_CENTS: u64 = 10_000_000;

/// The default yearly wage increase of a fresh signing, in percent.
pub const DEFAULT_YEARLY_INCREASE_WAGE: u16 = 15;

impl PlayerClubContract {
    /// Sign a player until `expired`: the default salary and the default
    /// yearly-increase option.
    pub fn new(player_id: u32, expired: Date) -> (r: PlayerClubContract)
        ensures
            r.player_id == player_id,
            r.expired == expired,
            r.salary_cents == DEFAULT_SALARY_CENTS,
            r.additional_options.yearly_increase_wage == DEFAULT_YEARLY_INCREASE_WAGE,
    {
        PlayerClubContract {
            player_id,
            salary_cents: 10_000_000,
            expired,
            additional_options: AdditionalOptions { yearly_increase_wage: 15 },
        }
    }

    /// What the expiration check reports when "now" is `today`. Note the
    /// direction: the check holds while the stored expiration date has not
    /// yet passed (`expired >= today`), which reads inverted relative to
    /// the name. The direction is kept deliberately until product intent
    /// settles it; callers and tests pin it down as it stands.
    pub open spec fn spec_is_expired_on(self, today: Date) -> bool {
        today.spec_le(self.expired)
    }

    /// The expiration check against an explicit date.
    pub fn is_expired_on(&self, today: Date) -> (r: bool)
        ensures
            r == self.spec_is_expired_on(today),
    {
        today.le(self.expired)
    }

    /// The expiration check against the host wall clock. The comparison
    /// itself is `is_expired_on`; all this adds is reading the clock, so
    /// the result is only known to be the check evaluated at some real
    /// calendar date. Coupling the simulation to the host clock (instead
    /// of the simulation date) is kept as the surrounding system expects
    /// it, flagged as a design question for the product.
    pub fn is_expired(&self) -> (r: bool)
        ensures
            exists|today: Date| today.wf() && r == self.spec_is_expired_on(today),
    {
        let today = current_date();
        self.is_expired_on(today)
    }

    /// One tick of the contract: when the simulation-wide policy asks for
    /// expiration checks, the contract is evaluated against the wall
    /// clock. What to do on expiry (release, renewal, an event) is an
    /// extension point awaiting product input, so the tick changes
    /// nothing yet; the contract and the context come out as they went in.
    pub fn simulate(&mut self, context: &mut SimulationContext)
        ensures
            *final(self) == *old(self),
            *final(context) == *old(context),
    {
        if context.check_contract_expiration() && self.is_expired() {
        }
    }
}

/// A roster's contracts, ticked together.
#[derive(Clone, Debug)]
pub struct PlayerCollection {
    pub contracts: Vec<PlayerClubContract>,
}

impl PlayerCollection {
    /// Wrap an existing list of contracts.
    pub fn new(contracts: Vec<PlayerClubContract>) -> (r: PlayerCollection)
        ensures
            r.contracts == contracts,
    {
        PlayerCollection { contracts }
    }

    /// How many contracts the roster holds.
    pub fn len(&self) -> (r: usize)
        ensures
            r == self.contracts@.len(),
    {
        self.contracts.len()
    }

    /// Tick every contract in stored order. Since a single contract's
    /// tick changes nothing yet (see `PlayerClubContract::simulate`),
    /// neither does the roster-wide pass.
    #[verifier::loop_isolation(false)]
    pub fn simulate(&mut self, context: &mut SimulationContext)
        ensures
            final(self).contracts@ == old(self).contracts@,
            *final(context) == *old(context),
    {
        let n = self.contracts.len();
        let mut i: usize = 0;
        while i < n
            invariant
                n == self.contracts@.len(),
                i <= n,
                self.contracts@ == old(self).contracts@,
                *context == *old(context),
            decreases n - i,
        {
            let mut c = self.contracts.remove(i);
            c.simulate(context);
            self.contracts.insert(i, c);
            proof {
                assert(self.contracts@ =~= old(self).contracts@);
            }
            i = i + 1;
        }
    }
}

} // verus!

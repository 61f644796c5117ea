//! Players, their per-tick simulation, and the roster collection that
//! orchestrates one tick and extracts departing players.

use vstd::prelude::*;
use vstd::seq_lib::group_to_multiset_ensures;
use crate::behaviour::Behaviour;
use crate::behaviour::BehaviourState;
use crate::context::GlobalContext;
use crate::contract::PlayerClubContract;
use crate::date::Date;
use crate::date::DateUtils;
use crate::date::is_birthday_of;
use crate::fullname::FullName;
use crate::result::PlayerCollectionResult;
use crate::result::PlayerResult;
use crate::skills::PlayerAttributes;
use crate::skills::PlayerSkills;
use crate::staff::Staff;

verus! {

/// Which foot a player prefers.
#[derive(Clone, Copy, Debug, PartialEq, Eq, Structural)]
pub enum PlayerFoot {
    Left,
    Right,
    Both,
}

/// The role a player can be lined up in.
#[derive(Clone, Copy, Debug, PartialEq, Eq, Hash, Structural)]
pub enum PlayerPositionType {
    Goalkeeper,
    Defender,
    Midfielder,
    Forward,
}

/// One playable position with its proficiency level; a lower level is a
/// better fit.
#[derive(Clone, Copy, Debug, PartialEq, Eq, Structural)]
pub struct PlayerPosition {
    pub position: PlayerPositionType,
    pub level: u8,
}

/// A player's mailbox. Message delivery is a collaborator of this core;
/// nothing in the tick pipeline reads or writes it.
#[derive(Clone, Copy, Debug, PartialEq, Eq, Structural)]
pub struct PlayerMailbox {
}

impl PlayerMailbox {
    /// An empty mailbox.
    pub fn new() -> PlayerMailbox {
        PlayerMailbox {  }
    }
}

/// A player's training plan. Scheduling training sessions is a
/// collaborator of this core; nothing in the tick pipeline reads it.
#[derive(Clone, Copy, Debug, PartialEq, Eq, Structural)]
pub struct PlayerTraining {
}

impl PlayerTraining {
    /// An empty training plan.
    pub fn new() -> PlayerTraining {
        PlayerTraining {  }
    }
}

/// Ascending by proficiency level, so index 0 is the best fit.
pub open spec fn sorted_by_level(s: Seq<PlayerPosition>) -> bool {
    forall|i: int, j: int| 0 <= i <= j < s.len() ==> s[i].level <= s[j].level
}

/// A player entity: identity, the owned behaviour machine, skills, the
/// optional contract, and the playable positions.
#[derive(Debug)]
pub struct Player {
    pub id: u32,
    pub full_name: FullName,
    pub birth_date: Date,
    pub behaviour: Behaviour,
    pub skills: PlayerSkills,
    pub contract: Option<PlayerClubContract>,
    pub positions: Vec<PlayerPosition>,
    pub preferred_foot: PlayerFoot,
    pub attributes: PlayerAttributes,
    pub mailbox: PlayerMailbox,
    pub training: PlayerTraining,
}

/// The player after one tick's behaviour evaluation: on the anniversary
/// of the birth date the behaviour moves one step toward `Good`, on any
/// other date nothing changes.
pub open spec fn ticked(p: Player, date: Date) -> Player {
    if is_birthday_of(p.birth_date, date) {
        Player { behaviour: p.behaviour.spec_increased(), ..p }
    } else {
        p
    }
}

/// Whether a player in this state asks to leave its roster: exactly the
/// `Poor` behaviour state does.
pub open spec fn requests_transfer(p: Player) -> bool {
    p.behaviour.state == BehaviourState::Poor
}

/// The transfer requests one tick of `p` on `date` produces: the player's
/// own id when the evaluated (post-birthday) state is `Poor`, nothing
/// otherwise.
pub open spec fn tick_requests(p: Player, date: Date) -> Seq<u32> {
    if requests_transfer(ticked(p, date)) {
        seq![p.id]
    } else {
        Seq::empty()
    }
}

/// Every player of the sequence after one tick's behaviour evaluation,
/// in order.
pub open spec fn ticked_all(s: Seq<Player>, date: Date) -> Seq<Player> {
    s.map_values(|p: Player| ticked(p, date))
}

/// The players a tick of the whole sequence extracts: the ticked players
/// whose state came out `Poor`, in stored order.
pub open spec fn outgoing_of(s: Seq<Player>, date: Date) -> Seq<Player>
    decreases s.len(),
{
    if s.len() == 0 {
        Seq::empty()
    } else {
        let rest = outgoing_of(s.drop_last(), date);
        let tp = ticked(s.last(), date);
        if requests_transfer(tp) {
            rest.push(tp)
        } else {
            rest
        }
    }
}

/// The players a tick of the whole sequence keeps: the ticked players
/// whose state did not come out `Poor`, in stored order.
pub open spec fn remaining_of(s: Seq<Player>, date: Date) -> Seq<Player>
    decreases s.len(),
{
    if s.len() == 0 {
        Seq::empty()
    } else {
        let rest = remaining_of(s.drop_last(), date);
        let tp = ticked(s.last(), date);
        if requests_transfer(tp) {
            rest
        } else {
            rest.push(tp)
        }
    }
}

/// No two players of the sequence share an id.
pub open spec fn unique_ids(s: Seq<Player>) -> bool {
    forall|i: int, j: int| 0 <= i < j < s.len() ==> s[i].id != s[j].id
}

/// How many players of the sequence carry the given id.
pub open spec fn count_id(s: Seq<Player>, id: u32) -> nat
    decreases s.len(),
{
    if s.len() == 0 {
        0
    } else {
        count_id(s.drop_last(), id) + (if s.last().id == id { 1nat } else { 0nat })
    }
}

/// One tick's extraction splits the sequence: every player either stays
/// or goes, so the two parts together are as long as the input.
pub proof fn lemma_tick_partition_len(s: Seq<Player>, date: Date)
    ensures
        outgoing_of(s, date).len() + remaining_of(s, date).len() == s.len(),
    decreases s.len(),
{
    if s.len() > 0 {
        lemma_tick_partition_len(s.drop_last(), date);
    }
}

/// Appending one player extends the extraction split by exactly that
/// player's ticked value, on whichever side its evaluated state puts it.
pub proof fn lemma_tick_split_push(s: Seq<Player>, p: Player, date: Date)
    ensures
        requests_transfer(ticked(p, date)) ==> {
            &&& outgoing_of(s.push(p), date) == outgoing_of(s, date).push(ticked(p, date))
            &&& remaining_of(s.push(p), date) == remaining_of(s, date)
        },
        !requests_transfer(ticked(p, date)) ==> {
            &&& outgoing_of(s.push(p), date) == outgoing_of(s, date)
            &&& remaining_of(s.push(p), date) == remaining_of(s, date).push(ticked(p, date))
        },
{
    assert(s.push(p).drop_last() =~= s);
    assert(s.push(p).last() == p);
}

/// A sequence none of whose players carries `id` contributes no such
/// player to either side of the extraction split.
pub proof fn lemma_tick_split_id_free(s: Seq<Player>, date: Date, id: u32)
    requires
        forall|k: int| 0 <= k < s.len() ==> s[k].id != id,
    ensures
        count_id(outgoing_of(s, date), id) == 0,
        count_id(remaining_of(s, date), id) == 0,
    decreases s.len(),
{
    if s.len() > 0 {
        let prev = s.drop_last();
        assert(forall|k: int| 0 <= k < prev.len() ==> prev[k] == s[k]);
        lemma_tick_split_id_free(prev, date, id);
        let tp = ticked(s.last(), date);
        assert(s.last().id != id);
        assert(tp.id == s.last().id);
        if requests_transfer(tp) {
            assert(outgoing_of(s, date) == outgoing_of(prev, date).push(tp));
            assert(outgoing_of(prev, date).push(tp).drop_last() =~= outgoing_of(prev, date));
            assert(count_id(outgoing_of(s, date), id) == 0);
        } else {
            assert(remaining_of(s, date) == remaining_of(prev, date).push(tp));
            assert(remaining_of(prev, date).push(tp).drop_last() =~= remaining_of(prev, date));
            assert(count_id(remaining_of(s, date), id) == 0);
        }
    }
}

impl Player {
    /// A well-formed player can always name a primary position: the
    /// position list is non-empty and sorted ascending by level.
    pub open spec fn wf(self) -> bool {
        &&& self.positions@.len() > 0
        &&& sorted_by_level(self.positions@)
    }

    /// Construct a player. The given positions are sorted ascending by
    /// proficiency level, so the best fit sits at index 0; every other
    /// field is taken as handed in, the behaviour starts `Normal` and the
    /// preferred foot defaults to the right one.
    pub fn new(
        id: u32,
        full_name: FullName,
        birth_date: Date,
        skills: PlayerSkills,
        attributes: PlayerAttributes,
        contract: Option<PlayerClubContract>,
        positions: Vec<PlayerPosition>,
    ) -> (r: Player)
        requires
            positions@.len() > 0,
        ensures
            r.wf(),
            r.id == id,
            r.full_name == full_name,
            r.birth_date == birth_date,
            r.behaviour == Behaviour::initial(),
            r.skills == skills,
            r.attributes == attributes,
            r.contract == contract,
            r.preferred_foot == PlayerFoot::Right,
            r.positions@.to_multiset() == positions@.to_multiset(),
            r.positions@.len() == positions@.len(),
    {
        let sorted_positions = sort_positions_by_level(positions);

        Player {
            id,
            full_name,
            birth_date,
            behaviour: Behaviour::default(),
            skills,
            positions: sorted_positions,
            preferred_foot: PlayerFoot::Right,
            attributes,
            contract,
            training: PlayerTraining::new(),
            mailbox: PlayerMailbox::new(),
        }
    }

    /// One tick of this player: on the birthday anniversary the behaviour
    /// is asked to increase; a player whose evaluated state is `Poor`
    /// requests a transfer with its own id. Nothing else changes, but a
    /// second call on the same date attempts the increase again, so each
    /// player is ticked at most once per date.
    pub fn simulate(&mut self, ctx: GlobalContext) -> (r: PlayerResult)
        ensures
            *final(self) == ticked(*old(self), ctx.simulation.date),
            r.transfer_requests@ == tick_requests(*old(self), ctx.simulation.date),
    {
        let mut result = PlayerResult::new();

        if DateUtils::is_birthday(self.birth_date, ctx.simulation.date) {
            self.behaviour.try_increase();
        }

        if self.behaviour.state == BehaviourState::Poor {
            result.request_transfer(self.id);
        }

        result
    }

    /// One training session under `coach`: a `Good` coach raises the
    /// mental and technical groups by one, a `Normal` coach raises every
    /// group by one, a `Poor` coach raises the physical group by two.
    pub fn train(&mut self, coach: &Staff)
        ensures
            final(self).skills == old(self).skills.spec_coached(coach.behaviour.state),
            *final(self) == (Player { skills: final(self).skills, ..*old(self) }),
    {
        match coach.behaviour.state {
            BehaviourState::Good => {
                self.skills.mental.train(1);
                self.skills.technical.train(1)
            },
            BehaviourState::Normal => {
                self.skills.train(1)
            },
            BehaviourState::Poor => {
                self.skills.physical.train(2)
            },
        }
    }

    /// The primary position: the first entry of the sorted position list,
    /// hence the one with the lowest level.
    #[inline]
    pub fn position(&self) -> (r: PlayerPositionType)
        requires
            self.wf(),
        ensures
            r == self.positions@[0].position,
    {
        self.positions[0].position
    }

    /// Whether the physical readiness gauge clears the bar for a match:
    /// it does exactly between 11 and 20. The gauge's scale above 20 is a
    /// collaborator concern; such values report not ready.
    pub fn is_ready_for_match(&self) -> (r: bool)
        ensures
            r == (11 <= self.skills.physical.match_readiness <= 20),
    {
        if self.skills.physical.match_readiness <= 10 {
            false
        } else if self.skills.physical.match_readiness <= 20 {
            true
        } else {
            false
        }
    }

    /// The aggregate skill rating for the primary position.
    pub fn get_skill(&self) -> (r: u32)
        requires
            self.wf(),
        ensures
            r as int == self.skills.spec_rating(),
    {
        self.skills.get_for_position(self.position())
    }
}

/// Law: the primary position is the best fit — no entry of a well-formed
/// player's position list has a lower level than the entry `position()`
/// returns.
pub proof fn lemma_primary_position_is_best(p: Player)
    requires
        p.wf(),
    ensures
        forall|i: int|
            0 <= i < p.positions@.len() ==> p.positions@[0].level <= (#[trigger] p.positions@[i]).level,
{
}

/// Law: a player in the `Poor` state requests a transfer with exactly its
/// own id on every date other than its birthday anniversary. (On the
/// anniversary the behaviour evaluation runs first and lifts the state to
/// `Normal`, so no request is made — that date is excluded here.)
pub proof fn lemma_poor_player_requests_transfer(p: Player, date: Date)
    requires
        p.behaviour.state == BehaviourState::Poor,
        !is_birthday_of(p.birth_date, date),
    ensures
        tick_requests(p, date) == seq![p.id],
{
}

/// Law: a player whose state is not `Poor` never appears in its own
/// tick's transfer requests, on any date — the birthday evaluation only
/// moves the state toward `Good`, so it cannot land on `Poor`.
pub proof fn lemma_content_player_requests_nothing(p: Player, date: Date)
    requires
        p.behaviour.state != BehaviourState::Poor,
    ensures
        tick_requests(p, date) == Seq::<u32>::empty(),
{
}

/// Law: round trip through a tick. Append a player in the `Poor` state
/// (away from its birthday) to a roster of unique ids; the tick's
/// extraction then carries that id out exactly once, and no player left
/// in the roster carries it.
pub proof fn lemma_transfer_round_trip(s: Seq<Player>, p: Player, date: Date)
    requires
        unique_ids(s.push(p)),
        p.behaviour.state == BehaviourState::Poor,
        !is_birthday_of(p.birth_date, date),
    ensures
        count_id(outgoing_of(s.push(p), date), p.id) == 1,
        count_id(remaining_of(s.push(p), date), p.id) == 0,
{
    assert forall|k: int| 0 <= k < s.len() implies s[k].id != p.id by {
        assert(s.push(p)[k].id != s.push(p)[s.len() as int].id);
        assert(s.push(p)[k] == s[k]);
        assert(s.push(p)[s.len() as int] == p);
    }
    lemma_tick_split_id_free(s, date, p.id);
    lemma_tick_split_push(s, p, date);
    let tp = ticked(p, date);
    assert(requests_transfer(tp));
    assert(outgoing_of(s.push(p), date) == outgoing_of(s, date).push(tp));
    assert(count_id(outgoing_of(s, date).push(tp), p.id)
        == count_id(outgoing_of(s, date), p.id) + 1) by {
        assert(outgoing_of(s, date).push(tp).drop_last() =~= outgoing_of(s, date));
    }
}

/// Sort positions ascending by proficiency level: the result is sorted
/// and holds exactly the given entries.
#[verifier::loop_isolation(false)]
fn sort_positions_by_level(positions: Vec<PlayerPosition>) -> (r: Vec<PlayerPosition>)
    ensures
        sorted_by_level(r@),
        r@.to_multiset() == positions@.to_multiset(),
        r@.len() == positions@.len(),
{
    broadcast use group_to_multiset_ensures;
    broadcast use vstd::multiset::group_multiset_axioms;

    let ghost orig = positions@;
    let mut rest = positions;
    let mut out: Vec<PlayerPosition> = Vec::new();

    while rest.len() > 0
        invariant
            out@.to_multiset().add(rest@.to_multiset()) == orig.to_multiset(),
            out@.len() + rest@.len() == orig.len(),
            sorted_by_level(out@),
            forall|a: int, b: int|
                0 <= a < out@.len() && 0 <= b < rest@.len() ==> out@[a].level <= rest@[b].level,
        decreases rest@.len(),
    {
        // index of a minimum-level entry in what is left
        let mut m: usize = 0;
        let mut j: usize = 1;
        while j < rest.len()
            invariant
                m < j,
                j <= rest@.len(),
                forall|k: int| 0 <= k < j ==> rest@[m as int].level <= rest@[k].level,
            decreases rest@.len() - j,
        {
            if rest[j].level < rest[m].level {
                m = j;
            }
            j = j + 1;
        }

        let ghost rest_before = rest@;
        let ghost out_before = out@;
        let x = rest.remove(m);
        let ghost xv = x;
        out.push(x);

        proof {
            assert(xv == rest_before[m as int]);
            assert(rest_before.contains(xv));
            assert(rest_before.to_multiset().count(xv) > 0);
            assert(out@ == out_before.push(xv));
            assert(out_before.push(xv).to_multiset() == out_before.to_multiset().insert(xv));
            assert(rest@ == rest_before.remove(m as int));
            assert(rest_before.remove(m as int).to_multiset() == rest_before.to_multiset().remove(xv));
            assert(out@.to_multiset().add(rest@.to_multiset()) =~= orig.to_multiset());
            assert(sorted_by_level(out@)) by {
                assert(forall|a: int| 0 <= a < out_before.len() ==> out@[a] == out_before[a]);
                assert(out@[out@.len() - 1] == xv);
            }
            assert forall|a: int, b: int|
                0 <= a < out@.len() && 0 <= b < rest@.len() implies out@[a].level <= rest@[b].level by {
                rest_before.remove_ensures(m as int);
                assert(rest@[b] == rest_before[if b < m as int { b } else { b + 1 }]);
                assert(xv.level <= rest@[b].level);
            }
        }
    }
    out
}

/// A roster: the mutable, order-preserving sequence of players one club
/// owns. Collection-level operations assume every id is unique in the
/// collection; `add`'s callers keep it so.
#[derive(Debug)]
pub struct PlayerCollection {
    pub players: Vec<Player>,
}

impl PlayerCollection {
    /// Wrap an existing list of players.
    pub fn new(players: Vec<Player>) -> (r: PlayerCollection)
        ensures
            r.players == players,
    {
        PlayerCollection { players }
    }

    /// One tick of the whole roster. Every player is simulated in stored
    /// order, each against the context narrowed to its id; then every
    /// player whose result requests a transfer is removed, in result
    /// order, and handed out with the results.
    #[verifier::rlimit(60)]
    #[verifier::loop_isolation(false)]
    pub fn simulate(&mut self, ctx: GlobalContext) -> (r: PlayerCollectionResult)
        requires
            unique_ids(old(self).players@),
        ensures
            r.players@.len() == old(self).players@.len(),
            forall|i: int|
                0 <= i < r.players@.len() ==> (#[trigger] r.players@[i]).transfer_requests@
                    == tick_requests(old(self).players@[i], ctx.simulation.date),
            r.outgoing_players@ == outgoing_of(old(self).players@, ctx.simulation.date),
            final(self).players@ == remaining_of(old(self).players@, ctx.simulation.date),
            final(self).players@.len() + r.outgoing_players@.len() == old(self).players@.len(),
    {
        let ghost d = ctx.simulation.date;
        let ghost orig = self.players@;
        let n: usize = self.players.len();

        let mut player_results: Vec<PlayerResult> = Vec::new();
        let mut i: usize = 0;
        while i < n
            invariant
                n == self.players@.len(),
                orig.len() == n,
                i <= n,
                forall|j: int| 0 <= j < i ==> self.players@[j] == ticked(orig[j], d),
                forall|j: int| i <= j < n ==> self.players@[j] == orig[j],
                player_results@.len() == i,
                forall|j: int|
                    0 <= j < i ==> (#[trigger] player_results@[j]).transfer_requests@
                        == tick_requests(orig[j], d),
            decreases n - i,
        {
            let ghost before = self.players@;
            let mut p = self.players.remove(i);
            let player_ctx = ctx.with_player(Some(p.id));
            let res = p.simulate(player_ctx);
            let ghost pv = p;
            let ghost resv = res;
            self.players.insert(i, p);
            player_results.push(res);
            proof {
                assert(before[i as int] == orig[i as int]);
                assert(pv == ticked(orig[i as int], d));
                assert(resv.transfer_requests@ == tick_requests(orig[i as int], d));
                before.remove_ensures(i as int);
                before.remove(i as int).insert_ensures(i as int, pv);
                assert(self.players@ =~= before.update(i as int, pv));
            }
            i = i + 1;
        }

        let ghost t = ticked_all(orig, d);
        proof {
            assert(self.players@ =~= t);
            assert forall|a: int, b: int| 0 <= a < b < t.len() implies t[a].id != t[b].id by {
                assert(t[a].id == orig[a].id && t[b].id == orig[b].id);
            }
        }

        let mut outgoing_players: Vec<Player> = Vec::new();
        let mut i: usize = 0;
        while i < n
            invariant
                n == t.len(),
                n == orig.len(),
                i <= n,
                t == ticked_all(orig, d),
                player_results@.len() == n,
                forall|j: int|
                    0 <= j < n ==> (#[trigger] player_results@[j]).transfer_requests@
                        == tick_requests(orig[j], d),
                outgoing_players@ == outgoing_of(orig.take(i as int), d),
                self.players@ == remaining_of(orig.take(i as int), d) + t.skip(i as int),
                unique_ids(self.players@),
            decreases n - i,
        {
            proof {
                assert(orig.take(i as int + 1).drop_last() =~= orig.take(i as int));
                assert(orig.take(i as int + 1).last() == orig[i as int]);
                lemma_tick_split_push(orig.take(i as int), orig[i as int], d);
                assert(outgoing_of(orig.take(i as int + 1), d) == outgoing_of(orig.take(i as int).push(orig[i as int]), d)) by {
                    assert(orig.take(i as int + 1) =~= orig.take(i as int).push(orig[i as int]));
                }
                assert(remaining_of(orig.take(i as int + 1), d) == remaining_of(orig.take(i as int).push(orig[i as int]), d)) by {
                    assert(orig.take(i as int + 1) =~= orig.take(i as int).push(orig[i as int]));
                }
            }
            let ghost stay = remaining_of(orig.take(i as int), d);
            let ghost tp = ticked(orig[i as int], d);
            proof {
                assert(t[i as int] == tp);
                assert(self.players@[stay.len() as int] == tp);
            }

            if player_results[i].transfer_requests.len() > 0 {
                proof {
                    assert(player_results@[i as int].transfer_requests@ == tick_requests(orig[i as int], d));
                    assert(requests_transfer(tp));
                }
                let transfer_request_player_id: u32 = player_results[i].transfer_requests[0];
                proof {
                    assert(transfer_request_player_id == orig[i as int].id);
                    assert(tp.id == orig[i as int].id);
                    assert(self.players@[stay.len() as int].id == transfer_request_player_id);
                }
                let ghost before = self.players@;
                let p = self.take(&transfer_request_player_id);
                proof {
                    let j: int = choose|j: int|
                        0 <= j < before.len() && before[j].id == transfer_request_player_id
                            && (forall|k: int| 0 <= k < j ==> before[k].id != transfer_request_player_id)
                            && p == before[j] && self.players@ == before.remove(j);
                    assert(j == stay.len() as int) by {
                        if j < stay.len() as int {
                            assert(before[j].id != before[stay.len() as int].id);
                        }
                        if j > stay.len() as int {
                            assert(before[stay.len() as int].id != transfer_request_player_id);
                        }
                    }
                    assert(p == tp);
                    assert(self.players@ =~= stay + t.skip(i as int + 1));
                    assert(unique_ids(self.players@)) by {
                        before.remove_ensures(j);
                        assert forall|a: int, b: int|
                            0 <= a < b < self.players@.len() implies self.players@[a].id != self.players@[b].id by {
                            let a0 = if a < j { a } else { a + 1 };
                            let b0 = if b < j { b } else { b + 1 };
                            assert(self.players@[a] == before[a0]);
                            assert(self.players@[b] == before[b0]);
                        }
                    }
                }
                outgoing_players.push(p);
                proof {
                    assert(outgoing_players@ == outgoing_of(orig.take(i as int + 1), d));
                }
            } else {
                proof {
                    assert(tick_requests(orig[i as int], d).len() == 0);
                    assert(!requests_transfer(tp));
                    assert(remaining_of(orig.take(i as int + 1), d) == stay.push(tp));
                    assert(self.players@ =~= stay.push(tp) + t.skip(i as int + 1));
                }
            }
            i = i + 1;
        }

        proof {
            assert(orig.take(n as int) =~= orig);
            assert(self.players@ =~= remaining_of(orig, d)) by {
                assert(t.skip(n as int) =~= Seq::<Player>::empty());
                assert(self.players@ == remaining_of(orig, d) + t.skip(n as int));
            }
            lemma_tick_partition_len(orig, d);
        }

        PlayerCollectionResult::new(player_results, outgoing_players)
    }

    /// Append players to the roster, in the given order. Keeping ids
    /// unique across the whole collection is the caller's duty.
    #[verifier::loop_isolation(false)]
    pub fn add(&mut self, players: Vec<Player>)
        ensures
            final(self).players@ == old(self).players@ + players@,
    {
        let ghost incoming = players@;
        let ghost base = self.players@;
        let mut players = players;
        while players.len() > 0
            invariant
                self.players@ == base + incoming.take(incoming.len() - players@.len()),
                incoming.len() >= players@.len(),
                forall|j: int|
                    0 <= j < players@.len() ==> players@[j]
                        == incoming[incoming.len() - players@.len() + j],
            decreases players@.len(),
        {
            let ghost pending = players@;
            let player = players.remove(0);
            self.players.push(player);
            proof {
                assert(incoming.take(incoming.len() - players@.len())
                    =~= incoming.take(incoming.len() - pending.len()).push(player));
                assert(self.players@ =~= base + incoming.take(incoming.len() - players@.len()));
            }
        }
        proof {
            assert(incoming.take(incoming.len() as int) =~= incoming);
        }
    }

    /// The weekly wage bill in whole currency units: every player under
    /// contract contributes its salary truncated to units, everyone else
    /// contributes nothing.
    #[verifier::loop_isolation(false)]
    pub fn get_week_salary(&self) -> (r: u32)
        requires
            week_salary_of(self.players@) <= u32::MAX,
        ensures
            r as int == week_salary_of(self.players@),
    {
        proof {
            lemma_week_salary_nonneg(self.players@);
        }
        let mut result: u32 = 0;
        let mut i: usize = 0;
        let n: usize = self.players.len();
        while i < n
            invariant
                n == self.players@.len(),
                i <= n,
                week_salary_of(self.players@) <= u32::MAX,
                result as int == week_salary_of(self.players@.take(i as int)),
            decreases n - i,
        {
            proof {
                assert(self.players@.take(i as int + 1).drop_last() =~= self.players@.take(i as int));
                assert(self.players@.take(i as int + 1).last() == self.players@[i as int]);
                lemma_week_salary_prefix(self.players@, i as int + 1);
                lemma_week_salary_nonneg(self.players@.take(i as int));
            }
            match &self.players[i].contract {
                Some(contract) => {
                    let units: u64 = contract.salary_cents / 100;
                    result = result + (units as u32);
                },
                None => {},
            }
            i = i + 1;
        }
        proof {
            assert(self.players@.take(n as int) =~= self.players@);
        }
        result
    }

    /// A read-only view of the roster, in stored order.
    #[verifier::loop_isolation(false)]
    pub fn players(&self) -> (r: Vec<&Player>)
        ensures
            r@.len() == self.players@.len(),
            forall|j: int| 0 <= j < r@.len() ==> *r@[j] == self.players@[j],
    {
        let mut refs: Vec<&Player> = Vec::new();
        let mut i: usize = 0;
        let n: usize = self.players.len();
        while i < n
            invariant
                n == self.players@.len(),
                i <= n,
                refs@.len() == i,
                forall|j: int| 0 <= j < i ==> *refs@[j] == self.players@[j],
            decreases n - i,
        {
            refs.push(&self.players[i]);
            i = i + 1;
        }
        refs
    }

    /// Remove and return the first player carrying `player_id`. Asking
    /// for an id the roster does not hold is a bookkeeping bug in the
    /// caller, so the id is required to be present.
    #[verifier::loop_isolation(false)]
    pub fn take(&mut self, player_id: &u32) -> (r: Player)
        requires
            exists|j: int|
                0 <= j < old(self).players@.len() && old(self).players@[j].id == *player_id,
        ensures
            exists|j: int|
                {
                    &&& 0 <= j < old(self).players@.len()
                    &&& old(self).players@[j].id == *player_id
                    &&& (forall|k: int| 0 <= k < j ==> old(self).players@[k].id != *player_id)
                    &&& r == old(self).players@[j]
                    &&& final(self).players@ == old(self).players@.remove(j)
                },
    {
        let len: usize = self.players.len();
        let mut idx: usize = 0;
        while self.players[idx].id != *player_id
            invariant
                self.players@ == old(self).players@,
                len == self.players@.len(),
                idx < len,
                forall|k: int| 0 <= k < idx ==> self.players@[k].id != *player_id,
                exists|j: int|
                    idx <= j < self.players@.len() && self.players@[j].id == *player_id,
            decreases self.players@.len() - idx,
        {
            idx = idx + 1;
            proof {
                let j: int = choose|j: int|
                    idx - 1 <= j < self.players@.len() && self.players@[j].id == *player_id;
                assert(j >= idx);
            }
        }
        self.players.remove(idx)
    }
}

/// The weekly wage bill of a player sequence, in whole currency units:
/// the sum over players under contract of the salary truncated to units.
pub open spec fn week_salary_of(s: Seq<Player>) -> int
    decreases s.len(),
{
    if s.len() == 0 {
        0
    } else {
        week_salary_of(s.drop_last()) + player_week_salary(s.last())
    }
}

/// One player's weekly wage in whole currency units; no contract pays
/// nothing.
pub open spec fn player_week_salary(p: Player) -> int {
    match p.contract {
        Some(c) => c.salary_cents as int / 100,
        None => 0,
    }
}

/// The wage bill is never negative.
proof fn lemma_week_salary_nonneg(s: Seq<Player>)
    ensures
        week_salary_of(s) >= 0,
    decreases s.len(),
{
    if s.len() > 0 {
        lemma_week_salary_nonneg(s.drop_last());
    }
}

/// A prefix of the roster never out-bills the whole roster.
proof fn lemma_week_salary_prefix(s: Seq<Player>, i: int)
    requires
        0 <= i <= s.len(),
    ensures
        week_salary_of(s.take(i)) <= week_salary_of(s),
    decreases s.len() - i,
{
    if i < s.len() {
        lemma_week_salary_prefix(s, i + 1);
        assert(s.take(i + 1).drop_last() =~= s.take(i));
        assert(player_week_salary(s.take(i + 1).last()) >= 0);
    } else {
        assert(s.take(i) =~= s);
    }
}

} // verus!

//! The position ledger: an append-only table from a validator and a sequence
//! index to the two actors of the position.

use crate::error::ContractError;
use crate::host::views;
use crate::portal::state::{LiquidStakingData, LiquidStakingDataView};
use crate::text::{position_id, position_id_chars, same_text};
use vstd::prelude::*;
use vstd::string::*;

verus! {

/// A recorded position.
#[derive(Clone, Debug, PartialEq, Eq)]
pub struct Position {
    pub validator: String,
    pub index: u32,
    pub data: LiquidStakingData,
}

/// What a `Position` holds.
#[verifier::ext_equal]
pub struct PositionView {
    pub validator: Seq<char>,
    pub index: nat,
    pub data: LiquidStakingDataView,
}

impl View for Position {
    type V = PositionView;

    open spec fn view(&self) -> PositionView {
        PositionView { validator: self.validator@, index: self.index as nat, data: self.data@ }
    }
}

/// The key of a position: its validator and its sequence index.
pub open spec fn key_of(position: PositionView) -> (Seq<char>, nat) {
    (position.validator, position.index)
}

/// How many of `positions` belong to `validator`.
pub open spec fn count_of(positions: Seq<PositionView>, validator: Seq<char>) -> nat
    decreases positions.len(),
{
    if positions.len() == 0 {
        0
    } else {
        count_of(positions.drop_last(), validator) + if positions.last().validator == validator {
            1nat
        } else {
            0nat
        }
    }
}

/// Each position's index is the number of positions that its validator had
/// when the position was recorded.
pub open spec fn dense(positions: Seq<PositionView>) -> bool {
    forall|i: int|
        0 <= i < positions.len() ==> (#[trigger] positions[i]).index == count_of(
            positions.take(i),
            positions[i].validator,
        )
}

/// The table that recording `positions` one after the other builds.
pub open spec fn table(positions: Seq<PositionView>) -> Map<(Seq<char>, nat), LiquidStakingDataView>
    decreases positions.len(),
{
    if positions.len() == 0 {
        Map::empty()
    } else {
        table(positions.drop_last()).insert(key_of(positions.last()), positions.last().data)
    }
}

/// The ids of `positions`, in order.
pub open spec fn ids_of(positions: Seq<PositionView>) -> Seq<Seq<char>> {
    positions.map_values(|p: PositionView| position_id_chars(p.validator, p.index))
}

/// A dense history stays dense when its last position is taken away.
pub proof fn lemma_dense_prefix(positions: Seq<PositionView>)
    requires
        dense(positions),
        positions.len() > 0,
    ensures
        dense(positions.drop_last()),
{
    let shorter = positions.drop_last();
    assert forall|i: int| 0 <= i < shorter.len() implies (#[trigger] shorter[i]).index == count_of(
        shorter.take(i),
        shorter[i].validator,
    ) by {
        assert(shorter.take(i) =~= positions.take(i));
        assert(shorter[i] == positions[i]);
    }
}

/// A dense history stays dense when a position is recorded under the next
/// index of its validator.
pub proof fn lemma_dense_push(positions: Seq<PositionView>, position: PositionView)
    requires
        dense(positions),
        position.index == count_of(positions, position.validator),
    ensures
        dense(positions.push(position)),
{
    let longer = positions.push(position);
    assert forall|i: int| 0 <= i < longer.len() implies (#[trigger] longer[i]).index == count_of(
        longer.take(i),
        longer[i].validator,
    ) by {
        if i < positions.len() {
            assert(longer.take(i) =~= positions.take(i));
            assert(longer[i] == positions[i]);
        } else {
            assert(longer.take(i) =~= positions);
        }
    }
}

/// A key is in the table exactly when some position has it.
pub proof fn lemma_table_keys(positions: Seq<PositionView>, key: (Seq<char>, nat))
    ensures
        table(positions).dom().contains(key) <==> exists|i: int|
            0 <= i < positions.len() && key_of(#[trigger] positions[i]) == key,
    decreases positions.len(),
{
    if positions.len() > 0 {
        let shorter = positions.drop_last();
        lemma_table_keys(shorter, key);
        if table(positions).dom().contains(key) {
            if key_of(positions.last()) == key {
                assert(key_of(positions[positions.len() - 1]) == key);
            } else {
                let i = choose|i: int| 0 <= i < shorter.len() && key_of(#[trigger] shorter[i]) == key;
                assert(key_of(positions[i]) == key);
            }
        }
        if exists|i: int| 0 <= i < positions.len() && key_of(#[trigger] positions[i]) == key {
            let i = choose|i: int| 0 <= i < positions.len() && key_of(#[trigger] positions[i]) == key;
            if i < shorter.len() {
                assert(key_of(shorter[i]) == key);
            }
        }
    }
}

/// In a dense history the indexes of a validator are exactly the numbers
/// below the count of its positions.
pub proof fn lemma_dense_keys(positions: Seq<PositionView>, validator: Seq<char>, index: nat)
    requires
        dense(positions),
    ensures
        table(positions).dom().contains((validator, index)) <==> index < count_of(
            positions,
            validator,
        ),
    decreases positions.len(),
{
    if positions.len() > 0 {
        let shorter = positions.drop_last();
        let last = positions.last();
        lemma_dense_prefix(positions);
        lemma_dense_keys(shorter, validator, index);
        assert(positions.take(positions.len() - 1) =~= shorter);
        assert(positions[positions.len() - 1].index == count_of(shorter, last.validator));
    }
}

/// In a dense history no two positions share a key, so the table holds each
/// position's data under its key.
pub proof fn lemma_table_at(positions: Seq<PositionView>, i: int)
    requires
        dense(positions),
        0 <= i < positions.len(),
    ensures
        table(positions).dom().contains(key_of(positions[i])),
        table(positions)[key_of(positions[i])] == positions[i].data,
    decreases positions.len(),
{
    let shorter = positions.drop_last();
    let last = positions.last();
    if i < positions.len() - 1 {
        lemma_dense_prefix(positions);
        lemma_table_at(shorter, i);
        assert(shorter[i] == positions[i]);
        if key_of(last) == key_of(positions[i]) {
            assert(positions.take(positions.len() - 1) =~= shorter);
            assert(positions[positions.len() - 1].index == count_of(shorter, last.validator));
            lemma_dense_keys(shorter, last.validator, last.index);
        }
    }
}

/// The position ledger. Positions are only ever added, each under the next
/// index of its validator.
#[derive(Clone, Debug, PartialEq, Eq)]
pub struct Ledger {
    positions: Vec<Position>,
}

impl View for Ledger {
    type V = Map<(Seq<char>, nat), LiquidStakingDataView>;

    /// The ledger as a table from validator and index to the position's actors.
    open spec fn view(&self) -> Map<(Seq<char>, nat), LiquidStakingDataView> {
        table(self.history())
    }
}

fn copy_data(data: &LiquidStakingData) -> (copy: LiquidStakingData)
    ensures
        copy@ == data@,
{
    LiquidStakingData {
        token_address: data.token_address.clone(),
        delegator_address: data.delegator_address.clone(),
    }
}

impl Ledger {
    /// The positions in the order in which they were recorded.
    pub closed spec fn history(&self) -> Seq<PositionView> {
        views(self.positions@)
    }

    /// The ledger's invariant: its history is dense.
    pub open spec fn wf(&self) -> bool {
        dense(self.history())
    }

    /// The number of positions of `validator`.
    pub open spec fn count(&self, validator: Seq<char>) -> nat {
        count_of(self.history(), validator)
    }

    /// The ledger is dense: the indexes under which a validator has positions
    /// are exactly the numbers below the count of its positions, with no gap.
    pub proof fn lemma_density(self, validator: Seq<char>, index: nat)
        requires
            self.wf(),
        ensures
            self@.dom().contains((validator, index)) <==> index < self.count(validator),
    {
        lemma_dense_keys(self.history(), validator, index);
    }

    /// The ledger without positions.
    pub fn new() -> (ledger: Ledger)
        ensures
            ledger.wf(),
            ledger.history() == Seq::<PositionView>::empty(),
            ledger@ == Map::<(Seq<char>, nat), LiquidStakingDataView>::empty(),
    {
        let ledger = Ledger { positions: Vec::new() };
        assert(ledger.history() =~= Seq::<PositionView>::empty());
        ledger
    }

    /// The ledger that holds `positions`, if they are dense in that order.
    pub fn from_positions(positions: Vec<Position>) -> (ledger: Option<Ledger>)
        ensures
            ledger is Some <==> dense(views(positions@)),
            ledger matches Some(l) ==> l.wf() && l.history() == views(positions@),
    {
        let candidate = Ledger { positions };
        let mut at: usize = 0;
        while at < candidate.positions.len()
            invariant
                at <= candidate.positions.len(),
                candidate.history() == views(positions@),
                dense(candidate.history().take(at as int)),
            decreases candidate.positions.len() - at,
        {
            let ghost history = candidate.history();
            let seen = candidate.count_before(at, candidate.positions[at].validator.as_str());
            if seen != candidate.positions[at].index as usize {
                proof {
                    assert(history[at as int].index != count_of(
                        history.take(at as int),
                        history[at as int].validator,
                    ));
                }
                return None;
            }
            proof {
                assert(history.take(at + 1) =~= history.take(at as int).push(history[at as int]));
                lemma_dense_push(history.take(at as int), history[at as int]);
            }
            at += 1;
        }
        assert(candidate.history().take(at as int) =~= candidate.history());
        Some(candidate)
    }

    /// How many of the first `end` positions belong to `validator`.
    fn count_before(&self, end: usize, validator: &str) -> (count: usize)
        requires
            end <= self.history().len(),
        ensures
            count == count_of(self.history().take(end as int), validator@),
            count <= end,
    {
        let ghost history = self.history();
        let mut count: usize = 0;
        let mut at: usize = 0;
        assert(history.take(0) =~= Seq::<PositionView>::empty());
        while at < end
            invariant
                at <= end <= self.positions.len(),
                history == self.history(),
                count <= at,
                count == count_of(history.take(at as int), validator@),
            decreases end - at,
        {
            proof {
                assert(history.take(at + 1).drop_last() =~= history.take(at as int));
                assert(history.take(at + 1).last() == history[at as int]);
            }
            if same_text(self.positions[at].validator.as_str(), validator) {
                count += 1;
            }
            at += 1;
        }
        count
    }

    /// Counts the positions of `validator`.
    pub fn position_count(&self, validator: &str) -> (count: usize)
        ensures
            count == self.count(validator@),
    {
        assert(self.history().take(self.history().len() as int) =~= self.history());
        self.count_before(self.positions.len(), validator)
    }

    /// The number of positions in the ledger.
    pub fn len(&self) -> (len: usize)
        ensures
            len == self.history().len(),
    {
        self.positions.len()
    }

    /// The position that was recorded as the `at`-th.
    pub fn entry(&self, at: usize) -> (position: &Position)
        requires
            at < self.history().len(),
        ensures
            position@ == self.history()[at as int],
    {
        &self.positions[at]
    }

    /// The actors of the position `index` of `validator`, if it was recorded.
    pub fn get(&self, validator: &str, index: u32) -> (data: Option<LiquidStakingData>)
        requires
            self.wf(),
        ensures
            data is Some <==> self@.dom().contains((validator@, index as nat)),
            data matches Some(d) ==> d@ == self@[(validator@, index as nat)],
    {
        let ghost history = self.history();
        let ghost key = (validator@, index as nat);
        let mut at: usize = 0;
        while at < self.positions.len()
            invariant
                at <= self.positions.len(),
                history == self.history(),
                key == (validator@, index as nat),
                self.wf(),
                forall|i: int| 0 <= i < at ==> key_of(#[trigger] history[i]) != key,
            decreases self.positions.len() - at,
        {
            let position = &self.positions[at];
            if position.index == index && same_text(position.validator.as_str(), validator) {
                proof {
                    assert(key_of(history[at as int]) == key);
                    lemma_table_at(history, at as int);
                }
                return Some(copy_data(&position.data));
            }
            at += 1;
        }
        proof {
            lemma_table_keys(history, key);
        }
        None
    }

    /// Records a position of `validator` under the validator's next index and
    /// returns that index. Fails, and leaves the ledger as it was, only when
    /// the validator's positions have used up the indexes.
    pub fn append(
        &mut self,
        validator: String,
        data: LiquidStakingData,
    ) -> (index: Result<u32, ContractError>)
        requires
            old(self).wf(),
        ensures
            final(self).wf(),
            index is Ok <==> old(self).count(validator@) <= u32::MAX,
            index matches Ok(i) ==> i == old(self).count(validator@) && final(self).history() == old(
                self,
            ).history().push(
                PositionView { validator: validator@, index: i as nat, data: data@ },
            ) && final(self)@ == old(self)@.insert((validator@, i as nat), data@),
            index matches Err(e) ==> e == ContractError::LedgerFull && *final(self) == *old(self),
    {
        let count = self.position_count(validator.as_str());
        if count > 0xffff_ffff {
            return Err(ContractError::LedgerFull);
        }
        let index = count as u32;
        let ghost before = self.history();
        let ghost position = PositionView { validator: validator@, index: index as nat, data: data@ };
        self.positions.push(Position { validator, index, data });
        proof {
            assert(self.history() =~= before.push(position));
            lemma_dense_push(before, position);
            assert(self.history().drop_last() =~= before);
        }
        Ok(index)
    }

    /// The ids of all positions, in the order in which they were recorded.
    pub fn ids(&self) -> (ids: Vec<String>)
        ensures
            views(ids@) == ids_of(self.history()),
    {
        let mut ids: Vec<String> = Vec::new();
        let mut at: usize = 0;
        while at < self.positions.len()
            invariant
                at <= self.positions.len(),
                views(ids@) =~= ids_of(self.history().take(at as int)),
            decreases self.positions.len() - at,
        {
            let position = &self.positions[at];
            let ghost history = self.history();
            let ghost before = views(ids@);
            ids.push(position_id(position.validator.as_str(), position.index));
            proof {
                assert(history.take(at + 1) =~= history.take(at as int).push(history[at as int]));
                assert(views(ids@) =~= before.push(
                    position_id_chars(history[at as int].validator, history[at as int].index),
                ));
            }
            at += 1;
        }
        assert(self.history().take(at as int) =~= self.history());
        ids
    }
}

} // verus!

use vstd::prelude::*;

use crate::structs::{EntityFlags, EntityTeam};

verus! {

/// The life state of an entity (`m_lifeState`).
#[derive(Clone, Copy, PartialEq, Eq, Structural, Debug)]
pub enum EntityLifeState {
    Alive,
    Dying,
    Dead,
}

impl EntityLifeState {
    /// The life state the game's number `n` stands for (0 alive, 1 dying,
    /// 2 dead), if any.
    pub fn from_raw(n: u32) -> (state: Option<EntityLifeState>)
        ensures
            n == 0 ==> state == Some(EntityLifeState::Alive),
            n == 1 ==> state == Some(EntityLifeState::Dying),
            n == 2 ==> state == Some(EntityLifeState::Dead),
            n > 2 ==> state is None,
    {
        if n == 0 {
            Some(EntityLifeState::Alive)
        } else if n == 1 {
            Some(EntityLifeState::Dying)
        } else if n == 2 {
            Some(EntityLifeState::Dead)
        } else {
            None
        }
    }
}

/// The number of low bits of a handle that hold the entity's index.
pub const ENTITY_INDEX_MASK: usize = 0xFFF;

/// A networked handle to an entity.
#[derive(Clone, Copy, PartialEq, Eq, Structural, Debug)]
pub struct EntityHandle {
    handle: usize,
}

/// The index of an entity in the entity list.
#[derive(Clone, Copy, PartialEq, Eq, Structural, Debug)]
pub struct EntityIndex {
    index: usize,
}

impl View for EntityHandle {
    type V = usize;

    open spec fn view(&self) -> usize {
        self.spec_handle()
    }
}

impl View for EntityIndex {
    type V = usize;

    open spec fn view(&self) -> usize {
        self.spec_index()
    }
}

impl EntityHandle {
    /// The raw handle.
    pub closed spec fn spec_handle(&self) -> usize {
        self.handle
    }

    /// The handle with the raw value `handle`.
    pub fn new(handle: usize) -> (h: EntityHandle)
        ensures
            h@ == handle,
    {
        EntityHandle { handle }
    }

    /// The raw handle.
    pub fn handle(&self) -> (handle: usize)
        ensures
            handle == self@,
    {
        self.handle
    }

    /// The index the handle points to: its low twelve bits.
    pub fn index(&self) -> (index: EntityIndex)
        ensures
            index@ == self@ & ENTITY_INDEX_MASK,
            index@ < 4096,
    {
        let handle = self.handle;
        let index = handle & ENTITY_INDEX_MASK;
        assert(handle & 0xFFF < 4096) by (bit_vector);
        EntityIndex { index }
    }
}

impl EntityIndex {
    /// The raw index.
    pub closed spec fn spec_index(&self) -> usize {
        self.index
    }

    /// The index `index`.
    pub fn new(index: usize) -> (i: EntityIndex)
        ensures
            i@ == index,
    {
        EntityIndex { index }
    }

    /// The raw index.
    pub fn index(&self) -> (index: usize)
        ensures
            index == self@,
    {
        self.index
    }
}

impl From<EntityHandle> for EntityIndex {
    fn from(handle: EntityHandle) -> (index: EntityIndex) {
        handle.index()
    }
}

impl vstd::std_specs::convert::FromSpecImpl<EntityHandle> for EntityIndex {
    open spec fn obeys_from_spec() -> bool {
        true
    }

    closed spec fn from_spec(handle: EntityHandle) -> EntityIndex {
        EntityIndex { index: handle.handle & ENTITY_INDEX_MASK }
    }
}

/// Handles that differ only above the index bits point to the same index.
pub proof fn lemma_handle_index_ignores_serial(handle: usize, serial: usize)
    requires
        handle + serial * 4096 <= usize::MAX,
    ensures
        ((handle + serial * 4096) as usize) & ENTITY_INDEX_MASK == handle & ENTITY_INDEX_MASK,
{
    let sum = (handle + serial * 4096) as usize;
    assert(sum & 0xFFF == sum % 4096) by (bit_vector);
    assert(handle & 0xFFF == handle % 4096) by (bit_vector);
    assert(sum % 4096 == handle % 4096) by (nonlinear_arith)
        requires
            sum == handle + serial * 4096,
    ;
}

/// Walks entity indices upward, starting at 1, until the highest index
/// the entity list reports.
#[derive(Debug)]
pub struct EntityIterator {
    count: usize,
}

impl View for EntityIterator {
    type V = usize;

    open spec fn view(&self) -> usize {
        self.spec_count()
    }
}

impl EntityIterator {
    /// The next index to be yielded.
    pub closed spec fn spec_count(&self) -> usize {
        self.count
    }

    /// An iterator that starts at index 1 (index 0 is the world).
    pub fn new() -> (it: EntityIterator)
        ensures
            it@ == 1,
    {
        EntityIterator { count: 1 }
    }

    /// An iterator that starts at the given entity's index.
    pub fn starting_at(index: EntityIndex) -> (it: EntityIterator)
        ensures
            it@ == index@,
    {
        EntityIterator { count: index.index }
    }

    /// The next index to be yielded.
    pub fn count(&self) -> (count: usize)
        ensures
            count == self@,
    {
        self.count
    }

    /// Yields the current index while it is at most
    /// `highest_entity_index`, and moves on by one either way.
    pub fn next(&mut self, highest_entity_index: usize) -> (index: Option<EntityIndex>)
        requires
            old(self)@ < usize::MAX,
        ensures
            index is Some <==> old(self)@ <= highest_entity_index,
            index matches Some(i) ==> i@ == old(self)@,
            index_of(index) == yielded(old(self)@ as int, highest_entity_index as int),
            final(self)@ == old(self)@ + 1,
            next_step(old(self)@, highest_entity_index, index, final(self)@),
    {
        let ret = if self.count <= highest_entity_index {
            Some(EntityIndex::new(self.count))
        } else {
            None
        };
        self.count = self.count + 1;
        ret
    }
}

/// The index an entity index option holds, as an integer.
pub open spec fn index_of(index: Option<EntityIndex>) -> Option<int> {
    match index {
        Some(i) => Some(i@ as int),
        None => None,
    }
}

/// What one call of `next` yields with the counter at `count` and the
/// highest index at `highest`.
pub open spec fn yielded(count: int, highest: int) -> Option<int> {
    if count <= highest {
        Some(count)
    } else {
        None
    }
}

/// What `n` successive calls of `next` yield, the counter starting at
/// `count` and moving on by one with each call.
pub open spec fn yields(count: int, highest: int, n: nat) -> Seq<Option<int>>
    decreases n,
{
    if n == 0 {
        Seq::empty()
    } else {
        seq![yielded(count, highest)] + yields(count + 1, highest, (n - 1) as nat)
    }
}

/// A walk from counter `start`, with the highest index unchanged, yields
/// `start`, `start + 1`, ... up to the highest index, and `None` on every
/// call after that.
pub proof fn lemma_iteration(start: int, highest: int, n: nat)
    ensures
        yields(start, highest, n).len() == n,
        forall|j: int|
            0 <= j < n ==> #[trigger] yields(start, highest, n)[j] == (if start + j <= highest {
                Some(start + j)
            } else {
                None
            }),
    decreases n,
{
    if n > 0 {
        lemma_iteration(start + 1, highest, (n - 1) as nat);
        let rest = yields(start + 1, highest, (n - 1) as nat);
        assert forall|j: int| 0 < j < n implies #[trigger] yields(start, highest, n)[j] == rest[j
            - 1] by {}
    }
}

/// One call of `next`: with the counter at `before` and the highest index
/// at `highest`, it yields `index` and leaves the counter at `after`.
pub open spec fn next_step(before: usize, highest: usize, index: Option<EntityIndex>, after: usize) -> bool {
    index_of(index) == yielded(before as int, highest as int) && after == before + 1
}

/// Any run of calls of `next` with the highest index unchanged, with
/// `counters[i]` the counter before call `i` and `outputs[i]` what it
/// yielded, yields what `yields` says: the indices from the first counter
/// up to the highest index, then `None` on every later call.
pub proof fn lemma_walk(counters: Seq<usize>, outputs: Seq<Option<EntityIndex>>, highest: usize)
    requires
        counters.len() == outputs.len() + 1,
        forall|i: int|
            0 <= i < outputs.len() ==> next_step(
                counters[i],
                highest,
                #[trigger] outputs[i],
                counters[i + 1],
            ),
    ensures
        outputs.map_values(|o: Option<EntityIndex>| index_of(o)) == yields(
            counters[0] as int,
            highest as int,
            outputs.len(),
        ),
        forall|j: int|
            0 <= j < outputs.len() ==> index_of(#[trigger] outputs[j]) == (if counters[0] + j
                <= highest {
                Some(counters[0] + j)
            } else {
                None
            }),
    decreases outputs.len(),
{
    let n = outputs.len();
    lemma_iteration(counters[0] as int, highest as int, n);
    if n > 0 {
        let rest_c = counters.subrange(1, counters.len() as int);
        let rest_o = outputs.subrange(1, n as int);
        assert forall|i: int| 0 <= i < rest_o.len() implies next_step(
            rest_c[i],
            highest,
            #[trigger] rest_o[i],
            rest_c[i + 1],
        ) by {
            assert(next_step(counters[i + 1], highest, outputs[i + 1], counters[i + 2]));
        }
        lemma_walk(rest_c, rest_o, highest);
        assert(next_step(counters[0], highest, outputs[0], counters[1]));
        let mapped = outputs.map_values(|o: Option<EntityIndex>| index_of(o));
        let rest_mapped = rest_o.map_values(|o: Option<EntityIndex>| index_of(o));
        assert(mapped =~= seq![yielded(counters[0] as int, highest as int)] + rest_mapped);
    } else {
        assert(outputs.map_values(|o: Option<EntityIndex>| index_of(o)) =~= Seq::empty());
    }
    let mapped = outputs.map_values(|o: Option<EntityIndex>| index_of(o));
    assert forall|j: int| 0 <= j < n implies index_of(#[trigger] outputs[j]) == (if counters[0]
        + j <= highest {
        Some(counters[0] + j)
    } else {
        None
    }) by {
        assert(mapped[j] == index_of(outputs[j]));
        assert(yields(counters[0] as int, highest as int, n)[j] == mapped[j]);
    }
}

/// A fresh iterator (`EntityIterator::new` starts at 1) yields exactly the
/// indices 1 to `highest`, in order, and `None` from then on.
pub proof fn lemma_iteration_from_start(highest: int, n: nat)
    ensures
        forall|j: int|
            0 <= j < n ==> (#[trigger] yields(1, highest, n)[j] is Some <==> j < highest),
        forall|j: int| 0 <= j < n && j < highest ==> #[trigger] yields(1, highest, n)[j] == Some(
            j + 1,
        ),
{
    lemma_iteration(1, highest, n);
}

/// What the entity logic reads of an entity.
#[derive(Clone, Copy, Debug)]
pub struct EntityState {
    pub lifestate: EntityLifeState,
    pub health: i32,
    pub dormant: bool,
    pub is_player: bool,
    pub team: EntityTeam,
    pub flags: EntityFlags,
}

impl EntityState {
    /// Alive: the life state says so and the health is positive.
    pub open spec fn spec_alive(&self) -> bool {
        self.lifestate == EntityLifeState::Alive && self.health > 0
    }

    /// Whether the entity is alive.
    pub fn alive(&self) -> (alive: bool)
        ensures
            alive == self.spec_alive(),
    {
        (match self.lifestate {
            EntityLifeState::Alive => true,
            _ => false,
        }) && self.health > 0
    }

    /// A player that is in view of the network, alive, and not on
    /// `local_team`: what the aim assist may pick as a target.
    pub fn is_enemy_target(&self, local_team: EntityTeam) -> (target: bool)
        ensures
            target == (!self.dormant && self.is_player && self.spec_alive() && self.team
                != local_team),
    {
        !self.dormant && self.is_player && self.alive() && self.team != local_team
    }

    /// A player that is in view of the network and alive: what the
    /// scripts' player list holds.
    pub fn is_listed_player(&self) -> (listed: bool)
        ensures
            listed == (!self.dormant && self.spec_alive() && self.is_player),
    {
        !(self.dormant || !self.alive() || !self.is_player)
    }
}

} // verus!

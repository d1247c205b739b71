//! An ordered roster of creatures: training, queries and breeding.
use vstd::prelude::*;
use crate::creature::{breedable, is_newborn_of, level_after, rendered, xp_after, Gender, Pokemon, PokemonType};

verus! {

pub struct Breeding {
    pokemon_list: Vec<Pokemon>,
}

impl View for Breeding {
    type V = Seq<Pokemon>;

    closed spec fn view(&self) -> Seq<Pokemon> {
        self.pokemon_list@
    }
}

/// Whether every member can gain `amount` experience without its level
/// leaving `u32`.
pub open spec fn all_can_gain(members: Seq<Pokemon>, amount: u32) -> bool {
    forall|i: int| 0 <= i < members.len() ==> #[trigger] members[i].can_gain(amount)
}

/// `after` is `before` trained by `amount`.
pub open spec fn trained_member(before: Pokemon, after: Pokemon, amount: u32) -> bool {
    &&& after.level == level_after(before.level as int, before.xp as int, amount as int)
    &&& after.xp == xp_after(before.xp as int, amount as int)
    &&& after.name == before.name
    &&& after.pokemon_type == before.pokemon_type
    &&& after.gender == before.gender
}

/// `after` is `before` with every member trained by `amount`.
pub open spec fn trained(before: Seq<Pokemon>, after: Seq<Pokemon>, amount: u32) -> bool {
    &&& after.len() == before.len()
    &&& forall|i: int|
        0 <= i < before.len() ==> trained_member(before[i], #[trigger] after[i], amount)
}

/// What breeding the members at two positions yields: nothing when a
/// position is out of range or the pair cannot breed.
pub open spec fn breeding_possible(members: Seq<Pokemon>, index1: int, index2: int) -> bool {
    &&& 0 <= index1 < members.len()
    &&& 0 <= index2 < members.len()
    &&& breedable(members[index1], members[index2])
}

/// The creatures that a sequence of references points to.
pub open spec fn refs_view(refs: Seq<&Pokemon>) -> Seq<Pokemon> {
    refs.map_values(|p: &Pokemon| *p)
}

/// Breeding with a position at or past the end of the roster yields
/// nothing, whatever the roster's size, the empty roster included.
pub proof fn lemma_out_of_range_breeds_nothing(members: Seq<Pokemon>, index1: int, index2: int)
    requires
        0 <= index1,
        0 <= index2,
        index1 >= members.len() || index2 >= members.len(),
    ensures
        !breeding_possible(members, index1, index2),
{
}

/// Taking one more element is dropping the last one back off.
proof fn lemma_take_succ(s: Seq<Pokemon>, i: int)
    requires
        0 <= i < s.len(),
    ensures
        s.take(i + 1).drop_last() == s.take(i),
        s.take(i + 1).last() == s[i],
{
    assert(s.take(i + 1).drop_last() =~= s.take(i));
}

impl Breeding {
    pub fn new() -> (r: Breeding)
        ensures
            r@ == Seq::<Pokemon>::empty(),
    {
        Breeding { pokemon_list: Vec::new() }
    }

    /// The members, in order.
    pub fn members(&self) -> (r: &Vec<Pokemon>)
        ensures
            r@ == self@,
    {
        &self.pokemon_list
    }

    pub fn add_pokemon(&mut self, pokemon: Pokemon)
        ensures
            final(self)@ == old(self)@.push(pokemon),
    {
        self.pokemon_list.push(pokemon);
    }

    /// The members at level `min_level` or above, in order.
    pub fn filter_by_level(&self, min_level: u32) -> (r: Vec<&Pokemon>)
        ensures
            refs_view(r@) == self@.filter(|p: Pokemon| p.level >= min_level),
    {
        let mut r: Vec<&Pokemon> = Vec::new();
        let n = self.pokemon_list.len();
        for i in 0..n
            invariant
                n == self@.len(),
                refs_view(r@) == self@.take(i as int).filter(|p: Pokemon| p.level >= min_level),
        {
            let p = &self.pokemon_list[i];
            let ghost before = r@;
            proof {
                lemma_take_succ(self@, i as int);
                reveal(Seq::filter);
            }
            if p.level >= min_level {
                r.push(p);
                assert(refs_view(r@) =~= refs_view(before).push(*p));
            }
        }
        assert(self@.take(n as int) =~= self@);
        r
    }

    /// The members of kind `pokemon_type`, in order.
    pub fn filter_by_type(&self, pokemon_type: &PokemonType) -> (r: Vec<&Pokemon>)
        ensures
            refs_view(r@) == self@.filter(|p: Pokemon| p.pokemon_type == *pokemon_type),
    {
        let mut r: Vec<&Pokemon> = Vec::new();
        let n = self.pokemon_list.len();
        for i in 0..n
            invariant
                n == self@.len(),
                refs_view(r@) == self@.take(i as int).filter(|p: Pokemon| p.pokemon_type == *pokemon_type),
        {
            let p = &self.pokemon_list[i];
            let ghost before = r@;
            proof {
                lemma_take_succ(self@, i as int);
                reveal(Seq::filter);
            }
            if p.pokemon_type == *pokemon_type {
                r.push(p);
                assert(refs_view(r@) =~= refs_view(before).push(*p));
            }
        }
        assert(self@.take(n as int) =~= self@);
        r
    }

    /// Gives every member `xp_amount` experience, in order.
    pub fn train_all(&mut self, xp_amount: u32)
        requires
            all_can_gain(old(self)@, xp_amount),
        ensures
            trained(old(self)@, final(self)@, xp_amount),
    {
        let n = self.pokemon_list.len();
        for i in 0..n
            invariant
                n == old(self)@.len(),
                self@.len() == n,
                all_can_gain(old(self)@, xp_amount),
                forall|j: int|
                    0 <= j < i ==> trained_member(old(self)@[j], #[trigger] self@[j], xp_amount),
                forall|j: int| i <= j < n ==> #[trigger] self@[j] == old(self)@[j],
        {
            assert(old(self)@[i as int].can_gain(xp_amount));
            self.pokemon_list[i].gain_xp(xp_amount);
        }
    }

    /// One rendered line per member, in order.
    pub fn display_all(&self) -> (r: Vec<String>)
        ensures
            r@.len() == self@.len(),
            forall|i: int| 0 <= i < r@.len() ==> #[trigger] r@[i]@ == rendered(self@[i]),
    {
        let mut r: Vec<String> = Vec::new();
        let n = self.pokemon_list.len();
        for i in 0..n
            invariant
                n == self@.len(),
                r@.len() == i,
                forall|j: int| 0 <= j < i ==> #[trigger] r@[j]@ == rendered(self@[j]),
        {
            r.push(self.pokemon_list[i].render());
        }
        r
    }

    /// Breeds the members at `index1` and `index2`. Nothing comes of an index
    /// out of range or of a pair that cannot breed. The newborn is not added.
    pub fn attempt_breeding(&mut self, index1: usize, index2: usize) -> (r: Option<Pokemon>)
        ensures
            final(self)@ == old(self)@,
            r is Some <==> breeding_possible(old(self)@, index1 as int, index2 as int),
            r matches Some(baby) ==> is_newborn_of(baby, old(self)@[index1 as int]),
    {
        if index1 < self.pokemon_list.len() && index2 < self.pokemon_list.len() {
            let pokemon1 = &self.pokemon_list[index1];
            let pokemon2 = &self.pokemon_list[index2];
            Pokemon::breed(pokemon1, pokemon2)
        } else {
            None
        }
    }

    /// As `attempt_breeding`, with the newborn's gender given.
    pub fn attempt_breeding_with_gender(&self, index1: usize, index2: usize, gender: Gender) -> (r:
        Option<Pokemon>)
        ensures
            r is Some <==> breeding_possible(self@, index1 as int, index2 as int),
            r matches Some(baby) ==> is_newborn_of(baby, self@[index1 as int]) && baby.gender
                == gender,
    {
        if index1 < self.pokemon_list.len() && index2 < self.pokemon_list.len() {
            Pokemon::breed_with_gender(&self.pokemon_list[index1], &self.pokemon_list[index2], gender)
        } else {
            None
        }
    }
}

} // verus!

//! A single breedable creature and its leveling state machine.
use vstd::prelude::*;

verus! {

/// Experience needed for one level.
pub const XP_PER_LEVEL: u32 = 100;

/// Minimum level at which a creature may breed.
pub const BREEDING_LEVEL: u32 = 5;

#[derive(Debug, Clone, Copy, PartialEq, Eq, Structural)]
pub enum PokemonType {
    Fire,
    Water,
    Grass,
    Electric,
}

#[derive(Debug, Clone, Copy, PartialEq, Eq, Structural)]
pub enum Gender {
    Male,
    Female,
}

#[derive(Debug)]
pub struct Pokemon {
    pub name: String,
    pub level: u32,
    pub pokemon_type: PokemonType,
    pub xp: u32,
    pub gender: Gender,
}

/// The level reached from `level` and `xp` after gaining `gain` experience.
pub open spec fn level_after(level: int, xp: int, gain: int) -> int {
    level + (xp + gain) / (XP_PER_LEVEL as int)
}

/// The experience left from `xp` after gaining `gain` experience.
pub open spec fn xp_after(xp: int, gain: int) -> int {
    (xp + gain) % (XP_PER_LEVEL as int)
}

/// Whether two creatures may breed: same kind, opposite genders, and both at
/// least at the breeding level.
pub open spec fn breedable(a: Pokemon, b: Pokemon) -> bool {
    &&& a.pokemon_type == b.pokemon_type
    &&& a.gender != b.gender
    &&& a.level >= BREEDING_LEVEL
    &&& b.level >= BREEDING_LEVEL
}

/// The fixed name given to every newborn.
pub open spec fn newborn_name() -> Seq<char> {
    seq!['M', 'y', 's', 't', 'e', 'r', 'e']
}

/// Whether `baby` is a newborn of a pair whose first parent is `parent`:
/// the fixed name, level one, no experience, the first parent's kind.
pub open spec fn is_newborn_of(baby: Pokemon, parent: Pokemon) -> bool {
    &&& baby.name@ == newborn_name()
    &&& baby.level == 1
    &&& baby.xp == 0
    &&& baby.pokemon_type == parent.pokemon_type
}

/// Two creatures cannot breed when their kinds differ, when their genders
/// match, or when either is below the breeding level; each condition alone
/// rules breeding out.
pub proof fn lemma_breeding_ruled_out(a: Pokemon, b: Pokemon)
    ensures
        a.pokemon_type != b.pokemon_type ==> !breedable(a, b),
        a.gender == b.gender ==> !breedable(a, b),
        a.level < BREEDING_LEVEL ==> !breedable(a, b),
        b.level < BREEDING_LEVEL ==> !breedable(a, b),
{
}

/// Relies on rand::random::<bool>: a fair coin from the thread-local
/// generator. Nothing is promised of the outcome.
#[verifier::external_body]
fn coin_flip() -> (r: bool) {
    rand::random::<bool>()
}

/// The decimal digit `d` (below ten) as a character.
pub open spec fn digit_char(d: nat) -> char {
    seq!['0', '1', '2', '3', '4', '5', '6', '7', '8', '9'][d as int]
}

/// The decimal notation of `n`, without leading zeros.
pub open spec fn decimal(n: nat) -> Seq<char>
    decreases n,
{
    if n < 10 {
        seq![digit_char(n)]
    } else {
        decimal(n / 10).push(digit_char(n % 10))
    }
}

/// Relies on `u32::to_string`, which writes a `u32` in decimal.
#[verifier::external_body]
pub(crate) fn decimal_text(n: u32) -> (r: String)
    ensures
        r@ == decimal(n as nat),
{
    n.to_string()
}

/// The display label of a kind.
pub open spec fn type_label(t: PokemonType) -> Seq<char> {
    match t {
        PokemonType::Fire => "Feu"@,
        PokemonType::Water => "Eau"@,
        PokemonType::Grass => "Plante"@,
        PokemonType::Electric => "Electrik"@,
    }
}

/// The display label of a gender.
pub open spec fn gender_label(g: Gender) -> Seq<char> {
    match g {
        Gender::Male => "Male"@,
        Gender::Female => "Femelle"@,
    }
}

/// One line describing a creature: name, level, kind, experience, gender.
pub open spec fn rendered(p: Pokemon) -> Seq<char> {
    p.name@ + " (Niveau "@ + decimal(p.level as nat) + " - "@ + type_label(p.pokemon_type)
        + " - XP: "@ + decimal(p.xp as nat) + " - "@ + gender_label(p.gender) + ")"@
}

impl PokemonType {
    pub fn label(&self) -> (r: &'static str)
        ensures
            r@ == type_label(*self),
    {
        match self {
            PokemonType::Fire => "Feu",
            PokemonType::Water => "Eau",
            PokemonType::Grass => "Plante",
            PokemonType::Electric => "Electrik",
        }
    }
}

impl Gender {
    pub fn label(&self) -> (r: &'static str)
        ensures
            r@ == gender_label(*self),
    {
        match self {
            Gender::Male => "Male",
            Gender::Female => "Femelle",
        }
    }
}

impl Clone for Pokemon {
    fn clone(&self) -> (r: Pokemon)
        ensures
            r == *self,
    {
        Pokemon {
            name: self.name.clone(),
            level: self.level,
            pokemon_type: self.pokemon_type,
            xp: self.xp,
            gender: self.gender,
        }
    }
}

impl Pokemon {
    /// Well-formed: a positive level and experience below one level's worth.
    pub open spec fn wf(&self) -> bool {
        self.level >= 1 && self.xp < XP_PER_LEVEL
    }

    /// Whether gaining `amount` experience keeps the level within `u32`.
    pub open spec fn can_gain(&self, amount: u32) -> bool {
        level_after(self.level as int, self.xp as int, amount as int) <= u32::MAX
    }

    pub fn new(name: &str, level: u32, pokemon_type: PokemonType, gender: Gender) -> (r: Pokemon)
        requires
            level >= 1,
        ensures
            r.name@ == name@,
            r.level == level,
            r.pokemon_type == pokemon_type,
            r.xp == 0,
            r.gender == gender,
            r.wf(),
    {
        Pokemon { name: name.to_string(), level, pokemon_type, xp: 0, gender }
    }

    /// Adds `amount` experience; every full level's worth of experience turns
    /// into one level.
    pub fn gain_xp(&mut self, amount: u32)
        requires
            old(self).can_gain(amount),
        ensures
            final(self).level == level_after(old(self).level as int, old(self).xp as int, amount as int),
            final(self).xp == xp_after(old(self).xp as int, amount as int),
            final(self).xp < XP_PER_LEVEL,
            final(self).name == old(self).name,
            final(self).pokemon_type == old(self).pokemon_type,
            final(self).gender == old(self).gender,
    {
        let mut total: u64 = self.xp as u64 + amount as u64;
        let ghost start = (old(self).xp + amount) as int;
        while total >= XP_PER_LEVEL as u64
            invariant
                total <= start,
                total % 100 == start % 100,
                self.level as int + total / 100 == level_after(old(self).level as int, old(self).xp as int, amount as int),
                level_after(old(self).level as int, old(self).xp as int, amount as int) <= u32::MAX,
                self.name == old(self).name,
                self.pokemon_type == old(self).pokemon_type,
                self.gender == old(self).gender,
            decreases total,
        {
            total = total - XP_PER_LEVEL as u64;
            self.level_up();
        }
        self.xp = total as u32;
    }

    /// Raises the level by one.
    pub fn level_up(&mut self)
        requires
            old(self).level < u32::MAX,
        ensures
            final(self).level == old(self).level + 1,
            final(self).xp == old(self).xp,
            final(self).name == old(self).name,
            final(self).pokemon_type == old(self).pokemon_type,
            final(self).gender == old(self).gender,
    {
        self.level = self.level + 1;
    }

    pub fn can_breed(&self, other: &Pokemon) -> (r: bool)
        ensures
            r == breedable(*self, *other),
    {
        self.pokemon_type == other.pokemon_type && self.gender != other.gender && self.level
            >= BREEDING_LEVEL && other.level >= BREEDING_LEVEL
    }

    /// One line describing the creature.
    pub fn render(&self) -> (r: String)
        ensures
            r@ == rendered(*self),
    {
        let mut s = self.name.clone();
        s.append(" (Niveau ");
        s.append(decimal_text(self.level).as_str());
        s.append(" - ");
        s.append(self.pokemon_type.label());
        s.append(" - XP: ");
        s.append(decimal_text(self.xp).as_str());
        s.append(" - ");
        s.append(self.gender.label());
        s.append(")");
        s
    }

    /// Breeds two creatures with the newborn's gender given: nothing if they
    /// cannot breed, else a level-one newborn of the first parent's kind.
    pub fn breed_with_gender(pokemon1: &Pokemon, pokemon2: &Pokemon, gender: Gender) -> (r:
        Option<Pokemon>)
        ensures
            r is Some <==> breedable(*pokemon1, *pokemon2),
            r matches Some(baby) ==> is_newborn_of(baby, *pokemon1) && baby.gender == gender,
    {
        if pokemon1.can_breed(pokemon2) {
            proof {
                reveal_strlit("Mystere");
                assert("Mystere"@ =~= newborn_name());
            }
            Some(Pokemon::new("Mystere", 1, pokemon1.pokemon_type, gender))
        } else {
            None
        }
    }

    /// Breeds two creatures; the newborn's gender is drawn at random.
    pub fn breed(pokemon1: &Pokemon, pokemon2: &Pokemon) -> (r: Option<Pokemon>)
        ensures
            r is Some <==> breedable(*pokemon1, *pokemon2),
            r matches Some(baby) ==> is_newborn_of(baby, *pokemon1),
    {
        if pokemon1.can_breed(pokemon2) {
            let gender = if coin_flip() {
                Gender::Male
            } else {
                Gender::Female
            };
            Pokemon::breed_with_gender(pokemon1, pokemon2, gender)
        } else {
            None
        }
    }
}

} // verus!

use pokebreed::breeding::Breeding;
use pokebreed::creature::{Gender, Pokemon, PokemonType};

fn fire_male() -> Pokemon {
    Pokemon::new("Salamèche", 5, PokemonType::Fire, Gender::Male)
}

fn fire_female() -> Pokemon {
    Pokemon::new("Goupix", 5, PokemonType::Fire, Gender::Female)
}

fn starters() -> Breeding {
    let mut b = Breeding::new();
    b.add_pokemon(Pokemon::new("Salamèche", 5, PokemonType::Fire, Gender::Male));
    b.add_pokemon(Pokemon::new("Carapuce", 6, PokemonType::Water, Gender::Female));
    b.add_pokemon(Pokemon::new("Bulbizarre", 7, PokemonType::Grass, Gender::Male));
    b.add_pokemon(Pokemon::new("Pikachu", 5, PokemonType::Electric, Gender::Female));
    b
}

#[test]
fn new_starts_without_experience() {
    let p = fire_male();
    assert_eq!(p.name, "Salamèche");
    assert_eq!(p.level, 5);
    assert_eq!(p.pokemon_type, PokemonType::Fire);
    assert_eq!(p.xp, 0);
    assert_eq!(p.gender, Gender::Male);
}

#[test]
fn gain_below_a_level_keeps_level() {
    let mut p = fire_male();
    p.gain_xp(99);
    assert_eq!((p.level, p.xp), (5, 99));
    p.gain_xp(1);
    assert_eq!((p.level, p.xp), (6, 0));
}

#[test]
fn gain_of_several_levels_at_once() {
    let mut p = fire_male();
    p.gain_xp(30);
    p.gain_xp(250);
    // 30 + 250 = 280: two levels, 80 left.
    assert_eq!((p.level, p.xp), (7, 80));
}

#[test]
fn gain_of_zero_changes_nothing() {
    let mut p = fire_male();
    p.gain_xp(0);
    assert_eq!((p.level, p.xp), (5, 0));
}

#[test]
fn gain_of_largest_amount() {
    let mut p = fire_male();
    p.gain_xp(u32::MAX);
    assert_eq!(p.level, 5 + u32::MAX / 100);
    assert_eq!(p.xp, u32::MAX % 100);
}

#[test]
fn level_up_adds_one() {
    let mut p = fire_male();
    p.level_up();
    assert_eq!((p.level, p.xp), (6, 0));
}

#[test]
fn render_describes_creature() {
    let mut p = fire_male();
    p.gain_xp(150);
    assert_eq!(p.render(), "Salamèche (Niveau 6 - Feu - XP: 50 - Male)");
    let q = Pokemon::new("Pikachu", 12, PokemonType::Electric, Gender::Female);
    assert_eq!(q.render(), "Pikachu (Niveau 12 - Electrik - XP: 0 - Femelle)");
    assert_eq!(PokemonType::Water.label(), "Eau");
    assert_eq!(PokemonType::Grass.label(), "Plante");
}

#[test]
fn fire_pair_can_breed() {
    assert!(fire_male().can_breed(&fire_female()));
    assert!(fire_female().can_breed(&fire_male()));
}

#[test]
fn breed_yields_newborn_of_first_parent_kind() {
    for _ in 0..20 {
        let baby = Pokemon::breed(&fire_male(), &fire_female()).unwrap();
        assert_eq!(baby.name, "Mystere");
        assert_eq!(baby.pokemon_type, PokemonType::Fire);
        assert_eq!(baby.level, 1);
        assert_eq!(baby.xp, 0);
    }
}

#[test]
fn breed_with_gender_is_deterministic() {
    let baby = Pokemon::breed_with_gender(&fire_male(), &fire_female(), Gender::Female).unwrap();
    assert_eq!(baby.name, "Mystere");
    assert_eq!(baby.pokemon_type, PokemonType::Fire);
    assert_eq!(baby.level, 1);
    assert_eq!(baby.xp, 0);
    assert_eq!(baby.gender, Gender::Female);
    let baby = Pokemon::breed_with_gender(&fire_female(), &fire_male(), Gender::Male).unwrap();
    assert_eq!(baby.gender, Gender::Male);
}

#[test]
fn cannot_breed_when_kinds_differ() {
    let water = Pokemon::new("Carapuce", 5, PokemonType::Water, Gender::Female);
    assert!(!fire_male().can_breed(&water));
    assert!(Pokemon::breed(&fire_male(), &water).is_none());
}

#[test]
fn cannot_breed_when_genders_match() {
    let other = Pokemon::new("Ponyta", 9, PokemonType::Fire, Gender::Male);
    assert!(!fire_male().can_breed(&other));
    assert!(Pokemon::breed_with_gender(&fire_male(), &other, Gender::Male).is_none());
}

#[test]
fn cannot_breed_when_a_level_is_low() {
    let young = Pokemon::new("Goupix", 4, PokemonType::Fire, Gender::Female);
    assert!(!fire_male().can_breed(&young));
    assert!(!young.can_breed(&fire_male()));
    let young_male = Pokemon::new("Caninos", 4, PokemonType::Fire, Gender::Male);
    assert!(!young_male.can_breed(&fire_female()));
}

#[test]
fn cannot_breed_when_several_conditions_fail() {
    let a = Pokemon::new("A", 4, PokemonType::Water, Gender::Male);
    let b = Pokemon::new("B", 3, PokemonType::Fire, Gender::Male);
    assert!(!a.can_breed(&b));
    let c = Pokemon::new("C", 2, PokemonType::Grass, Gender::Female);
    assert!(!a.can_breed(&c));
    let d = Pokemon::new("D", 8, PokemonType::Water, Gender::Male);
    let e = Pokemon::new("E", 1, PokemonType::Water, Gender::Male);
    assert!(!d.can_breed(&e));
}

#[test]
fn add_appends_in_order() {
    let b = starters();
    let names: Vec<&str> = b.members().iter().map(|p| p.name.as_str()).collect();
    assert_eq!(names, vec!["Salamèche", "Carapuce", "Bulbizarre", "Pikachu"]);
}

#[test]
fn filter_by_level_keeps_order() {
    let mut b = Breeding::new();
    b.add_pokemon(Pokemon::new("a", 3, PokemonType::Fire, Gender::Male));
    b.add_pokemon(Pokemon::new("b", 5, PokemonType::Water, Gender::Male));
    b.add_pokemon(Pokemon::new("c", 5, PokemonType::Water, Gender::Female));
    b.add_pokemon(Pokemon::new("d", 7, PokemonType::Grass, Gender::Male));
    let found: Vec<(&str, u32)> =
        b.filter_by_level(5).iter().map(|p| (p.name.as_str(), p.level)).collect();
    assert_eq!(found, vec![("b", 5), ("c", 5), ("d", 7)]);
    let water: Vec<&str> =
        b.filter_by_type(&PokemonType::Water).iter().map(|p| p.name.as_str()).collect();
    assert_eq!(water, vec!["b", "c"]);
    assert!(b.filter_by_level(8).is_empty());
    assert!(b.filter_by_type(&PokemonType::Electric).is_empty());
}

#[test]
fn filters_on_empty_roster() {
    let b = Breeding::new();
    assert!(b.filter_by_level(0).is_empty());
    assert!(b.filter_by_type(&PokemonType::Fire).is_empty());
}

#[test]
fn train_all_trains_every_member() {
    let mut b = starters();
    b.train_all(150);
    let state: Vec<(u32, u32)> = b.members().iter().map(|p| (p.level, p.xp)).collect();
    assert_eq!(state, vec![(6, 50), (7, 50), (8, 50), (6, 50)]);
}

#[test]
fn display_all_renders_each_member() {
    let b = starters();
    let lines = b.display_all();
    assert_eq!(lines.len(), 4);
    assert_eq!(lines[1], "Carapuce (Niveau 6 - Eau - XP: 0 - Femelle)");
    assert_eq!(lines[2], "Bulbizarre (Niveau 7 - Plante - XP: 0 - Male)");
}

#[test]
fn attempt_breeding_out_of_range() {
    let mut empty = Breeding::new();
    assert!(empty.attempt_breeding(0, 0).is_none());
    assert!(empty.attempt_breeding(3, 1).is_none());
    let mut b = Breeding::new();
    b.add_pokemon(fire_male());
    b.add_pokemon(fire_female());
    assert!(b.attempt_breeding(0, 1).is_some());
    assert!(b.attempt_breeding(0, 2).is_none());
    assert!(b.attempt_breeding(2, 0).is_none());
    assert!(b.attempt_breeding(usize::MAX, 1).is_none());
    assert!(b.attempt_breeding_with_gender(1, 5, Gender::Male).is_none());
}

#[test]
fn attempt_breeding_does_not_add_newborn() {
    let mut b = Breeding::new();
    b.add_pokemon(fire_male());
    b.add_pokemon(fire_female());
    let baby = b.attempt_breeding_with_gender(1, 0, Gender::Male).unwrap();
    assert_eq!(baby.pokemon_type, PokemonType::Fire);
    assert_eq!(baby.gender, Gender::Male);
    assert_eq!(b.members().len(), 2);
    b.add_pokemon(baby);
    assert_eq!(b.members().len(), 3);
}

#[test]
fn end_to_end_scenario() {
    let mut b = starters();
    b.train_all(50);
    let m = b.members();
    assert_eq!((m[0].level, m[0].xp), (5, 50));
    assert_eq!((m[3].level, m[3].xp), (5, 50));
    assert!(b.attempt_breeding(0, 3).is_none());
    let text = b.to_json_text();
    let loaded = Breeding::from_json_text(&text).unwrap();
    assert_eq!(loaded.members().len(), 4);
    for (x, y) in b.members().iter().zip(loaded.members().iter()) {
        assert_eq!(x.name, y.name);
        assert_eq!(x.level, y.level);
        assert_eq!(x.pokemon_type, y.pokemon_type);
        assert_eq!(x.xp, y.xp);
        assert_eq!(x.gender, y.gender);
    }
}

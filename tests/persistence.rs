use pokebreed::breeding::Breeding;
use pokebreed::codec::PersistenceError;
use pokebreed::creature::{Gender, Pokemon, PokemonType};

fn value(text: &str) -> serde_json::Value {
    serde_json::from_str(text).unwrap()
}

#[test]
fn pokemon_to_json_has_five_fields() {
    let mut p = Pokemon::new("Pikachu", 5, PokemonType::Electric, Gender::Female);
    p.gain_xp(42);
    let v = p.to_json();
    assert_eq!(v.get("name").and_then(|f| f.as_str()), Some("Pikachu"));
    assert_eq!(v.get("level").and_then(|f| f.as_u64()), Some(5));
    assert_eq!(v.get("pokemon_type").and_then(|f| f.as_str()), Some("Electric"));
    assert_eq!(v.get("xp").and_then(|f| f.as_u64()), Some(42));
    assert_eq!(v.get("gender").and_then(|f| f.as_str()), Some("Female"));
}

#[test]
fn roster_to_json_lists_members() {
    let mut b = Breeding::new();
    b.add_pokemon(Pokemon::new("a", 5, PokemonType::Fire, Gender::Male));
    b.add_pokemon(Pokemon::new("b", 6, PokemonType::Water, Gender::Female));
    let v = b.to_json();
    let list = v.get("pokemon_list").and_then(|l| l.as_array()).unwrap();
    assert_eq!(list.len(), 2);
    assert_eq!(list[1].get("name").and_then(|f| f.as_str()), Some("b"));
}

#[test]
fn round_trip_keeps_members() {
    let mut b = Breeding::new();
    b.add_pokemon(Pokemon::new("Salamèche \"le\" \\ rouge", 5, PokemonType::Fire, Gender::Male));
    b.add_pokemon(Pokemon::new("", 1, PokemonType::Grass, Gender::Female));
    b.add_pokemon(Pokemon::new("Raichu", u32::MAX, PokemonType::Electric, Gender::Male));
    b.train_all(99);
    let loaded = Breeding::from_json(&b.to_json()).unwrap();
    let text = b.to_json_text();
    let from_text = Breeding::from_json_text(&text).unwrap();
    for other in [&loaded, &from_text] {
        assert_eq!(other.members().len(), 3);
        for (x, y) in b.members().iter().zip(other.members().iter()) {
            assert_eq!(x.name, y.name);
            assert_eq!(x.level, y.level);
            assert_eq!(x.pokemon_type, y.pokemon_type);
            assert_eq!(x.xp, y.xp);
            assert_eq!(x.gender, y.gender);
        }
    }
}

#[test]
fn round_trip_of_empty_roster() {
    let b = Breeding::new();
    let loaded = Breeding::from_json_text(&b.to_json_text()).unwrap();
    assert!(loaded.members().is_empty());
}

#[test]
fn decode_ignores_field_order_and_extra_fields() {
    let v = value(
        r#"{"pokemon_list":[{"gender":"Female","xp":7,"extra":true,"pokemon_type":"Water","level":9,"name":"Carapuce"}]}"#,
    );
    let b = Breeding::from_json(&v).unwrap();
    let p = &b.members()[0];
    assert_eq!(p.name, "Carapuce");
    assert_eq!(p.level, 9);
    assert_eq!(p.pokemon_type, PokemonType::Water);
    assert_eq!(p.xp, 7);
    assert_eq!(p.gender, Gender::Female);
}

#[test]
fn decode_rejects_missing_field() {
    let v = value(r#"{"pokemon_list":[{"name":"a","level":5,"pokemon_type":"Fire","gender":"Male"}]}"#);
    assert_eq!(Breeding::from_json(&v).err(), Some(PersistenceError::Decode));
}

#[test]
fn decode_rejects_wrong_type() {
    let v = value(r#"{"pokemon_list":[{"name":"a","level":"5","pokemon_type":"Fire","xp":0,"gender":"Male"}]}"#);
    assert_eq!(Breeding::from_json(&v).err(), Some(PersistenceError::Decode));
    let v = value(r#"{"pokemon_list":[{"name":"a","level":-5,"pokemon_type":"Fire","xp":0,"gender":"Male"}]}"#);
    assert_eq!(Breeding::from_json(&v).err(), Some(PersistenceError::Decode));
    let v = value(r#"{"pokemon_list":[{"name":"a","level":4294967296,"pokemon_type":"Fire","xp":0,"gender":"Male"}]}"#);
    assert_eq!(Breeding::from_json(&v).err(), Some(PersistenceError::Decode));
    let v = value(r#"{"pokemon_list":{}}"#);
    assert_eq!(Breeding::from_json(&v).err(), Some(PersistenceError::Decode));
    let v = value(r#"[]"#);
    assert_eq!(Breeding::from_json(&v).err(), Some(PersistenceError::Decode));
}

#[test]
fn decode_rejects_unknown_names() {
    let v = value(r#"{"pokemon_list":[{"name":"a","level":5,"pokemon_type":"Rock","xp":0,"gender":"Male"}]}"#);
    assert_eq!(Breeding::from_json(&v).err(), Some(PersistenceError::Decode));
    let v = value(r#"{"pokemon_list":[{"name":"a","level":5,"pokemon_type":"Fire","xp":0,"gender":"Other"}]}"#);
    assert_eq!(Breeding::from_json(&v).err(), Some(PersistenceError::Decode));
}

#[test]
fn decode_is_all_or_nothing() {
    let v = value(
        r#"{"pokemon_list":[{"name":"a","level":5,"pokemon_type":"Fire","xp":0,"gender":"Male"},{"name":"b"}]}"#,
    );
    assert_eq!(Breeding::from_json(&v).err(), Some(PersistenceError::Decode));
}

#[test]
fn decode_rejects_bad_text() {
    assert_eq!(Breeding::from_json_text("{not json").err(), Some(PersistenceError::Decode));
    assert_eq!(Breeding::from_json_text("").err(), Some(PersistenceError::Decode));
}

#[test]
fn names_round_trip() {
    for t in [PokemonType::Fire, PokemonType::Water, PokemonType::Grass, PokemonType::Electric] {
        assert_eq!(PokemonType::from_name(t.name()), Some(t));
    }
    for g in [Gender::Male, Gender::Female] {
        assert_eq!(Gender::from_name(g.name()), Some(g));
    }
    assert_eq!(PokemonType::from_name("fire"), None);
    assert_eq!(Gender::from_name(""), None);
}

#[test]
fn decode_rejects_ill_formed_creatures() {
    let v = value(r#"{"pokemon_list":[{"name":"a","level":5,"pokemon_type":"Fire","xp":100,"gender":"Male"}]}"#);
    assert_eq!(Breeding::from_json(&v).err(), Some(PersistenceError::Decode));
    let v = value(r#"{"pokemon_list":[{"name":"a","level":0,"pokemon_type":"Fire","xp":0,"gender":"Male"}]}"#);
    assert_eq!(Breeding::from_json(&v).err(), Some(PersistenceError::Decode));
    let v = value(r#"{"pokemon_list":[{"name":"a","level":1,"pokemon_type":"Fire","xp":99,"gender":"Male"}]}"#);
    let b = Breeding::from_json(&v).unwrap();
    assert_eq!((b.members()[0].level, b.members()[0].xp), (1, 99));
}

#[test]
fn json_text_is_indented_and_parses_back() {
    let mut b = Breeding::new();
    b.add_pokemon(Pokemon::new("a", 5, PokemonType::Fire, Gender::Male));
    let text = b.to_json_text();
    assert!(text.contains('\n'));
    let parsed: serde_json::Value = serde_json::from_str(&text).unwrap();
    assert_eq!(parsed, b.to_json());
}

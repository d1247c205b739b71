//! Persistence of a roster as a JSON document of the form
//! `{"pokemon_list": [{"name": .., "level": .., "pokemon_type": .., "xp": .., "gender": ..}, ..]}`.
//!
//! JSON values are serde_json's `Value`; what one holds is described by
//! `json_model`, and encoding and decoding are verified against it.
use vstd::prelude::*;
use crate::breeding::Breeding;
use crate::creature::{Gender, Pokemon, PokemonType, XP_PER_LEVEL};

verus! {

#[verifier::external_type_specification]
#[verifier::external_body]
pub struct ExJsonValue(serde_json::Value);

#[verifier::external_type_specification]
#[verifier::external_body]
pub struct ExJsonError(serde_json::Error);

/// What a JSON value holds. A number is described by its value as a `u64`,
/// or by `None` when it is negative or fractional.
pub enum JsonModel {
    Null,
    Bool(bool),
    Num(Option<u64>),
    Str(Seq<char>),
    Arr(Seq<JsonModel>),
    Obj(Map<Seq<char>, JsonModel>),
}

/// What a serde_json value holds.
pub uninterp spec fn json_model(v: serde_json::Value) -> JsonModel;

/// The models of a sequence of values.
pub open spec fn json_models(vs: Seq<serde_json::Value>) -> Seq<JsonModel> {
    vs.map_values(|v: serde_json::Value| json_model(v))
}

/// Relies on `Value::String`: a JSON string holding `s`.
#[verifier::external_body]
fn json_string(s: &str) -> (r: serde_json::Value)
    ensures
        json_model(r) == JsonModel::Str(s@),
{
    serde_json::Value::String(s.to_string())
}

/// Relies on `Value::from(u32)`: a non-negative JSON number.
#[verifier::external_body]
fn json_number(n: u32) -> (r: serde_json::Value)
    ensures
        json_model(r) == JsonModel::Num(Some(n as u64)),
{
    serde_json::Value::from(n)
}

/// Relies on `Map::new`: an empty JSON object.
#[verifier::external_body]
fn json_empty_object() -> (r: serde_json::Value)
    ensures
        json_model(r) == JsonModel::Obj(Map::empty()),
{
    serde_json::Value::Object(serde_json::Map::new())
}

/// Relies on `Value::as_object_mut` and `Map::insert`: sets a field of an
/// object, replacing any field of the same key.
#[verifier::external_body]
fn json_insert(obj: &mut serde_json::Value, key: &str, v: serde_json::Value)
    requires
        json_model(*old(obj)) is Obj,
    ensures
        json_model(*final(obj)) == JsonModel::Obj(
            json_model(*old(obj))->Obj_0.insert(key@, json_model(v)),
        ),
{
    if let Some(m) = obj.as_object_mut() {
        m.insert(key.to_string(), v);
    }
}

/// Relies on `Value::Array`: a JSON array of the given items.
#[verifier::external_body]
fn json_array(items: Vec<serde_json::Value>) -> (r: serde_json::Value)
    ensures
        json_model(r) == JsonModel::Arr(json_models(items@)),
{
    serde_json::Value::Array(items)
}

/// Relies on `Value::get` with a string key: the field of an object, or
/// nothing when the value is no object or has no such field.
#[verifier::external_body]
fn json_field<'a>(v: &'a serde_json::Value, key: &str) -> (r: Option<&'a serde_json::Value>)
    ensures
        match json_model(*v) {
            JsonModel::Obj(m) => if m.contains_key(key@) {
                r is Some && json_model(*r->0) == m[key@]
            } else {
                r is None
            },
            _ => r is None,
        },
{
    v.get(key)
}

/// Relies on `Value::as_str`: the text of a JSON string.
#[verifier::external_body]
fn json_as_str(v: &serde_json::Value) -> (r: Option<&str>)
    ensures
        match json_model(*v) {
            JsonModel::Str(s) => r is Some && r->0@ == s,
            _ => r is None,
        },
{
    v.as_str()
}

/// Relies on `Value::as_u64`: a JSON number that is a non-negative integer.
#[verifier::external_body]
fn json_as_u64(v: &serde_json::Value) -> (r: Option<u64>)
    ensures
        match json_model(*v) {
            JsonModel::Num(n) => r == n,
            _ => r is None,
        },
{
    v.as_u64()
}

/// Relies on `Value::as_array`: the items of a JSON array.
#[verifier::external_body]
fn json_as_array(v: &serde_json::Value) -> (r: Option<&Vec<serde_json::Value>>)
    ensures
        match json_model(*v) {
            JsonModel::Arr(items) => r is Some && json_models(r->0@) == items,
            _ => r is None,
        },
{
    v.as_array()
}

/// The name under which a kind is stored.
pub open spec fn kind_name(t: PokemonType) -> Seq<char> {
    match t {
        PokemonType::Fire => "Fire"@,
        PokemonType::Water => "Water"@,
        PokemonType::Grass => "Grass"@,
        PokemonType::Electric => "Electric"@,
    }
}

/// The name under which a gender is stored.
pub open spec fn gender_name(g: Gender) -> Seq<char> {
    match g {
        Gender::Male => "Male"@,
        Gender::Female => "Female"@,
    }
}

/// The stored form of one creature.
pub open spec fn pokemon_json(p: Pokemon) -> JsonModel {
    JsonModel::Obj(
        Map::empty().insert("name"@, JsonModel::Str(p.name@)).insert(
            "level"@,
            JsonModel::Num(Some(p.level as u64)),
        ).insert("pokemon_type"@, JsonModel::Str(kind_name(p.pokemon_type))).insert(
            "xp"@,
            JsonModel::Num(Some(p.xp as u64)),
        ).insert("gender"@, JsonModel::Str(gender_name(p.gender))),
    )
}

/// The stored form of a roster's members.
pub open spec fn roster_json(members: Seq<Pokemon>) -> JsonModel {
    JsonModel::Obj(
        Map::empty().insert(
            "pokemon_list"@,
            JsonModel::Arr(members.map_values(|p: Pokemon| pokemon_json(p))),
        ),
    )
}

impl PokemonType {
    /// The name under which the kind is stored.
    pub fn name(&self) -> (r: &'static str)
        ensures
            r@ == kind_name(*self),
    {
        match self {
            PokemonType::Fire => "Fire",
            PokemonType::Water => "Water",
            PokemonType::Grass => "Grass",
            PokemonType::Electric => "Electric",
        }
    }
}

impl Gender {
    /// The name under which the gender is stored.
    pub fn name(&self) -> (r: &'static str)
        ensures
            r@ == gender_name(*self),
    {
        match self {
            Gender::Male => "Male",
            Gender::Female => "Female",
        }
    }
}

impl Pokemon {
    /// The stored form of the creature.
    pub fn to_json(&self) -> (r: serde_json::Value)
        ensures
            json_model(r) == pokemon_json(*self),
    {
        let mut obj = json_empty_object();
        json_insert(&mut obj, "name", json_string(self.name.as_str()));
        json_insert(&mut obj, "level", json_number(self.level));
        json_insert(&mut obj, "pokemon_type", json_string(self.pokemon_type.name()));
        json_insert(&mut obj, "xp", json_number(self.xp));
        json_insert(&mut obj, "gender", json_string(self.gender.name()));
        proof {
            reveal_strlit("name");
            reveal_strlit("level");
            reveal_strlit("pokemon_type");
            reveal_strlit("xp");
            reveal_strlit("gender");
        }
        obj
    }
}

impl Breeding {
    /// The stored form of the roster.
    pub fn to_json(&self) -> (r: serde_json::Value)
        ensures
            json_model(r) == roster_json(self@),
    {
        let members = self.members();
        let mut items: Vec<serde_json::Value> = Vec::new();
        let n = members.len();
        for i in 0..n
            invariant
                n == members@.len(),
                members@ == self@,
                json_models(items@) == self@.take(i as int).map_values(
                    |p: Pokemon| pokemon_json(p),
                ),
        {
            let v = members[i].to_json();
            let ghost before = items@;
            items.push(v);
            assert(json_models(items@) =~= json_models(before).push(json_model(v)));
            assert(self@.take(i + 1) =~= self@.take(i as int).push(self@[i as int]));
            assert(json_models(items@) =~= self@.take(i + 1).map_values(
                |p: Pokemon| pokemon_json(p),
            ));
        }
        assert(self@.take(n as int) =~= self@);
        let mut doc = json_empty_object();
        json_insert(&mut doc, "pokemon_list", json_array(items));
        doc
    }
}

/// The indented JSON text of a value.
pub uninterp spec fn pretty_text(v: serde_json::Value) -> Seq<char>;

/// What JSON text parses to, or nothing when it is no JSON.
pub uninterp spec fn parsed_json(text: Seq<char>) -> Option<JsonModel>;

/// Relies on `serde_json::to_string_pretty`: the indented text of a value.
/// It fails only when a `Serialize` impl fails or a map has keys that are
/// not strings, and a `Value` has neither.
#[verifier::external_body]
fn json_to_text(v: &serde_json::Value) -> (r: Result<String, serde_json::Error>)
    ensures
        r is Ok,
        r matches Ok(t) ==> t@ == pretty_text(*v),
{
    serde_json::to_string_pretty(v)
}

/// Relies on `serde_json::from_str`: parses JSON text into a value; the
/// outcome depends on the text alone.
#[verifier::external_body]
fn json_from_text(text: &str) -> (r: Result<serde_json::Value, serde_json::Error>)
    ensures
        r is Ok <==> parsed_json(text@) is Some,
        r matches Ok(v) ==> parsed_json(text@) == Some(json_model(v)),
{
    serde_json::from_str(text)
}

/// Why a roster could not be stored or read back.
#[derive(Debug, Clone, Copy, PartialEq, Eq, Structural)]
pub enum PersistenceError {
    /// The storage could not be read or written.
    Io,
    /// The stored text is no roster: bad JSON, a missing field, a field of
    /// the wrong type or an unknown kind or gender.
    Decode,
}

/// Whether `s` is the stored name of a kind.
pub open spec fn is_kind_name(s: Seq<char>) -> bool {
    s == "Fire"@ || s == "Water"@ || s == "Grass"@ || s == "Electric"@
}

/// Whether `s` is the stored name of a gender.
pub open spec fn is_gender_name(s: Seq<char>) -> bool {
    s == "Male"@ || s == "Female"@
}

/// Whether `j` holds a `u32` number.
pub open spec fn is_u32_number(j: JsonModel) -> bool {
    j matches JsonModel::Num(Some(n)) && n <= u32::MAX
}

/// Whether `j` holds a level: a positive `u32`.
pub open spec fn is_level_number(j: JsonModel) -> bool {
    j matches JsonModel::Num(Some(n)) && 1 <= n <= u32::MAX
}

/// Whether `j` holds an experience: below one level's worth.
pub open spec fn is_xp_number(j: JsonModel) -> bool {
    j matches JsonModel::Num(Some(n)) && n < XP_PER_LEVEL
}

/// Whether `m` has the field `key` and that field satisfies `f`.
pub open spec fn has_field(m: Map<Seq<char>, JsonModel>, key: Seq<char>, f: spec_fn(JsonModel) -> bool) -> bool {
    m.contains_key(key) && f(m[key])
}

/// Whether a stored creature can be read back: an object with the five
/// fields in the right forms, describing a well-formed creature (a positive
/// level, experience below one level's worth). Other fields are ignored.
pub open spec fn pokemon_decodable(j: JsonModel) -> bool {
    j matches JsonModel::Obj(m) && {
        &&& has_field(m, "name"@, |f: JsonModel| f is Str)
        &&& has_field(m, "level"@, |f: JsonModel| is_level_number(f))
        &&& has_field(m, "pokemon_type"@, |f: JsonModel| f matches JsonModel::Str(s) && is_kind_name(s))
        &&& has_field(m, "xp"@, |f: JsonModel| is_xp_number(f))
        &&& has_field(m, "gender"@, |f: JsonModel| f matches JsonModel::Str(s) && is_gender_name(s))
    }
}

/// Whether the stored creature `j` describes `p`: each of the five fields
/// holds the creature's attribute.
pub open spec fn stored_as(p: Pokemon, j: JsonModel) -> bool {
    j matches JsonModel::Obj(m) && {
        &&& has_field(m, "name"@, |f: JsonModel| f == JsonModel::Str(p.name@))
        &&& has_field(m, "level"@, |f: JsonModel| f == JsonModel::Num(Some(p.level as u64)))
        &&& has_field(m, "pokemon_type"@, |f: JsonModel| f == JsonModel::Str(kind_name(p.pokemon_type)))
        &&& has_field(m, "xp"@, |f: JsonModel| f == JsonModel::Num(Some(p.xp as u64)))
        &&& has_field(m, "gender"@, |f: JsonModel| f == JsonModel::Str(gender_name(p.gender)))
    }
}

/// The stored creatures of a stored roster: the items of its `pokemon_list`
/// field, when that field is an array.
pub open spec fn stored_items(j: JsonModel) -> Option<Seq<JsonModel>> {
    match j {
        JsonModel::Obj(m) => if m.contains_key("pokemon_list"@) {
            match m["pokemon_list"@] {
                JsonModel::Arr(items) => Some(items),
                _ => None,
            }
        } else {
            None
        },
        _ => None,
    }
}

/// Whether a stored roster can be read back: an object whose `pokemon_list`
/// field is an array of creatures that can each be read back.
pub open spec fn roster_decodable(j: JsonModel) -> bool {
    match stored_items(j) {
        Some(items) => forall|i: int| 0 <= i < items.len() ==> pokemon_decodable(#[trigger] items[i]),
        None => false,
    }
}

/// Whether the stored roster `j` describes the members `members`, in order.
pub open spec fn stored_roster_as(members: Seq<Pokemon>, j: JsonModel) -> bool {
    match stored_items(j) {
        Some(items) => {
            &&& items.len() == members.len()
            &&& forall|i: int| 0 <= i < items.len() ==> stored_as(members[i], #[trigger] items[i])
        },
        None => false,
    }
}

/// Whether two creatures agree on all five attributes.
pub open spec fn same_attributes(p: Pokemon, q: Pokemon) -> bool {
    &&& p.name@ == q.name@
    &&& p.level == q.level
    &&& p.pokemon_type == q.pokemon_type
    &&& p.xp == q.xp
    &&& p.gender == q.gender
}

/// Whether two sequences of creatures agree member by member, in order.
pub open spec fn same_members(ps: Seq<Pokemon>, qs: Seq<Pokemon>) -> bool {
    ps.len() == qs.len() && forall|i: int| 0 <= i < ps.len() ==> same_attributes(#[trigger] ps[i], qs[i])
}

/// A stored creature describes one creature only, up to its attributes.
pub proof fn lemma_stored_as_unique(p: Pokemon, q: Pokemon, j: JsonModel)
    requires
        stored_as(p, j),
        stored_as(q, j),
    ensures
        same_attributes(p, q),
{
    lemma_names_distinct();
}

/// The stored names of distinct kinds, and of distinct genders, differ.
proof fn lemma_names_distinct()
    ensures
        forall|a: PokemonType, b: PokemonType| kind_name(a) == kind_name(b) ==> a == b,
        forall|a: Gender, b: Gender| gender_name(a) == gender_name(b) ==> a == b,
        forall|a: PokemonType| is_kind_name(#[trigger] kind_name(a)),
        forall|a: Gender| is_gender_name(#[trigger] gender_name(a)),
{
    reveal_strlit("Fire");
    reveal_strlit("Water");
    reveal_strlit("Grass");
    reveal_strlit("Electric");
    reveal_strlit("Male");
    reveal_strlit("Female");
    assert("Fire"@[0] == 'F' && "Water"@[0] == 'W' && "Grass"@[0] == 'G' && "Electric"@[0] == 'E');
    assert("Male"@[0] == 'M' && "Female"@[0] == 'F');
}

/// The five field names of a stored creature differ from one another.
proof fn lemma_field_names_distinct()
    ensures
        "name"@ != "level"@,
        "name"@ != "pokemon_type"@,
        "name"@ != "xp"@,
        "name"@ != "gender"@,
        "level"@ != "pokemon_type"@,
        "level"@ != "xp"@,
        "level"@ != "gender"@,
        "pokemon_type"@ != "xp"@,
        "pokemon_type"@ != "gender"@,
        "xp"@ != "gender"@,
{
    reveal_strlit("name");
    reveal_strlit("level");
    reveal_strlit("pokemon_type");
    reveal_strlit("xp");
    reveal_strlit("gender");
    assert("name"@[0] == 'n' && "level"@[0] == 'l' && "pokemon_type"@[0] == 'p' && "xp"@[0] == 'x'
        && "gender"@[0] == 'g');
}

/// Encoding then decoding gives back the roster: the stored form of any
/// members can be read back, and what is read back agrees with the
/// members on all five attributes, in order.
pub proof fn lemma_round_trip(members: Seq<Pokemon>, decoded: Seq<Pokemon>)
    requires
        forall|i: int| 0 <= i < members.len() ==> #[trigger] members[i].wf(),
    ensures
        roster_decodable(roster_json(members)),
        stored_roster_as(decoded, roster_json(members)) ==> same_members(members, decoded),
{
    lemma_names_distinct();
    lemma_field_names_distinct();
    let items = members.map_values(|p: Pokemon| pokemon_json(p));
    assert forall|i: int| 0 <= i < items.len() implies pokemon_decodable(#[trigger] items[i]) by {
        assert(items[i] == pokemon_json(members[i]));
        assert(members[i].wf());
    }
    if stored_roster_as(decoded, roster_json(members)) {
        assert forall|i: int| 0 <= i < members.len() implies same_attributes(#[trigger] members[i], decoded[i]) by {
            assert(items[i] == pokemon_json(members[i]));
            assert(stored_as(decoded[i], items[i]));
            assert(stored_as(members[i], items[i]));
            lemma_stored_as_unique(members[i], decoded[i], items[i]);
        }
    }
}

impl PokemonType {
    /// The kind stored under `s`, if any.
    pub fn from_name(s: &str) -> (r: Option<PokemonType>)
        ensures
            r is Some <==> is_kind_name(s@),
            r matches Some(t) ==> kind_name(t) == s@,
    {
        proof {
            lemma_names_distinct();
        }
        let owned = s.to_string();
        if owned == "Fire".to_string() {
            Some(PokemonType::Fire)
        } else if owned == "Water".to_string() {
            Some(PokemonType::Water)
        } else if owned == "Grass".to_string() {
            Some(PokemonType::Grass)
        } else if owned == "Electric".to_string() {
            Some(PokemonType::Electric)
        } else {
            None
        }
    }
}

impl Gender {
    /// The gender stored under `s`, if any.
    pub fn from_name(s: &str) -> (r: Option<Gender>)
        ensures
            r is Some <==> is_gender_name(s@),
            r matches Some(g) ==> gender_name(g) == s@,
    {
        proof {
            lemma_names_distinct();
        }
        let owned = s.to_string();
        if owned == "Male".to_string() {
            Some(Gender::Male)
        } else if owned == "Female".to_string() {
            Some(Gender::Female)
        } else {
            None
        }
    }
}

/// The text field `key` of a stored object, if it is there and a string.
fn text_field<'a>(v: &'a serde_json::Value, key: &str) -> (r: Option<&'a str>)
    ensures
        r is Some <==> (json_model(*v) matches JsonModel::Obj(m) && has_field(m, key@, |f: JsonModel| f is Str)),
        r matches Some(t) ==> (json_model(*v) matches JsonModel::Obj(m) && m[key@] == JsonModel::Str(t@)),
{
    match json_field(v, key) {
        Some(f) => json_as_str(f),
        None => None,
    }
}

/// The `u32` field `key` of a stored object, if it is there and fits.
fn u32_field(v: &serde_json::Value, key: &str) -> (r: Option<u32>)
    ensures
        r is Some <==> (json_model(*v) matches JsonModel::Obj(m) && has_field(m, key@, |f: JsonModel| is_u32_number(f))),
        r matches Some(n) ==> (json_model(*v) matches JsonModel::Obj(m) && m[key@] == JsonModel::Num(Some(n as u64))),
{
    match json_field(v, key) {
        Some(f) => match json_as_u64(f) {
            Some(n) => if n <= u32::MAX as u64 {
                Some(n as u32)
            } else {
                None
            },
            None => None,
        },
        None => None,
    }
}

impl Pokemon {
    /// Reads a creature back from its stored form.
    pub fn from_json(v: &serde_json::Value) -> (r: Option<Pokemon>)
        ensures
            r is Some <==> pokemon_decodable(json_model(*v)),
            r matches Some(p) ==> stored_as(p, json_model(*v)) && p.wf(),
    {
        proof {
            lemma_names_distinct();
        }
        let name = match text_field(v, "name") {
            Some(t) => t,
            None => return None,
        };
        let level = match u32_field(v, "level") {
            Some(n) => if n >= 1 {
                n
            } else {
                return None;
            },
            None => return None,
        };
        let pokemon_type = match text_field(v, "pokemon_type") {
            Some(t) => match PokemonType::from_name(t) {
                Some(k) => k,
                None => return None,
            },
            None => return None,
        };
        let xp = match u32_field(v, "xp") {
            Some(n) => if n < XP_PER_LEVEL {
                n
            } else {
                return None;
            },
            None => return None,
        };
        let gender = match text_field(v, "gender") {
            Some(t) => match Gender::from_name(t) {
                Some(g) => g,
                None => return None,
            },
            None => return None,
        };
        Some(Pokemon { name: name.to_string(), level, pokemon_type, xp, gender })
    }
}

impl Breeding {
    /// Reads a roster back from its stored form, all or nothing.
    pub fn from_json(v: &serde_json::Value) -> (r: Result<Breeding, PersistenceError>)
        ensures
            r is Ok <==> roster_decodable(json_model(*v)),
            r matches Ok(b) ==> stored_roster_as(b@, json_model(*v)),
            r matches Ok(b) ==> forall|i: int| 0 <= i < b@.len() ==> #[trigger] b@[i].wf(),
            r matches Err(e) ==> e == PersistenceError::Decode,
    {
        proof {
            reveal_strlit("pokemon_list");
        }
        let list = match json_field(v, "pokemon_list") {
            Some(l) => l,
            None => return Err(PersistenceError::Decode),
        };
        let items = match json_as_array(list) {
            Some(a) => a,
            None => return Err(PersistenceError::Decode),
        };
        let ghost stored = json_models(items@);
        let mut b = Breeding::new();
        let n = items.len();
        for i in 0..n
            invariant
                n == items@.len(),
                stored == json_models(items@),
                stored_items(json_model(*v)) == Some(stored),
                b@.len() == i,
                forall|j: int| 0 <= j < i ==> pokemon_decodable(#[trigger] stored[j]),
                forall|j: int| 0 <= j < i ==> stored_as(b@[j], #[trigger] stored[j]),
                forall|j: int| 0 <= j < i ==> #[trigger] b@[j].wf(),
        {
            assert(stored[i as int] == json_model(items@[i as int]));
            match Pokemon::from_json(&items[i]) {
                Some(p) => b.add_pokemon(p),
                None => {
                    assert(!pokemon_decodable(stored[i as int]));
                    assert(stored.len() == n);
                    assert(!roster_decodable(json_model(*v))) by {
                        if roster_decodable(json_model(*v)) {
                            let items = stored_items(json_model(*v))->Some_0;
                            assert(items == stored);
                            assert(pokemon_decodable(items[i as int]));
                        }
                    }
                    return Err(PersistenceError::Decode);
                },
            }
        }
        Ok(b)
    }

    /// The roster as indented JSON text: the text of its stored form.
    pub fn to_json_text(&self) -> (r: String)
        ensures
            exists|v: serde_json::Value| json_model(v) == roster_json(self@) && r@ == pretty_text(v),
    {
        let v = self.to_json();
        match json_to_text(&v) {
            Ok(t) => t,
            Err(_) => {
                proof {
                    assert(false);
                }
                String::new()
            },
        }
    }

    /// Reads a roster back from JSON text, all or nothing.
    pub fn from_json_text(text: &str) -> (r: Result<Breeding, PersistenceError>)
        ensures
            r is Ok <==> (parsed_json(text@) matches Some(j) && roster_decodable(j)),
            r matches Ok(b) ==> stored_roster_as(b@, parsed_json(text@)->Some_0),
            r matches Ok(b) ==> forall|i: int| 0 <= i < b@.len() ==> #[trigger] b@[i].wf(),
            r matches Err(e) ==> e == PersistenceError::Decode,
    {
        match json_from_text(text) {
            Ok(v) => Breeding::from_json(&v),
            Err(_) => Err(PersistenceError::Decode),
        }
    }
}

} // verus!

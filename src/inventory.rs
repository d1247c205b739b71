//! A product inventory kept as `name,quantity` lines.
use vstd::prelude::*;
use crate::creature::{decimal, decimal_text};

verus! {

#[derive(Debug)]
pub struct Produit {
    pub nom: String,
    pub quantite: u32,
}

/// Whether `c` is an ASCII decimal digit.
pub open spec fn is_digit(c: char) -> bool {
    '0' <= c && c <= '9'
}

/// The value of a string of decimal digits.
pub open spec fn digits_value(s: Seq<char>) -> int
    decreases s.len(),
{
    if s.len() == 0 {
        0
    } else {
        digits_value(s.drop_last()) * 10 + (s.last() as int - '0' as int)
    }
}

/// The `u32` that `s` writes in decimal, with an optional leading `+`;
/// nothing when `s` is empty, holds any other character, or overflows.
pub open spec fn parsed_u32(s: Seq<char>) -> Option<u32> {
    let d = if s.len() > 0 && s[0] == '+' {
        s.drop_first()
    } else {
        s
    };
    if d.len() > 0 && (forall|i: int| 0 <= i < d.len() ==> is_digit(#[trigger] d[i])) && digits_value(d)
        <= u32::MAX {
        Some(digits_value(d) as u32)
    } else {
        None
    }
}

/// Relies on `str::parse::<u32>`: decimal digits with an optional leading
/// `+`, rejected when empty, holding another character, or too large.
#[verifier::external_body]
fn parse_u32(s: &str) -> (r: Option<u32>)
    ensures
        r == parsed_u32(s@),
{
    s.parse::<u32>().ok()
}

/// The quantity that `text` writes, if it is a valid `u32`.
pub fn parse_quantite(text: &str) -> (r: Option<u32>)
    ensures
        r == parsed_u32(text@),
{
    parse_u32(text)
}

/// The position of the first product named `nom`, if any.
pub fn position_produit(inventaire: &Vec<Produit>, nom: &str) -> (r: Option<usize>)
    ensures
        match r {
            Some(i) => i < inventaire@.len() && inventaire@[i as int].nom@ == nom@ && forall|j: int|
                0 <= j < i ==> inventaire@[j].nom@ != nom@,
            None => forall|j: int| 0 <= j < inventaire@.len() ==> inventaire@[j].nom@ != nom@,
        },
{
    let key = nom.to_string();
    let n = inventaire.len();
    for i in 0..n
        invariant
            n == inventaire@.len(),
            key@ == nom@,
            forall|j: int| 0 <= j < i ==> inventaire@[j].nom@ != nom@,
    {
        if inventaire[i].nom == key {
            return Some(i);
        }
    }
    None
}

/// Adds a product when `quantite_text` is a valid quantity; tells whether
/// it was added. Otherwise the inventory is left as it was.
pub fn ajouter_produit(inventaire: &mut Vec<Produit>, nom: String, quantite_text: &str) -> (r: bool)
    ensures
        r == parsed_u32(quantite_text@) is Some,
        r ==> final(inventaire)@.len() == old(inventaire)@.len() + 1 && final(inventaire)@.drop_last()
            == old(inventaire)@ && final(inventaire)@.last().nom == nom
            && final(inventaire)@.last().quantite == parsed_u32(quantite_text@)->Some_0,
        !r ==> final(inventaire)@ == old(inventaire)@,
{
    match parse_u32(quantite_text) {
        Some(quantite) => {
            inventaire.push(Produit { nom, quantite });
            assert(inventaire@.drop_last() =~= old(inventaire)@);
            true
        },
        None => false,
    }
}

/// Removes the first product named `nom`; tells whether there was one.
pub fn supprimer_produit(inventaire: &mut Vec<Produit>, nom: &str) -> (r: bool)
    ensures
        r == exists|j: int| 0 <= j < old(inventaire)@.len() && old(inventaire)@[j].nom@ == nom@,
        r ==> exists|i: int|
            0 <= i < old(inventaire)@.len() && old(inventaire)@[i].nom@ == nom@ && (forall|j: int|
                0 <= j < i ==> old(inventaire)@[j].nom@ != nom@) && final(inventaire)@ == old(
                inventaire,
            )@.remove(i),
        !r ==> final(inventaire)@ == old(inventaire)@,
{
    match position_produit(inventaire, nom) {
        Some(i) => {
            inventaire.remove(i);
            true
        },
        None => false,
    }
}

/// What came of a change of quantity.
#[derive(Debug, Clone, Copy, PartialEq, Eq, Structural)]
pub enum Modification {
    Modified,
    NotFound,
    InvalidQuantity,
}

/// Sets the quantity of the first product named `nom` to what
/// `quantite_text` writes.
pub fn modifier_produit(inventaire: &mut Vec<Produit>, nom: &str, quantite_text: &str) -> (r: Modification)
    ensures
        final(inventaire)@.len() == old(inventaire)@.len(),
        (forall|j: int| 0 <= j < old(inventaire)@.len() ==> old(inventaire)@[j].nom@ != nom@) ==> r
            == Modification::NotFound,
        r == Modification::NotFound ==> forall|j: int| 0 <= j < old(inventaire)@.len() ==> old(inventaire)@[j].nom@ != nom@,
        r == Modification::InvalidQuantity <==> (exists|j: int| 0 <= j < old(inventaire)@.len() && old(inventaire)@[j].nom@ == nom@) && parsed_u32(quantite_text@) is None,
        r != Modification::Modified ==> final(inventaire)@ == old(inventaire)@,
        r == Modification::Modified ==> exists|i: int|
            0 <= i < old(inventaire)@.len() && old(inventaire)@[i].nom@ == nom@ && (forall|j: int|
                0 <= j < i ==> old(inventaire)@[j].nom@ != nom@) && final(inventaire)@[i].nom == old(inventaire)@[i].nom
                && Some(final(inventaire)@[i].quantite) == parsed_u32(quantite_text@)
                && forall|j: int| 0 <= j < old(inventaire)@.len() && j != i ==> final(inventaire)@[j] == old(inventaire)@[j],
{
    match position_produit(inventaire, nom) {
        Some(i) => match parse_u32(quantite_text) {
            Some(quantite) => {
                inventaire[i].quantite = quantite;
                Modification::Modified
            },
            None => Modification::InvalidQuantity,
        },
        None => Modification::NotFound,
    }
}

/// The stored line of one product: its name, a comma, its quantity.
pub open spec fn product_line(p: Produit) -> Seq<char> {
    p.nom@ + seq![','] + decimal(p.quantite as nat) + seq!['\n']
}

/// The stored text of an inventory: one line per product, in order.
pub open spec fn inventory_text(inventaire: Seq<Produit>) -> Seq<char>
    decreases inventaire.len(),
{
    if inventaire.len() == 0 {
        Seq::empty()
    } else {
        inventory_text(inventaire.drop_last()) + product_line(inventaire.last())
    }
}

/// The inventory as `name,quantity` lines.
pub fn inventaire_text(inventaire: &Vec<Produit>) -> (r: String)
    ensures
        r@ == inventory_text(inventaire@),
{
    let mut contents = String::new();
    let n = inventaire.len();
    for i in 0..n
        invariant
            n == inventaire@.len(),
            contents@ == inventory_text(inventaire@.take(i as int)),
    {
        let p = &inventaire[i];
        contents.append(p.nom.as_str());
        contents.append(",");
        contents.append(decimal_text(p.quantite).as_str());
        contents.append("\n");
        proof {
            reveal_strlit(",");
            reveal_strlit("\n");
            assert(inventaire@.take(i + 1).drop_last() =~= inventaire@.take(i as int));
            assert(contents@ =~= inventory_text(inventaire@.take(i + 1)));
        }
    }
    assert(inventaire@.take(n as int) =~= inventaire@);
    contents
}

/// Whether the only comma of `line` stands at `k`.
pub open spec fn single_comma_at(line: Seq<char>, k: int) -> bool {
    &&& 0 <= k < line.len()
    &&& line[k] == ','
    &&& forall|j: int| 0 <= j < line.len() && j != k ==> line[j] != ','
}

/// Whether `line` stores a product: exactly one comma, then a valid
/// quantity.
pub open spec fn line_ok(line: Seq<char>) -> bool {
    exists|k: int| single_comma_at(line, k) && parsed_u32(line.skip(k + 1)) is Some
}

/// Whether `p` is the product that `line` stores: the name before the
/// comma, the quantity after it.
pub open spec fn line_stores(line: Seq<char>, p: Produit) -> bool {
    exists|k: int|
        single_comma_at(line, k) && p.nom@ == line.take(k) && parsed_u32(line.skip(k + 1)) == Some(
            p.quantite,
        )
}

/// The product that a stored line describes, if it is well formed.
pub fn parse_ligne(line: &str) -> (r: Option<Produit>)
    ensures
        r is Some <==> line_ok(line@),
        r matches Some(p) ==> line_stores(line@, p),
{
    let n = line.unicode_len();
    let mut k: usize = 0;
    while k < n && line.get_char(k) != ','
        invariant
            n == line@.len(),
            k <= n,
            forall|j: int| 0 <= j < k ==> line@[j] != ',',
        decreases n - k,
    {
        k = k + 1;
    }
    if k == n {
        return None;
    }
    let mut j: usize = k + 1;
    while j < n
        invariant
            n == line@.len(),
            k < j <= n,
            line@[k as int] == ',',
            forall|i: int| 0 <= i < k ==> line@[i] != ',',
            forall|i: int| k < i < j ==> line@[i] != ',',
        decreases n - j,
    {
        if line.get_char(j) == ',' {
            assert(!line_ok(line@)) by {
                if line_ok(line@) {
                    let w = choose|w: int| single_comma_at(line@, w) && parsed_u32(line@.skip(w + 1)) is Some;
                    assert(w == k as int || line@[k as int] != ',');
                    assert(w == j as int || line@[j as int] != ',');
                }
            }
            return None;
        }
        j = j + 1;
    }
    assert(single_comma_at(line@, k as int));
    let nom = line.substring_char(0, k);
    let rest = line.substring_char(k + 1, n);
    match parse_u32(rest) {
        Some(quantite) => {
            let p = Produit { nom: nom.to_string(), quantite };
            assert(line_stores(line@, p));
            Some(p)
        },
        None => {
            assert(!line_ok(line@)) by {
                if line_ok(line@) {
                    let w = choose|w: int| single_comma_at(line@, w) && parsed_u32(line@.skip(w + 1)) is Some;
                    assert(w == k as int || line@[w] != ',');
                    assert(line@.skip(w + 1) =~= rest@);
                }
            }
            None
        },
    }
}

/// The text of each line in a sequence of lines.
pub open spec fn line_views(lines: Seq<String>) -> Seq<Seq<char>> {
    lines.map_values(|l: String| l@)
}

/// The pieces of `s` between line feeds, in order: one more than there are
/// line feeds.
pub open spec fn split_at_newlines(s: Seq<char>) -> Seq<Seq<char>>
    decreases s.len(),
{
    if s.len() == 0 {
        seq![Seq::empty()]
    } else {
        let p = split_at_newlines(s.drop_last());
        if s.last() == '\n' {
            p.push(Seq::empty())
        } else {
            p.update(p.len() - 1, p.last().push(s.last()))
        }
    }
}

/// A line without the carriage return that ends it, if one does.
pub open spec fn strip_cr(l: Seq<char>) -> Seq<char> {
    if l.len() > 0 && l.last() == '\r' {
        l.drop_last()
    } else {
        l
    }
}

/// The lines of a text: the pieces between line feeds, each ended by a
/// line feed losing a carriage return before it; a final line feed ends
/// the last line rather than starting an empty one, and a last line
/// without a line feed is kept as it is.
pub open spec fn lines_of(s: Seq<char>) -> Seq<Seq<char>> {
    let pieces = split_at_newlines(s);
    let ended = pieces.drop_last().map_values(|l: Seq<char>| strip_cr(l));
    if s.len() == 0 || s.last() == '\n' {
        ended
    } else {
        ended.push(pieces.last())
    }
}

/// Relies on `str::lines`: the text cut at each line feed, a carriage
/// return before a line feed dropped with it, no empty line after a final
/// line feed.
#[verifier::external_body]
fn text_lines(s: &str) -> (r: Vec<String>)
    ensures
        line_views(r@) == lines_of(s@),
{
    s.lines().map(|l| l.to_string()).collect()
}

/// Whether `products` and `rejected` are what reading `lines` gives: the
/// product of each well-formed line, in order, and the other lines, in
/// order.
pub open spec fn read_back(lines: Seq<Seq<char>>, products: Seq<Produit>, rejected: Seq<Seq<char>>) -> bool {
    let good = lines.filter(|l: Seq<char>| line_ok(l));
    &&& products.len() == good.len()
    &&& forall|i: int| 0 <= i < products.len() ==> line_stores(good[i], #[trigger] products[i])
    &&& rejected == lines.filter(|l: Seq<char>| !line_ok(l))
}

/// Reads an inventory from its lines: the products of the well-formed
/// lines, and the lines that are not.
pub fn inventaire_from_lines(lines: &Vec<String>) -> (r: (Vec<Produit>, Vec<String>))
    ensures
        read_back(line_views(lines@), r.0@, line_views(r.1@)),
{
    let mut products: Vec<Produit> = Vec::new();
    let mut rejected: Vec<String> = Vec::new();
    let n = lines.len();
    proof {
        reveal(Seq::filter);
        assert(line_views(lines@).take(0) =~= Seq::<Seq<char>>::empty());
        assert(line_views(rejected@) =~= Seq::<Seq<char>>::empty());
    }
    for i in 0..n
        invariant
            n == lines@.len(),
            read_back(line_views(lines@).take(i as int), products@, line_views(rejected@)),
    {
        let ghost all = line_views(lines@);
        let ghost before = rejected@;
        proof {
            assert(all.take(i + 1).drop_last() =~= all.take(i as int));
            assert(all.take(i + 1).last() == lines@[i as int]@);
            reveal(Seq::filter);
        }
        match parse_ligne(lines[i].as_str()) {
            Some(p) => {
                products.push(p);
            },
            None => {
                rejected.push(lines[i].clone());
                assert(line_views(rejected@) =~= line_views(before).push(lines@[i as int]@));
            },
        }
    }
    assert(line_views(lines@).take(n as int) =~= line_views(lines@));
    (products, rejected)
}

/// Reads an inventory from its stored text.
pub fn charger_inventaire(contents: &str) -> (r: (Vec<Produit>, Vec<String>))
    ensures
        read_back(lines_of(contents@), r.0@, line_views(r.1@)),
{
    inventaire_from_lines(&text_lines(contents))
}

} // verus!

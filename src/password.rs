//! Random passwords drawn from letters, digits and special characters, less
//! the characters that the user excludes.
use vstd::prelude::*;
use rand::Rng;

verus! {

/// Relies on `rand::thread_rng().gen_range(0..n)`: an index below `n`,
/// drawn at random. `gen_range` panics on an empty range, hence `n > 0`.
#[verifier::external_body]
fn random_below(n: usize) -> (r: usize)
    requires
        n > 0,
    ensures
        r < n,
{
    rand::thread_rng().gen_range(0..n)
}

/// Relies on `String::push`: appends one character.
#[verifier::external_body]
pub(crate) fn push_char(s: &mut String, c: char)
    ensures
        final(s)@ == old(s)@.push(c),
{
    s.push(c)
}

/// The characters of `combined` that `exclude` does not hold, in order.
pub open spec fn allowed_spec(combined: Seq<char>, exclude: Seq<char>) -> Seq<char> {
    combined.filter(|c: char| !exclude.contains(c))
}

/// Whether `s` holds the character `c`.
pub fn contains_char(s: &str, c: char) -> (r: bool)
    ensures
        r == s@.contains(c),
{
    let n = s.unicode_len();
    for i in 0..n
        invariant
            n == s@.len(),
            forall|j: int| 0 <= j < i ==> s@[j] != c,
    {
        if s.get_char(i) == c {
            return true;
        }
    }
    false
}

/// The characters of `letters`, `numbers` and `special_chars`, in that
/// order, less those that `exclude` holds.
pub fn allowed_chars(letters: &str, numbers: &str, special_chars: &str, exclude: &str) -> (r: Vec<char>)
    ensures
        r@ == allowed_spec(letters@ + numbers@ + special_chars@, exclude@),
{
    let mut r: Vec<char> = Vec::new();
    append_allowed(&mut r, letters, exclude);
    append_allowed(&mut r, numbers, exclude);
    append_allowed(&mut r, special_chars, exclude);
    proof {
        let keep = |c: char| !exclude@.contains(c);
        Seq::filter_distributes_over_add(letters@, numbers@, keep);
        Seq::filter_distributes_over_add(letters@ + numbers@, special_chars@, keep);
    }
    r
}

/// Appends to `r` the characters of `s` that `exclude` does not hold.
fn append_allowed(r: &mut Vec<char>, s: &str, exclude: &str)
    ensures
        final(r)@ == old(r)@ + allowed_spec(s@, exclude@),
{
    let n = s.unicode_len();
    for i in 0..n
        invariant
            n == s@.len(),
            r@ == old(r)@ + allowed_spec(s@.take(i as int), exclude@),
    {
        let c = s.get_char(i);
        proof {
            assert(s@.take(i + 1).drop_last() =~= s@.take(i as int));
            reveal(Seq::filter);
        }
        if !contains_char(exclude, c) {
            r.push(c);
        }
        assert(r@ =~= old(r)@ + allowed_spec(s@.take(i + 1), exclude@));
    }
    assert(s@.take(n as int) =~= s@);
}

/// The password made of the allowed characters at the given positions.
pub fn password_from_indices(allowed: &Vec<char>, indices: &Vec<usize>) -> (r: String)
    requires
        forall|i: int| 0 <= i < indices@.len() ==> #[trigger] indices@[i] < allowed@.len(),
    ensures
        r@ == indices@.map_values(|k: usize| allowed@[k as int]),
{
    let mut r = String::new();
    let n = indices.len();
    for i in 0..n
        invariant
            n == indices@.len(),
            forall|i: int| 0 <= i < indices@.len() ==> #[trigger] indices@[i] < allowed@.len(),
            r@ == indices@.take(i as int).map_values(|k: usize| allowed@[k as int]),
    {
        push_char(&mut r, allowed[indices[i]]);
        assert(r@ =~= indices@.take(i + 1).map_values(|k: usize| allowed@[k as int]));
    }
    assert(indices@.take(n as int) =~= indices@);
    r
}

/// A password of `length` characters drawn at random from the allowed
/// characters; empty when no character is allowed.
pub fn generate_password(length: usize, letters: &str, numbers: &str, special_chars: &str, exclude: &str) -> (r: String)
    ensures
        allowed_spec(letters@ + numbers@ + special_chars@, exclude@).len() == 0 ==> r@.len() == 0,
        allowed_spec(letters@ + numbers@ + special_chars@, exclude@).len() > 0 ==> r@.len() == length,
        forall|i: int| 0 <= i < r@.len() ==> allowed_spec(letters@ + numbers@ + special_chars@, exclude@).contains(#[trigger] r@[i]),
{
    let allowed = allowed_chars(letters, numbers, special_chars, exclude);
    if allowed.len() == 0 {
        return String::new();
    }
    let mut indices: Vec<usize> = Vec::new();
    for i in 0..length
        invariant
            allowed@.len() > 0,
            indices@.len() == i,
            forall|j: int| 0 <= j < indices@.len() ==> #[trigger] indices@[j] < allowed@.len(),
    {
        indices.push(random_below(allowed.len()));
    }
    let r = password_from_indices(&allowed, &indices);
    assert forall|i: int| 0 <= i < r@.len() implies allowed@.contains(#[trigger] r@[i]) by {
        assert(r@[i] == allowed@[indices@[i] as int]);
    }
    r
}

} // verus!

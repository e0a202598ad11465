//! Making a list of glyph names free of repeats.
//!
//! A name that has been seen before gets the suffix `.alt` and the number of
//! times it was seen, written with at least two digits.

use vstd::prelude::*;
use vstd::string::StringExecFns;
use rustc_hash::FxHashMap;
use rustc_hash::FxHasher;
use std::hash::BuildHasherDefault;

verus! {

/// Makes `rustc_hash::FxHasher` known as a type. Nothing is said of what a
/// value of it holds.
#[verifier::external_type_specification]
#[verifier::external_body]
pub struct ExFxHasher(FxHasher);

/// Makes `std::hash::BuildHasherDefault` known as a type. Nothing is said
/// of what a value of it holds.
#[verifier::external_type_specification]
#[verifier::external_body]
#[verifier::reject_recursive_types(H)]
pub struct ExBuildHasherDefault<H>(BuildHasherDefault<H>);

/// The largest number of entries that room is set aside for up front: one
/// for every glyph id there can be.
pub const RESERVE_LIMIT: usize = 0x10000;

/// What a table of counts holds: for each name in it, a number.
pub uninterp spec fn seen_counts(seen: FxHashMap<String, usize>) -> Map<Seq<char>, usize>;

/// A table of counts with nothing in it.
pub open spec fn no_counts() -> Map<Seq<char>, usize> {
    Map::empty()
}

/// Wraps `HashMap::with_capacity_and_hasher`, with the hasher of
/// `rustc_hash`: the new table is empty. Only its room depends on
/// `capacity`, and no more room is asked for than the limit allows.
#[verifier::external_body]
fn seen_with_capacity(capacity: usize) -> (seen: FxHashMap<String, usize>)
    requires
        capacity <= RESERVE_LIMIT,
    ensures
        seen_counts(seen) == no_counts(),
{
    FxHashMap::with_capacity_and_hasher(capacity, Default::default())
}

/// Wraps `HashMap::get`: the number stored for `name`, or `None` where the
/// table has no entry for it. Two names are the same entry when they hold
/// the same characters.
#[verifier::external_body]
fn seen_get(seen: &FxHashMap<String, usize>, name: &String) -> (r: Option<usize>)
    ensures
        r == seen_counts(*seen).get(name@),
{
    seen.get(name).copied()
}

/// Wraps `HashMap::insert`: afterwards the table holds `count` for `name`,
/// in place of what it held for that name before, and is otherwise
/// unchanged.
#[verifier::external_body]
fn seen_insert(seen: &mut FxHashMap<String, usize>, name: String, count: usize)
    ensures
        seen_counts(*final(seen)) == seen_counts(*old(seen)).insert(name@, count),
{
    seen.insert(name, count);
}

/// How many of the first `upto` names are `name`.
pub open spec fn occurrences(names: Seq<Seq<char>>, name: Seq<char>, upto: int) -> nat
    decreases upto,
{
    if upto <= 0 {
        0
    } else if names[upto - 1] == name {
        occurrences(names, name, upto - 1) + 1
    } else {
        occurrences(names, name, upto - 1)
    }
}

/// The character for a digit.
pub open spec fn digit(d: nat) -> char {
    if d == 0 {
        '0'
    } else if d == 1 {
        '1'
    } else if d == 2 {
        '2'
    } else if d == 3 {
        '3'
    } else if d == 4 {
        '4'
    } else if d == 5 {
        '5'
    } else if d == 6 {
        '6'
    } else if d == 7 {
        '7'
    } else if d == 8 {
        '8'
    } else {
        '9'
    }
}

/// `n` in decimal, without leading zeros.
pub open spec fn decimal(n: nat) -> Seq<char>
    decreases n,
{
    if n < 10 {
        seq![digit(n)]
    } else {
        decimal(n / 10).push(digit(n % 10))
    }
}

/// `n` in decimal, with a leading zero where it would have one digit only.
pub open spec fn two_digits(n: nat) -> Seq<char> {
    if n < 100 {
        seq![digit(n / 10), digit(n % 10)]
    } else {
        decimal(n)
    }
}

/// The text put between a name and its number.
pub open spec fn alt_marker() -> Seq<char> {
    seq!['.', 'a', 'l', 't']
}

/// The name given to an occurrence of `name` that `seen` equal names came
/// before: the name itself for the first, and for every later one the name,
/// `.alt` and `seen` in two digits or more.
pub open spec fn spec_unique_name(name: Seq<char>, seen: nat) -> Seq<char> {
    if seen == 0 {
        name
    } else {
        name + alt_marker() + two_digits(seen)
    }
}

/// The names that [`unique_glyph_names`] gives for `names`, in order.
pub open spec fn spec_unique_names(names: Seq<Seq<char>>) -> Seq<Seq<char>> {
    Seq::new(
        names.len(),
        |i: int| spec_unique_name(names[i], occurrences(names, names[i], i)),
    )
}

/// No name occurs more often among the first `upto` than there are names.
pub proof fn lemma_occurrences_bound(names: Seq<Seq<char>>, name: Seq<char>, upto: int)
    requires
        0 <= upto,
    ensures
        occurrences(names, name, upto) <= upto,
    decreases upto,
{
    if upto > 0 {
        lemma_occurrences_bound(names, name, upto - 1);
    }
}

/// The text for one digit.
fn digit_str(d: usize) -> (s: &'static str)
    requires
        d < 10,
    ensures
        s@ == seq![digit(d as nat)],
{
    proof {
        reveal_strlit("0");
        reveal_strlit("1");
        reveal_strlit("2");
        reveal_strlit("3");
        reveal_strlit("4");
        reveal_strlit("5");
        reveal_strlit("6");
        reveal_strlit("7");
        reveal_strlit("8");
        reveal_strlit("9");
    }
    let s = if d == 0 {
        "0"
    } else if d == 1 {
        "1"
    } else if d == 2 {
        "2"
    } else if d == 3 {
        "3"
    } else if d == 4 {
        "4"
    } else if d == 5 {
        "5"
    } else if d == 6 {
        "6"
    } else if d == 7 {
        "7"
    } else if d == 8 {
        "8"
    } else {
        "9"
    };
    assert(s@ =~= seq![digit(d as nat)]);
    s
}

/// Appends `n` in decimal to `text`.
pub fn push_decimal(text: &mut String, n: usize)
    ensures
        final(text)@ == old(text)@ + decimal(n as nat),
    decreases n,
{
    if n >= 10 {
        push_decimal(text, n / 10);
    }
    text.append(digit_str(n % 10));
    assert(final(text)@ =~= old(text)@ + decimal(n as nat));
}

/// The name for an occurrence of `name` that `seen` equal names came before.
pub fn unique_name(name: &String, seen: usize) -> (r: String)
    ensures
        r@ == spec_unique_name(name@, seen as nat),
{
    let mut text = name.clone();
    if seen != 0 {
        proof {
            reveal_strlit(".alt");
        }
        text.append(".alt");
        assert(text@ =~= name@ + alt_marker());
        if seen < 10 {
            text.append(digit_str(0));
        }
        push_decimal(&mut text, seen);
        proof {
            lemma_two_digits(seen as nat);
            assert(text@ =~= name@ + alt_marker() + two_digits(seen as nat));
        }
    }
    text
}

/// The two-digit form is the decimal form, after a zero where that has one
/// digit.
proof fn lemma_two_digits(n: nat)
    ensures
        n < 10 ==> two_digits(n) == seq![digit(0)] + decimal(n),
        n >= 10 ==> two_digits(n) == decimal(n),
{
    if n < 10 {
        assert(two_digits(n) =~= seq![digit(0)] + decimal(n));
    } else if n < 100 {
        assert(decimal(n / 10) == seq![digit(n / 10)]);
        assert(two_digits(n) =~= decimal(n));
    }
}

/// The characters of every name in `names`.
pub open spec fn names_view(names: Seq<String>) -> Seq<Seq<char>> {
    Seq::new(names.len(), |i: int| names[i]@)
}

/// Gives every name in `names` a form that tells it from the equal names
/// before it: the first occurrence of a name is kept, and an occurrence
/// that `n` equal names came before becomes the name followed by `.alt` and
/// `n` in two digits or more. The result has the order of `names`.
///
/// `capacity` is how many names to set room aside for. It changes nothing
/// in the result.
pub fn unique_glyph_names(names: Vec<String>, capacity: usize) -> (unique_names: Vec<String>)
    ensures
        names_view(unique_names@) == spec_unique_names(names_view(names@)),
        unique_names@.len() == names@.len(),
{
    let reserve: usize = if capacity <= RESERVE_LIMIT {
        capacity
    } else {
        RESERVE_LIMIT
    };
    let mut seen = seen_with_capacity(reserve);
    let mut unique_names: Vec<String> = Vec::new();
    let ghost all = names_view(names@);
    let mut i: usize = 0;
    while i < names.len()
        invariant
            i <= names@.len(),
            all == names_view(names@),
            unique_names@.len() == i,
            forall|k: int|
                0 <= k < i ==> (#[trigger] unique_names@[k])@ == spec_unique_name(
                    all[k],
                    occurrences(all, all[k], k),
                ),
            forall|name: Seq<char>|
                #![trigger seen_counts(seen).contains_key(name)]
                #![trigger occurrences(all, name, i as int)]
                seen_counts(seen).contains_key(name) <==> occurrences(all, name, i as int) > 0,
            forall|name: Seq<char>|
                #![trigger seen_counts(seen)[name]]
                seen_counts(seen).contains_key(name) ==> seen_counts(seen)[name] + 1 == occurrences(
                    all,
                    name,
                    i as int,
                ),
        decreases names@.len() - i,
    {
        let name = &names[i];
        assert(all[i as int] == name@);
        proof {
            lemma_occurrences_bound(all, name@, i as int);
        }
        let alt: usize = match seen_get(&seen, name) {
            Some(n) => n + 1,
            None => 0,
        };
        assert(alt == occurrences(all, name@, i as int));
        seen_insert(&mut seen, name.clone(), alt);
        unique_names.push(unique_name(name, alt));
        i += 1;
    }
    assert(names_view(unique_names@) =~= spec_unique_names(all));
    unique_names
}

/// Whether `c` is one of the ten digits.
pub open spec fn is_digit(c: char) -> bool {
    '0' <= c <= '9'
}

/// Whether every character of `text` is a digit.
pub open spec fn all_digits(text: Seq<char>) -> bool {
    forall|k: int| 0 <= k < text.len() ==> is_digit(#[trigger] text[k])
}

/// The decimal form of a number is made of digits, and has as many of them
/// as the number needs.
pub proof fn lemma_decimal_digits(n: nat)
    ensures
        all_digits(decimal(n)),
        decimal(n).len() >= 1,
        n >= 10 ==> decimal(n).len() >= 2,
        n >= 100 ==> decimal(n).len() >= 3,
    decreases n,
{
    if n >= 10 {
        lemma_decimal_digits(n / 10);
        assert forall|k: int| 0 <= k < decimal(n).len() implies is_digit(
            #[trigger] decimal(n)[k],
        ) by {
            if k < decimal(n / 10).len() {
                assert(decimal(n)[k] == decimal(n / 10)[k]);
            }
        }
    }
}

/// Two numbers with the same decimal form are the same number.
pub proof fn lemma_decimal_injective(a: nat, b: nat)
    requires
        decimal(a) == decimal(b),
    ensures
        a == b,
    decreases a,
{
    lemma_decimal_digits(a);
    lemma_decimal_digits(b);
    if a < 10 && b < 10 {
        assert(decimal(a)[0] == digit(a));
        assert(decimal(b)[0] == digit(b));
    } else if a >= 10 && b >= 10 {
        assert(decimal(a).drop_last() =~= decimal(a / 10));
        assert(decimal(b).drop_last() =~= decimal(b / 10));
        assert(decimal(a).last() == digit(a % 10));
        assert(decimal(b).last() == digit(b % 10));
        lemma_decimal_injective(a / 10, b / 10);
    }
}

/// The two-digit form of a number is made of digits, two of them or more.
pub proof fn lemma_two_digits_digits(n: nat)
    ensures
        all_digits(two_digits(n)),
        two_digits(n).len() >= 2,
        n >= 100 ==> two_digits(n).len() >= 3,
        n < 100 ==> two_digits(n).len() == 2,
{
    lemma_decimal_digits(n);
}

/// Two numbers with the same two-digit form are the same number.
pub proof fn lemma_two_digits_injective(a: nat, b: nat)
    requires
        two_digits(a) == two_digits(b),
    ensures
        a == b,
{
    lemma_two_digits_digits(a);
    lemma_two_digits_digits(b);
    if a < 100 && b < 100 {
        assert(two_digits(a)[0] == digit(a / 10));
        assert(two_digits(b)[0] == digit(b / 10));
        assert(two_digits(a)[1] == digit(a % 10));
        assert(two_digits(b)[1] == digit(b % 10));
    } else if a >= 100 && b >= 100 {
        lemma_decimal_injective(a, b);
    }
}

/// A text that ends in `.alt` and digits can be taken apart in one way
/// only.
pub proof fn lemma_suffix_split(a: Seq<char>, s: Seq<char>, b: Seq<char>, t: Seq<char>)
    requires
        a + alt_marker() + s == b + alt_marker() + t,
        all_digits(s),
        all_digits(t),
    ensures
        a == b,
        s == t,
{
    let x = a + alt_marker() + s;
    let y = b + alt_marker() + t;
    assert(x.len() == a.len() + 4 + s.len());
    assert(y.len() == b.len() + 4 + t.len());
    if s.len() < t.len() {
        let at: int = (a.len() + 3) as int;
        assert(x[at] == 't');
        assert(y[at] == t[at - b.len() - 4]);
        assert(is_digit(t[at - b.len() - 4]));
        assert(false);
    }
    if t.len() < s.len() {
        let at: int = (b.len() + 3) as int;
        assert(y[at] == 't');
        assert(x[at] == s[at - a.len() - 4]);
        assert(is_digit(s[at - a.len() - 4]));
        assert(false);
    }
    assert forall|k: int| 0 <= k < a.len() implies a[k] == b[k] by {
        assert(x[k] == a[k]);
        assert(y[k] == b[k]);
    }
    assert(a =~= b);
    assert forall|k: int| 0 <= k < s.len() implies s[k] == t[k] by {
        assert(x[a.len() + 4 + k] == s[k]);
        assert(y[b.len() + 4 + k] == t[k]);
    }
    assert(s =~= t);
}

/// A name is counted once more for every place at which it stands.
pub proof fn lemma_occurrences_grow(names: Seq<Seq<char>>, name: Seq<char>, i: int, j: int)
    requires
        0 <= i <= j,
    ensures
        occurrences(names, name, i) <= occurrences(names, name, j),
        i < j && names[i] == name ==> occurrences(names, name, i) < occurrences(names, name, j),
    decreases j - i,
{
    if i < j {
        lemma_occurrences_grow(names, name, i, j - 1);
    }
}

/// Whether no name that is kept as it is has the form that a repeated name
/// is given: a first occurrence never equals another name followed by
/// `.alt` and that name's count.
pub open spec fn no_name_looks_suffixed(names: Seq<Seq<char>>) -> bool {
    forall|i: int, j: int|
        #![trigger names[i], names[j]]
        0 <= i < names.len() && 0 <= j < names.len() && occurrences(names, names[i], i) == 0
            && occurrences(names, names[j], j) > 0 ==> names[i] != spec_unique_name(
            names[j],
            occurrences(names, names[j], j),
        )
}

/// The first occurrence of every name is kept as it is, and an occurrence
/// that `k` equal names came before, with `k` at least 1, is the name
/// followed by `.alt` and `k`, in two digits where `k` is below 100.
pub proof fn lemma_unique_names_shape(names: Seq<Seq<char>>, i: int)
    requires
        0 <= i < names.len(),
    ensures
        spec_unique_names(names).len() == names.len(),
        occurrences(names, names[i], i) == 0 ==> spec_unique_names(names)[i] == names[i],
        occurrences(names, names[i], i) > 0 ==> spec_unique_names(names)[i] == names[i]
            + alt_marker() + two_digits(occurrences(names, names[i], i)),
        0 < occurrences(names, names[i], i) < 100 ==> two_digits(
            occurrences(names, names[i], i),
        ).len() == 2,
{
    lemma_two_digits_digits(occurrences(names, names[i], i));
}

/// The names given are all different, where no name that is kept as it is
/// has the form that a repeated name is given.
pub proof fn lemma_unique_names_distinct(names: Seq<Seq<char>>)
    requires
        no_name_looks_suffixed(names),
    ensures
        forall|i: int, j: int|
            #![trigger spec_unique_names(names)[i], spec_unique_names(names)[j]]
            0 <= i < j < names.len() ==> spec_unique_names(names)[i] != spec_unique_names(
                names,
            )[j],
{
    let unique = spec_unique_names(names);
    assert forall|i: int, j: int|
        #![trigger unique[i], unique[j]]
        0 <= i < j < names.len() implies unique[i] != unique[j] by {
        let a = occurrences(names, names[i], i);
        let b = occurrences(names, names[j], j);
        if unique[i] == unique[j] {
            if a == 0 && b == 0 {
                lemma_occurrences_grow(names, names[j], i, j);
            } else if a == 0 {
                assert(names[i] != spec_unique_name(names[j], b));
            } else if b == 0 {
                assert(names[j] != spec_unique_name(names[i], a));
            } else {
                lemma_two_digits_digits(a);
                lemma_two_digits_digits(b);
                lemma_suffix_split(names[i], two_digits(a), names[j], two_digits(b));
                lemma_two_digits_injective(a, b);
                lemma_occurrences_grow(names, names[j], i, j);
            }
        }
    }
}

/// Where a name that is kept as it is has the form that a repeated name is
/// given, the two are given the same name.
pub proof fn lemma_suffixed_name_collides(names: Seq<Seq<char>>, i: int, j: int)
    requires
        0 <= i < names.len(),
        0 <= j < names.len(),
        occurrences(names, names[i], i) == 0,
        occurrences(names, names[j], j) > 0,
        names[i] == spec_unique_name(names[j], occurrences(names, names[j], j)),
    ensures
        i != j,
        spec_unique_names(names)[i] == spec_unique_names(names)[j],
{
}

} // verus!

//! Password generation: build the requested character classes, guarantee at
//! least one character of each selected class, fill to the requested length,
//! and shuffle.

use vstd::prelude::*;

verus! {

/// Uppercase class: the letters A to Z without the easily confused O.
pub open spec fn is_upper_char(b: u8) -> bool {
    65 <= b <= 90 && b != 79
}

/// Lowercase class: the letters a to z without the easily confused o.
pub open spec fn is_lower_char(b: u8) -> bool {
    97 <= b <= 122 && b != 111
}

/// Number class: the digits 1 to 9; 0 is left out as easily confused.
pub open spec fn is_number_char(b: u8) -> bool {
    49 <= b <= 57
}

/// Symbol class: the characters of `!@#$%^&*-_`.
pub open spec fn is_symbol_char(b: u8) -> bool {
    b == 33 || b == 64 || b == 35 || b == 36 || b == 37 || b == 94 || b == 38 || b == 42 || b == 45
        || b == 95
}

/// Membership in the union of the selected classes.
pub open spec fn in_selected_classes(
    uppercase: bool,
    lowercase: bool,
    number: bool,
    symbol: bool,
    b: u8,
) -> bool {
    ||| (uppercase && is_upper_char(b))
    ||| (lowercase && is_lower_char(b))
    ||| (number && is_number_char(b))
    ||| (symbol && is_symbol_char(b))
}

/// How many classes are selected.
pub open spec fn selected_class_count(
    uppercase: bool,
    lowercase: bool,
    number: bool,
    symbol: bool,
) -> int {
    (if uppercase {
        1int
    } else {
        0int
    }) + (if lowercase {
        1int
    } else {
        0int
    }) + (if number {
        1int
    } else {
        0int
    }) + (if symbol {
        1int
    } else {
        0int
    })
}

fn upper_chars() -> (v: Vec<u8>)
    ensures
        v@.len() > 0,
        forall|i: int| 0 <= i < v@.len() ==> is_upper_char(v@[i]),
{
    let mut v: Vec<u8> = Vec::new();
    let mut b: u8 = 65;
    while b <= 90
        invariant
            65 <= b <= 91,
            b > 65 ==> v@.len() > 0,
            forall|i: int| 0 <= i < v@.len() ==> is_upper_char(v@[i]),
        decreases 91 - b,
    {
        if b != 79 {
            v.push(b);
        }
        b = b + 1;
    }
    v
}

fn lower_chars() -> (v: Vec<u8>)
    ensures
        v@.len() > 0,
        forall|i: int| 0 <= i < v@.len() ==> is_lower_char(v@[i]),
{
    let mut v: Vec<u8> = Vec::new();
    let mut b: u8 = 97;
    while b <= 122
        invariant
            97 <= b <= 123,
            b > 97 ==> v@.len() > 0,
            forall|i: int| 0 <= i < v@.len() ==> is_lower_char(v@[i]),
        decreases 123 - b,
    {
        if b != 111 {
            v.push(b);
        }
        b = b + 1;
    }
    v
}

fn number_chars() -> (v: Vec<u8>)
    ensures
        v@.len() > 0,
        forall|i: int| 0 <= i < v@.len() ==> is_number_char(v@[i]),
{
    let mut v: Vec<u8> = Vec::new();
    let mut b: u8 = 49;
    while b <= 57
        invariant
            49 <= b <= 58,
            b > 49 ==> v@.len() > 0,
            forall|i: int| 0 <= i < v@.len() ==> is_number_char(v@[i]),
        decreases 58 - b,
    {
        v.push(b);
        b = b + 1;
    }
    v
}

fn symbol_chars() -> (v: Vec<u8>)
    ensures
        v@.len() > 0,
        forall|i: int| 0 <= i < v@.len() ==> is_symbol_char(v@[i]),
{
    let mut v: Vec<u8> = Vec::new();
    v.push(33);
    v.push(64);
    v.push(35);
    v.push(36);
    v.push(37);
    v.push(94);
    v.push(38);
    v.push(42);
    v.push(45);
    v.push(95);
    v
}

/// Relies on rand::seq::SliceRandom::choose with thread_rng: some element of
/// the non-empty slice; which one depends on the generator, so only
/// membership is promised.
#[verifier::external_body]
fn choose_byte(s: &[u8]) -> (r: u8)
    requires
        s@.len() > 0,
    ensures
        s@.contains(r),
{
    let mut rng = rand::thread_rng();
    *rand::seq::SliceRandom::choose(s, &mut rng).unwrap()
}

/// Relies on rand::seq::SliceRandom::shuffle with thread_rng: a permutation
/// of the same bytes, in an order that depends on the generator.
#[verifier::external_body]
fn shuffle_bytes(v: &mut Vec<u8>)
    ensures
        final(v)@.to_multiset() == old(v)@.to_multiset(),
{
    let mut rng = rand::thread_rng();
    rand::seq::SliceRandom::shuffle(v.as_mut_slice(), &mut rng);
}

/// Generate a password of exactly `length` bytes from the selected character
/// classes, with at least one byte of each selected class, in an order given
/// by the random generator. At least one class must be selected, and the
/// length must leave room for one byte of each selected class.
pub fn process_genpass(
    length: usize,
    uppercase: bool,
    lowercase: bool,
    number: bool,
    symbol: bool,
) -> (r: Vec<u8>)
    requires
        uppercase || lowercase || number || symbol,
        length >= selected_class_count(uppercase, lowercase, number, symbol),
    ensures
        r@.len() == length,
        forall|i: int|
            0 <= i < r@.len() ==> in_selected_classes(uppercase, lowercase, number, symbol, r@[i]),
        uppercase ==> exists|i: int| 0 <= i < r@.len() && is_upper_char(#[trigger] r@[i]),
        lowercase ==> exists|i: int| 0 <= i < r@.len() && is_lower_char(#[trigger] r@[i]),
        number ==> exists|i: int| 0 <= i < r@.len() && is_number_char(#[trigger] r@[i]),
        symbol ==> exists|i: int| 0 <= i < r@.len() && is_symbol_char(#[trigger] r@[i]),
{
    let mut chars: Vec<u8> = Vec::new();
    let mut password: Vec<u8> = Vec::new();
    if uppercase {
        let class = upper_chars();
        chars.extend_from_slice(class.as_slice());
        let ghost pre = password@;
        password.push(choose_byte(class.as_slice()));
        proof {
            assert(forall|i: int| 0 <= i < pre.len() ==> password@[i] == pre[i]);
            assert(is_upper_char(password@[pre.len() as int]));
        }
    }
    if lowercase {
        let class = lower_chars();
        chars.extend_from_slice(class.as_slice());
        let ghost pre = password@;
        password.push(choose_byte(class.as_slice()));
        proof {
            assert(forall|i: int| 0 <= i < pre.len() ==> password@[i] == pre[i]);
            assert(is_lower_char(password@[pre.len() as int]));
        }
    }
    if number {
        let class = number_chars();
        chars.extend_from_slice(class.as_slice());
        let ghost pre = password@;
        password.push(choose_byte(class.as_slice()));
        proof {
            assert(forall|i: int| 0 <= i < pre.len() ==> password@[i] == pre[i]);
            assert(is_number_char(password@[pre.len() as int]));
        }
    }
    if symbol {
        let class = symbol_chars();
        chars.extend_from_slice(class.as_slice());
        let ghost pre = password@;
        password.push(choose_byte(class.as_slice()));
        proof {
            assert(forall|i: int| 0 <= i < pre.len() ==> password@[i] == pre[i]);
            assert(is_symbol_char(password@[pre.len() as int]));
        }
    }
    while password.len() < length
        invariant
            password@.len() <= length,
            chars@.len() > 0,
            forall|i: int|
                0 <= i < chars@.len() ==> in_selected_classes(
                    uppercase,
                    lowercase,
                    number,
                    symbol,
                    chars@[i],
                ),
            forall|i: int|
                0 <= i < password@.len() ==> in_selected_classes(
                    uppercase,
                    lowercase,
                    number,
                    symbol,
                    password@[i],
                ),
            uppercase ==> exists|i: int| 0 <= i < password@.len() && is_upper_char(#[trigger] password@[i]),
            lowercase ==> exists|i: int| 0 <= i < password@.len() && is_lower_char(#[trigger] password@[i]),
            number ==> exists|i: int| 0 <= i < password@.len() && is_number_char(#[trigger] password@[i]),
            symbol ==> exists|i: int| 0 <= i < password@.len() && is_symbol_char(#[trigger] password@[i]),
        decreases length - password@.len(),
    {
        let ghost pre = password@;
        password.push(choose_byte(chars.as_slice()));
        proof {
            assert(forall|i: int| 0 <= i < pre.len() ==> password@[i] == pre[i]);
        }
    }
    let ghost before = password@;
    shuffle_bytes(&mut password);
    proof {
        broadcast use vstd::seq_lib::group_to_multiset_ensures;

        assert(password@.to_multiset().len() == before.to_multiset().len());
        assert(password@.len() == before.len());
        assert forall|i: int|
            0 <= i < password@.len() implies in_selected_classes(
            uppercase,
            lowercase,
            number,
            symbol,
            password@[i],
        ) by {
            assert(password@.contains(password@[i]));
            assert(password@.to_multiset().count(password@[i]) > 0);
            assert(before.contains(password@[i]));
        }
        assert(uppercase ==> exists|i: int|
            0 <= i < password@.len() && is_upper_char(#[trigger] password@[i])) by {
            if uppercase {
                let j = choose|j: int| 0 <= j < before.len() && is_upper_char(before[j]);
                assert(before.contains(before[j]));
                assert(password@.to_multiset().count(before[j]) > 0);
                assert(password@.contains(before[j]));
            }
        }
        assert(lowercase ==> exists|i: int|
            0 <= i < password@.len() && is_lower_char(#[trigger] password@[i])) by {
            if lowercase {
                let j = choose|j: int| 0 <= j < before.len() && is_lower_char(before[j]);
                assert(before.contains(before[j]));
                assert(password@.to_multiset().count(before[j]) > 0);
                assert(password@.contains(before[j]));
            }
        }
        assert(number ==> exists|i: int|
            0 <= i < password@.len() && is_number_char(#[trigger] password@[i])) by {
            if number {
                let j = choose|j: int| 0 <= j < before.len() && is_number_char(before[j]);
                assert(before.contains(before[j]));
                assert(password@.to_multiset().count(before[j]) > 0);
                assert(password@.contains(before[j]));
            }
        }
        assert(symbol ==> exists|i: int|
            0 <= i < password@.len() && is_symbol_char(#[trigger] password@[i])) by {
            if symbol {
                let j = choose|j: int| 0 <= j < before.len() && is_symbol_char(before[j]);
                assert(before.contains(before[j]));
                assert(password@.to_multiset().count(before[j]) > 0);
                assert(password@.contains(before[j]));
            }
        }
    }
    password
}

} // verus!

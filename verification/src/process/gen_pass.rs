//! Random password generation.  The password is drawn from the character
//! classes the caller enables; each enabled class contributes at least one
//! character, and the result is shuffled so the guaranteed characters do not
//! sit at the front.

use vstd::prelude::*;

verus! {

/// The upper-case class, as ASCII codes: `ABCDEFGHJKLMNPQRSTUVWXYZ`
/// (easily-confused letters left out).
pub open spec fn upper_chars() -> Seq<u8> {
    seq![
        65u8, 66u8, 67u8, 68u8, 69u8, 70u8, 71u8, 72u8, 74u8, 75u8, 76u8, 77u8,
        78u8, 80u8, 81u8, 82u8, 83u8, 84u8, 85u8, 86u8, 87u8, 88u8, 89u8, 90u8,
    ]
}

/// The lower-case class, as ASCII codes: `abcdefghijkmnopqrstuvwxyz`
/// (easily-confused letters left out).
pub open spec fn lower_chars() -> Seq<u8> {
    seq![
        97u8, 98u8, 99u8, 100u8, 101u8, 102u8, 103u8, 104u8, 105u8, 106u8,
        107u8, 109u8, 110u8, 111u8, 112u8, 113u8, 114u8, 115u8, 116u8, 117u8,
        118u8, 119u8, 120u8, 121u8, 122u8,
    ]
}

/// The digit class, as ASCII codes: `123456789` (zero left out).
pub open spec fn number_chars() -> Seq<u8> {
    seq![49u8, 50u8, 51u8, 52u8, 53u8, 54u8, 55u8, 56u8, 57u8]
}

/// The symbol class, as ASCII codes: `!@#$%^&*_`.
pub open spec fn symbol_chars() -> Seq<u8> {
    seq![33u8, 64u8, 35u8, 36u8, 37u8, 94u8, 38u8, 42u8, 95u8]
}

/// Whether a byte belongs to one of the enabled classes.
pub open spec fn in_enabled_charset(
    b: u8,
    upper: bool,
    lower: bool,
    number: bool,
    symbol: bool,
) -> bool {
    ||| (upper && upper_chars().contains(b))
    ||| (lower && lower_chars().contains(b))
    ||| (number && number_chars().contains(b))
    ||| (symbol && symbol_chars().contains(b))
}

/// How many classes are enabled.
pub open spec fn enabled_class_count(
    upper: bool,
    lower: bool,
    number: bool,
    symbol: bool,
) -> int {
    (if upper { 1int } else { 0int }) + (if lower { 1int } else { 0int })
        + (if number { 1int } else { 0int }) + (if symbol { 1int } else { 0int })
}

fn upper_vec() -> (v: Vec<u8>)
    ensures
        v@ == upper_chars(),
{
    let v: Vec<u8> = vec![
        65u8, 66u8, 67u8, 68u8, 69u8, 70u8, 71u8, 72u8, 74u8, 75u8, 76u8, 77u8,
        78u8, 80u8, 81u8, 82u8, 83u8, 84u8, 85u8, 86u8, 87u8, 88u8, 89u8, 90u8,
    ];
    assert(v@ =~= upper_chars());
    v
}

fn lower_vec() -> (v: Vec<u8>)
    ensures
        v@ == lower_chars(),
{
    let v: Vec<u8> = vec![
        97u8, 98u8, 99u8, 100u8, 101u8, 102u8, 103u8, 104u8, 105u8, 106u8,
        107u8, 109u8, 110u8, 111u8, 112u8, 113u8, 114u8, 115u8, 116u8, 117u8,
        118u8, 119u8, 120u8, 121u8, 122u8,
    ];
    assert(v@ =~= lower_chars());
    v
}

fn number_vec() -> (v: Vec<u8>)
    ensures
        v@ == number_chars(),
{
    let v: Vec<u8> = vec![49u8, 50u8, 51u8, 52u8, 53u8, 54u8, 55u8, 56u8, 57u8];
    assert(v@ =~= number_chars());
    v
}

fn symbol_vec() -> (v: Vec<u8>)
    ensures
        v@ == symbol_chars(),
{
    let v: Vec<u8> = vec![33u8, 64u8, 35u8, 36u8, 37u8, 94u8, 38u8, 42u8, 95u8];
    assert(v@ =~= symbol_chars());
    v
}

/// Relies on `rand::Rng::gen_range` over `0..n`: the result lies below `n`.
#[verifier::external_body]
fn rand_below(n: usize) -> (r: usize)
    requires
        n > 0,
    ensures
        r < n,
{
    rand::Rng::gen_range(&mut rand::thread_rng(), 0..n)
}

/// Relies on `rand::seq::SliceRandom::shuffle`: an in-place permutation of
/// the elements, so the multiset of bytes is unchanged.
#[verifier::external_body]
fn shuffle_bytes(v: &mut Vec<u8>)
    ensures
        final(v)@.len() == old(v)@.len(),
        final(v)@.to_multiset() == old(v)@.to_multiset(),
{
    rand::seq::SliceRandom::shuffle(v.as_mut_slice(), &mut rand::thread_rng());
}

/// Whether some byte of `s` belongs to `class`.
pub open spec fn has_class_member(s: Seq<u8>, class: Seq<u8>) -> bool {
    exists|i: int| 0 <= i < s.len() && class.contains(#[trigger] s[i])
}

/// Pushing keeps and can establish class membership: a byte of `class`
/// pushed onto `s` makes `s` contain a member, and a member already there
/// stays there.
proof fn lemma_class_member_push(s: Seq<u8>, class: Seq<u8>, b: u8)
    ensures
        class.contains(b) ==> has_class_member(s.push(b), class),
        has_class_member(s, class) ==> has_class_member(s.push(b), class),
{
    if class.contains(b) {
        assert(s.push(b)[s.len() as int] == b);
    }
    if has_class_member(s, class) {
        let i = choose|i: int| 0 <= i < s.len() && class.contains(#[trigger] s[i]);
        assert(s.push(b)[i] == s[i]);
        assert(class.contains(s.push(b)[i]));
    }
}

/// Reordering keeps class membership: two sequences with the same multiset
/// of bytes contain members of the same classes.
proof fn lemma_class_member_reorder(before: Seq<u8>, after: Seq<u8>, class: Seq<u8>)
    requires
        before.to_multiset() == after.to_multiset(),
        has_class_member(before, class),
    ensures
        has_class_member(after, class),
{
    broadcast use vstd::seq_lib::group_to_multiset_ensures;

    let i = choose|i: int| 0 <= i < before.len() && class.contains(#[trigger] before[i]);
    let b = before[i];
    assert(before.contains(b));
    assert(after.to_multiset().count(b) > 0);
    assert(after.contains(b));
    let j = choose|j: int| 0 <= j < after.len() && after[j] == b;
    assert(class.contains(after[j]));
}

/// Generates a password of exactly `length` bytes, each drawn from the
/// classes the flags enable, with at least one byte from every enabled
/// class.  The caller must enable no more classes than fit: one byte is
/// reserved per enabled class, and a positive length needs at least one
/// class to draw from.
pub fn process_genpass(
    length: u8,
    upper: bool,
    lower: bool,
    number: bool,
    symbol: bool,
) -> (r: Vec<u8>)
    requires
        enabled_class_count(upper, lower, number, symbol) <= length as int,
        length > 0 ==> (upper || lower || number || symbol),
    ensures
        r@.len() == length as nat,
        forall|i: int|
            0 <= i < r@.len() ==> in_enabled_charset(
                #[trigger] r@[i],
                upper,
                lower,
                number,
                symbol,
            ),
        upper ==> has_class_member(r@, upper_chars()),
        lower ==> has_class_member(r@, lower_chars()),
        number ==> has_class_member(r@, number_chars()),
        symbol ==> has_class_member(r@, symbol_chars()),
{
    let mut chars: Vec<u8> = Vec::new();
    let mut password: Vec<u8> = Vec::new();

    if upper {
        let cs = upper_vec();
        let idx = rand_below(cs.len());
        let ghost prev: Seq<u8> = password@;
        let b = cs[idx];
        password.push(b);
        chars.extend_from_slice(cs.as_slice());
        proof {
            assert(upper_chars()[idx as int] == b);
            assert(upper_chars().contains(b));
            lemma_class_member_push(prev, upper_chars(), b);
        }
    }
    if lower {
        let cs = lower_vec();
        let idx = rand_below(cs.len());
        let ghost prev: Seq<u8> = password@;
        let b = cs[idx];
        password.push(b);
        chars.extend_from_slice(cs.as_slice());
        proof {
            assert(lower_chars()[idx as int] == b);
            assert(lower_chars().contains(b));
            lemma_class_member_push(prev, lower_chars(), b);
            lemma_class_member_push(prev, upper_chars(), b);
        }
    }
    if number {
        let cs = number_vec();
        let idx = rand_below(cs.len());
        let ghost prev: Seq<u8> = password@;
        let b = cs[idx];
        password.push(b);
        chars.extend_from_slice(cs.as_slice());
        proof {
            assert(number_chars()[idx as int] == b);
            assert(number_chars().contains(b));
            lemma_class_member_push(prev, number_chars(), b);
            lemma_class_member_push(prev, upper_chars(), b);
            lemma_class_member_push(prev, lower_chars(), b);
        }
    }
    if symbol {
        let cs = symbol_vec();
        let idx = rand_below(cs.len());
        let ghost prev: Seq<u8> = password@;
        let b = cs[idx];
        password.push(b);
        chars.extend_from_slice(cs.as_slice());
        proof {
            assert(symbol_chars()[idx as int] == b);
            assert(symbol_chars().contains(b));
            lemma_class_member_push(prev, symbol_chars(), b);
            lemma_class_member_push(prev, upper_chars(), b);
            lemma_class_member_push(prev, lower_chars(), b);
            lemma_class_member_push(prev, number_chars(), b);
        }
    }

    while password.len() < length as usize
        invariant
            length > 0 ==> (upper || lower || number || symbol),
            password@.len() <= length as nat,
            (upper || lower || number || symbol) ==> chars@.len() > 0,
            forall|i: int|
                0 <= i < chars@.len() ==> in_enabled_charset(
                    #[trigger] chars@[i],
                    upper,
                    lower,
                    number,
                    symbol,
                ),
            forall|i: int|
                0 <= i < password@.len() ==> in_enabled_charset(
                    #[trigger] password@[i],
                    upper,
                    lower,
                    number,
                    symbol,
                ),
            upper ==> has_class_member(password@, upper_chars()),
            lower ==> has_class_member(password@, lower_chars()),
            number ==> has_class_member(password@, number_chars()),
            symbol ==> has_class_member(password@, symbol_chars()),
        decreases length as int - password@.len(),
    {
        let idx = rand_below(chars.len());
        let ghost prev: Seq<u8> = password@;
        let b = chars[idx];
        password.push(b);
        proof {
            lemma_class_member_push(prev, upper_chars(), b);
            lemma_class_member_push(prev, lower_chars(), b);
            lemma_class_member_push(prev, number_chars(), b);
            lemma_class_member_push(prev, symbol_chars(), b);
        }
    }

    let ghost before_shuffle: Seq<u8> = password@;
    shuffle_bytes(&mut password);

    proof {
        broadcast use vstd::seq_lib::group_to_multiset_ensures;

        assert forall|i: int|
            0 <= i < password@.len() implies in_enabled_charset(
            #[trigger] password@[i],
            upper,
            lower,
            number,
            symbol,
        ) by {
            let b = password@[i];
            assert(password@.contains(b));
            assert(before_shuffle.to_multiset().count(b) > 0);
            assert(before_shuffle.contains(b));
            let j = choose|j: int| 0 <= j < before_shuffle.len() && before_shuffle[j] == b;
            assert(in_enabled_charset(before_shuffle[j], upper, lower, number, symbol));
        }

        if upper {
            lemma_class_member_reorder(before_shuffle, password@, upper_chars());
        }
        if lower {
            lemma_class_member_reorder(before_shuffle, password@, lower_chars());
        }
        if number {
            lemma_class_member_reorder(before_shuffle, password@, number_chars());
        }
        if symbol {
            lemma_class_member_reorder(before_shuffle, password@, symbol_chars());
        }
    }

    password
}

} // verus!

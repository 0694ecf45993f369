//! Verified text primitives the protocol and the decoders are built on:
//! decimal parsing and formatting, string equality, and splitting a line
//! into whitespace-separated fields.

use vstd::prelude::*;

verus! {

/// `c` is one of the ten decimal digit characters.
pub open spec fn is_digit(c: char) -> bool {
    '0' <= c && c <= '9'
}

/// The numeric value of a digit character.
pub open spec fn digit_val(c: char) -> nat {
    (c as int - '0' as int) as nat
}

/// Every character of `s` is a decimal digit.
pub open spec fn all_digits(s: Seq<char>) -> bool {
    forall|i: int| 0 <= i < s.len() ==> is_digit(s[i])
}

/// The value of a digit string, most significant digit first.
pub open spec fn str_to_nat(s: Seq<char>) -> nat
    decreases s.len(),
{
    if s.len() == 0 {
        0
    } else {
        str_to_nat(s.drop_last()) * 10 + digit_val(s.last())
    }
}

/// `s` is the decimal notation of a value that fits in a `u64`:
/// nonempty, digits only, and within range.
pub open spec fn is_u64_digits(s: Seq<char>) -> bool {
    s.len() > 0 && all_digits(s) && str_to_nat(s) <= u64::MAX
}

/// The value of a digit string never shrinks when more digits follow.
pub proof fn lemma_prefix_value_le(s: Seq<char>, j: int)
    requires
        0 <= j <= s.len(),
    ensures
        str_to_nat(s.take(j)) <= str_to_nat(s),
    decreases s.len() - j,
{
    if j < s.len() {
        assert(s.take(j + 1).drop_last() =~= s.take(j));
        assert(s.take(j + 1).last() == s[j]);
        lemma_prefix_value_le(s, j + 1);
    } else {
        assert(s.take(j) =~= s);
    }
}

/// Parses `s` as an unsigned decimal number.
/// Returns the value exactly when `s` is nonempty, all digits, and the
/// value fits in a `u64`; returns `None` otherwise.
pub fn parse_u64(s: &str) -> (r: Option<u64>)
    ensures
        r is Some <==> is_u64_digits(s@),
        r matches Some(v) ==> v == str_to_nat(s@),
{
    let n = s.unicode_len();
    if n == 0 {
        return None;
    }
    let mut v: u64 = 0;
    let mut i: usize = 0;
    while i < n
        invariant
            n == s@.len(),
            0 <= i <= n,
            all_digits(s@.take(i as int)),
            v == str_to_nat(s@.take(i as int)),
        decreases n - i,
    {
        let c = s.get_char(i);
        if c < '0' || c > '9' {
            assert(!is_digit(s@[i as int]));
            return None;
        }
        let d: u64 = (c as u32 - '0' as u32) as u64;
        proof {
            assert(s@.take(i + 1).drop_last() =~= s@.take(i as int));
            assert(s@.take(i + 1).last() == s@[i as int]);
        }
        if v > (u64::MAX - d) / 10 {
            proof {
                assert(str_to_nat(s@.take(i + 1)) > u64::MAX);
                lemma_prefix_value_le(s@, i + 1);
            }
            return None;
        }
        v = v * 10 + d;
        i = i + 1;
    }
    proof {
        assert(s@.take(n as int) =~= s@);
    }
    Some(v)
}

/// The digit character for a value below ten.
pub open spec fn digit_char(d: nat) -> char {
    if d == 0 {
        '0'
    } else if d == 1 {
        '1'
    } else if d == 2 {
        '2'
    } else if d == 3 {
        '3'
    } else if d == 4 {
        '4'
    } else if d == 5 {
        '5'
    } else if d == 6 {
        '6'
    } else if d == 7 {
        '7'
    } else if d == 8 {
        '8'
    } else {
        '9'
    }
}

/// The decimal notation of `n`, most significant digit first, no leading
/// zeros (a lone zero for `n == 0`).
pub open spec fn dec_digits(n: nat) -> Seq<char>
    decreases n,
{
    if n < 10 {
        seq![digit_char(n)]
    } else {
        dec_digits(n / 10).push(digit_char(n % 10))
    }
}

/// Law: decimal formatting and decimal parsing invert each other. The
/// notation of any value is all digits and reads back as that value, so a
/// framed numeric argument is parsed by the engine exactly as validated.
pub proof fn lemma_dec_digits_round_trip(n: nat)
    ensures
        all_digits(dec_digits(n)),
        str_to_nat(dec_digits(n)) == n,
    decreases n,
{
    if n < 10 {
        assert(dec_digits(n) == seq![digit_char(n)]);
        assert(dec_digits(n).len() == 1);
        assert(dec_digits(n).drop_last() =~= Seq::<char>::empty());
        assert(str_to_nat(Seq::<char>::empty()) == 0);
        assert(dec_digits(n).last() == digit_char(n));
        assert(digit_val(digit_char(n)) == n);
        assert(str_to_nat(dec_digits(n)) == n);
    } else {
        lemma_dec_digits_round_trip(n / 10);
        assert(dec_digits(n).drop_last() =~= dec_digits(n / 10));
        assert(dec_digits(n).last() == digit_char(n % 10));
        assert(digit_val(digit_char(n % 10)) == n % 10);
        assert(str_to_nat(dec_digits(n)) == (n / 10) * 10 + n % 10);
        assert((n / 10) * 10 + n % 10 == n) by {
            vstd::arithmetic::div_mod::lemma_fundamental_div_mod(n as int, 10);
        }
        assert(forall|i: int|
            0 <= i < dec_digits(n / 10).len() ==> dec_digits(n)[i] == dec_digits(n / 10)[i]);
    }
}

/// The one-character string for a digit value.
fn digit_str(d: u64) -> (r: &'static str)
    requires
        d < 10,
    ensures
        r@ =~= seq![digit_char(d as nat)],
{
    proof {
        reveal_strlit("0");
        reveal_strlit("1");
        reveal_strlit("2");
        reveal_strlit("3");
        reveal_strlit("4");
        reveal_strlit("5");
        reveal_strlit("6");
        reveal_strlit("7");
        reveal_strlit("8");
        reveal_strlit("9");
    }
    if d == 0 {
        "0"
    } else if d == 1 {
        "1"
    } else if d == 2 {
        "2"
    } else if d == 3 {
        "3"
    } else if d == 4 {
        "4"
    } else if d == 5 {
        "5"
    } else if d == 6 {
        "6"
    } else if d == 7 {
        "7"
    } else if d == 8 {
        "8"
    } else {
        "9"
    }
}

/// Renders `n` in decimal notation.
pub fn u64_to_string(n: u64) -> (r: String)
    ensures
        r@ == dec_digits(n as nat),
    decreases n,
{
    let d = n % 10;
    if n < 10 {
        let r = String::from_str(digit_str(d));
        proof {
            assert(r@ =~= dec_digits(n as nat));
        }
        r
    } else {
        let mut r = u64_to_string(n / 10);
        r.append(digit_str(d));
        proof {
            assert(r@ =~= dec_digits(n as nat));
        }
        r
    }
}

/// Character-for-character string equality.
pub fn str_eq(a: &str, b: &str) -> (r: bool)
    ensures
        r == (a@ == b@),
{
    let na = a.unicode_len();
    let nb = b.unicode_len();
    if na != nb {
        return false;
    }
    let mut i: usize = 0;
    while i < na
        invariant
            na == a@.len(),
            nb == b@.len(),
            na == nb,
            0 <= i <= na,
            forall|k: int| 0 <= k < i ==> a@[k] == b@[k],
        decreases na - i,
    {
        if a.get_char(i) != b.get_char(i) {
            return false;
        }
        i = i + 1;
    }
    proof {
        assert(a@ =~= b@);
    }
    true
}

/// Worker for `fields_of`: splits the remaining characters on spaces,
/// carrying the field under construction and the fields found so far.
pub open spec fn split_rec(s: Seq<char>, cur: Seq<char>, acc: Seq<Seq<char>>) -> Seq<Seq<char>>
    decreases s.len(),
{
    if s.len() == 0 {
        if cur.len() == 0 {
            acc
        } else {
            acc.push(cur)
        }
    } else if s[0] == ' ' {
        if cur.len() == 0 {
            split_rec(s.skip(1), cur, acc)
        } else {
            split_rec(s.skip(1), Seq::empty(), acc.push(cur))
        }
    } else {
        split_rec(s.skip(1), cur.push(s[0]), acc)
    }
}

/// The space-separated fields of a line, in order, with empty fields
/// (runs of spaces) dropped.
pub open spec fn fields_of(s: Seq<char>) -> Seq<Seq<char>> {
    split_rec(s, Seq::empty(), Seq::empty())
}

proof fn lemma_split_skip_space(s: Seq<char>, i: int, acc: Seq<Seq<char>>)
    requires
        0 <= i < s.len(),
        s[i] == ' ',
    ensures
        split_rec(s.skip(i), Seq::empty(), acc) == split_rec(s.skip(i + 1), Seq::empty(), acc),
{
    assert(s.skip(i)[0] == s[i]);
    assert(s.skip(i).skip(1) =~= s.skip(i + 1));
}

proof fn lemma_split_token(s: Seq<char>, i: int, j: int, cur: Seq<char>, acc: Seq<Seq<char>>)
    requires
        0 <= i <= j <= s.len(),
        forall|k: int| i <= k < j ==> s[k] != ' ',
    ensures
        split_rec(s.skip(i), cur, acc) == split_rec(s.skip(j), cur + s.subrange(i, j), acc),
    decreases j - i,
{
    if i == j {
        assert(cur + s.subrange(i, j) =~= cur);
    } else {
        assert(s.skip(i)[0] == s[i]);
        assert(s.skip(i).skip(1) =~= s.skip(i + 1));
        lemma_split_token(s, i + 1, j, cur.push(s[i]), acc);
        assert(cur.push(s[i]) + s.subrange(i + 1, j) =~= cur + s.subrange(i, j));
    }
}

/// Splits a line into its space-separated fields.
pub fn split_fields(line: &str) -> (r: Vec<String>)
    ensures
        r.deep_view() == fields_of(line@),
{
    let n = line.unicode_len();
    let mut acc: Vec<String> = Vec::new();
    let mut i: usize = 0;
    proof {
        assert(acc.deep_view() =~= Seq::<Seq<char>>::empty());
        assert(line@.skip(0) =~= line@);
    }
    while i < n
        invariant
            n == line@.len(),
            0 <= i <= n,
            fields_of(line@) == split_rec(
                line@.skip(i as int),
                Seq::<char>::empty(),
                acc.deep_view(),
            ),
        decreases n - i,
    {
        let c = line.get_char(i);
        if c == ' ' {
            proof {
                lemma_split_skip_space(line@, i as int, acc.deep_view());
            }
            i = i + 1;
        } else {
            let mut j = i + 1;
            while j < n && line.get_char(j) != ' '
                invariant
                    n == line@.len(),
                    0 <= i < j <= n,
                    forall|k: int| i <= k < j ==> line@[k] != ' ',
                decreases n - j,
            {
                j = j + 1;
            }
            let field = line.substring_char(i, j).to_owned();
            let ghost old_acc = acc.deep_view();
            let ghost fv = field@;
            acc.push(field);
            proof {
                assert(acc.deep_view() =~= old_acc.push(fv));
                lemma_split_token(
                    line@,
                    i as int,
                    j as int,
                    Seq::<char>::empty(),
                    old_acc,
                );
                assert(Seq::<char>::empty() + line@.subrange(i as int, j as int) =~= fv);
            }
            if j < n {
                proof {
                    assert(line@.skip(j as int)[0] == line@[j as int]);
                    assert(line@.skip(j as int).skip(1) =~= line@.skip(j + 1));
                }
                i = j + 1;
            } else {
                proof {
                    assert(line@.skip(j as int).len() == 0);
                }
                i = j;
            }
        }
    }
    proof {
        assert(line@.skip(n as int).len() == 0);
    }
    acc
}

} // verus!

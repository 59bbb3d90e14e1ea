//! Verified helpers for the small amount of string handling the
//! generator needs: decimal rendering for padding-field names, suffix
//! stripping for shader file names, list joining for derive lines, and
//! the snake-case conversion of reflected field names.

use vstd::prelude::*;
use vstd::string::StrSliceExecFns;
use vstd::string::StringExecFns;

verus! {

/// The snake-case form of a name, as heck computes it.
pub uninterp spec fn snake_case_of(s: Seq<char>) -> Seq<char>;

/// Relies on `heck::ToSnakeCase::to_snake_case` for `str`: the returned
/// snake-case form depends on the characters of the input alone.
#[verifier::external_body]
pub(crate) fn to_snake_case(s: &str) -> (r: String)
    ensures
        r@ == snake_case_of(s@),
{
    heck::ToSnakeCase::to_snake_case(s)
}

/// The character for a single decimal digit.
pub open spec fn dec_digit(d: nat) -> char {
    if d == 0 {
        '0'
    } else if d == 1 {
        '1'
    } else if d == 2 {
        '2'
    } else if d == 3 {
        '3'
    } else if d == 4 {
        '4'
    } else if d == 5 {
        '5'
    } else if d == 6 {
        '6'
    } else if d == 7 {
        '7'
    } else if d == 8 {
        '8'
    } else {
        '9'
    }
}

/// The usual decimal rendering of a natural number, most significant
/// digit first, with no leading zeros (except for zero itself).
pub open spec fn dec_str(n: nat) -> Seq<char>
    decreases n,
{
    if n < 10 {
        seq![dec_digit(n)]
    } else {
        dec_str(n / 10) + seq![dec_digit(n % 10)]
    }
}

fn digit_str(d: u32) -> (r: &'static str)
    requires
        d < 10,
    ensures
        r@ == seq![dec_digit(d as nat)],
{
    proof {
        reveal_strlit("0");
        reveal_strlit("1");
        reveal_strlit("2");
        reveal_strlit("3");
        reveal_strlit("4");
        reveal_strlit("5");
        reveal_strlit("6");
        reveal_strlit("7");
        reveal_strlit("8");
        reveal_strlit("9");
    }
    let r: &'static str = match d {
        0 => "0",
        1 => "1",
        2 => "2",
        3 => "3",
        4 => "4",
        5 => "5",
        6 => "6",
        7 => "7",
        8 => "8",
        _ => "9",
    };
    proof {
        assert(r@ =~= seq![dec_digit(d as nat)]);
    }
    r
}

/// Render a `u32` in decimal.
pub fn u32_to_dec(n: u32) -> (r: String)
    ensures
        r@ == dec_str(n as nat),
    decreases n,
{
    if n < 10 {
        String::from_str(digit_str(n))
    } else {
        assert(n as nat / 10 < n as nat) by (nonlinear_arith)
            requires
                n >= 10,
        ;
        let mut s = u32_to_dec(n / 10);
        s.append(digit_str(n % 10));
        s
    }
}

/// Render a `usize` in decimal.
pub fn usize_to_dec(n: usize) -> (r: String)
    ensures
        r@ == dec_str(n as nat),
    decreases n,
{
    if n < 10 {
        String::from_str(digit_str(n as u32))
    } else {
        assert(n as nat / 10 < n as nat) by (nonlinear_arith)
            requires
                n >= 10,
        ;
        let mut s = usize_to_dec(n / 10);
        s.append(digit_str((n % 10) as u32));
        s
    }
}

/// The synthetic name of the padding field with the given index.
pub open spec fn padding_name_of(i: int) -> Seq<char> {
    "_padding_"@ + dec_str(i as nat)
}

/// Render the synthetic name of a padding field.
pub fn padding_field_name(i: usize) -> (r: String)
    ensures
        r@ == padding_name_of(i as int),
{
    let mut s = String::from_str("_padding_");
    let num = usize_to_dec(i);
    s.append(num.as_str());
    s
}

/// The byte-array type a padding field of the given size is declared
/// with.
pub open spec fn padding_type_text_of(size: int) -> Seq<char> {
    "[u8; "@ + dec_str(size as nat) + "]"@
}

/// Render the byte-array type of a padding field.
pub fn padding_type_text(size: u32) -> (r: String)
    ensures
        r@ == padding_type_text_of(size as int),
{
    let mut s = String::from_str("[u8; ");
    let num = u32_to_dec(size);
    s.append(num.as_str());
    s.append("]");
    s
}

/// Whether `s` ends with the suffix `suf`.
pub open spec fn ends_with(s: Seq<char>, suf: Seq<char>) -> bool {
    suf.len() <= s.len() && s.subrange(s.len() - suf.len(), s.len() as int) == suf
}

/// Strip `suffix` from the end of `s`, if it is there.
pub fn strip_suffix(s: &str, suffix: &str) -> (r: Option<String>)
    ensures
        match r {
            Some(p) => ends_with(s@, suffix@) && p@ == s@.subrange(
                0,
                s@.len() - suffix@.len(),
            ),
            None => !ends_with(s@, suffix@),
        },
{
    let n: usize = s.unicode_len();
    let k: usize = suffix.unicode_len();
    if k > n {
        return None;
    }
    let mut i: usize = 0;
    while i < k
        invariant
            k <= n,
            n == s@.len(),
            k == suffix@.len(),
            i <= k,
            forall|j: int| 0 <= j < i ==> s@[n - k + j] == suffix@[j],
        decreases k - i,
    {
        if s.get_char(n - k + i) != suffix.get_char(i) {
            assert(s@.subrange(n - k, n as int)[i as int] != suffix@[i as int]);
            return None;
        }
        i += 1;
    }
    let prefix = s.substring_char(0, n - k);
    proof {
        assert(s@.subrange(n - k, n as int) =~= suffix@);
    }
    Some(prefix.to_owned())
}

/// The concatenation of `parts` with `sep` between neighbours.
pub open spec fn join_with(parts: Seq<Seq<char>>, sep: Seq<char>) -> Seq<char>
    decreases parts.len(),
{
    if parts.len() == 0 {
        Seq::empty()
    } else if parts.len() == 1 {
        parts[0]
    } else {
        parts[0] + sep + join_with(parts.drop_first(), sep)
    }
}

/// Join string slices with a separator.
pub fn join_strs(parts: &Vec<&'static str>, sep: &str) -> (r: String)
    ensures
        r@ == join_with(parts@.map_values(|p: &'static str| p@), sep@),
{
    let r = join_strs_from(parts, sep, 0);
    proof {
        let views = parts@.map_values(|p: &'static str| p@);
        assert(views.subrange(0, views.len() as int) =~= views);
    }
    r
}

fn join_strs_from(parts: &Vec<&'static str>, sep: &str, i: usize) -> (r: String)
    requires
        i <= parts@.len(),
    ensures
        r@ == join_with(
            parts@.map_values(|p: &'static str| p@).subrange(i as int, parts@.len() as int),
            sep@,
        ),
    decreases parts@.len() - i,
{
    let ghost views = parts@.map_values(|p: &'static str| p@);
    let ghost tail = views.subrange(i as int, views.len() as int);
    if i >= parts.len() {
        String::new()
    } else if i + 1 == parts.len() {
        assert(tail[0] == views[i as int]);
        String::from_str(parts[i])
    } else {
        let head = String::from_str(parts[i]).concat(sep);
        let rest = join_strs_from(parts, sep, i + 1);
        proof {
            assert(tail[0] == views[i as int]);
            assert(tail.drop_first() =~= views.subrange(i + 1, views.len() as int));
        }
        head.concat(rest.as_str())
    }
}

} // verus!

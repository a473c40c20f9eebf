//! Decimal numbers, booleans and comma-separated lists as text.

use vstd::prelude::*;
use vstd::string::*;

verus! {

/// The character that writes the decimal digit `d`.
pub open spec fn digit_char(d: nat) -> char {
    if d == 0 {
        '0'
    } else if d == 1 {
        '1'
    } else if d == 2 {
        '2'
    } else if d == 3 {
        '3'
    } else if d == 4 {
        '4'
    } else if d == 5 {
        '5'
    } else if d == 6 {
        '6'
    } else if d == 7 {
        '7'
    } else if d == 8 {
        '8'
    } else {
        '9'
    }
}

/// The digit that `c` writes, if it writes one.
pub open spec fn digit_value(c: char) -> Option<nat> {
    if c == '0' {
        Some(0)
    } else if c == '1' {
        Some(1)
    } else if c == '2' {
        Some(2)
    } else if c == '3' {
        Some(3)
    } else if c == '4' {
        Some(4)
    } else if c == '5' {
        Some(5)
    } else if c == '6' {
        Some(6)
    } else if c == '7' {
        Some(7)
    } else if c == '8' {
        Some(8)
    } else if c == '9' {
        Some(9)
    } else {
        None
    }
}

/// `n` in decimal, without sign or leading zeros.
pub open spec fn decimal(n: nat) -> Seq<char>
    decreases n,
{
    if n < 10 {
        seq![digit_char(n)]
    } else {
        decimal(n / 10).push(digit_char(n % 10))
    }
}

/// The number that a run of decimal digits writes; `None` where a character
/// is no digit. The empty run writes 0.
pub open spec fn digits_value(s: Seq<char>) -> Option<nat>
    decreases s.len(),
{
    if s.len() == 0 {
        Some(0)
    } else {
        match (digits_value(s.drop_last()), digit_value(s.last())) {
            (Some(v), Some(d)) => Some(10 * v + d),
            _ => None,
        }
    }
}

/// A number below 256 written with at least one digit and nothing else.
pub open spec fn plain_u8(s: Seq<char>) -> Option<u8> {
    if s.len() == 0 {
        None
    } else {
        match digits_value(s) {
            Some(v) => if v <= 255 {
                Some(v as u8)
            } else {
                None
            },
            None => None,
        }
    }
}

/// A number below 256 as the standard integer grammar reads it: one optional
/// `+`, then at least one digit.
pub open spec fn signed_u8(s: Seq<char>) -> Option<u8> {
    if s.len() > 0 && s[0] == '+' {
        plain_u8(s.subrange(1, s.len() as int))
    } else {
        plain_u8(s)
    }
}

/// `true` and `false` in exactly these spellings.
pub open spec fn bool_value(s: Seq<char>) -> Option<bool> {
    if s == seq!['t', 'r', 'u', 'e'] {
        Some(true)
    } else if s == seq!['f', 'a', 'l', 's', 'e'] {
        Some(false)
    } else {
        None
    }
}

/// The pieces of `s` between its commas. A text without comma is one piece,
/// the empty text one empty piece.
pub open spec fn comma_pieces(s: Seq<char>) -> Seq<Seq<char>>
    decreases s.len(),
{
    if s.len() == 0 {
        seq![Seq::<char>::empty()]
    } else {
        let before = comma_pieces(s.drop_last());
        if s.last() == ',' {
            before.push(Seq::<char>::empty())
        } else {
            before.update(before.len() - 1, before.last().push(s.last()))
        }
    }
}

/// The views of a list of texts.
pub open spec fn views(v: Seq<String>) -> Seq<Seq<char>> {
    v.map_values(|s: String| s@)
}

/// A prefix of a run of digits writes a number that is no larger.
pub proof fn lemma_digits_prefix(s: Seq<char>, k: int)
    requires
        0 <= k <= s.len(),
        digits_value(s) is Some,
    ensures
        digits_value(s.subrange(0, k)) is Some,
        digits_value(s.subrange(0, k))->0 <= digits_value(s)->0,
    decreases s.len(),
{
    if k == s.len() {
        assert(s.subrange(0, k) =~= s);
    } else {
        lemma_digits_prefix(s.drop_last(), k);
        assert(s.drop_last().subrange(0, k) =~= s.subrange(0, k));
    }
}

fn digit_text(d: u64) -> (r: &'static str)
    requires
        d < 10,
    ensures
        r@ == seq![digit_char(d as nat)],
{
    proof {
        reveal_strlit("0");
        reveal_strlit("1");
        reveal_strlit("2");
        reveal_strlit("3");
        reveal_strlit("4");
        reveal_strlit("5");
        reveal_strlit("6");
        reveal_strlit("7");
        reveal_strlit("8");
        reveal_strlit("9");
    }
    let r: &'static str = if d == 0 {
        "0"
    } else if d == 1 {
        "1"
    } else if d == 2 {
        "2"
    } else if d == 3 {
        "3"
    } else if d == 4 {
        "4"
    } else if d == 5 {
        "5"
    } else if d == 6 {
        "6"
    } else if d == 7 {
        "7"
    } else if d == 8 {
        "8"
    } else {
        "9"
    };
    assert(r@ =~= seq![digit_char(d as nat)]);
    r
}

/// Writes `n` in decimal.
pub fn decimal_text(n: u64) -> (r: String)
    ensures
        r@ == decimal(n as nat),
    decreases n,
{
    if n < 10 {
        digit_text(n).to_owned()
    } else {
        let mut r = decimal_text(n / 10);
        r.append(digit_text(n % 10));
        assert(r@ =~= decimal(n as nat));
        r
    }
}

fn digit_of(c: char) -> (r: Option<u32>)
    ensures
        match r {
            Some(d) => digit_value(c) == Some(d as nat),
            None => digit_value(c) is None,
        },
{
    if c == '0' {
        Some(0)
    } else if c == '1' {
        Some(1)
    } else if c == '2' {
        Some(2)
    } else if c == '3' {
        Some(3)
    } else if c == '4' {
        Some(4)
    } else if c == '5' {
        Some(5)
    } else if c == '6' {
        Some(6)
    } else if c == '7' {
        Some(7)
    } else if c == '8' {
        Some(8)
    } else if c == '9' {
        Some(9)
    } else {
        None
    }
}

/// Reads the characters of `s` from `from` on as a number below 256 made of
/// digits alone.
fn read_u8_from(s: &str, from: usize) -> (r: Option<u8>)
    requires
        from <= s@.len(),
    ensures
        r == plain_u8(s@.subrange(from as int, s@.len() as int)),
{
    let n: usize = s.unicode_len();
    let ghost body = s@.subrange(from as int, n as int);
    if from == n {
        return None;
    }
    let mut acc: u32 = 0;
    let mut i: usize = from;
    while i < n
        invariant
            from <= i <= n,
            n == s@.len(),
            body == s@.subrange(from as int, n as int),
            digits_value(body.subrange(0, i - from)) == Some(acc as nat),
            acc <= 255,
        decreases n - i,
    {
        let c: char = s.get_char(i);
        let ghost upto = body.subrange(0, i - from + 1);
        proof {
            assert(upto.drop_last() =~= body.subrange(0, i - from));
            assert(upto.last() == c);
        }
        match digit_of(c) {
            None => {
                proof {
                    if digits_value(body) is Some {
                        lemma_digits_prefix(body, i - from + 1);
                    }
                }
                return None;
            },
            Some(d) => {
                let next: u32 = acc * 10 + d;
                if next > 255 {
                    proof {
                        if digits_value(body) is Some {
                            lemma_digits_prefix(body, i - from + 1);
                        }
                    }
                    return None;
                }
                acc = next;
            },
        }
        i = i + 1;
    }
    proof {
        assert(body.subrange(0, n - from) =~= body);
    }
    Some(acc as u8)
}

/// Reads a number below 256 written with digits alone.
pub fn parse_plain_u8(s: &str) -> (r: Option<u8>)
    ensures
        r == plain_u8(s@),
{
    proof {
        assert(s@.subrange(0, s@.len() as int) =~= s@);
    }
    read_u8_from(s, 0)
}

/// Reads a number below 256 as the standard integer grammar does: one `+` may
/// come first.
pub fn parse_u8(s: &str) -> (r: Option<u8>)
    ensures
        r == signed_u8(s@),
{
    let n: usize = s.unicode_len();
    if n > 0 && s.get_char(0) == '+' {
        read_u8_from(s, 1)
    } else {
        proof {
            assert(s@.subrange(0, s@.len() as int) =~= s@);
        }
        read_u8_from(s, 0)
    }
}

/// Whether two texts hold the same characters.
pub fn same_text(a: &str, b: &str) -> (r: bool)
    ensures
        r == (a@ == b@),
{
    let left: String = a.to_owned();
    let right: String = b.to_owned();
    left == right
}

/// A copy of a list of texts.
pub fn copy_texts(v: &Vec<String>) -> (r: Vec<String>)
    ensures
        views(r@) == views(v@),
{
    let mut r: Vec<String> = Vec::new();
    let mut i: usize = 0;
    while i < v.len()
        invariant
            i <= v.len(),
            r@.len() == i,
            forall|j: int| 0 <= j < i ==> (#[trigger] r@[j])@ == v@[j]@,
        decreases v.len() - i,
    {
        r.push(v[i].clone());
        i = i + 1;
    }
    assert(views(r@) =~= views(v@));
    r
}

/// A copy of a list of identifiers.
pub fn copy_ids(v: &Vec<u128>) -> (r: Vec<u128>)
    ensures
        r@ == v@,
{
    let mut r: Vec<u128> = Vec::new();
    let mut i: usize = 0;
    while i < v.len()
        invariant
            i <= v.len(),
            r@ == v@.subrange(0, i as int),
        decreases v.len() - i,
    {
        r.push(v[i]);
        assert(r@ =~= v@.subrange(0, i + 1));
        i = i + 1;
    }
    assert(v@.subrange(0, v.len() as int) =~= v@);
    r
}

/// A copy of an optional text.
pub fn copy_optional_text(t: &Option<String>) -> (r: Option<String>)
    ensures
        r is Some <==> t is Some,
        r matches Some(s) ==> s@ == t->0@,
{
    match t {
        Some(s) => Some(s.clone()),
        None => None,
    }
}

/// Reads `true` or `false`.
pub fn parse_bool(s: &str) -> (r: Option<bool>)
    ensures
        r == bool_value(s@),
{
    proof {
        reveal_strlit("true");
        reveal_strlit("false");
        assert("true"@ =~= seq!['t', 'r', 'u', 'e']);
        assert("false"@ =~= seq!['f', 'a', 'l', 's', 'e']);
    }
    if same_text(s, "true") {
        Some(true)
    } else if same_text(s, "false") {
        Some(false)
    } else {
        None
    }
}

/// Cuts `s` at each comma.
pub fn split_commas(s: &str) -> (r: Vec<String>)
    ensures
        views(r@) == comma_pieces(s@),
{
    let n: usize = s.unicode_len();
    let mut done: Vec<String> = Vec::new();
    let mut start: usize = 0;
    let mut i: usize = 0;
    proof {
        assert(s@.subrange(0, 0) =~= Seq::<char>::empty());
        assert(views(done@).push(s@.subrange(0, 0)) =~= seq![Seq::<char>::empty()]);
    }
    while i < n
        invariant
            start <= i <= n,
            n == s@.len(),
            views(done@).push(s@.subrange(start as int, i as int)) == comma_pieces(
                s@.subrange(0, i as int),
            ),
        decreases n - i,
    {
        let ghost before = s@.subrange(0, i as int);
        let ghost upto = s@.subrange(0, i + 1);
        proof {
            assert(upto.drop_last() =~= before);
            assert(upto.last() == s@[i as int]);
        }
        if s.get_char(i) == ',' {
            let piece = s.substring_char(start, i);
            let ghost old_done = done@;
            done.push(piece.to_owned());
            proof {
                assert(views(done@) =~= views(old_done).push(piece@));
                assert(s@.subrange(i + 1, i + 1) =~= Seq::<char>::empty());
            }
            start = i + 1;
        } else {
            proof {
                let cur = s@.subrange(start as int, i as int);
                assert(s@.subrange(start as int, i + 1) =~= cur.push(s@[i as int]));
                assert(views(done@).push(cur).update(
                    views(done@).len() as int,
                    cur.push(s@[i as int]),
                ) =~= views(done@).push(cur.push(s@[i as int])));
            }
        }
        i = i + 1;
    }
    let piece = s.substring_char(start, n);
    let ghost old_done = done@;
    done.push(piece.to_owned());
    proof {
        assert(views(done@) =~= views(old_done).push(piece@));
        assert(s@.subrange(0, n as int) =~= s@);
    }
    done
}

} // verus!

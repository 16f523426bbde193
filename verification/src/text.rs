//! Small verified text utilities: decimal rendering of sizes and locating
//! the function-pointer marker `(*)` in a type spelling.

use vstd::prelude::*;
use vstd::string::StrSliceExecFns;
use vstd::string::StringExecFns;

verus! {

/// The decimal digit character for `d`.
pub open spec fn spec_digit_char(d: int) -> char {
    if d == 0 {
        '0'
    } else if d == 1 {
        '1'
    } else if d == 2 {
        '2'
    } else if d == 3 {
        '3'
    } else if d == 4 {
        '4'
    } else if d == 5 {
        '5'
    } else if d == 6 {
        '6'
    } else if d == 7 {
        '7'
    } else if d == 8 {
        '8'
    } else {
        '9'
    }
}

/// The decimal spelling of `n`, most significant digit first.
pub open spec fn spec_decimal(n: nat) -> Seq<char>
    decreases n,
{
    if n < 10 {
        seq![spec_digit_char(n as int)]
    } else {
        spec_decimal(n / 10) + seq![spec_digit_char((n % 10) as int)]
    }
}

/// The one-character string for the digit `d`.
fn digit_str(d: usize) -> (r: &'static str)
    requires
        d < 10,
    ensures
        r@ == seq![spec_digit_char(d as int)],
{
    proof {
        reveal_strlit("0");
        reveal_strlit("1");
        reveal_strlit("2");
        reveal_strlit("3");
        reveal_strlit("4");
        reveal_strlit("5");
        reveal_strlit("6");
        reveal_strlit("7");
        reveal_strlit("8");
        reveal_strlit("9");
    }
    let r = match d {
        0 => "0",
        1 => "1",
        2 => "2",
        3 => "3",
        4 => "4",
        5 => "5",
        6 => "6",
        7 => "7",
        8 => "8",
        _ => "9",
    };
    proof {
        assert(r@ =~= seq![spec_digit_char(d as int)]);
    }
    r
}

/// Renders `n` in decimal.
pub fn render_usize(n: usize) -> (r: String)
    ensures
        r@ == spec_decimal(n as nat),
    decreases n,
{
    if n < 10 {
        String::from_str(digit_str(n))
    } else {
        proof {
            assert(n / 10 < n) by (nonlinear_arith)
                requires n >= 10;
        }
        let mut s = render_usize(n / 10);
        s.append(digit_str(n % 10));
        s
    }
}

/// Whether the function-pointer marker `(*)` occurs in `s` at position `i`.
pub open spec fn marker_at(s: Seq<char>, i: int) -> bool {
    &&& 0 <= i
    &&& i + 3 <= s.len()
    &&& s[i] == '('
    &&& s[i + 1] == '*'
    &&& s[i + 2] == ')'
}

/// The position of the first occurrence of the marker at or after `from`.
pub open spec fn spec_find_marker(s: Seq<char>, from: int) -> Option<int>
    decreases s.len() - from,
{
    if from < 0 || from + 3 > s.len() {
        None
    } else if marker_at(s, from) {
        Some(from)
    } else {
        spec_find_marker(s, from + 1)
    }
}

/// A found marker really is one, and lies at or after the start of the
/// search.
pub proof fn lemma_find_marker_some(s: Seq<char>, from: int, i: int)
    requires
        spec_find_marker(s, from) == Some(i),
    ensures
        marker_at(s, i),
        from <= i,
    decreases s.len() - from,
{
    if from < 0 || from + 3 > s.len() {
    } else if marker_at(s, from) {
    } else {
        lemma_find_marker_some(s, from + 1, i);
    }
}

/// Finds the first occurrence of the function-pointer marker `(*)` in `s`.
pub fn find_marker(s: &str) -> (r: Option<usize>)
    ensures
        match r {
            Some(i) => spec_find_marker(s@, 0) == Some(i as int),
            None => spec_find_marker(s@, 0) is None,
        },
{
    let n = s.unicode_len();
    if n < 3 {
        return None;
    }
    let mut i: usize = 0;
    while i <= n - 3
        invariant
            n == s@.len(),
            3 <= n,
            i <= n,
            spec_find_marker(s@, 0) == spec_find_marker(s@, i as int),
        decreases n - i,
    {
        let c0 = s.get_char(i);
        let c1 = s.get_char(i + 1);
        let c2 = s.get_char(i + 2);
        if c0 == '(' && c1 == '*' && c2 == ')' {
            return Some(i);
        }
        proof {
            assert(!marker_at(s@, i as int));
            assert(spec_find_marker(s@, i as int) == spec_find_marker(s@, i + 1));
        }
        i += 1;
    }
    proof {
        assert(spec_find_marker(s@, i as int) is None);
    }
    None
}

} // verus!

//! Verified text helpers: the case-insensitive substring test that string
//! filters use, and comma joining and splitting for list-valued fields.

use vstd::prelude::*;

verus! {

/// ASCII lowering of one code point: letters `A`..`Z` map to their lowercase
/// counterpart, everything else is unchanged.
pub open spec fn lower_code(x: u32) -> u32 {
    if 65 <= x && x <= 90 {
        (x + 32) as u32
    } else {
        x
    }
}

/// A character sequence folded to lowercase code points.
pub open spec fn lower_seq(s: Seq<char>) -> Seq<u32> {
    s.map_values(|c: char| lower_code(c as u32))
}

/// The needle `n` occurs in `h` starting at position `k`.
pub open spec fn match_at(h: Seq<u32>, n: Seq<u32>, k: int) -> bool {
    forall|j: int| 0 <= j < n.len() ==> h[k + j] == n[j]
}

/// Case-insensitive containment: some position of `hay` starts an occurrence
/// of `needle`, letters compared without regard to ASCII case.
pub open spec fn ci_contains(hay: Seq<char>, needle: Seq<char>) -> bool {
    exists|k: int|
        0 <= k <= hay.len() - needle.len() && match_at(lower_seq(hay), lower_seq(needle), k)
}

fn lower_char_code(c: char) -> (r: u32)
    ensures
        r == lower_code(c as u32),
{
    let x = c as u32;
    if 65 <= x && x <= 90 {
        x + 32
    } else {
        x
    }
}

/// Decides [`ci_contains`] on string slices.
pub fn ci_contains_exec(hay: &str, needle: &str) -> (b: bool)
    ensures
        b == ci_contains(hay@, needle@),
{
    let hl = hay.unicode_len();
    let nl = needle.unicode_len();
    if nl > hl {
        return false;
    }
    let mut k: usize = 0;
    while k <= hl - nl
        invariant
            nl <= hl,
            hl == hay@.len(),
            nl == needle@.len(),
            k <= hl - nl + 1,
            forall|k2: int|
                0 <= k2 < k ==> !match_at(lower_seq(hay@), lower_seq(needle@), k2),
        decreases hl - nl + 1 - k,
    {
        let mut matched = true;
        let mut j: usize = 0;
        while j < nl && matched
            invariant
                nl <= hl,
                hl == hay@.len(),
                nl == needle@.len(),
                k <= hl - nl,
                j <= nl,
                matched ==> forall|j2: int|
                    0 <= j2 < j ==> lower_seq(hay@)[k + j2] == lower_seq(needle@)[j2],
                !matched ==> !match_at(lower_seq(hay@), lower_seq(needle@), k as int),
            decreases nl - j + (if matched { 1int } else { 0int }),
        {
            let hc = lower_char_code(hay.get_char(k + j));
            let nc = lower_char_code(needle.get_char(j));
            if hc != nc {
                proof {
                    assert(lower_seq(hay@)[k + j] != lower_seq(needle@)[j as int]);
                }
                matched = false;
            } else {
                j += 1;
            }
        }
        if matched {
            proof {
                assert(match_at(lower_seq(hay@), lower_seq(needle@), k as int));
            }
            return true;
        }
        k += 1;
    }
    false
}

/// The views of a sequence of strings.
pub open spec fn views_of(v: Seq<String>) -> Seq<Seq<char>> {
    v.map_values(|s: String| s@)
}

/// The comma join of the elements of `v` from position `i` on.
pub open spec fn join_commas_spec(v: Seq<Seq<char>>, i: int) -> Seq<char>
    decreases v.len() - i,
{
    if !(0 <= i < v.len()) {
        Seq::empty()
    } else if i == v.len() - 1 {
        v[i]
    } else {
        v[i] + seq![','] + join_commas_spec(v, i + 1)
    }
}

/// Joins the strings of `v` with commas, as stored answer lists are held.
pub fn join_commas(v: &Vec<String>) -> (r: String)
    ensures
        r@ == join_commas_spec(views_of(v@), 0),
{
    proof {
        reveal_strlit(",");
    }
    if v.len() == 0 {
        return String::new();
    }
    let mut i: usize = v.len() - 1;
    let mut r: String = v[i].clone();
    while i > 0
        invariant
            i < v@.len(),
            r@ == join_commas_spec(views_of(v@), i as int),
        decreases i,
    {
        i = i - 1;
        let mut nr: String = v[i].clone();
        nr.append(",");
        nr.append(r.as_str());
        proof {
            reveal_strlit(",");
            assert(nr@ =~= views_of(v@)[i as int] + seq![','] + join_commas_spec(
                views_of(v@),
                i + 1,
            ));
        }
        r = nr;
    }
    r
}

/// Value equality of two strings, decided executably.
pub fn str_eq(a: &String, b: &String) -> (r: bool)
    ensures
        r == (a@ == b@),
{
    a.eq(b)
}

/// Value equality of two string slices, decided executably.
pub fn str_eq_str(a: &str, b: &str) -> (r: bool)
    ensures
        r == (a@ == b@),
{
    let al = a.unicode_len();
    let bl = b.unicode_len();
    if al != bl {
        return false;
    }
    let mut i: usize = 0;
    while i < al
        invariant
            i <= al,
            al == a@.len(),
            bl == b@.len(),
            al == bl,
            forall|k: int| 0 <= k < i ==> a@[k] == b@[k],
        decreases al - i,
    {
        if a.get_char(i) != b.get_char(i) {
            return false;
        }
        i += 1;
    }
    proof {
        assert(a@ =~= b@);
    }
    true
}

/// ASCII whitespace, as list parsing strips it around tokens.
pub open spec fn is_ws(c: char) -> bool {
    c == ' ' || c == '\t' || c == '\n' || c == '\r'
}

/// Index of the first comma at or after `i`, if any.
pub open spec fn comma_idx_from(s: Seq<char>, i: int) -> Option<int>
    decreases s.len() - i,
{
    if !(0 <= i < s.len()) {
        None
    } else if s[i] == ',' {
        Some(i)
    } else {
        comma_idx_from(s, i + 1)
    }
}

/// First position in `[a, b)` that is not whitespace, or `b`.
pub open spec fn skip_ws(s: Seq<char>, a: int, b: int) -> int
    decreases b - a,
{
    if a < b && a < s.len() && 0 <= a && is_ws(s[a]) {
        skip_ws(s, a + 1, b)
    } else {
        a
    }
}

/// End of `[a, b)` with trailing whitespace removed, not before `a`.
pub open spec fn rtrim(s: Seq<char>, a: int, b: int) -> int
    decreases b - a,
{
    if b > a && 0 < b <= s.len() && is_ws(s[b - 1]) {
        rtrim(s, a, b - 1)
    } else {
        b
    }
}

/// The digit value of a character.
pub open spec fn digit_of(c: char) -> int {
    c as u32 - 48
}

/// Every character in `[a, b)` is an ASCII digit.
pub open spec fn all_digits_range(s: Seq<char>, a: int, b: int) -> bool {
    forall|j: int| a <= j < b ==> 48 <= #[trigger] (s[j] as u32) <= 57
}

/// The numeric value of the digits `s[a..i)`.
pub open spec fn digits_val_range(s: Seq<char>, a: int, i: int) -> int
    decreases i - a,
{
    if i <= a {
        0
    } else {
        digits_val_range(s, a, i - 1) * 10 + digit_of(s[i - 1])
    }
}

/// Digit values only grow as more digits are appended.
pub proof fn lemma_digits_monotone(s: Seq<char>, a: int, i: int, j: int)
    requires
        0 <= a <= i <= j,
        j <= s.len(),
        all_digits_range(s, a, j),
    ensures
        0 <= digits_val_range(s, a, i) <= digits_val_range(s, a, j),
    decreases j - i,
{
    if i == j {
        lemma_digits_nonneg(s, a, i);
    } else {
        lemma_digits_monotone(s, a, i, j - 1);
        lemma_digits_nonneg(s, a, j - 1);
        assert(digits_val_range(s, a, j) == digits_val_range(s, a, j - 1) * 10 + digit_of(
            s[j - 1],
        ));
        assert(digit_of(s[j - 1]) >= 0);
        assert(digits_val_range(s, a, j - 1) * 10 >= digits_val_range(s, a, j - 1)) by (
        nonlinear_arith)
            requires
                digits_val_range(s, a, j - 1) >= 0,
        ;
    }
}

/// Digit values are never negative.
pub proof fn lemma_digits_nonneg(s: Seq<char>, a: int, i: int)
    requires
        0 <= a,
        i <= s.len(),
        all_digits_range(s, a, i),
    ensures
        digits_val_range(s, a, i) >= 0,
    decreases i - a,
{
    if i > a {
        lemma_digits_nonneg(s, a, i - 1);
        assert(digits_val_range(s, a, i - 1) * 10 >= 0) by (nonlinear_arith)
            requires
                digits_val_range(s, a, i - 1) >= 0,
        ;
    }
}

/// The number one token `s[a..b)` parses to: whitespace trimmed on both
/// sides, an optional leading plus sign, then one or more digits whose value
/// fits an unsigned 64-bit integer; anything else parses to nothing.
pub open spec fn token_value_range(s: Seq<char>, a: int, b: int) -> Option<u64> {
    let a2 = skip_ws(s, a, b);
    let b2 = rtrim(s, a2, b);
    let a3 = if a2 < b2 && 0 <= a2 < s.len() && s[a2] == '+' {
        a2 + 1
    } else {
        a2
    };
    if a3 < b2 && all_digits_range(s, a3, b2) && digits_val_range(s, a3, b2) <= u64::MAX {
        Some(digits_val_range(s, a3, b2) as u64)
    } else {
        None
    }
}

/// The sequence an optional number contributes to a parsed list.
pub open spec fn opt_val_seq(o: Option<u64>) -> Seq<u64> {
    match o {
        Some(v) => seq![v],
        None => Seq::empty(),
    }
}

/// The numbers parsed from the comma-separated list `s`, reading from
/// position `start`: tokens that parse to a number are kept in order,
/// malformed tokens are skipped.
pub open spec fn parse_courses_from(s: Seq<char>, start: int) -> Seq<u64>
    decreases s.len() - start,
{
    if !(0 <= start <= s.len()) {
        Seq::empty()
    } else {
        match comma_idx_from(s, start) {
            None => opt_val_seq(token_value_range(s, start, s.len() as int)),
            Some(i) => if start <= i < s.len() {
                opt_val_seq(token_value_range(s, start, i)) + parse_courses_from(s, i + 1)
            } else {
                Seq::empty()
            },
        }
    }
}

/// The numbers parsed from the whole comma-separated list `s`.
pub open spec fn parse_courses_spec(s: Seq<char>) -> Seq<u64> {
    parse_courses_from(s, 0)
}

/// Finds the first comma at or after `start`, as [`comma_idx_from`] gives
/// it.
fn find_comma(s: &str, start: usize) -> (r: Option<usize>)
    requires
        start <= s@.len(),
    ensures
        match r {
            Some(k) => comma_idx_from(s@, start as int) == Some(k as int) && start <= k
                < s@.len(),
            None => comma_idx_from(s@, start as int) is None,
        },
{
    proof {
        reveal_strlit(",");
    }
    let n = s.unicode_len();
    let mut i: usize = start;
    while i < n
        invariant
            start <= i <= n,
            n == s@.len(),
            comma_idx_from(s@, start as int) == comma_idx_from(s@, i as int),
        decreases n - i,
    {
        if s.get_char(i) == ',' {
            return Some(i);
        }
        i += 1;
    }
    None
}

fn ws_at(s: &str, i: usize) -> (r: bool)
    requires
        i < s@.len(),
    ensures
        r == is_ws(s@[i as int]),
{
    let c = s.get_char(i);
    c == ' ' || c == '\t' || c == '\n' || c == '\r'
}

/// Parses one token window `[a, b)`, as [`token_value_range`] gives it.
#[verifier::loop_isolation(false)]
fn parse_token(s: &str, a: usize, b: usize) -> (r: Option<u64>)
    requires
        a <= b <= s@.len(),
    ensures
        r == token_value_range(s@, a as int, b as int),
{
    proof {
        reveal_strlit("+");
    }
    let mut a2: usize = a;
    while a2 < b && ws_at(s, a2)
        invariant
            a <= a2 <= b,
            skip_ws(s@, a as int, b as int) == skip_ws(s@, a2 as int, b as int),
        decreases b - a2,
    {
        a2 += 1;
    }
    proof {
        assert(skip_ws(s@, a2 as int, b as int) == a2 as int);
    }
    let mut b2: usize = b;
    while b2 > a2 && ws_at(s, b2 - 1)
        invariant
            a2 <= b2 <= b,
            rtrim(s@, a2 as int, b as int) == rtrim(s@, a2 as int, b2 as int),
        decreases b2,
    {
        b2 -= 1;
    }
    proof {
        assert(rtrim(s@, a2 as int, b2 as int) == b2 as int);
    }
    let a3: usize = if a2 < b2 && s.get_char(a2) == '+' {
        a2 + 1
    } else {
        a2
    };
    if a3 >= b2 {
        return None;
    }
    let mut val: u64 = 0;
    let mut i: usize = a3;
    while i < b2
        invariant
            a3 <= i <= b2,
            b2 <= s@.len(),
            all_digits_range(s@, a3 as int, i as int),
            val == digits_val_range(s@, a3 as int, i as int),
        decreases b2 - i,
    {
        let c = s.get_char(i);
        let code = c as u32;
        if !(48 <= code && code <= 57) {
            proof {
                assert(!all_digits_range(s@, a3 as int, b2 as int));
            }
            return None;
        }
        let d = (code - 48) as u64;
        if val > (u64::MAX - d) / 10 {
            proof {
                assert(all_digits_range(s@, a3 as int, i + 1));
                assert(digits_val_range(s@, a3 as int, i + 1) == val * 10 + d);
                assert(val * 10 + d > u64::MAX) by (nonlinear_arith)
                    requires
                        val > (u64::MAX - d) / 10,
                        0 <= d <= 9,
                ;
                if all_digits_range(s@, a3 as int, b2 as int) {
                    lemma_digits_monotone(s@, a3 as int, i + 1, b2 as int);
                }
            }
            return None;
        }
        proof {
            assert(val * 10 + d <= u64::MAX) by (nonlinear_arith)
                requires
                    val <= (u64::MAX - d) / 10,
                    0 <= d <= 9,
            ;
        }
        val = val * 10 + d;
        i += 1;
    }
    Some(val)
}

/// Parses a comma-separated list of course ids, keeping the tokens that
/// parse to a number and skipping the rest, as the stored message fan-out
/// field is written by clients.
pub fn parse_courses(s: &str) -> (res: Vec<u64>)
    ensures
        res@ == parse_courses_spec(s@),
{
    let n = s.unicode_len();
    let mut res: Vec<u64> = Vec::new();
    let mut start: usize = 0;
    let mut done = false;
    while !done
        invariant
            start <= n,
            n == s@.len(),
            !done ==> parse_courses_spec(s@) == res@ + parse_courses_from(s@, start as int),
            done ==> parse_courses_spec(s@) == res@,
        decreases n - start + (if done {
            0int
        } else {
            1int
        }),
    {
        match find_comma(s, start) {
            Some(k) => {
                match parse_token(s, start, k) {
                    Some(v) => {
                        proof {
                            crate::listing::lemma_push_concat(
                                res@,
                                v,
                                parse_courses_from(s@, k + 1),
                            );
                        }
                        res.push(v);
                    },
                    None => {
                        proof {
                            assert(parse_courses_from(s@, start as int) =~= parse_courses_from(
                                s@,
                                k + 1,
                            ));
                        }
                    },
                }
                start = k + 1;
            },
            None => {
                match parse_token(s, start, n) {
                    Some(v) => {
                        proof {
                            assert(parse_courses_from(s@, start as int) =~= seq![v]);
                        }
                        res.push(v);
                    },
                    None => {
                        proof {
                            assert(parse_courses_from(s@, start as int) =~= Seq::<u64>::empty());
                        }
                    },
                }
                done = true;
            },
        }
    }
    res
}

} // verus!

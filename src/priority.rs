use vstd::prelude::*;
use crate::types::{PriorityClass, class_at};

verus! {

pub open spec fn is_ascii_digit(c: char) -> bool {
    48 <= c as u32 <= 57
}

pub open spec fn is_ascii_upper(c: char) -> bool {
    65 <= c as u32 <= 90
}

pub open spec fn is_ascii_lower(c: char) -> bool {
    97 <= c as u32 <= 122
}

pub open spec fn is_ascii_alphanumeric(c: char) -> bool {
    is_ascii_digit(c) || is_ascii_upper(c) || is_ascii_lower(c)
}

/// The code of a character once ASCII upper-case letters are folded to lower case.
pub open spec fn lower_code(c: char) -> int {
    if is_ascii_upper(c) {
        c as u32 + 32
    } else {
        c as u32 as int
    }
}

/// `s` and `t` are equal once ASCII letters are folded to lower case.
pub open spec fn folds_to(s: Seq<char>, t: Seq<char>) -> bool {
    s.len() == t.len() && forall|i: int| 0 <= i < s.len() ==> lower_code(s[i]) == lower_code(t[i])
}

/// The digits of an unsigned decimal written with an optional leading `+`.
pub open spec fn unsigned_digits(s: Seq<char>) -> Seq<char> {
    if s.len() > 0 && s[0] == '+' {
        s.drop_first()
    } else {
        s
    }
}

pub open spec fn is_unsigned_form(s: Seq<char>) -> bool {
    let d = unsigned_digits(s);
    d.len() > 0 && forall|i: int| 0 <= i < d.len() ==> is_ascii_digit(d[i])
}

pub open spec fn decimal_value(d: Seq<char>) -> nat
    decreases d.len(),
{
    if d.len() == 0 {
        0
    } else {
        decimal_value(d.drop_last()) * 10 + (d.last() as u32 - 48) as nat
    }
}

/// The class that a priority name stands for, compared without regard to ASCII case.
pub open spec fn class_of_name(s: Seq<char>) -> Option<PriorityClass> {
    if folds_to(s, "idle"@) {
        Some(PriorityClass::Idle)
    } else if folds_to(s, "below_normal"@) || folds_to(s, "below normal"@) {
        Some(PriorityClass::BelowNormal)
    } else if folds_to(s, "normal"@) {
        Some(PriorityClass::Normal)
    } else if folds_to(s, "above_normal"@) || folds_to(s, "above normal"@) {
        Some(PriorityClass::AboveNormal)
    } else if folds_to(s, "high"@) {
        Some(PriorityClass::High)
    } else if folds_to(s, "realtime"@) {
        Some(PriorityClass::Realtime)
    } else {
        None
    }
}

/// The class a configured priority value selects: an index on the scale when it is
/// written as an unsigned decimal, otherwise a name.
pub open spec fn class_of_value(s: Seq<char>) -> Option<PriorityClass> {
    if is_unsigned_form(s) {
        class_at(decimal_value(unsigned_digits(s)))
    } else {
        class_of_name(s)
    }
}

fn lower_code_of(c: char) -> (r: u32)
    ensures
        r == lower_code(c),
{
    let code = c as u32;
    if 65 <= code && code <= 90 {
        code + 32
    } else {
        code
    }
}

/// Compares `s` with `name` without regard to ASCII case.
pub fn folds_to_name(s: &str, name: &str) -> (r: bool)
    ensures
        r == folds_to(s@, name@),
{
    let n = s.unicode_len();
    let m = name.unicode_len();
    if n != m {
        return false;
    }
    let mut i: usize = 0;
    while i < n
        invariant
            n == s@.len(),
            m == name@.len(),
            n == m,
            i <= n,
            forall|j: int| 0 <= j < i ==> lower_code(s@[j]) == lower_code(name@[j]),
        decreases n - i,
    {
        let a = s.get_char(i);
        let b = name.get_char(i);
        if lower_code_of(a) != lower_code_of(b) {
            return false;
        }
        i = i + 1;
    }
    true
}

pub open spec fn capped(v: nat) -> nat {
    if v > 5 {
        6
    } else {
        v
    }
}

/// Reads `s` as an unsigned decimal; values beyond the scale come back as 6.
fn small_unsigned(s: &str) -> (r: Option<u32>)
    ensures
        r is Some <==> is_unsigned_form(s@),
        r is Some ==> r->0 == capped(decimal_value(unsigned_digits(s@))),
{
    let n = s.unicode_len();
    let start: usize = if n > 0 && s.get_char(0) == '+' {
        1
    } else {
        0
    };
    if start == n {
        return None;
    }
    let mut v: u32 = 0;
    let mut i: usize = start;
    while i < n
        invariant
            n == s@.len(),
            start <= 1,
            start <= i <= n,
            start < n,
            start == 1 ==> s@[0] == '+',
            start == 0 ==> !(s@.len() > 0 && s@[0] == '+'),
            forall|j: int| start <= j < i ==> is_ascii_digit(s@[j]),
            v == capped(decimal_value(s@.subrange(start as int, i as int))),
        decreases n - i,
    {
        let c = s.get_char(i);
        let code = c as u32;
        if code < 48 || code > 57 {
            proof {
                let d = unsigned_digits(s@);
                let k: int = i - start;
                if start == 1 {
                    assert(d[k] == s@[i as int]);
                } else {
                    assert(d == s@);
                }
                assert(!is_ascii_digit(d[k]));
            }
            return None;
        }
        let ghost before = s@.subrange(start as int, i as int);
        let ghost after = s@.subrange(start as int, i + 1);
        assert(after.drop_last() =~= before);
        let d = code - 48;
        if v > 5 {
            v = 6;
        } else {
            v = v * 10 + d;
            if v > 5 {
                v = 6;
            }
        }
        i = i + 1;
    }
    assert(s@.subrange(start as int, n as int) =~= unsigned_digits(s@));
    Some(v)
}

/// Maps a configured priority value to a class; `None` when absent or not recognised.
pub fn parse_priority_class(priority_class: Option<&str>) -> (r: Option<PriorityClass>)
    ensures
        match priority_class {
            None => r is None,
            Some(s) => r == class_of_value(s@),
        },
{
    match priority_class {
        None => None,
        Some(s) => match small_unsigned(s) {
            Some(v) => {
                if v == 0 {
                    Some(PriorityClass::Idle)
                } else if v == 1 {
                    Some(PriorityClass::BelowNormal)
                } else if v == 2 {
                    Some(PriorityClass::Normal)
                } else if v == 3 {
                    Some(PriorityClass::AboveNormal)
                } else if v == 4 {
                    Some(PriorityClass::High)
                } else if v == 5 {
                    Some(PriorityClass::Realtime)
                } else {
                    None
                }
            },
            None => {
                if folds_to_name(s, "idle") {
                    Some(PriorityClass::Idle)
                } else if folds_to_name(s, "below_normal") || folds_to_name(s, "below normal") {
                    Some(PriorityClass::BelowNormal)
                } else if folds_to_name(s, "normal") {
                    Some(PriorityClass::Normal)
                } else if folds_to_name(s, "above_normal") || folds_to_name(s, "above normal") {
                    Some(PriorityClass::AboveNormal)
                } else if folds_to_name(s, "high") {
                    Some(PriorityClass::High)
                } else if folds_to_name(s, "realtime") {
                    Some(PriorityClass::Realtime)
                } else {
                    None
                }
            },
        },
    }
}

proof fn lemma_decimal_value_by_codes(s: Seq<char>, t: Seq<char>)
    requires
        s.len() == t.len(),
        forall|i: int| 0 <= i < s.len() ==> s[i] as u32 == t[i] as u32,
    ensures
        decimal_value(s) == decimal_value(t),
    decreases s.len(),
{
    if s.len() > 0 {
        lemma_decimal_value_by_codes(s.drop_last(), t.drop_last());
    }
}

proof fn char_from_code(c: char, d: char)
    requires
        c as u32 == d as u32,
    ensures
        c == d,
{
}

proof fn lemma_folds_to_symmetric(s: Seq<char>, t: Seq<char>)
    requires
        folds_to(s, t),
    ensures
        folds_to(t, s),
{
}

proof fn lemma_folds_to_same_names(s: Seq<char>, t: Seq<char>, n: Seq<char>)
    requires
        folds_to(s, t),
    ensures
        folds_to(s, n) <==> folds_to(t, n),
{
}

proof fn lemma_unsigned_form_carries(s: Seq<char>, t: Seq<char>)
    requires
        folds_to(s, t),
        is_unsigned_form(s),
    ensures
        is_unsigned_form(t),
        decimal_value(unsigned_digits(s)) == decimal_value(unsigned_digits(t)),
{
    assert(s.len() > 0);
    assert(lower_code(s[0]) == lower_code(t[0]));
    let ds = unsigned_digits(s);
    let dt = unsigned_digits(t);
    let off: int = if s[0] == '+' { 1 } else { 0 };
    if s[0] == '+' {
        assert(!is_ascii_upper(t[0]));
        assert(t[0] as u32 == 43);
        char_from_code(t[0], '+');
    }
    if t[0] == '+' {
        assert(s[0] as u32 == 43);
        char_from_code(s[0], '+');
    }
    assert(s[0] == '+' <==> t[0] == '+');
    assert(ds.len() == dt.len());
    assert forall|i: int| 0 <= i < dt.len() implies is_ascii_digit(dt[i]) && ds[i] as u32 == dt[i]
        as u32 by {
        assert(ds[i] == s[i + off]);
        assert(dt[i] == t[i + off]);
        assert(lower_code(s[i + off]) == lower_code(t[i + off]));
        assert(is_ascii_digit(ds[i]));
    }
    lemma_decimal_value_by_codes(ds, dt);
}

/// Case does not matter: two values that are equal once ASCII letters are folded to
/// lower case select the same class.
pub proof fn lemma_class_of_value_ignores_case(s: Seq<char>, t: Seq<char>)
    requires
        folds_to(s, t),
    ensures
        class_of_value(s) == class_of_value(t),
{
    lemma_folds_to_symmetric(s, t);
    if is_unsigned_form(s) {
        lemma_unsigned_form_carries(s, t);
    }
    if is_unsigned_form(t) {
        lemma_unsigned_form_carries(t, s);
    }
    lemma_folds_to_same_names(s, t, "idle"@);
    lemma_folds_to_same_names(s, t, "below_normal"@);
    lemma_folds_to_same_names(s, t, "below normal"@);
    lemma_folds_to_same_names(s, t, "normal"@);
    lemma_folds_to_same_names(s, t, "above_normal"@);
    lemma_folds_to_same_names(s, t, "above normal"@);
    lemma_folds_to_same_names(s, t, "high"@);
    lemma_folds_to_same_names(s, t, "realtime"@);
}

/// A value with no ASCII letter or digit, such as an empty or a whitespace-only one,
/// selects no class.
pub proof fn lemma_blank_value_is_unset(s: Seq<char>)
    requires
        forall|i: int| 0 <= i < s.len() ==> !is_ascii_alphanumeric(#[trigger] s[i]),
    ensures
        class_of_value(s) is None,
{
    if is_unsigned_form(s) {
        let d = unsigned_digits(s);
        if s.len() > 0 && s[0] == '+' {
            assert(d[0] == s[1]);
        }
        assert(is_ascii_digit(d[0]));
    }
    reveal_strlit("idle");
    reveal_strlit("below_normal");
    reveal_strlit("below normal");
    reveal_strlit("normal");
    reveal_strlit("above_normal");
    reveal_strlit("above normal");
    reveal_strlit("high");
    reveal_strlit("realtime");
    if s.len() > 0 {
        assert(!is_ascii_alphanumeric(s[0]));
    }
}

/// The decimal spelling of a position on the scale, `"0"` to `"5"`.
pub open spec fn index_spelling(i: nat) -> Seq<char> {
    if i == 0 {
        "0"@
    } else if i == 1 {
        "1"@
    } else if i == 2 {
        "2"@
    } else if i == 3 {
        "3"@
    } else if i == 4 {
        "4"@
    } else {
        "5"@
    }
}

/// The name of a position on the scale, from `"idle"` to `"realtime"`.
pub open spec fn name_spelling(i: nat) -> Seq<char> {
    if i == 0 {
        "idle"@
    } else if i == 1 {
        "below_normal"@
    } else if i == 2 {
        "normal"@
    } else if i == 3 {
        "above_normal"@
    } else if i == 4 {
        "high"@
    } else {
        "realtime"@
    }
}

/// Each index from 0 to 5 selects the same class as the name at that index.
pub proof fn lemma_index_agrees_with_name(i: nat)
    requires
        i <= 5,
    ensures
        class_of_value(index_spelling(i)) == class_of_value(name_spelling(i)),
        class_of_value(index_spelling(i)) == class_at(i),
{
    reveal_strlit("0");
    reveal_strlit("1");
    reveal_strlit("2");
    reveal_strlit("3");
    reveal_strlit("4");
    reveal_strlit("5");
    reveal_strlit("idle");
    reveal_strlit("below_normal");
    reveal_strlit("below normal");
    reveal_strlit("normal");
    reveal_strlit("above_normal");
    reveal_strlit("above normal");
    reveal_strlit("high");
    reveal_strlit("realtime");
    let d = index_spelling(i);
    let n = name_spelling(i);
    assert(unsigned_digits(d) == d);
    assert(d.drop_last().len() == 0);
    assert(decimal_value(d.drop_last()) == 0);
    assert(decimal_value(d) == i);
    assert(!is_unsigned_form(n)) by {
        assert(unsigned_digits(n) == n);
        assert(!is_ascii_digit(n[0]));
    }
    assert(folds_to(n, n));
}

} // verus!

//! Text helpers on character sequences.
use vstd::prelude::*;

verus! {

/// The code point of a character, with ASCII capitals folded to small letters.
pub open spec fn folded(c: char) -> int {
    if 65 <= c as int <= 90 { c as int + 32 } else { c as int }
}

/// Whether two texts are the same but for the case of ASCII letters.
pub open spec fn same_ignoring_case(a: Seq<char>, b: Seq<char>) -> bool {
    a.len() == b.len() && forall|i: int|
        0 <= i < a.len() ==> folded(#[trigger] a[i]) == folded(b[i])
}

/// Whether `part` stands in `text` at `at`, but for the case of ASCII letters.
pub open spec fn stands_at(text: Seq<char>, part: Seq<char>, at: int) -> bool {
    0 <= at && at + part.len() <= text.len() && same_ignoring_case(
        text.subrange(at, at + part.len()),
        part,
    )
}

/// Whether `part` occurs in `text`, but for the case of ASCII letters.
pub open spec fn occurs_in(text: Seq<char>, part: Seq<char>) -> bool {
    exists|at: int| stands_at(text, part, at)
}

/// Whether `at` is where `c` stands last in `text`.
pub open spec fn is_last_index_of(text: Seq<char>, c: char, at: int) -> bool {
    0 <= at < text.len() && text[at] == c && forall|i: int|
        at < i < text.len() ==> text[i] != c
}

/// Whether a character has the Unicode property `White_Space`.
pub open spec fn white_space(c: char) -> bool {
    let v = c as int;
    ||| 0x9 <= v <= 0xd
    ||| v == 0x20
    ||| v == 0x85
    ||| v == 0xa0
    ||| v == 0x1680
    ||| 0x2000 <= v <= 0x200a
    ||| v == 0x2028
    ||| v == 0x2029
    ||| v == 0x202f
    ||| v == 0x205f
    ||| v == 0x3000
}

fn fold(c: char) -> (r: u32)
    ensures
        r == folded(c),
{
    let v: u32 = c as u32;
    if 65 <= v && v <= 90 {
        v + 32
    } else {
        v
    }
}

/// The characters of a text.
pub fn characters(text: &str) -> (r: Vec<char>)
    ensures
        r@ == text@,
{
    let total: usize = text.unicode_len();
    let mut out: Vec<char> = Vec::new();
    let mut i: usize = 0;
    while i < total
        invariant
            i <= total,
            total == text@.len(),
            out@ =~= text@.subrange(0, i as int),
        decreases total - i,
    {
        out.push(text.get_char(i));
        i = i + 1;
    }
    assert(text@.subrange(0, total as int) =~= text@);
    out
}

pub fn starts_with(text: &str, prefix: &str) -> (r: bool)
    ensures
        r == prefix@.is_prefix_of(text@),
{
    let total: usize = prefix.unicode_len();
    if total > text.unicode_len() {
        return false;
    }
    let mut i: usize = 0;
    while i < total
        invariant
            i <= total,
            total == prefix@.len(),
            total <= text@.len(),
            forall|j: int| 0 <= j < i ==> prefix@[j] == text@[j],
        decreases total - i,
    {
        if prefix.get_char(i) != text.get_char(i) {
            assert(text@.subrange(0, total as int)[i as int] != prefix@[i as int]);
            return false;
        }
        i = i + 1;
    }
    assert(text@.subrange(0, total as int) =~= prefix@);
    true
}

fn stands_at_index(text: &Vec<char>, part: &Vec<char>, at: usize) -> (r: bool)
    requires
        at + part@.len() <= text@.len(),
    ensures
        r == stands_at(text@, part@, at as int),
{
    let total: usize = text.len();
    let mut i: usize = 0;
    let ghost window = text@.subrange(at as int, at + part@.len());
    while i < part.len()
        invariant
            i <= part@.len(),
            total == text@.len(),
            at + part@.len() <= total,
            window == text@.subrange(at as int, at + part@.len()),
            forall|j: int| 0 <= j < i ==> folded(#[trigger] window[j]) == folded(part@[j]),
        decreases part@.len() - i,
    {
        if fold(text[at + i]) != fold(part[i]) {
            assert(window[i as int] == text@[at + i]);
            return false;
        }
        i = i + 1;
    }
    true
}

pub fn eq_ignore_ascii_case(a: &str, b: &str) -> (r: bool)
    ensures
        r == same_ignoring_case(a@, b@),
{
    let left = characters(a);
    let right = characters(b);
    if left.len() != right.len() {
        return false;
    }
    assert(left@.subrange(0, left@.len() as int) =~= left@);
    stands_at_index(&left, &right, 0)
}

pub fn contains_ignoring_case(text: &str, part: &str) -> (r: bool)
    ensures
        r == occurs_in(text@, part@),
{
    let chars = characters(text);
    let wanted = characters(part);
    if wanted.len() > chars.len() {
        return false;
    }
    let last: usize = chars.len() - wanted.len();
    let mut at: usize = 0;
    while at <= last
        invariant
            chars@ == text@,
            wanted@ == part@,
            last == chars@.len() - wanted@.len(),
            at <= last,
            forall|j: int| 0 <= j < at ==> !#[trigger] stands_at(chars@, wanted@, j),
        decreases last + 1 - at,
    {
        if stands_at_index(&chars, &wanted, at) {
            return true;
        }
        if at == last {
            assert forall|j: int| !#[trigger] stands_at(chars@, wanted@, j) by {
                if 0 <= j < at {
                    assert(!stands_at(chars@, wanted@, j));
                }
            }
            return false;
        }
        at = at + 1;
    }
    false
}

pub fn starts_with_ignoring_case(text: &str, prefix: &str) -> (r: bool)
    ensures
        r == stands_at(text@, prefix@, 0),
{
    let chars = characters(text);
    let wanted = characters(prefix);
    if wanted.len() > chars.len() {
        return false;
    }
    stands_at_index(&chars, &wanted, 0)
}

/// Where `c` stands last in `text`.
pub fn last_index_of(text: &Vec<char>, c: char) -> (r: Option<usize>)
    ensures
        match r {
            Some(at) => is_last_index_of(text@, c, at as int),
            None => !text@.contains(c),
        },
{
    let mut i: usize = text.len();
    while i > 0
        invariant
            i <= text@.len(),
            forall|j: int| i <= j < text@.len() ==> text@[j] != c,
        decreases i,
    {
        i = i - 1;
        if text[i] == c {
            return Some(i);
        }
    }
    None
}

/// Whether `c` has the Unicode property `White_Space`.
pub fn is_white_space(c: char) -> (r: bool)
    ensures
        r == white_space(c),
{
    let v: u32 = c as u32;
    (0x9 <= v && v <= 0xd) || v == 0x20 || v == 0x85 || v == 0xa0 || v == 0x1680 || (0x2000 <= v
        && v <= 0x200a) || v == 0x2028 || v == 0x2029 || v == 0x202f || v == 0x205f || v == 0x3000
}

pub fn same_text(a: &str, b: &str) -> (r: bool)
    ensures
        r == (a@ == b@),
{
    let left = characters(a);
    let right = characters(b);
    if left.len() != right.len() {
        return false;
    }
    let mut i: usize = 0;
    while i < left.len()
        invariant
            left@ == a@,
            right@ == b@,
            i <= left@.len(),
            left@.len() == right@.len(),
            forall|j: int| 0 <= j < i ==> left@[j] == right@[j],
        decreases left@.len() - i,
    {
        if left[i] != right[i] {
            return false;
        }
        i = i + 1;
    }
    assert(left@ =~= right@);
    true
}

/// Whether `a` stands before `b` in the order of code points.
pub open spec fn text_before(a: Seq<char>, b: Seq<char>) -> bool
    decreases a.len(),
{
    if b.len() == 0 {
        false
    } else if a.len() == 0 {
        true
    } else if a[0] == b[0] {
        text_before(a.skip(1), b.skip(1))
    } else {
        (a[0] as int) < (b[0] as int)
    }
}

/// Of two texts, exactly one of three holds: one stands before the other, the other before the
/// one, or they are the same.
pub proof fn law_text_order_is_total(a: Seq<char>, b: Seq<char>)
    ensures
        a == b ==> !text_before(a, b) && !text_before(b, a),
        a != b ==> text_before(a, b) != text_before(b, a),
    decreases a.len(),
{
    if a.len() > 0 && b.len() > 0 {
        law_text_order_is_total(a.skip(1), b.skip(1));
        if a[0] == b[0] {
            if a.skip(1) == b.skip(1) {
                assert(a =~= seq![a[0]] + a.skip(1));
                assert(b =~= seq![b[0]] + b.skip(1));
            }
        } else {
            assert(a[0] as int != b[0] as int);
        }
    } else {
        assert(a.len() == 0 && b.len() == 0 ==> a =~= b);
    }
}

/// The order of texts is transitive.
pub proof fn law_text_order_is_transitive(a: Seq<char>, b: Seq<char>, c: Seq<char>)
    requires
        text_before(a, b),
        text_before(b, c),
    ensures
        text_before(a, c),
    decreases a.len(),
{
    if a.len() > 0 && b.len() > 0 && c.len() > 0 && a[0] == b[0] && b[0] == c[0] {
        law_text_order_is_transitive(a.skip(1), b.skip(1), c.skip(1));
    }
}

proof fn lemma_text_before_after_common_start(a: Seq<char>, b: Seq<char>, n: int)
    requires
        0 <= n <= a.len(),
        n <= b.len(),
        forall|i: int| 0 <= i < n ==> a[i] == b[i],
    ensures
        text_before(a, b) == text_before(a.skip(n), b.skip(n)),
    decreases n,
{
    if n > 0 {
        lemma_text_before_after_common_start(a.skip(1), b.skip(1), n - 1);
        assert(a.skip(1).skip(n - 1) =~= a.skip(n));
        assert(b.skip(1).skip(n - 1) =~= b.skip(n));
    } else {
        assert(a.skip(0) =~= a);
        assert(b.skip(0) =~= b);
    }
}

fn code_point(c: char) -> (r: u32)
    ensures
        r == c as int,
{
    c as u32
}

/// Whether `a` stands before `b` in the order of code points.
pub fn stands_before(a: &str, b: &str) -> (r: bool)
    ensures
        r == text_before(a@, b@),
{
    let left = characters(a);
    let right = characters(b);
    let mut i: usize = 0;
    while i < left.len() && i < right.len()
        invariant
            left@ == a@,
            right@ == b@,
            i <= left@.len(),
            i <= right@.len(),
            forall|j: int| 0 <= j < i ==> left@[j] == right@[j],
        decreases left@.len() - i,
    {
        if left[i] != right[i] {
            proof {
                lemma_text_before_after_common_start(a@, b@, i as int);
            }
            return code_point(left[i]) < code_point(right[i]);
        }
        i = i + 1;
    }
    proof {
        lemma_text_before_after_common_start(a@, b@, i as int);
    }
    i < right.len()
}

/// A text with one part put behind another.
pub fn joined(first: &str, second: &str) -> (r: String)
    ensures
        r@ == first@ + second@,
{
    let mut out = String::new();
    out.append(first);
    out.append(second);
    assert(Seq::<char>::empty() + first@ + second@ =~= first@ + second@);
    out
}

/// One decimal digit.
pub open spec fn digit(d: int) -> Seq<char> {
    if d == 0 {
        "0"@
    } else if d == 1 {
        "1"@
    } else if d == 2 {
        "2"@
    } else if d == 3 {
        "3"@
    } else if d == 4 {
        "4"@
    } else if d == 5 {
        "5"@
    } else if d == 6 {
        "6"@
    } else if d == 7 {
        "7"@
    } else if d == 8 {
        "8"@
    } else {
        "9"@
    }
}

/// A number in decimal digits, without leading zeros.
pub open spec fn decimal(n: nat) -> Seq<char>
    decreases n,
{
    if n < 10 {
        digit(n as int)
    } else {
        decimal(n / 10) + digit((n % 10) as int)
    }
}

/// A signed number in decimal digits.
pub open spec fn signed_decimal(n: int) -> Seq<char> {
    if n < 0 { "-"@ + decimal((-n) as nat) } else { decimal(n as nat) }
}

/// The name of a truth value.
pub open spec fn truth(b: bool) -> Seq<char> {
    if b { "true"@ } else { "false"@ }
}

fn digit_text(d: u128) -> (r: &'static str)
    requires
        d < 10,
    ensures
        r@ == digit(d as int),
{
    if d == 0 {
        "0"
    } else if d == 1 {
        "1"
    } else if d == 2 {
        "2"
    } else if d == 3 {
        "3"
    } else if d == 4 {
        "4"
    } else if d == 5 {
        "5"
    } else if d == 6 {
        "6"
    } else if d == 7 {
        "7"
    } else if d == 8 {
        "8"
    } else {
        "9"
    }
}

pub fn decimal_text(n: u128) -> (r: String)
    ensures
        r@ == decimal(n as nat),
    decreases n,
{
    if n < 10 {
        digit_text(n).to_owned()
    } else {
        let mut out = decimal_text(n / 10);
        out.append(digit_text(n % 10));
        out
    }
}

pub fn signed_decimal_text(n: i64) -> (r: String)
    ensures
        r@ == signed_decimal(n as int),
{
    if n < 0 {
        let size: i128 = -(n as i128);
        let digits = decimal_text(size as u128);
        joined("-", digits.as_str())
    } else {
        decimal_text(n as u128)
    }
}

pub fn truth_text(b: bool) -> (r: &'static str)
    ensures
        r@ == truth(b),
{
    if b {
        "true"
    } else {
        "false"
    }
}

/// A copy of an optional text.
pub fn copied_text(text: &Option<String>) -> (r: Option<String>)
    ensures
        r == *text,
{
    match text {
        Some(text) => Some(text.clone()),
        None => None,
    }
}

/// The number that a text of decimal digits stands for.
pub open spec fn value_of(text: Seq<char>) -> int
    decreases text.len(),
{
    if text.len() == 0 {
        0
    } else {
        10 * value_of(text.drop_last()) + (text.last() as int - 48)
    }
}

/// A number is written in digits alone, it can be read back from them, and it has no leading zero.
pub proof fn law_a_number_can_be_read_back(n: nat)
    ensures
        value_of(decimal(n)) == n,
        decimal(n).len() > 0,
        forall|i: int| 0 <= i < decimal(n).len() ==> 48 <= (#[trigger] decimal(n)[i]) as int <= 57,
        n > 0 ==> decimal(n)[0] as int != 48,
    decreases n,
{
    reveal_strlit("0");
    reveal_strlit("1");
    reveal_strlit("2");
    reveal_strlit("3");
    reveal_strlit("4");
    reveal_strlit("5");
    reveal_strlit("6");
    reveal_strlit("7");
    reveal_strlit("8");
    reveal_strlit("9");
    let last = digit((n % 10) as int);
    assert(last.len() == 1 && last[0] as int == 48 + n % 10);
    if n < 10 {
        reveal_with_fuel(value_of, 2);
    } else {
        law_a_number_can_be_read_back(n / 10);
        let front = decimal(n / 10);
        let all = front + last;
        assert(all.drop_last() =~= front);
        assert(all.last() == last[0]);
        assert forall|i: int| 0 <= i < all.len() implies 48 <= (#[trigger] all[i]) as int
            <= 57 by {
            if i < front.len() {
                assert(all[i] == front[i]);
            }
        }
    }
}

/// A negative number is written with a sign in front of its size.
pub proof fn law_a_sign_stands_in_front(n: int)
    ensures
        n >= 0 ==> signed_decimal(n) == decimal(n as nat),
        n < 0 ==> signed_decimal(n).len() > 1 && signed_decimal(n)[0] == '-' && value_of(
            signed_decimal(n).drop_first(),
        ) == -n,
{
    reveal_strlit("-");
    if n < 0 {
        law_a_number_can_be_read_back((-n) as nat);
        assert(signed_decimal(n).drop_first() =~= decimal((-n) as nat));
    }
}

/// Case is ignored of ASCII letters and of nothing else: a capital is its small letter, and every
/// other character is itself alone.
pub proof fn law_only_the_case_of_letters_is_ignored(a: char, b: char)
    ensures
        65 <= a as int <= 90 && b as int == a as int + 32 ==> folded(a) == folded(b),
        !(65 <= a as int <= 90) && !(65 <= b as int <= 90) ==> (folded(a) == folded(b) <==> a == b),
        65 <= a as int <= 90 && 65 <= b as int <= 90 ==> (folded(a) == folded(b) <==> a == b),
        same_ignoring_case(seq![a], seq![b]) <==> folded(a) == folded(b),
{
    let left = seq![a];
    let right = seq![b];
    assert(left[0] == a && right[0] == b);
}

/// Blanks, tabs and line ends are white space; letters, digits and signs are not.
pub proof fn law_what_white_space_is(c: char)
    ensures
        c as int == 0x20 || 0x9 <= c as int <= 0xd ==> white_space(c),
        0x21 <= c as int <= 0x7e ==> !white_space(c),
        (c as int) < 0x9 || 0xe <= c as int <= 0x1f ==> !white_space(c),
        white_space(c) ==> c as int <= 0x3000,
        c as int == 0xa0 || c as int == 0x3000 || c as int == 0x2028 ==> white_space(c),
        0x3001 <= c as int ==> !white_space(c),
        0xa1 <= c as int && (c as int) < 0x1680 ==> !white_space(c),
{
}

/// The first character in which two texts differ decides which comes first, and a text comes before
/// its continuations.
pub proof fn law_the_first_difference_decides(
    front: Seq<char>,
    a: char,
    b: char,
    x: Seq<char>,
    y: Seq<char>,
)
    requires
        (a as int) < (b as int),
    ensures
        text_before(front.push(a) + x, front.push(b) + y),
        text_before(front, front.push(a) + x),
    decreases front.len(),
{
    let left = front.push(a) + x;
    let right = front.push(b) + y;
    if front.len() > 0 {
        let rest = front.skip(1);
        law_the_first_difference_decides(rest, a, b, x, y);
        assert(left.skip(1) =~= rest.push(a) + x);
        assert(right.skip(1) =~= rest.push(b) + y);
        assert(left[0] == front[0] && right[0] == front[0]);
    } else {
        assert(left[0] == a && right[0] == b);
    }
}

/// A character stands last where only others follow.
pub proof fn law_the_last_place_of_a_character(front: Seq<char>, c: char, rest: Seq<char>)
    requires
        forall|i: int| 0 <= i < rest.len() ==> rest[i] != c,
    ensures
        is_last_index_of(front.push(c) + rest, c, front.len() as int),
        forall|at: int| #[trigger] is_last_index_of(front.push(c) + rest, c, at) ==> at
            == front.len(),
{
    let whole = front.push(c) + rest;
    assert forall|i: int| front.len() < i < whole.len() implies whole[i] != c by {
        assert(whole[i] == rest[i - front.len() - 1]);
    }
    assert(whole[front.len() as int] == c);
}

/// A part of a text occurs in it, wherever it stands and in whatever case.
pub proof fn law_a_part_occurs_in_its_text(front: Seq<char>, part: Seq<char>, rest: Seq<char>)
    ensures
        stands_at(front + part + rest, part, front.len() as int),
        occurs_in(front + part + rest, part),
        occurs_in(front, part) ==> part.len() <= front.len(),
{
    let whole = front + part + rest;
    assert(whole.subrange(front.len() as int, (front.len() + part.len()) as int) =~= part);
    assert(stands_at(whole, part, front.len() as int));
}

} // verus!

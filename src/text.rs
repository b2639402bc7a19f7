//! Text helpers with exact specifications: byte-wise ordering, decimal
//! rendering and reading, joining, white space and character access.

use vstd::prelude::*;
use vstd::utf8::encode_utf8;

verus! {

/// Strict lexicographic order on byte strings, the order of `str`.
pub open spec fn lex_lt(a: Seq<u8>, b: Seq<u8>) -> bool
    decreases a.len(),
{
    if b.len() == 0 {
        false
    } else if a.len() == 0 {
        true
    } else if a[0] != b[0] {
        a[0] < b[0]
    } else {
        lex_lt(a.drop_first(), b.drop_first())
    }
}

/// Strict lexicographic order on strings, by their UTF-8 bytes.
pub open spec fn str_lt(a: Seq<char>, b: Seq<char>) -> bool {
    lex_lt(encode_utf8(a), encode_utf8(b))
}

/// Each name is strictly smaller than the next one.
pub open spec fn strictly_ascending(names: Seq<Seq<char>>) -> bool {
    forall|i: int| 0 <= i < names.len() - 1 ==> #[trigger] str_lt(names[i], names[i + 1])
}

proof fn lemma_lex_lt_suffix(a: Seq<u8>, b: Seq<u8>, i: int)
    requires
        0 <= i < a.len(),
        i < b.len(),
        a[i] == b[i],
    ensures
        lex_lt(a.subrange(i, a.len() as int), b.subrange(i, b.len() as int)) == lex_lt(
            a.subrange(i + 1, a.len() as int),
            b.subrange(i + 1, b.len() as int),
        ),
{
    assert(a.subrange(i, a.len() as int).drop_first() =~= a.subrange(i + 1, a.len() as int));
    assert(b.subrange(i, b.len() as int).drop_first() =~= b.subrange(i + 1, b.len() as int));
}

/// Byte-wise comparison of two strings in the order of `str`.
pub fn bytes_less(a: &[u8], b: &[u8]) -> (r: bool)
    ensures
        r == lex_lt(a@, b@),
{
    let mut i: usize = 0;
    assert(a@.subrange(0, a@.len() as int) =~= a@);
    assert(b@.subrange(0, b@.len() as int) =~= b@);
    while i < a.len() && i < b.len()
        invariant
            i <= a@.len(),
            i <= b@.len(),
            lex_lt(a@, b@) == lex_lt(
                a@.subrange(i as int, a@.len() as int),
                b@.subrange(i as int, b@.len() as int),
            ),
        decreases a@.len() - i,
    {
        if a[i] != b[i] {
            return a[i] < b[i];
        }
        proof {
            lemma_lex_lt_suffix(a@, b@, i as int);
        }
        i = i + 1;
    }
    i < b.len()
}

/// The name and the one before it are in strictly ascending order.
pub fn str_less(a: &str, b: &str) -> (r: bool)
    ensures
        r == str_lt(a@, b@),
{
    bytes_less(a.as_bytes(), b.as_bytes())
}

/// Checks that every name of `names` is strictly smaller than the next.
pub fn is_strictly_ascending(names: &Vec<String>) -> (r: bool)
    ensures
        r == strictly_ascending(names@.map_values(|s: String| s@)),
{
    let ghost view = names@.map_values(|s: String| s@);
    let mut i: usize = 1;
    while i < names.len()
        invariant
            1 <= i,
            view == names@.map_values(|s: String| s@),
            forall|j: int| 0 <= j < i - 1 && j < view.len() - 1 ==> #[trigger] str_lt(view[j], view[j + 1]),
        decreases names.len() - i,
    {
        if !str_less(names[i - 1].as_str(), names[i].as_str()) {
            assert(view[i - 1] == names@[i - 1]@ && view[i as int] == names@[i as int]@);
            assert(!str_lt(view[(i - 1) as int], view[(i - 1) + 1]));
            return false;
        }
        i = i + 1;
    }
    true
}

} // verus!

verus! {

/// The character of a decimal digit.
pub open spec fn digit_char(d: nat) -> char {
    if d == 0 {
        '0'
    } else if d == 1 {
        '1'
    } else if d == 2 {
        '2'
    } else if d == 3 {
        '3'
    } else if d == 4 {
        '4'
    } else if d == 5 {
        '5'
    } else if d == 6 {
        '6'
    } else if d == 7 {
        '7'
    } else if d == 8 {
        '8'
    } else {
        '9'
    }
}

/// `n` written in decimal, without sign or leading zeros.
pub open spec fn decimal(n: nat) -> Seq<char>
    decreases n,
{
    if n < 10 {
        seq![digit_char(n)]
    } else {
        decimal(n / 10).push(digit_char(n % 10))
    }
}

fn digit_str(d: u64) -> (r: &'static str)
    requires
        d < 10,
    ensures
        r@ == seq![digit_char(d as nat)],
{
    if d == 0 {
        proof { reveal_strlit("0"); }
        "0"
    } else if d == 1 {
        proof { reveal_strlit("1"); }
        "1"
    } else if d == 2 {
        proof { reveal_strlit("2"); }
        "2"
    } else if d == 3 {
        proof { reveal_strlit("3"); }
        "3"
    } else if d == 4 {
        proof { reveal_strlit("4"); }
        "4"
    } else if d == 5 {
        proof { reveal_strlit("5"); }
        "5"
    } else if d == 6 {
        proof { reveal_strlit("6"); }
        "6"
    } else if d == 7 {
        proof { reveal_strlit("7"); }
        "7"
    } else if d == 8 {
        proof { reveal_strlit("8"); }
        "8"
    } else {
        proof { reveal_strlit("9"); }
        "9"
    }
}

/// Decimal rendering of an unsigned integer.
pub fn decimal_string(n: u64) -> (r: String)
    ensures
        r@ == decimal(n as nat),
{
    let mut rest: u64 = n / 10;
    let mut acc = String::from_str(digit_str(n % 10));
    proof {
        if n >= 10 {
            assert(decimal(n as nat) =~= decimal(rest as nat) + acc@);
        }
    }
    while rest > 0
        invariant
            decimal(n as nat) == if rest == 0 {
                acc@
            } else {
                decimal(rest as nat) + acc@
            },
        decreases rest,
    {
        let d = rest % 10;
        let next = String::from_str(digit_str(d)).concat(acc.as_str());
        proof {
            if rest >= 10 {
                assert(decimal(rest as nat) + acc@ =~= decimal((rest / 10) as nat) + next@);
            } else {
                assert(decimal(rest as nat) + acc@ =~= next@);
            }
        }
        acc = next;
        rest = rest / 10;
    }
    acc
}

} // verus!

verus! {

/// Two strings hold the same characters exactly when their UTF-8 bytes agree.
pub proof fn lemma_same_bytes_same_text(a: Seq<char>, b: Seq<char>)
    ensures
        (encode_utf8(a) == encode_utf8(b)) == (a == b),
{
    vstd::utf8::encode_utf8_decode_utf8(a);
    vstd::utf8::encode_utf8_decode_utf8(b);
}

/// String equality, decided on the UTF-8 bytes in constant time.
pub fn str_equal(a: &str, b: &str) -> (r: bool)
    ensures
        r == (a@ == b@),
{
    proof {
        lemma_same_bytes_same_text(a@, b@);
    }
    crate::crypto::constant_time_eq(a.as_bytes(), b.as_bytes())
}

} // verus!

verus! {

pub proof fn lemma_lex_lt_irreflexive(a: Seq<u8>)
    ensures
        !lex_lt(a, a),
    decreases a.len(),
{
    if a.len() > 0 {
        lemma_lex_lt_irreflexive(a.drop_first());
    }
}

pub proof fn lemma_lex_lt_asymmetric(a: Seq<u8>, b: Seq<u8>)
    requires
        lex_lt(a, b),
    ensures
        !lex_lt(b, a),
    decreases a.len(),
{
    if a.len() > 0 && b.len() > 0 && a[0] == b[0] {
        lemma_lex_lt_asymmetric(a.drop_first(), b.drop_first());
    }
}

pub proof fn lemma_lex_lt_transitive(a: Seq<u8>, b: Seq<u8>, c: Seq<u8>)
    requires
        lex_lt(a, b),
        lex_lt(b, c),
    ensures
        lex_lt(a, c),
    decreases a.len(),
{
    if a.len() > 0 && a[0] == b[0] && b[0] == c[0] {
        lemma_lex_lt_transitive(a.drop_first(), b.drop_first(), c.drop_first());
    }
}

/// In a strictly ascending list every name is smaller than every later one.
pub proof fn lemma_ascending_ordered(names: Seq<Seq<char>>, i: int, j: int)
    requires
        strictly_ascending(names),
        0 <= i < j < names.len(),
    ensures
        str_lt(names[i], names[j]),
    decreases j - i,
{
    if j == i + 1 {
        assert(str_lt(names[i], names[i + 1]));
    } else {
        lemma_ascending_ordered(names, i, j - 1);
        assert(str_lt(names[j - 1], names[j - 1 + 1]));
        lemma_lex_lt_transitive(encode_utf8(names[i]), encode_utf8(names[j - 1]), encode_utf8(names[j]));
    }
}

/// The list repeats a name, or holds a name right before a smaller one.
pub open spec fn has_duplicate_or_disorder(names: Seq<Seq<char>>) -> bool {
    ||| exists|i: int, j: int| 0 <= i < j < names.len() && names[i] == names[j]
    ||| exists|i: int| 0 <= i < names.len() - 1 && #[trigger] str_lt(names[i + 1], names[i])
}

/// A list with a repeated name or two neighbours out of order is not
/// strictly ascending.
pub proof fn lemma_disorder_not_ascending(names: Seq<Seq<char>>)
    requires
        has_duplicate_or_disorder(names),
    ensures
        !strictly_ascending(names),
{
    if strictly_ascending(names) {
        if exists|i: int, j: int| 0 <= i < j < names.len() && names[i] == names[j] {
            let (i, j) = choose|i: int, j: int| 0 <= i < j < names.len() && names[i] == names[j];
            lemma_ascending_ordered(names, i, j);
            lemma_lex_lt_irreflexive(encode_utf8(names[i]));
        } else {
            let i = choose|i: int| 0 <= i < names.len() - 1 && #[trigger] str_lt(names[i + 1], names[i]);
            assert(str_lt(names[i], names[i + 1]));
            lemma_lex_lt_asymmetric(encode_utf8(names[i]), encode_utf8(names[i + 1]));
        }
    }
}

} // verus!

verus! {

/// The Unicode `White_Space` property, the one that `char::is_whitespace`
/// and `str::trim` go by.
pub open spec fn is_white_space(c: char) -> bool {
    let u = c as u32;
    ||| 0x09 <= u <= 0x0D
    ||| u == 0x20
    ||| u == 0x85
    ||| u == 0xA0
    ||| u == 0x1680
    ||| 0x2000 <= u <= 0x200A
    ||| u == 0x2028
    ||| u == 0x2029
    ||| u == 0x202F
    ||| u == 0x205F
    ||| u == 0x3000
}

/// Every character is white space: what is left after trimming is empty.
pub open spec fn is_blank(s: Seq<char>) -> bool {
    forall|i: int| 0 <= i < s.len() ==> is_white_space(#[trigger] s[i])
}

pub fn is_white_space_char(c: char) -> (r: bool)
    ensures
        r == is_white_space(c),
{
    let u = c as u32;
    (0x09 <= u && u <= 0x0D) || u == 0x20 || u == 0x85 || u == 0xA0 || u == 0x1680 || (0x2000
        <= u && u <= 0x200A) || u == 0x2028 || u == 0x2029 || u == 0x202F || u == 0x205F || u
        == 0x3000
}

/// Whether `s` holds nothing but white space.
pub fn is_blank_str(s: &str) -> (r: bool)
    ensures
        r == is_blank(s@),
{
    let n = s.unicode_len();
    let mut i: usize = 0;
    while i < n
        invariant
            n == s@.len(),
            i <= n,
            forall|j: int| 0 <= j < i ==> is_white_space(#[trigger] s@[j]),
        decreases n - i,
    {
        if !is_white_space_char(s.get_char(i)) {
            return false;
        }
        i = i + 1;
    }
    true
}

} // verus!

verus! {

/// The characters of `s`, in order.
pub fn chars_of(s: &str) -> (r: Vec<char>)
    ensures
        r@ == s@,
{
    let mut out: Vec<char> = Vec::new();
    for c in it: s.chars()
        invariant
            out@ == it.seq().subrange(0, it.index() as int),
    {
        out.push(c);
    }
    out
}

} // verus!

verus! {

/// Relies on `String: FromIterator<char>`: the string of exactly these
/// characters, in order.
#[verifier::external_body]
pub(crate) fn string_from_chars(chars: &Vec<char>) -> (r: String)
    ensures
        r@ == chars@,
{
    chars.iter().collect()
}

} // verus!

verus! {

pub open spec fn is_digit(c: char) -> bool {
    '0' <= c <= '9'
}

pub proof fn lemma_decimal_digits(n: nat)
    ensures
        decimal(n).len() >= 1,
        n >= 10 ==> decimal(n).len() >= 2,
        forall|i: int| 0 <= i < decimal(n).len() ==> is_digit(#[trigger] decimal(n)[i]),
    decreases n,
{
    if n >= 10 {
        lemma_decimal_digits(n / 10);
    }
}

/// Different numbers have different decimal texts.
pub proof fn lemma_decimal_injective(a: nat, b: nat)
    requires
        decimal(a) == decimal(b),
    ensures
        a == b,
    decreases a,
{
    lemma_decimal_digits(a);
    lemma_decimal_digits(b);
    if a >= 10 && b >= 10 {
        assert(decimal(a).drop_last() =~= decimal(a / 10));
        assert(decimal(b).drop_last() =~= decimal(b / 10));
        lemma_decimal_injective(a / 10, b / 10);
        assert(decimal(a).last() == digit_char(a % 10));
        assert(decimal(b).last() == digit_char(b % 10));
    } else if a < 10 && b < 10 {
        assert(decimal(a)[0] == digit_char(a));
        assert(decimal(b)[0] == digit_char(b));
    }
}

} // verus!

verus! {

/// The value of a run of decimal digits.
pub open spec fn digits_value(s: Seq<char>) -> int
    decreases s.len(),
{
    if s.len() == 0 {
        0
    } else {
        digits_value(s.drop_last()) * 10 + ((s.last() as u32) as int - 48)
    }
}

/// What `u64::from_str` accepts: an optional `+`, then one or more ASCII
/// digits whose value fits in 64 bits.
pub open spec fn parsed_u64(s: Seq<char>) -> Option<u64> {
    let body = number_body(s);
    if body.len() > 0 && all_digits(body) && digits_value(body) <= u64::MAX {
        Some(digits_value(body) as u64)
    } else {
        None
    }
}

/// `s` without one leading `+`.
pub open spec fn number_body(s: Seq<char>) -> Seq<char> {
    if s.len() > 0 && s[0] == '+' {
        s.drop_first()
    } else {
        s
    }
}

pub open spec fn all_digits(s: Seq<char>) -> bool {
    forall|i: int| 0 <= i < s.len() ==> is_digit(#[trigger] s[i])
}

proof fn lemma_digits_value_nonneg(s: Seq<char>)
    requires
        forall|i: int| 0 <= i < s.len() ==> is_digit(#[trigger] s[i]),
    ensures
        digits_value(s) >= 0,
    decreases s.len(),
{
    if s.len() > 0 {
        lemma_digits_value_nonneg(s.drop_last());
    }
}

proof fn lemma_digits_value_grows(s: Seq<char>, t: Seq<char>)
    requires
        s.len() <= t.len(),
        s == t.subrange(0, s.len() as int),
        forall|i: int| 0 <= i < t.len() ==> is_digit(#[trigger] t[i]),
    ensures
        digits_value(s) <= digits_value(t),
    decreases t.len() - s.len(),
{
    if s.len() < t.len() {
        let u = t.drop_last();
        assert(s == u.subrange(0, s.len() as int));
        lemma_digits_value_grows(s, u);
        lemma_digits_value_nonneg(u);
    } else {
        assert(s =~= t);
    }
}

/// Reads an unsigned decimal number as `u64::from_str` does.
pub fn parse_u64(s: &str) -> (r: Option<u64>)
    ensures
        r == parsed_u64(s@),
{
    let chars = chars_of(s);
    let mut start: usize = 0;
    if chars.len() > 0 && chars[0] == '+' {
        start = 1;
    }
    let ghost body = chars@.subrange(start as int, chars@.len() as int);
    assert(body =~= number_body(s@));
    if start == chars.len() {
        return None;
    }
    let mut value: u128 = 0;
    let mut i: usize = start;
    assert(chars@.subrange(start as int, start as int) =~= Seq::<char>::empty());
    assert(digits_value(chars@.subrange(start as int, start as int)) == 0);
    while i < chars.len()
        invariant
            chars@ == s@,
            body == number_body(s@),
            start <= i <= chars@.len(),
            body == chars@.subrange(start as int, chars@.len() as int),
            forall|j: int| start <= j < i ==> is_digit(#[trigger] chars@[j]),
            value == digits_value(chars@.subrange(start as int, i as int)),
            value <= u64::MAX,
        decreases chars.len() - i,
    {
        let c = chars[i];
        if !('0' <= c && c <= '9') {
            assert(body[i - start] == c);
            assert(!is_digit(body[i - start]));
            assert(!all_digits(body));
            assert(parsed_u64(s@) is None);
            return None;
        }
        let ghost prefix = chars@.subrange(start as int, i + 1);
        assert(prefix.drop_last() =~= chars@.subrange(start as int, i as int));
        let next = value * 10 + ((c as u32) - 48) as u128;
        if next > u64::MAX as u128 {
            proof {
                if all_digits(body) {
                    assert(prefix == body.subrange(0, prefix.len() as int));
                    lemma_digits_value_grows(prefix, body);
                    assert(digits_value(prefix) == next);
                }
                assert(parsed_u64(s@) is None);
            }
            return None;
        }
        value = next;
        i = i + 1;
    }
    assert(chars@.subrange(start as int, chars@.len() as int) == body);
    Some(value as u64)
}

} // verus!

verus! {

/// A text preceded by its length in characters and a colon.
pub open spec fn field_text(s: Seq<char>) -> Seq<char> {
    decimal(s.len()) + (":"@ + s)
}

/// The texts of a list, each preceded by its length, one after another.
pub open spec fn items_text(items: Seq<Seq<char>>) -> Seq<char>
    decreases items.len(),
{
    if items.len() == 0 {
        Seq::empty()
    } else {
        items_text(items.drop_last()) + field_text(items.last())
    }
}

/// A list preceded by its number of items and a colon. Neither the items
/// nor the text around them need avoid any character: the lengths say where
/// each item ends.
pub open spec fn list_text(items: Seq<Seq<char>>) -> Seq<char> {
    decimal(items.len()) + (":"@ + items_text(items))
}

/// Appends `s` preceded by its length and a colon.
pub fn append_field(out: &mut String, s: &str)
    ensures
        final(out)@ == old(out)@ + field_text(s@),
{
    let n = s.unicode_len();
    let count = decimal_string(n as u64);
    out.append(count.as_str());
    out.append(":");
    out.append(s);
    assert(final(out)@ =~= old(out)@ + field_text(s@));
}

/// Appends the list text of `items`.
pub fn append_list(out: &mut String, items: &Vec<String>)
    ensures
        final(out)@ == old(out)@ + list_text(items@.map_values(|s: String| s@)),
{
    let ghost view = items@.map_values(|s: String| s@);
    let ghost start = out@;
    let count = decimal_string(items.len() as u64);
    out.append(count.as_str());
    out.append(":");
    let ghost head = out@;
    let mut i: usize = 0;
    assert(view.subrange(0, 0) =~= Seq::<Seq<char>>::empty());
    assert(head + items_text(view.subrange(0, 0)) =~= head);
    while i < items.len()
        invariant
            i <= items@.len(),
            view == items@.map_values(|s: String| s@),
            out@ == head + items_text(view.subrange(0, i as int)),
        decreases items.len() - i,
    {
        append_field(out, items[i].as_str());
        proof {
            let sub = view.subrange(0, i + 1);
            assert(sub.drop_last() =~= view.subrange(0, i as int));
            assert(sub.last() == items@[i as int]@);
        }
        i = i + 1;
        assert(out@ =~= head + items_text(view.subrange(0, i as int)));
    }
    assert(view.subrange(0, items@.len() as int) =~= view);
    assert(out@ =~= start + list_text(view));
}

/// `t + x == t + y` leaves `x == y`.
pub proof fn lemma_peel_prefix(t: Seq<char>, x: Seq<char>, y: Seq<char>)
    requires
        t + x == t + y,
    ensures
        x == y,
{
    assert(x =~= (t + x).subrange(t.len() as int, (t + x).len() as int));
    assert(y =~= (t + y).subrange(t.len() as int, (t + y).len() as int));
}

/// A number written in decimal and followed by a character that is not a
/// digit is read back exactly, and so is what follows it.
pub proof fn lemma_peel_number(a: nat, b: nat, x: Seq<char>, y: Seq<char>)
    requires
        decimal(a) + x == decimal(b) + y,
        x.len() > 0 && !is_digit(x[0]),
        y.len() > 0 && !is_digit(y[0]),
    ensures
        a == b,
        x == y,
{
    let da = decimal(a);
    let db = decimal(b);
    let whole = da + x;
    lemma_decimal_digits(a);
    lemma_decimal_digits(b);
    if da.len() < db.len() {
        assert(whole[da.len() as int] == x[0]);
        assert((db + y)[da.len() as int] == db[da.len() as int]);
    } else if db.len() < da.len() {
        assert((db + y)[db.len() as int] == y[0]);
        assert(whole[db.len() as int] == da[db.len() as int]);
    } else {
        assert(da =~= whole.subrange(0, da.len() as int));
        assert(db =~= (db + y).subrange(0, db.len() as int));
        lemma_decimal_injective(a, b);
        lemma_peel_prefix(da, x, y);
    }
}

/// A length-prefixed text is read back exactly, and so is what follows it.
pub proof fn lemma_peel_field(s: Seq<char>, t: Seq<char>, x: Seq<char>, y: Seq<char>)
    requires
        field_text(s) + x == field_text(t) + y,
    ensures
        s == t,
        x == y,
{
    reveal_strlit(":");
    let xs = ":"@ + (s + x);
    let yt = ":"@ + (t + y);
    assert(field_text(s) + x =~= decimal(s.len()) + xs);
    assert(field_text(t) + y =~= decimal(t.len()) + yt);
    assert(xs[0] == ':');
    assert(yt[0] == ':');
    lemma_peel_number(s.len(), t.len(), xs, yt);
    lemma_peel_prefix(":"@, s + x, t + y);
    assert(s =~= (s + x).subrange(0, s.len() as int));
    assert(t =~= (t + y).subrange(0, t.len() as int));
    lemma_peel_prefix(s, x, y);
}

proof fn lemma_items_front(items: Seq<Seq<char>>)
    requires
        items.len() > 0,
    ensures
        items_text(items) == field_text(items[0]) + items_text(items.drop_first()),
    decreases items.len(),
{
    if items.len() == 1 {
        assert(items.drop_last() =~= Seq::<Seq<char>>::empty());
        assert(items.drop_first() =~= Seq::<Seq<char>>::empty());
        assert(items_text(items) =~= field_text(items[0]) + items_text(items.drop_first()));
    } else {
        let rest = items.drop_last();
        lemma_items_front(rest);
        assert(rest.drop_first() =~= items.drop_first().drop_last());
        assert(items.drop_first().last() == items.last());
        assert(items_text(items) =~= field_text(items[0]) + items_text(items.drop_first()));
    }
}

proof fn lemma_peel_items(a: Seq<Seq<char>>, b: Seq<Seq<char>>, x: Seq<char>, y: Seq<char>)
    requires
        a.len() == b.len(),
        items_text(a) + x == items_text(b) + y,
    ensures
        a == b,
        x == y,
    decreases a.len(),
{
    if a.len() == 0 {
        assert(items_text(a) + x =~= x);
        assert(items_text(b) + y =~= y);
        assert(a =~= b);
    } else {
        lemma_items_front(a);
        lemma_items_front(b);
        let ra = items_text(a.drop_first()) + x;
        let rb = items_text(b.drop_first()) + y;
        assert(items_text(a) + x =~= field_text(a[0]) + ra);
        assert(items_text(b) + y =~= field_text(b[0]) + rb);
        lemma_peel_field(a[0], b[0], ra, rb);
        lemma_peel_items(a.drop_first(), b.drop_first(), x, y);
        assert(a =~= seq![a[0]] + a.drop_first());
        assert(b =~= seq![b[0]] + b.drop_first());
    }
}

/// A list text is read back exactly, and so is what follows it.
pub proof fn lemma_peel_list(a: Seq<Seq<char>>, b: Seq<Seq<char>>, x: Seq<char>, y: Seq<char>)
    requires
        list_text(a) + x == list_text(b) + y,
    ensures
        a == b,
        x == y,
{
    reveal_strlit(":");
    let xa = ":"@ + (items_text(a) + x);
    let yb = ":"@ + (items_text(b) + y);
    assert(list_text(a) + x =~= decimal(a.len()) + xa);
    assert(list_text(b) + y =~= decimal(b.len()) + yb);
    assert(xa[0] == ':');
    assert(yb[0] == ':');
    lemma_peel_number(a.len(), b.len(), xa, yb);
    lemma_peel_prefix(":"@, items_text(a) + x, items_text(b) + y);
    lemma_peel_items(a, b, x, y);
}

} // verus!

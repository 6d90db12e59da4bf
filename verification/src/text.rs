//! Text helpers: comparison, decimal numerals, joining and trimming.

use vstd::prelude::*;
use vstd::string::*;
use vstd::utf8::*;

verus! {

/// Appends one character to a string.
///
/// Trusted: stands for `String::push`, which appends the given `char` to the end
/// of the string.
#[verifier::external_body]
pub(crate) fn push_char(s: &mut String, c: char)
    ensures
        final(s)@ == old(s)@.push(c),
{
    s.push(c);
}

/// Removes the last character of a string and returns it; returns `None` and
/// leaves the string alone where it is empty.
pub fn pop_char(s: &mut String) -> (r: Option<char>)
    ensures
        old(s)@.len() == 0 ==> r is None && final(s)@ == old(s)@,
        old(s)@.len() > 0 ==> r == Some(old(s)@.last()) && final(s)@ == old(s)@.drop_last(),
{
    let n = s.as_str().unicode_len();
    if n == 0 {
        return None;
    }
    let last = s.as_str().get_char(n - 1);
    let rest = s.as_str().substring_char(0, n - 1).to_owned();
    *s = rest;
    assert(s@ =~= old(s)@.drop_last());
    Some(last)
}

/// Two texts with the same UTF-8 bytes are the same text.
pub proof fn lemma_same_bytes_same_text(a: Seq<char>, b: Seq<char>)
    requires
        encode_utf8(a) == encode_utf8(b),
    ensures
        a == b,
{
    encode_utf8_decode_utf8(a);
    encode_utf8_decode_utf8(b);
}

/// Whether two texts are equal, character for character.
pub fn text_eq(a: &str, b: &str) -> (r: bool)
    ensures
        r == (a@ == b@),
{
    let x = a.as_bytes();
    let y = b.as_bytes();
    if x.len() != y.len() {
        return false;
    }
    let n = x.len();
    let mut i: usize = 0;
    while i < n
        invariant
            n == x@.len(),
            n == y@.len(),
            i <= n,
            x@ == a.spec_bytes(),
            y@ == b.spec_bytes(),
            x@.subrange(0, i as int) == y@.subrange(0, i as int),
        decreases n - i,
    {
        if x[i] != y[i] {
            assert(x@[i as int] != y@[i as int]);
            return false;
        }
        assert(x@.subrange(0, i + 1) =~= x@.subrange(0, i as int).push(x@[i as int]));
        assert(y@.subrange(0, i + 1) =~= y@.subrange(0, i as int).push(y@[i as int]));
        i += 1;
    }
    proof {
        assert(x@ =~= x@.subrange(0, n as int));
        assert(y@ =~= y@.subrange(0, n as int));
        lemma_same_bytes_same_text(a@, b@);
    }
    true
}

/// The character that writes the decimal digit `d`.
pub open spec fn digit_char(d: int) -> char {
    if d == 0 {
        '0'
    } else if d == 1 {
        '1'
    } else if d == 2 {
        '2'
    } else if d == 3 {
        '3'
    } else if d == 4 {
        '4'
    } else if d == 5 {
        '5'
    } else if d == 6 {
        '6'
    } else if d == 7 {
        '7'
    } else if d == 8 {
        '8'
    } else {
        '9'
    }
}

/// The decimal numeral of a natural number, without leading zeros.
pub open spec fn decimal_digits(n: nat) -> Seq<char>
    decreases n,
{
    if n < 10 {
        seq![digit_char(n as int)]
    } else {
        decimal_digits(n / 10).push(digit_char((n % 10) as int))
    }
}

/// The decimal numeral of an integer, with a leading `-` for negative numbers.
pub open spec fn decimal(n: int) -> Seq<char> {
    if n < 0 {
        seq!['-'] + decimal_digits((-n) as nat)
    } else {
        decimal_digits(n as nat)
    }
}

fn digit(d: u64) -> (c: char)
    requires
        d < 10,
    ensures
        c == digit_char(d as int),
{
    if d == 0 {
        '0'
    } else if d == 1 {
        '1'
    } else if d == 2 {
        '2'
    } else if d == 3 {
        '3'
    } else if d == 4 {
        '4'
    } else if d == 5 {
        '5'
    } else if d == 6 {
        '6'
    } else if d == 7 {
        '7'
    } else if d == 8 {
        '8'
    } else {
        '9'
    }
}

/// Appends the decimal numeral of `n` to `out`.
pub fn push_decimal(out: &mut String, n: u64)
    ensures
        final(out)@ == old(out)@ + decimal_digits(n as nat),
    decreases n,
{
    if n >= 10 {
        push_decimal(out, n / 10);
    }
    push_char(out, digit(n % 10));
    assert(out@ =~= old(out)@ + decimal_digits(n as nat));
}

/// The decimal numeral of an unsigned number.
pub fn u64_to_string(n: u64) -> (r: String)
    ensures
        r@ == decimal(n as int),
{
    let mut out = String::new();
    push_decimal(&mut out, n);
    assert(out@ =~= decimal_digits(n as nat));
    out
}

/// The decimal numeral of a signed number.
pub fn i64_to_string(n: i64) -> (r: String)
    ensures
        r@ == decimal(n as int),
{
    let mut out = String::new();
    if n < 0 {
        push_char(&mut out, '-');
        let magnitude: u64 = (-(n + 1)) as u64 + 1;
        push_decimal(&mut out, magnitude);
        assert(out@ =~= seq!['-'] + decimal_digits((-n) as nat));
    } else {
        push_decimal(&mut out, n as u64);
        assert(out@ =~= decimal_digits(n as nat));
    }
    out
}

/// The texts of `parts`, in order, with `sep` between each two neighbours.
pub open spec fn joined(parts: Seq<Seq<char>>, sep: Seq<char>) -> Seq<char>
    decreases parts.len(),
{
    if parts.len() == 0 {
        Seq::empty()
    } else if parts.len() == 1 {
        parts[0]
    } else {
        joined(parts.drop_last(), sep) + sep + parts.last()
    }
}

/// Joins the strings of `parts` with `sep` between them.
pub fn join(parts: &Vec<String>, sep: &str) -> (r: String)
    ensures
        r@ == joined(parts.deep_view(), sep@),
{
    let mut out = String::new();
    let mut i: usize = 0;
    while i < parts.len()
        invariant
            i <= parts.len(),
            out@ == joined(parts.deep_view().take(i as int), sep@),
        decreases parts.len() - i,
    {
        if i > 0 {
            out.append(sep);
        }
        out.append(parts[i].as_str());
        proof {
            let all = parts.deep_view();
            let before = all.take(i as int);
            let after = all.take(i + 1);
            assert(after.drop_last() =~= before);
            assert(after.last() == parts[i as int]@);
            if i == 0 {
                assert(out@ =~= after[0]);
            }
        }
        i += 1;
    }
    proof {
        assert(parts.deep_view().take(parts.len() as int) =~= parts.deep_view());
    }
    out
}

/// `s` without the run of `c` at its end.
pub open spec fn trimmed_end(s: Seq<char>, c: char) -> Seq<char>
    decreases s.len(),
{
    if s.len() > 0 && s.last() == c {
        trimmed_end(s.drop_last(), c)
    } else {
        s
    }
}

/// Whether `s` ends with `c`.
pub open spec fn ends_with(s: Seq<char>, c: char) -> bool {
    s.len() > 0 && s.last() == c
}

/// A text that was trimmed of `c` at its end does not end with `c`.
pub proof fn lemma_trimmed_end(s: Seq<char>, c: char)
    ensures
        !ends_with(trimmed_end(s, c), c),
    decreases s.len(),
{
    if s.len() > 0 && s.last() == c {
        lemma_trimmed_end(s.drop_last(), c);
    }
}

/// Copies `s` without the run of `c` at its end.
pub fn trim_end(s: &str, c: char) -> (r: String)
    ensures
        r@ == trimmed_end(s@, c),
{
    let n = s.unicode_len();
    let mut k = n;
    assert(s@.take(n as int) =~= s@);
    while k > 0 && s.get_char(k - 1) == c
        invariant
            n == s@.len(),
            k <= n,
            trimmed_end(s@, c) == trimmed_end(s@.take(k as int), c),
        decreases k,
    {
        proof {
            let cur = s@.take(k as int);
            assert(cur.last() == s@[k - 1]);
            assert(cur.drop_last() =~= s@.take(k - 1));
        }
        k -= 1;
    }
    proof {
        let cur = s@.take(k as int);
        if k > 0 {
            assert(cur.last() == s@[k - 1]);
        }
        assert(s@.subrange(0, k as int) =~= cur);
    }
    s.substring_char(0, k).to_owned()
}

/// The text of `a` followed by the text of `b`.
pub fn chain(a: &str, b: &str) -> (r: String)
    ensures
        r@ == a@ + b@,
{
    let mut out = a.to_owned();
    out.append(b);
    out
}

/// The lowercase form of a text, as std defines it from Unicode's `Lowercase`
/// property and case mappings.
pub uninterp spec fn lowercase_text(text: Seq<char>) -> Seq<char>;

/// The uppercase form of a text, as std defines it from Unicode's `Uppercase`
/// property and case mappings.
pub uninterp spec fn uppercase_text(text: Seq<char>) -> Seq<char>;

/// The lowercase form of `s`.
///
/// Trusted: stands for `str::to_lowercase`, whose result depends on the text
/// alone.
#[verifier::external_body]
pub(crate) fn to_lowercase(s: &str) -> (r: String)
    ensures
        r@ == lowercase_text(s@),
{
    s.to_lowercase()
}

/// The uppercase form of `s`.
///
/// Trusted: stands for `str::to_uppercase`, whose result depends on the text
/// alone.
#[verifier::external_body]
pub(crate) fn to_uppercase(s: &str) -> (r: String)
    ensures
        r@ == uppercase_text(s@),
{
    s.to_uppercase()
}

/// The test that a text is another one than `text`.
pub open spec fn other_than(text: Seq<char>) -> spec_fn(Seq<char>) -> bool {
    |t: Seq<char>| t != text
}

/// Whether `text` is among the strings of `list`.
pub fn contains_text(list: &Vec<String>, text: &str) -> (r: bool)
    ensures
        r == list.deep_view().contains(text@),
{
    let mut i: usize = 0;
    while i < list.len()
        invariant
            i <= list.len(),
            forall|j: int| 0 <= j < i ==> list.deep_view()[j] != text@,
        decreases list.len() - i,
    {
        if text_eq(list[i].as_str(), text) {
            assert(list.deep_view()[i as int] == text@);
            return true;
        }
        i += 1;
    }
    false
}

/// The strings of `list` that are other than `text`, in their order.
pub fn without_text(list: &Vec<String>, text: &str) -> (r: Vec<String>)
    ensures
        r.deep_view() == list.deep_view().filter(other_than(text@)),
{
    let mut kept: Vec<String> = Vec::new();
    let mut i: usize = 0;
    proof {
        reveal(Seq::filter);
        assert(list.deep_view().take(0).filter(other_than(text@)) =~= Seq::empty());
        assert(kept.deep_view() =~= Seq::empty());
    }
    while i < list.len()
        invariant
            i <= list.len(),
            kept.deep_view() == list.deep_view().take(i as int).filter(other_than(text@)),
        decreases list.len() - i,
    {
        let ghost before = kept.deep_view();
        if !text_eq(list[i].as_str(), text) {
            kept.push(list[i].clone());
            assert(kept.deep_view() =~= before.push(list.deep_view()[i as int]));
        }
        proof {
            let all = list.deep_view();
            assert(all.take(i + 1) =~= all.take(i as int).push(all[i as int]));
            all.take(i as int).lemma_filter_push(all[i as int], other_than(text@));
        }
        i += 1;
    }
    proof {
        assert(list.deep_view().take(list.len() as int) =~= list.deep_view());
    }
    kept
}

/// Dropping `text` from a list keeps exactly the members other than `text`, and
/// a list without repetitions stays without.
pub proof fn lemma_filter_other_than(list: Seq<Seq<char>>, text: Seq<char>)
    ensures
        forall|t: Seq<char>|
            #[trigger] list.filter(other_than(text)).contains(t) <==> list.contains(t) && t
                != text,
        list.no_duplicates() ==> list.filter(other_than(text)).no_duplicates(),
    decreases list.len(),
{
    reveal(Seq::filter);
    let kept = list.filter(other_than(text));
    if list.len() == 0 {
        assert forall|t: Seq<char>| #[trigger] kept.contains(t) <==> list.contains(t) && t
            != text by {}
    } else {
        let front = list.drop_last();
        let last = list.last();
        let front_kept = front.filter(other_than(text));
        lemma_filter_other_than(front, text);
        assert forall|t: Seq<char>| #[trigger] kept.contains(t) <==> list.contains(t) && t
            != text by {
            if kept.contains(t) {
                let i = choose|i: int| 0 <= i < kept.len() && kept[i] == t;
                if last != text && i == kept.len() - 1 {
                    assert(list[list.len() - 1] == t);
                } else {
                    assert(front_kept[i] == t);
                    assert(front_kept.contains(t));
                    let j = choose|j: int| 0 <= j < front.len() && front[j] == t;
                    assert(list[j] == t);
                }
            }
            if list.contains(t) && t != text {
                let j = choose|j: int| 0 <= j < list.len() && list[j] == t;
                if j == list.len() - 1 {
                    assert(kept[kept.len() - 1] == t);
                } else {
                    assert(front[j] == t);
                    assert(front.contains(t));
                    assert(front_kept.contains(t));
                    let i = choose|i: int| 0 <= i < front_kept.len() && front_kept[i] == t;
                    assert(kept[i] == t);
                }
            }
        }
        if list.no_duplicates() {
            assert(front.no_duplicates());
            if last != text {
                assert forall|i: int, j: int|
                    0 <= i < kept.len() && 0 <= j < kept.len() && i != j implies kept[i]
                    != kept[j] by {
                    if i == kept.len() - 1 || j == kept.len() - 1 {
                        let k = if i == kept.len() - 1 {
                            j
                        } else {
                            i
                        };
                        assert(front_kept[k] == kept[k]);
                        assert(front_kept.contains(kept[k]));
                        let m = choose|m: int| 0 <= m < front.len() && front[m] == kept[k];
                        assert(list[m] != list[list.len() - 1]);
                    } else {
                        assert(front_kept[i] != front_kept[j]);
                    }
                }
            }
        }
    }
}

} // verus!

//! Cleaning of free text into the names that a message bus accepts.
use vstd::prelude::*;

verus! {

/// `String::push` appends one character to the end of the string.
pub assume_specification[ String::push ](s: &mut String, c: char)
    ensures
        final(s)@ == old(s)@.push(c),
;

pub open spec fn is_digit(c: char) -> bool {
    '0' <= c <= '9'
}

pub open spec fn is_letter(c: char) -> bool {
    'a' <= c <= 'z' || 'A' <= c <= 'Z'
}

/// ASCII letters and digits.
pub open spec fn is_alphanumeric(c: char) -> bool {
    is_letter(c) || is_digit(c)
}

/// The characters that may stand between letters and digits: the underscore, and the hyphen where
/// `hyphens` are allowed.
pub open spec fn is_joiner(c: char, hyphens: bool) -> bool {
    c == '_' || (hyphens && c == '-')
}

pub open spec fn is_allowed(c: char, hyphens: bool) -> bool {
    is_alphanumeric(c) || is_joiner(c, hyphens)
}

/// `s` with an underscore for each character that is not allowed.
pub open spec fn substituted(s: Seq<char>, hyphens: bool) -> Seq<char> {
    s.map_values(
        |c: char|
            if is_allowed(c, hyphens) {
                c
            } else {
                '_'
            },
    )
}

/// `s` with one underscore for each run of underscores.
pub open spec fn collapsed(s: Seq<char>) -> Seq<char>
    decreases s.len(),
{
    if s.len() == 0 {
        s
    } else {
        let t = collapsed(s.drop_last());
        if s.last() == '_' && t.len() > 0 && t.last() == '_' {
            t
        } else {
            t.push(s.last())
        }
    }
}

/// `s` without the joiners at its start.
pub open spec fn trimmed_start(s: Seq<char>, hyphens: bool) -> Seq<char>
    decreases s.len(),
{
    if s.len() > 0 && is_joiner(s[0], hyphens) {
        trimmed_start(s.drop_first(), hyphens)
    } else {
        s
    }
}

/// `s` without the joiners at its end.
pub open spec fn trimmed_end(s: Seq<char>, hyphens: bool) -> Seq<char>
    decreases s.len(),
{
    if s.len() > 0 && is_joiner(s.last(), hyphens) {
        trimmed_end(s.drop_last(), hyphens)
    } else {
        s
    }
}

/// `s` with allowed characters only, single underscores, and a letter or digit at either end.
pub open spec fn cleaned(s: Seq<char>, hyphens: bool) -> Seq<char> {
    trimmed_end(trimmed_start(collapsed(substituted(s, hyphens)), hyphens), hyphens)
}

/// What `cleaned` makes of every text.
pub open spec fn is_clean(s: Seq<char>, hyphens: bool) -> bool {
    &&& forall|i: int| 0 <= i < s.len() ==> is_allowed(#[trigger] s[i], hyphens)
    &&& forall|i: int| 0 < i < s.len() && #[trigger] s[i] == '_' ==> s[i - 1] != '_'
    &&& s.len() > 0 ==> is_alphanumeric(s[0]) && is_alphanumeric(s.last())
}

pub open spec fn has_alphanumeric(s: Seq<char>) -> bool {
    exists|i: int| 0 <= i < s.len() && is_alphanumeric(#[trigger] s[i])
}

proof fn lemma_collapsed(s: Seq<char>, hyphens: bool)
    requires
        forall|i: int| 0 <= i < s.len() ==> is_allowed(#[trigger] s[i], hyphens),
    ensures
        forall|i: int| 0 <= i < collapsed(s).len() ==> is_allowed(#[trigger] collapsed(s)[i], hyphens),
        forall|i: int|
            0 < i < collapsed(s).len() && #[trigger] collapsed(s)[i] == '_' ==> collapsed(s)[i - 1]
                != '_',
        has_alphanumeric(collapsed(s)) == has_alphanumeric(s),
    decreases s.len(),
{
    if s.len() > 0 {
        let u = s.drop_last();
        lemma_collapsed(u, hyphens);
        let t = collapsed(u);
        let c = s.last();
        if has_alphanumeric(s) {
            let i = choose|i: int| 0 <= i < s.len() && is_alphanumeric(#[trigger] s[i]);
            if i < u.len() {
                assert(is_alphanumeric(u[i]));
                let j = choose|j: int| 0 <= j < t.len() && is_alphanumeric(#[trigger] t[j]);
                assert(is_alphanumeric(collapsed(s)[j]));
            } else {
                assert(collapsed(s)[t.len() as int] == c);
            }
        }
        if has_alphanumeric(collapsed(s)) {
            let j = choose|j: int|
                0 <= j < collapsed(s).len() && is_alphanumeric(#[trigger] collapsed(s)[j]);
            if j < t.len() {
                assert(is_alphanumeric(t[j]));
                let i = choose|i: int| 0 <= i < u.len() && is_alphanumeric(#[trigger] u[i]);
                assert(is_alphanumeric(s[i]));
            } else {
                assert(is_alphanumeric(s[s.len() - 1]));
            }
        }
    }
}

/// Trimming at the start keeps a tail of the text that starts with no joiner.
proof fn lemma_trimmed_start(s: Seq<char>, hyphens: bool)
    requires
        forall|i: int| 0 <= i < s.len() ==> is_allowed(#[trigger] s[i], hyphens),
    ensures
        ({
            let t = trimmed_start(s, hyphens);
            &&& t.len() <= s.len()
            &&& t == s.skip(s.len() - t.len())
            &&& t.len() > 0 ==> is_alphanumeric(t[0])
            &&& t.len() > 0 <==> has_alphanumeric(s)
        }),
    decreases s.len(),
{
    if s.len() > 0 && is_joiner(s[0], hyphens) {
        let u = s.drop_first();
        lemma_trimmed_start(u, hyphens);
        let t = trimmed_start(s, hyphens);
        assert(t =~= s.skip(s.len() - t.len()));
        if has_alphanumeric(s) {
            let i = choose|i: int| 0 <= i < s.len() && is_alphanumeric(#[trigger] s[i]);
            assert(is_alphanumeric(u[i - 1]));
        }
        if has_alphanumeric(u) {
            let i = choose|i: int| 0 <= i < u.len() && is_alphanumeric(#[trigger] u[i]);
            assert(is_alphanumeric(s[i + 1]));
        }
    } else {
        assert(s =~= s.skip(0));
        if s.len() > 0 {
            assert(is_alphanumeric(s[0]));
        }
    }
}

proof fn lemma_trimmed_end(s: Seq<char>, hyphens: bool)
    requires
        forall|i: int| 0 <= i < s.len() ==> is_allowed(#[trigger] s[i], hyphens),
        s.len() > 0 ==> is_alphanumeric(s[0]),
    ensures
        ({
            let t = trimmed_end(s, hyphens);
            &&& t.len() <= s.len()
            &&& t == s.take(t.len() as int)
            &&& t.len() > 0 ==> is_alphanumeric(t.last())
            &&& t.len() > 0 <==> s.len() > 0
        }),
    decreases s.len(),
{
    if s.len() > 0 && is_joiner(s.last(), hyphens) {
        let u = s.drop_last();
        assert(s.len() > 1);
        lemma_trimmed_end(u, hyphens);
        let t = trimmed_end(s, hyphens);
        assert(t =~= s.take(t.len() as int));
    } else {
        assert(s =~= s.take(s.len() as int));
    }
}

/// Cleaning leaves a clean text, and a text at all exactly where there was a letter or a digit.
pub proof fn lemma_cleaned(s: Seq<char>, hyphens: bool)
    ensures
        is_clean(cleaned(s, hyphens), hyphens),
        cleaned(s, hyphens).len() > 0 <==> has_alphanumeric(s),
{
    let a = substituted(s, hyphens);
    assert forall|i: int| 0 <= i < a.len() implies is_allowed(#[trigger] a[i], hyphens) by {
        assert(a[i] == if is_allowed(s[i], hyphens) {
            s[i]
        } else {
            '_'
        });
    }
    if has_alphanumeric(s) {
        let i = choose|i: int| 0 <= i < s.len() && is_alphanumeric(#[trigger] s[i]);
        assert(is_alphanumeric(a[i]));
    }
    if has_alphanumeric(a) {
        let i = choose|i: int| 0 <= i < a.len() && is_alphanumeric(#[trigger] a[i]);
        assert(is_alphanumeric(s[i]));
    }
    lemma_collapsed(a, hyphens);
    let b = collapsed(a);
    lemma_trimmed_start(b, hyphens);
    let c = trimmed_start(b, hyphens);
    let off = b.len() - c.len();
    assert forall|i: int| 0 <= i < c.len() implies c[i] == #[trigger] b[off + i] by {}
    assert forall|i: int| 0 <= i < c.len() implies is_allowed(#[trigger] c[i], hyphens) by {
        assert(c[i] == b[off + i]);
    }
    lemma_trimmed_end(c, hyphens);
    let d = trimmed_end(c, hyphens);
    assert forall|i: int| 0 <= i < d.len() implies is_allowed(#[trigger] d[i], hyphens) by {
        assert(d[i] == c[i]);
    }
    assert forall|i: int| 0 < i < d.len() && #[trigger] d[i] == '_' implies d[i - 1] != '_' by {
        assert(d[i] == b[off + i]);
        assert(d[i - 1] == b[off + i - 1]);
    }
}

/// A clean text stays as it is.
pub proof fn lemma_cleaned_fixed(s: Seq<char>, hyphens: bool)
    requires
        is_clean(s, hyphens),
    ensures
        cleaned(s, hyphens) == s,
{
    assert(substituted(s, hyphens) =~= s);
    lemma_collapsed_fixed(s);
}

proof fn lemma_collapsed_fixed(s: Seq<char>)
    requires
        forall|i: int| 0 < i < s.len() && #[trigger] s[i] == '_' ==> s[i - 1] != '_',
    ensures
        collapsed(s) == s,
    decreases s.len(),
{
    if s.len() > 0 {
        let u = s.drop_last();
        assert forall|i: int| 0 < i < u.len() && #[trigger] u[i] == '_' implies u[i - 1] != '_' by {
            assert(s[i] == '_');
        }
        lemma_collapsed_fixed(u);
        if u.len() > 0 && s.last() == '_' {
            assert(s[s.len() - 1] == '_');
            assert(u.last() == s[s.len() - 2]);
        }
        assert(collapsed(s) =~= s);
    }
}

fn is_ascii_alphanumeric(c: char) -> (r: bool)
    ensures
        r == is_alphanumeric(c),
{
    ('a' <= c && c <= 'z') || ('A' <= c && c <= 'Z') || ('0' <= c && c <= '9')
}

/// The cleaned characters of `raw`.
pub(crate) fn clean(raw: &str, hyphens: bool) -> (r: Vec<char>)
    ensures
        r@ == cleaned(raw@, hyphens),
{
    let mut chars: Vec<char> = Vec::new();
    let ghost whole = substituted(raw@, hyphens);
    for c in iter: raw.chars()
        invariant
            iter.seq() == raw@,
            whole == substituted(raw@, hyphens),
            chars@ == collapsed(whole.take(iter.index() as int)),
    {
        let ghost i = iter.index() as int;
        let kept: char = if is_ascii_alphanumeric(c) || c == '_' || (hyphens && c == '-') {
            c
        } else {
            '_'
        };
        proof {
            assert(whole.take(i + 1).drop_last() =~= whole.take(i));
            assert(whole.take(i + 1).last() == kept);
        }
        let n = chars.len();
        if !(kept == '_' && n > 0 && chars[n - 1] == '_') {
            chars.push(kept);
        }
    }
    assert(whole.take(whole.len() as int) =~= whole);
    let ghost all = chars@;
    let mut start: usize = 0;
    assert(all.skip(0) =~= all);
    while start < chars.len() && (chars[start] == '_' || (hyphens && chars[start] == '-'))
        invariant
            start <= chars.len(),
            chars@ == all,
            trimmed_start(all, hyphens) == trimmed_start(all.skip(start as int), hyphens),
        decreases chars.len() - start,
    {
        assert(all.skip(start as int).drop_first() =~= all.skip(start + 1));
        start = start + 1;
    }
    let ghost tail = all.skip(start as int);
    let mut end: usize = chars.len();
    assert(tail.take(tail.len() as int) =~= tail);
    while end > start && (chars[end - 1] == '_' || (hyphens && chars[end - 1] == '-'))
        invariant
            start <= end <= chars.len(),
            chars@ == all,
            tail == all.skip(start as int),
            trimmed_end(tail, hyphens) == trimmed_end(tail.take(end - start), hyphens),
        decreases end - start,
    {
        assert(tail.take(end - start).drop_last() =~= tail.take(end - start - 1));
        end = end - 1;
    }
    let mut result: Vec<char> = Vec::new();
    let mut i: usize = start;
    while i < end
        invariant
            start <= i <= end <= chars.len(),
            chars@ == all,
            tail == all.skip(start as int),
            result@ == tail.take(i - start),
        decreases end - i,
    {
        assert(tail.take(i - start).push(all[i as int]) =~= tail.take(i - start + 1));
        result.push(chars[i]);
        i = i + 1;
    }
    result
}

/// `prefix` followed by the characters.
pub(crate) fn prefixed(prefix: &str, chars: &Vec<char>) -> (r: String)
    ensures
        r@ == prefix@ + chars@,
{
    let mut r = prefix.to_owned();
    let mut i: usize = 0;
    assert(prefix@ + chars@.take(0) =~= prefix@);
    while i < chars.len()
        invariant
            i <= chars.len(),
            r@ == prefix@ + chars@.take(i as int),
        decreases chars.len() - i,
    {
        assert(chars@.take(i + 1) =~= chars@.take(i as int).push(chars@[i as int]));
        r.push(chars[i]);
        i = i + 1;
    }
    assert(chars@.take(i as int) =~= chars@);
    r
}

/// The letters and digits are those of ASCII, by their codes.
pub proof fn law_characters(c: char)
    ensures
        is_digit(c) <==> 48 <= c as u32 <= 57,
        is_letter(c) <==> 65 <= c as u32 <= 90 || 97 <= c as u32 <= 122,
        is_alphanumeric(c) <==> is_letter(c) || is_digit(c),
        is_joiner(c, false) <==> c as u32 == 95,
        is_joiner(c, true) <==> c as u32 == 95 || c as u32 == 45,
{
}

/// The letters and digits of a text, in their order.
pub open spec fn letters(s: Seq<char>) -> Seq<char> {
    s.filter(|c: char| is_alphanumeric(c))
}

proof fn lemma_letters_step(s: Seq<char>)
    requires
        s.len() > 0,
    ensures
        is_alphanumeric(s.last()) ==> letters(s) == letters(s.drop_last()).push(s.last()),
        !is_alphanumeric(s.last()) ==> letters(s) == letters(s.drop_last()),
{
    reveal(Seq::filter);
}

proof fn lemma_letters_push(s: Seq<char>, c: char)
    ensures
        is_alphanumeric(c) ==> letters(s.push(c)) == letters(s).push(c),
        !is_alphanumeric(c) ==> letters(s.push(c)) == letters(s),
{
    lemma_letters_step(s.push(c));
    assert(s.push(c).drop_last() =~= s);
}

proof fn lemma_letters_first(s: Seq<char>)
    requires
        s.len() > 0,
        !is_alphanumeric(s[0]),
    ensures
        letters(s) == letters(s.drop_first()),
    decreases s.len(),
{
    lemma_letters_step(s);
    let t = s.drop_first();
    if s.len() == 1 {
        assert(s.drop_last() =~= t);
    } else {
        lemma_letters_step(t);
        lemma_letters_first(s.drop_last());
        assert(s.drop_last().drop_first() =~= t.drop_last());
    }
}

proof fn lemma_letters_substituted(s: Seq<char>, hyphens: bool)
    ensures
        letters(substituted(s, hyphens)) == letters(s),
    decreases s.len(),
{
    let t = substituted(s, hyphens);
    if s.len() > 0 {
        lemma_letters_substituted(s.drop_last(), hyphens);
        lemma_letters_step(s);
        lemma_letters_step(t);
        assert(t.drop_last() =~= substituted(s.drop_last(), hyphens));
    } else {
        assert(t =~= s);
    }
}

proof fn lemma_letters_collapsed(s: Seq<char>)
    ensures
        letters(collapsed(s)) == letters(s),
    decreases s.len(),
{
    if s.len() > 0 {
        lemma_letters_collapsed(s.drop_last());
        lemma_letters_step(s);
        lemma_letters_push(collapsed(s.drop_last()), s.last());
    }
}

proof fn lemma_letters_trimmed_start(s: Seq<char>, hyphens: bool)
    ensures
        letters(trimmed_start(s, hyphens)) == letters(s),
    decreases s.len(),
{
    if s.len() > 0 && is_joiner(s[0], hyphens) {
        lemma_letters_first(s);
        lemma_letters_trimmed_start(s.drop_first(), hyphens);
    }
}

proof fn lemma_letters_trimmed_end(s: Seq<char>, hyphens: bool)
    ensures
        letters(trimmed_end(s, hyphens)) == letters(s),
    decreases s.len(),
{
    if s.len() > 0 && is_joiner(s.last(), hyphens) {
        lemma_letters_step(s);
        lemma_letters_trimmed_end(s.drop_last(), hyphens);
    }
}

/// Cleaning keeps every letter and digit, in their order, and adds none.
pub proof fn law_cleaning_keeps_letters(s: Seq<char>, hyphens: bool)
    ensures
        letters(cleaned(s, hyphens)) == letters(s),
{
    let a = substituted(s, hyphens);
    let b = collapsed(a);
    lemma_letters_substituted(s, hyphens);
    lemma_letters_collapsed(a);
    lemma_letters_trimmed_start(b, hyphens);
    lemma_letters_trimmed_end(trimmed_start(b, hyphens), hyphens);
}

proof fn lemma_collapsed_last(s: Seq<char>)
    requires
        s.len() > 0,
    ensures
        collapsed(s).len() > 0,
        collapsed(s).last() == s.last(),
    decreases s.len(),
{
}

proof fn lemma_collapsed_first(s: Seq<char>)
    requires
        s.len() > 0,
    ensures
        collapsed(s).len() > 0,
        collapsed(s)[0] == s[0],
    decreases s.len(),
{
    if s.len() > 1 {
        lemma_collapsed_first(s.drop_last());
    } else {
        assert(collapsed(s.drop_last()) =~= Seq::<char>::empty());
    }
}

proof fn lemma_collapsed_parts(x: Seq<char>, y: Seq<char>)
    requires
        x.len() == 0 || x.last() != '_' || y.len() == 0 || y[0] != '_',
    ensures
        collapsed(x + y) == collapsed(x) + collapsed(y),
    decreases y.len(),
{
    if y.len() == 0 {
        assert(x + y =~= x);
        assert(collapsed(x) + collapsed(y) =~= collapsed(x));
    } else {
        let z = y.drop_last();
        assert((x + y).drop_last() =~= x + z);
        lemma_collapsed_parts(x, z);
        if x.len() > 0 {
            lemma_collapsed_last(x);
        }
        if z.len() > 0 {
            lemma_collapsed_last(z);
            assert((collapsed(x) + collapsed(z)).last() == collapsed(z).last());
        } else {
            assert(collapsed(x) + collapsed(z) =~= collapsed(x));
            assert(y[0] == y.last());
        }
        assert(collapsed(x + y) =~= collapsed(x) + collapsed(y));
    }
}

/// Whether all characters are joiners.
spec fn all_joiners(s: Seq<char>, hyphens: bool) -> bool {
    forall|i: int| 0 <= i < s.len() ==> is_joiner(#[trigger] s[i], hyphens)
}

proof fn lemma_collapsed_joiners(s: Seq<char>, hyphens: bool)
    requires
        all_joiners(s, hyphens),
    ensures
        all_joiners(collapsed(s), hyphens),
    decreases s.len(),
{
    if s.len() > 0 {
        lemma_collapsed_joiners(s.drop_last(), hyphens);
    }
}

proof fn lemma_collapsed_underscores(s: Seq<char>)
    requires
        s.len() > 0,
        forall|i: int| 0 <= i < s.len() ==> #[trigger] s[i] == '_',
    ensures
        collapsed(s) == seq!['_'],
    decreases s.len(),
{
    if s.len() > 1 {
        lemma_collapsed_underscores(s.drop_last());
    } else {
        assert(collapsed(s.drop_last()) =~= Seq::<char>::empty());
        assert(collapsed(s) =~= seq!['_']);
    }
}

/// Joiners at the start are trimmed, and nothing behind the first character that is none.
proof fn lemma_trimmed_start_parts(x: Seq<char>, y: Seq<char>, hyphens: bool)
    ensures
        all_joiners(x, hyphens) ==> trimmed_start(x + y, hyphens) == trimmed_start(y, hyphens),
        trimmed_start(x, hyphens).len() > 0 ==> trimmed_start(x + y, hyphens) == trimmed_start(
            x,
            hyphens,
        ) + y,
    decreases x.len(),
{
    if x.len() == 0 {
        assert(x + y =~= y);
    } else if is_joiner(x[0], hyphens) {
        assert((x + y).drop_first() =~= x.drop_first() + y);
        lemma_trimmed_start_parts(x.drop_first(), y, hyphens);
    }
}

/// Joiners at the end are trimmed, and nothing before the last character that is none.
proof fn lemma_trimmed_end_parts(x: Seq<char>, y: Seq<char>, hyphens: bool)
    ensures
        all_joiners(y, hyphens) ==> trimmed_end(x + y, hyphens) == trimmed_end(x, hyphens),
        trimmed_end(y, hyphens).len() > 0 ==> trimmed_end(x + y, hyphens) == x + trimmed_end(
            y,
            hyphens,
        ),
    decreases y.len(),
{
    if y.len() == 0 {
        assert(x + y =~= x);
    } else if is_joiner(y.last(), hyphens) {
        assert((x + y).drop_last() =~= x + y.drop_last());
        lemma_trimmed_end_parts(x, y.drop_last(), hyphens);
    }
}

/// Trimming of a text that ends, or starts, with a letter or digit.
proof fn lemma_trimmed_letters(s: Seq<char>, hyphens: bool)
    requires
        s.len() > 0,
    ensures
        is_alphanumeric(s.last()) ==> trimmed_start(s, hyphens).len() > 0 && trimmed_start(
            s,
            hyphens,
        ).last() == s.last() && trimmed_end(s, hyphens) == s,
        is_alphanumeric(s[0]) ==> trimmed_end(s, hyphens).len() > 0 && trimmed_start(s, hyphens)
            == s,
    decreases s.len(),
{
    if s.len() > 1 {
        lemma_trimmed_letters(s.drop_first(), hyphens);
        lemma_trimmed_letters(s.drop_last(), hyphens);
    }
}

/// The collapsed text of `s`, with what its ends tell.
proof fn lemma_part(s: Seq<char>, hyphens: bool)
    requires
        s.len() > 0,
    ensures
        ({
            let x = collapsed(substituted(s, hyphens));
            &&& x.len() > 0
            &&& is_alphanumeric(s[0]) ==> substituted(s, hyphens)[0] == s[0] && x[0] == s[0]
            &&& is_alphanumeric(s.last()) ==> substituted(s, hyphens).last() == s.last()
                && x.last() == s.last()
        }),
{
    lemma_collapsed_first(substituted(s, hyphens));
    lemma_collapsed_last(substituted(s, hyphens));
}

/// Two texts that meet at letters or digits are cleaned each for itself.
pub proof fn law_cleaning_of_parts(a: Seq<char>, b: Seq<char>, hyphens: bool)
    requires
        a.len() > 0,
        b.len() > 0,
        is_alphanumeric(a.last()),
        is_alphanumeric(b[0]),
    ensures
        cleaned(a + b, hyphens) == cleaned(a, hyphens) + cleaned(b, hyphens),
{
    let x = collapsed(substituted(a, hyphens));
    let y = collapsed(substituted(b, hyphens));
    lemma_part(a, hyphens);
    lemma_part(b, hyphens);
    assert(substituted(a + b, hyphens) =~= substituted(a, hyphens) + substituted(b, hyphens));
    lemma_collapsed_parts(substituted(a, hyphens), substituted(b, hyphens));
    lemma_trimmed_letters(x, hyphens);
    lemma_trimmed_letters(y, hyphens);
    lemma_trimmed_start_parts(x, y, hyphens);
    lemma_trimmed_end_parts(trimmed_start(x, hyphens), y, hyphens);
    lemma_trimmed_letters(trimmed_start(x, hyphens), hyphens);
}

/// What stands between letters or digits is cleaned for itself, but for its ends.
proof fn lemma_between(a: Seq<char>, between: Seq<char>, b: Seq<char>, hyphens: bool)
    requires
        a.len() > 0,
        b.len() > 0,
        is_alphanumeric(a.last()),
        is_alphanumeric(b[0]),
    ensures
        cleaned(a + between + b, hyphens) == cleaned(a, hyphens) + collapsed(
            substituted(between, hyphens),
        ) + cleaned(b, hyphens),
{
    let x = collapsed(substituted(a, hyphens));
    let y = collapsed(substituted(b, hyphens));
    let s = substituted(between, hyphens);
    let m = collapsed(s);
    lemma_part(a, hyphens);
    lemma_part(b, hyphens);
    assert(substituted(a + between + b, hyphens) =~= substituted(a, hyphens) + (s + substituted(
        b,
        hyphens,
    )));
    lemma_collapsed_parts(substituted(a, hyphens), s + substituted(b, hyphens));
    lemma_collapsed_parts(s, substituted(b, hyphens));
    lemma_trimmed_letters(x, hyphens);
    lemma_trimmed_letters(y, hyphens);
    lemma_trimmed_start_parts(x, m + y, hyphens);
    let z = trimmed_start(x, hyphens);
    lemma_trimmed_letters(z, hyphens);
    assert(z + (m + y) =~= (z + m) + y);
    lemma_trimmed_end_parts(z + m, y, hyphens);
}

/// Between letters or digits, a run of other characters leaves one underscore; a single hyphen stays,
/// where hyphens are allowed.
pub proof fn law_cleaning_of_separators(
    a: Seq<char>,
    between: Seq<char>,
    b: Seq<char>,
    hyphens: bool,
)
    requires
        a.len() > 0,
        b.len() > 0,
        is_alphanumeric(a.last()),
        is_alphanumeric(b[0]),
        between.len() > 0,
        forall|i: int| 0 <= i < between.len() ==> !is_alphanumeric(#[trigger] between[i]),
    ensures
        (forall|i: int| 0 <= i < between.len() ==> !(hyphens && #[trigger] between[i] == '-'))
            ==> cleaned(a + between + b, hyphens) == cleaned(a, hyphens) + seq!['_'] + cleaned(
            b,
            hyphens,
        ),
        hyphens && between == seq!['-'] ==> cleaned(a + between + b, hyphens) == cleaned(
            a,
            hyphens,
        ) + seq!['-'] + cleaned(b, hyphens),
{
    let s = substituted(between, hyphens);
    lemma_between(a, between, b, hyphens);
    if forall|i: int| 0 <= i < between.len() ==> !(hyphens && #[trigger] between[i] == '-') {
        assert forall|i: int| 0 <= i < s.len() implies #[trigger] s[i] == '_' by {
            assert(!is_alphanumeric(between[i]));
        }
        lemma_collapsed_underscores(s);
    }
    if hyphens && between == seq!['-'] {
        assert(s =~= seq!['-']);
        assert(collapsed(s.drop_last()) =~= Seq::<char>::empty());
        assert(collapsed(s) =~= seq!['-']);
    }
}

/// What cleaning leaves of a text between two letters.
pub open spec fn left_between(between: Seq<char>) -> Seq<char> {
    let whole = cleaned(seq!['a'] + between + seq!['a'], true);
    whole.subrange(1, whole.len() - 1)
}

/// Where hyphens are allowed, what stands on either side of a hyphen is cleaned for itself: no run of
/// underscores reaches over it, and of several hyphens each one stays.
pub proof fn law_hyphens_stay(a: Seq<char>, p: Seq<char>, q: Seq<char>, b: Seq<char>)
    requires
        a.len() > 0,
        b.len() > 0,
        is_alphanumeric(a.last()),
        is_alphanumeric(b[0]),
        p.len() > 0,
        q.len() > 0,
        p.last() == '-' || q[0] == '-',
    ensures
        cleaned(a + (p + q) + b, true) == cleaned(a, true) + left_between(p) + left_between(q)
            + cleaned(b, true),
        left_between(seq!['-']) == seq!['-'],
{
    let s = substituted(p, true);
    let t = substituted(q, true);
    lemma_between(a, p + q, b, true);
    assert(substituted(p + q, true) =~= s + t);
    lemma_collapsed_parts(s, t);
    let letter = seq!['a'];
    lemma_cleaned_fixed(letter, true);
    lemma_between(letter, p, letter, true);
    lemma_between(letter, q, letter, true);
    law_cleaning_of_separators(letter, seq!['-'], letter, true);
    assert(left_between(p) =~= collapsed(s));
    assert(left_between(q) =~= collapsed(t));
    assert(left_between(seq!['-']) =~= seq!['-']);
    assert(cleaned(a, true) + (collapsed(s) + collapsed(t)) + cleaned(b, true) =~= cleaned(a, true)
        + collapsed(s) + collapsed(t) + cleaned(b, true));
}

/// What stands before the first letter or digit, and behind the last one, is dropped.
pub proof fn law_cleaning_of_ends(front: Seq<char>, a: Seq<char>, back: Seq<char>, hyphens: bool)
    requires
        a.len() > 0,
        is_alphanumeric(a[0]),
        is_alphanumeric(a.last()),
        forall|i: int| 0 <= i < front.len() ==> !is_alphanumeric(#[trigger] front[i]),
        forall|i: int| 0 <= i < back.len() ==> !is_alphanumeric(#[trigger] back[i]),
    ensures
        cleaned(front + a + back, hyphens) == cleaned(a, hyphens),
{
    let x = collapsed(substituted(a, hyphens));
    let f = substituted(front, hyphens);
    let g = substituted(back, hyphens);
    lemma_part(a, hyphens);
    assert(substituted(front + a + back, hyphens) =~= f + (substituted(a, hyphens) + g));
    assert((substituted(a, hyphens) + g)[0] == a[0]);
    lemma_collapsed_parts(f, substituted(a, hyphens) + g);
    lemma_collapsed_parts(substituted(a, hyphens), g);
    assert(all_joiners(f, hyphens)) by {
        assert forall|i: int| 0 <= i < f.len() implies is_joiner(#[trigger] f[i], hyphens) by {
            assert(!is_alphanumeric(front[i]));
        }
    }
    assert(all_joiners(g, hyphens)) by {
        assert forall|i: int| 0 <= i < g.len() implies is_joiner(#[trigger] g[i], hyphens) by {
            assert(!is_alphanumeric(back[i]));
        }
    }
    lemma_collapsed_joiners(f, hyphens);
    lemma_collapsed_joiners(g, hyphens);
    lemma_trimmed_letters(x, hyphens);
    lemma_trimmed_start_parts(collapsed(f), x + collapsed(g), hyphens);
    lemma_trimmed_letters(x + collapsed(g), hyphens);
    lemma_trimmed_end_parts(x, collapsed(g), hyphens);
}

} // verus!

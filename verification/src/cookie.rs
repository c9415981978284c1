//! The session cookie: reading it from a `Cookie` header and writing the
//! `Set-Cookie` directive.
//!
//! A cookie header is untrusted text. It is read as pairs `key=value`
//! separated by `;`, with white space around each pair ignored; text that is
//! no such pair is passed over.

use vstd::prelude::*;
use vstd::std_specs::iter::IteratorSpec;
use vstd::string::axiom_spec_iter;
use vstd::string::next_postcondition;

verus! {

/// Whether `c` has the Unicode property White_Space.
pub open spec fn is_white_space(c: char) -> bool {
    ||| '\u{9}' <= c <= '\u{d}'
    ||| c == ' '
    ||| c == '\u{85}'
    ||| c == '\u{a0}'
    ||| c == '\u{1680}'
    ||| '\u{2000}' <= c <= '\u{200a}'
    ||| c == '\u{2028}'
    ||| c == '\u{2029}'
    ||| c == '\u{202f}'
    ||| c == '\u{205f}'
    ||| c == '\u{3000}'
}

/// The position of the first `mark` in `s`, or the length of `s` if there is
/// none.
pub open spec fn index_of(s: Seq<char>, mark: char) -> nat
    decreases s.len(),
{
    if s.len() == 0 || s[0] == mark {
        0
    } else {
        1 + index_of(s.drop_first(), mark)
    }
}

/// How many white-space characters `s` starts with.
pub open spec fn leading_white_space(s: Seq<char>) -> nat
    decreases s.len(),
{
    if s.len() > 0 && is_white_space(s[0]) {
        1 + leading_white_space(s.drop_first())
    } else {
        0
    }
}

/// How many white-space characters `s` ends with.
pub open spec fn trailing_white_space(s: Seq<char>) -> nat
    decreases s.len(),
{
    if s.len() > 0 && is_white_space(s.last()) {
        1 + trailing_white_space(s.drop_last())
    } else {
        0
    }
}

/// `s` without the white space at its start and at its end.
pub open spec fn trimmed(s: Seq<char>) -> Seq<char> {
    let rest = s.skip(leading_white_space(s) as int);
    rest.take(rest.len() - trailing_white_space(rest))
}

/// The key and the value of a pair: what stands before the first `=` and what
/// stands after it. Text without `=` is no pair.
pub open spec fn split_pair(s: Seq<char>) -> Option<(Seq<char>, Seq<char>)> {
    let at = index_of(s, '=') as int;
    if at < s.len() {
        Some((s.take(at), s.skip(at + 1)))
    } else {
        None
    }
}

/// The key of the session cookie.
pub open spec fn session_key() -> Seq<char> {
    "session_id"@
}

/// The value of `segment` if, trimmed, it is a pair whose key is `session_id`.
pub open spec fn session_in(segment: Seq<char>) -> Option<Seq<char>> {
    match split_pair(trimmed(segment)) {
        Some((key, value)) => if key == session_key() {
            Some(value)
        } else {
            None
        },
        None => None,
    }
}

/// The value of the first pair of `header` whose key is `session_id`.
pub open spec fn session_of(header: Seq<char>) -> Option<Seq<char>>
    decreases header.len(),
{
    let end = index_of(header, ';') as int;
    if session_in(header.take(end)) is Some {
        session_in(header.take(end))
    } else if end < header.len() {
        session_of(header.skip(end + 1))
    } else {
        None
    }
}

/// The first `mark` is found within the text.
pub proof fn lemma_index_of_bounds(s: Seq<char>, mark: char)
    ensures
        index_of(s, mark) <= s.len(),
        index_of(s, mark) < s.len() ==> s[index_of(s, mark) as int] == mark,
        forall|i: int| 0 <= i < index_of(s, mark) ==> s[i] != mark,
    decreases s.len(),
{
    if s.len() == 0 || s[0] == mark {
    } else {
        let rest = s.drop_first();
        lemma_index_of_bounds(rest, mark);
        assert forall|i: int| 0 <= i < index_of(s, mark) implies s[i] != mark by {
            if i > 0 {
                assert(s[i] == rest[i - 1]);
            }
        }
    }
}

/// The characters of `text`, one by one.
fn characters(text: &str) -> (out: Vec<char>)
    ensures
        out@ == text@,
{
    broadcast use next_postcondition, axiom_spec_iter;

    let mut out: Vec<char> = Vec::new();
    let mut rest = text.chars();
    loop
        invariant
            rest.obeys_prophetic_iter_laws(),
            rest.decrease() is Some,
            out@ + rest.remaining() == text@,
        ensures
            out@ == text@,
        decreases rest.decrease()->0,
    {
        match rest.next() {
            Some(c) => {
                out.push(c);
            },
            None => {
                break ;
            },
        }
    }
    out
}

/// Whether `c` is white space.
pub fn white_space(c: char) -> (yes: bool)
    ensures
        yes == is_white_space(c),
{
    ('\u{9}' <= c && c <= '\u{d}') || c == ' ' || c == '\u{85}' || c == '\u{a0}' || c == '\u{1680}'
        || ('\u{2000}' <= c && c <= '\u{200a}') || c == '\u{2028}' || c == '\u{2029}' || c
        == '\u{202f}' || c == '\u{205f}' || c == '\u{3000}'
}

/// The position of the first `mark` in `text[from..to]`, counted from the
/// start of `text`, or `to` if there is none.
fn find(text: &Vec<char>, from: usize, to: usize, mark: char) -> (at: usize)
    requires
        from <= to <= text.len(),
    ensures
        from <= at <= to,
        at - from == index_of(text@.subrange(from as int, to as int), mark),
{
    let mut at: usize = from;
    while at < to && text[at] != mark
        invariant
            from <= at <= to <= text.len(),
            index_of(text@.subrange(from as int, to as int), mark) == (at - from) + index_of(
                text@.subrange(at as int, to as int),
                mark,
            ),
        decreases to - at,
    {
        proof {
            let here = text@.subrange(at as int, to as int);
            assert(here.drop_first() =~= text@.subrange(at + 1, to as int));
        }
        at = at + 1;
    }
    at
}

/// The bounds of `text[from..to]` without the white space at its ends.
fn trim(text: &Vec<char>, from: usize, to: usize) -> (bounds: (usize, usize))
    requires
        from <= to <= text.len(),
    ensures
        from <= bounds.0 <= bounds.1 <= to,
        text@.subrange(bounds.0 as int, bounds.1 as int) == trimmed(
            text@.subrange(from as int, to as int),
        ),
{
    let ghost whole = text@.subrange(from as int, to as int);
    let mut start: usize = from;
    while start < to && white_space(text[start])
        invariant
            from <= start <= to <= text.len(),
            leading_white_space(whole) == (start - from) + leading_white_space(
                text@.subrange(start as int, to as int),
            ),
            whole == text@.subrange(from as int, to as int),
        decreases to - start,
    {
        proof {
            let here = text@.subrange(start as int, to as int);
            assert(here.drop_first() =~= text@.subrange(start + 1, to as int));
        }
        start = start + 1;
    }
    let ghost rest = text@.subrange(start as int, to as int);
    assert(rest =~= whole.skip(leading_white_space(whole) as int));
    let mut end: usize = to;
    while start < end && white_space(text[end - 1])
        invariant
            start <= end <= to <= text.len(),
            rest == text@.subrange(start as int, to as int),
            trailing_white_space(rest) == (to - end) + trailing_white_space(
                text@.subrange(start as int, end as int),
            ),
        decreases end - start,
    {
        proof {
            let here = text@.subrange(start as int, end as int);
            assert(here.drop_last() =~= text@.subrange(start as int, end - 1));
        }
        end = end - 1;
    }
    assert(text@.subrange(start as int, end as int) =~= rest.take(
        rest.len() - trailing_white_space(rest),
    ));
    (start, end)
}

/// Whether `text[from..to]` reads `word`.
fn reads(text: &Vec<char>, from: usize, to: usize, word: &str) -> (yes: bool)
    requires
        from <= to <= text.len(),
    ensures
        yes == (text@.subrange(from as int, to as int) == word@),
{
    let letters = characters(word);
    if letters.len() != to - from {
        return false;
    }
    let ghost part = text@.subrange(from as int, to as int);
    let mut i: usize = 0;
    while i < letters.len()
        invariant
            from <= to <= text.len(),
            letters.len() == to - from,
            i <= letters.len(),
            part == text@.subrange(from as int, to as int),
            letters@ == word@,
            forall|j: int| 0 <= j < i ==> part[j] == letters@[j],
        decreases letters.len() - i,
    {
        if text[from + i] != letters[i] {
            assert(part[i as int] != word@[i as int]);
            return false;
        }
        i = i + 1;
    }
    assert(part =~= word@);
    true
}

/// The session identifier that a `Cookie` header carries: the value of its
/// first pair with the key `session_id`, or `None` if it has no such pair.
///
/// The header is split at each `;`, white space around each part is dropped,
/// and a part is a pair if it holds `=`: its key is what stands before the
/// first `=`, its value what stands after. The value is a slice of the header.
pub fn get_session(cookies: &str) -> (found: Option<&str>)
    ensures
        match found {
            Some(id) => session_of(cookies@) == Some(id@),
            None => session_of(cookies@) is None,
        },
{
    let text = characters(cookies);
    let n = text.len();
    let mut start: usize = 0;
    assert(text@.subrange(0, n as int) =~= cookies@);
    loop
        invariant
            start <= n,
            n == text.len(),
            text@ == cookies@,
            session_of(cookies@) == session_of(text@.subrange(start as int, n as int)),
        decreases n - start,
    {
        let ghost rest = text@.subrange(start as int, n as int);
        let end = find(&text, start, n, ';');
        let (first, last) = trim(&text, start, end);
        let equals = find(&text, first, last, '=');
        proof {
            let part = text@.subrange(first as int, last as int);
            assert(rest.take(end - start) =~= text@.subrange(start as int, end as int));
            assert(part.take(equals - first) =~= text@.subrange(first as int, equals as int));
            if equals < last {
                assert(part.skip(equals - first + 1) =~= text@.subrange(equals + 1, last as int));
            }
            if end < n {
                assert(rest.skip(end - start + 1) =~= text@.subrange(end + 1, n as int));
            }
        }
        if equals < last && reads(&text, first, equals, "session_id") {
            return Some(cookies.substring_char(equals + 1, last));
        }
        if end == n {
            return None;
        }
        start = end + 1;
    }
}

/// The character of the decimal digit `d`.
pub open spec fn digit(d: nat) -> char {
    seq!['0', '1', '2', '3', '4', '5', '6', '7', '8', '9'][d as int]
}

/// `n` written in decimal, without sign or leading zeros.
pub open spec fn decimal(n: nat) -> Seq<char>
    decreases n,
{
    if n < 10 {
        seq![digit(n)]
    } else {
        decimal(n / 10).push(digit(n % 10))
    }
}

/// The `Set-Cookie` directive that gives a browser the session `id` for
/// `max_age` seconds.
pub open spec fn session_cookie_text(id: Seq<char>, max_age: u64) -> Seq<char> {
    "session_id="@ + id + "; Max-Age="@ + decimal(max_age as nat)
}

/// The text of one decimal digit.
fn digit_text(d: u64) -> (text: &'static str)
    requires
        d < 10,
    ensures
        text@ == seq![digit(d as nat)],
{
    proof {
        reveal_strlit("0");
        reveal_strlit("1");
        reveal_strlit("2");
        reveal_strlit("3");
        reveal_strlit("4");
        reveal_strlit("5");
        reveal_strlit("6");
        reveal_strlit("7");
        reveal_strlit("8");
        reveal_strlit("9");
    }
    let text = if d == 0 {
        "0"
    } else if d == 1 {
        "1"
    } else if d == 2 {
        "2"
    } else if d == 3 {
        "3"
    } else if d == 4 {
        "4"
    } else if d == 5 {
        "5"
    } else if d == 6 {
        "6"
    } else if d == 7 {
        "7"
    } else if d == 8 {
        "8"
    } else {
        "9"
    };
    assert(text@ =~= seq![digit(d as nat)]);
    text
}

/// Appends `n` in decimal to `out`.
fn append_decimal(out: &mut String, n: u64)
    ensures
        final(out)@ == old(out)@ + decimal(n as nat),
    decreases n,
{
    if n >= 10 {
        append_decimal(out, n / 10);
    }
    out.append(digit_text(n % 10));
    assert(final(out)@ =~= old(out)@ + decimal(n as nat));
}

/// The `Set-Cookie` directive `session_id=<id>; Max-Age=<max_age>`.
pub fn session_cookie(id: &str, max_age: u64) -> (directive: String)
    ensures
        directive@ == session_cookie_text(id@, max_age),
{
    let mut directive = String::from_str("session_id=");
    directive.append(id);
    directive.append("; Max-Age=");
    append_decimal(&mut directive, max_age);
    directive
}

/// `k` is the position of the first `mark` in `s` if no `mark` stands before
/// it and one stands there, or `s` ends there.
pub proof fn lemma_index_of_is(s: Seq<char>, mark: char, k: int)
    requires
        0 <= k <= s.len(),
        forall|i: int| 0 <= i < k ==> s[i] != mark,
        k < s.len() ==> s[k] == mark,
    ensures
        index_of(s, mark) == k,
    decreases k,
{
    if k > 0 {
        let rest = s.drop_first();
        assert forall|i: int| 0 <= i < k - 1 implies rest[i] != mark by {
            assert(rest[i] == s[i + 1]);
        }
        lemma_index_of_is(rest, mark, k - 1);
    }
}

/// Text that neither starts nor ends with white space is its own trimmed
/// form.
pub proof fn lemma_trimmed_is_fixed(s: Seq<char>)
    requires
        s.len() > 0 ==> !is_white_space(s[0]) && !is_white_space(s.last()),
    ensures
        trimmed(s) == s,
{
    assert(s.skip(0) =~= s);
    assert(s.take(s.len() as int) =~= s);
}

/// White space before a text does not change its trimmed form.
pub proof fn lemma_trimmed_drops_leading(space: Seq<char>, s: Seq<char>)
    requires
        forall|i: int| 0 <= i < space.len() ==> is_white_space(#[trigger] space[i]),
    ensures
        trimmed(space + s) == trimmed(s),
    decreases space.len(),
{
    if space.len() == 0 {
        assert(space + s =~= s);
    } else {
        let whole = space + s;
        assert(is_white_space(space[0]));
        assert(whole[0] == space[0]);
        assert(whole.drop_first() =~= space.drop_first() + s);
        lemma_trimmed_drops_leading(space.drop_first(), s);
        let shorter = space.drop_first() + s;
        assert(leading_white_space(whole) == 1 + leading_white_space(shorter));
        assert(whole.skip(leading_white_space(whole) as int) =~= shorter.skip(
            leading_white_space(shorter) as int,
        )) by {
            lemma_leading_white_space_bounds(shorter);
        }
    }
}

/// The white space at the start of a text is part of the text.
pub proof fn lemma_leading_white_space_bounds(s: Seq<char>)
    ensures
        leading_white_space(s) <= s.len(),
    decreases s.len(),
{
    if s.len() > 0 && is_white_space(s[0]) {
        lemma_leading_white_space_bounds(s.drop_first());
    }
}

/// A pair `session_id=<value>`, with or without white space before it, holds
/// `value`, as long as `value` does not end with white space.
pub proof fn lemma_session_in_pair(space: Seq<char>, value: Seq<char>)
    requires
        forall|i: int| 0 <= i < space.len() ==> is_white_space(#[trigger] space[i]),
        value.len() > 0 ==> !is_white_space(value.last()),
    ensures
        session_in(space + ("session_id="@ + value)) == Some(value),
{
    reveal_strlit("session_id=");
    reveal_strlit("session_id");
    let pair = "session_id="@ + value;
    lemma_trimmed_drops_leading(space, pair);
    assert(pair[0] == 's');
    assert(pair.last() == if value.len() > 0 {
        value.last()
    } else {
        '='
    });
    lemma_trimmed_is_fixed(pair);
    lemma_index_of_is(pair, '=', 10);
    assert(pair.take(10) =~= "session_id"@);
    assert(pair.skip(11) =~= value);
}

/// A header whose first part holds no session identifier is read as what
/// follows the first `;`.
pub proof fn lemma_session_of_skips(first: Seq<char>, rest: Seq<char>)
    requires
        !first.contains(';'),
        session_in(first) is None,
    ensures
        session_of(first + seq![';'] + rest) == session_of(rest),
        session_of(first) is None,
{
    let header = first + seq![';'] + rest;
    let end = first.len() as int;
    assert forall|i: int| 0 <= i < end implies header[i] != ';' by {
        assert(header[i] == first[i]);
        assert(first.contains(first[i]));
    }
    lemma_index_of_is(header, ';', end);
    assert(header.take(end) =~= first);
    assert(header.skip(end + 1) =~= rest);
    assert forall|i: int| 0 <= i < end implies first[i] != ';' by {
        assert(first.contains(first[i]));
    }
    lemma_index_of_is(first, ';', end);
    assert(first.take(end) =~= first);
}

/// A header whose first part holds a session identifier gives that one,
/// whatever follows.
pub proof fn lemma_session_of_finds(first: Seq<char>, rest: Seq<char>)
    requires
        !first.contains(';'),
        session_in(first) is Some,
    ensures
        session_of(first + seq![';'] + rest) == session_in(first),
        session_of(first) == session_in(first),
{
    let header = first + seq![';'] + rest;
    let end = first.len() as int;
    assert forall|i: int| 0 <= i < end implies header[i] != ';' by {
        assert(header[i] == first[i]);
        assert(first.contains(first[i]));
    }
    lemma_index_of_is(header, ';', end);
    assert(header.take(end) =~= first);
    assert forall|i: int| 0 <= i < end implies first[i] != ';' by {
        assert(first.contains(first[i]));
    }
    lemma_index_of_is(first, ';', end);
    assert(first.take(end) =~= first);
}

/// Reading a header gives back the identifier that was written into it: for
/// every `id` without `;` that does not end with white space, the header
/// `other=1; session_id=<id>; foo=bar` carries the session `id`.
pub proof fn law_session_round_trip(id: Seq<char>)
    requires
        !id.contains(';'),
        id.len() > 0 ==> !is_white_space(id.last()),
    ensures
        session_of("other=1; session_id="@ + id + "; foo=bar"@) == Some(id),
{
    reveal_strlit("other=1; session_id=");
    reveal_strlit("; foo=bar");
    reveal_strlit("session_id=");
    reveal_strlit("session_id");
    let header = "other=1; session_id="@ + id + "; foo=bar"@;
    let other = seq!['o', 't', 'h', 'e', 'r', '=', '1'];
    let pair = seq![' '] + ("session_id="@ + id);
    let tail = seq![' ', 'f', 'o', 'o', '=', 'b', 'a', 'r'];
    assert(header =~= other + seq![';'] + (pair + seq![';'] + tail));
    assert(!other.contains(';'));
    assert(session_in(other) is None) by {
        lemma_trimmed_is_fixed(other);
        lemma_index_of_is(other, '=', 5);
        assert(other.take(5).len() != "session_id"@.len());
    }
    lemma_session_of_skips(other, pair + seq![';'] + tail);
    lemma_session_in_pair(seq![' '], id);
    assert(!pair.contains(';')) by {
        if pair.contains(';') {
            let i = choose|i: int| 0 <= i < pair.len() && pair[i] == ';';
            if i >= 12 {
                assert(pair[i] == id[i - 12]);
                assert(id.contains(id[i - 12]));
            }
        }
    }
    lemma_session_of_finds(pair, tail);
}

/// The identifier that a browser sends back is the one it was given: a header
/// that is the pair `session_id=<id>` alone carries `id`, for every `id` of
/// ASCII letters and digits.
pub proof fn law_issued_identifier_is_read_back(id: Seq<char>)
    requires
        forall|i: int| 0 <= i < id.len() ==> crate::token::is_alphanumeric(#[trigger] id[i]),
    ensures
        session_of("session_id="@ + id) == Some(id),
{
    reveal_strlit("session_id=");
    let pair = "session_id="@ + id;
    if id.len() > 0 {
        assert(crate::token::is_alphanumeric(id.last()));
    }
    lemma_session_in_pair(Seq::<char>::empty(), id);
    assert(Seq::<char>::empty() + pair =~= pair);
    assert(!pair.contains(';')) by {
        if pair.contains(';') {
            let i = choose|i: int| 0 <= i < pair.len() && pair[i] == ';';
            if i >= 11 {
                assert(pair[i] == id[i - 11]);
                assert(crate::token::is_alphanumeric(id[i - 11]));
            }
        }
    }
    lemma_session_of_finds(pair, Seq::<char>::empty());
}

/// A header without any pair carries no session: the empty header, and every
/// header without `=`.
pub proof fn law_no_pair_no_session(header: Seq<char>)
    requires
        !header.contains('='),
    ensures
        session_of(header) is None,
        session_of(Seq::<char>::empty()) is None,
    decreases header.len(),
{
    let end = index_of(header, ';') as int;
    lemma_index_of_bounds(header, ';');
    let part = trimmed(header.take(end));
    lemma_leading_white_space_bounds(header.take(end));
    lemma_trailing_white_space_bounds(header.take(end).skip(
        leading_white_space(header.take(end)) as int,
    ));
    assert forall|i: int| 0 <= i < part.len() implies part[i] != '=' by {
        let j = i + leading_white_space(header.take(end));
        assert(part[i] == header[j]);
        assert(header.contains(header[j]));
    }
    lemma_index_of_is(part, '=', part.len() as int);
    if end < header.len() {
        let rest = header.skip(end + 1);
        assert forall|i: int| 0 <= i < rest.len() implies rest[i] != '=' by {
            assert(rest[i] == header[i + end + 1]);
            assert(header.contains(header[i + end + 1]));
        }
        assert(!rest.contains('='));
        law_no_pair_no_session(rest);
    }
    assert(session_of(Seq::<char>::empty()) is None) by {
        let none = Seq::<char>::empty();
        assert(none.take(0) =~= none);
        assert(none.skip(0) =~= none);
    }
}

/// The white space at the end of a text is part of the text.
pub proof fn lemma_trailing_white_space_bounds(s: Seq<char>)
    ensures
        trailing_white_space(s) <= s.len(),
    decreases s.len(),
{
    if s.len() > 0 && is_white_space(s.last()) {
        lemma_trailing_white_space_bounds(s.drop_last());
    }
}

} // verus!

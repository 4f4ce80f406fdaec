//! Text helpers: markup stripping, prefix and substring tests, trimming,
//! decimal numerals. Every contract is stated over `Seq<char>`.

use vstd::prelude::*;
use vstd::std_specs::iter::IteratorSpec;

verus! {

/// Whether `c` has the Unicode property `White_Space`, as `char::is_whitespace` decides it.
pub uninterp spec fn is_whitespace(c: char) -> bool;

/// `char::is_whitespace`: the answer depends on the character alone, so it
/// is given the name [`is_whitespace`]; nothing else is claimed of it.
pub assume_specification[ char::is_whitespace ](c: char) -> (b: bool)
    ensures
        b == is_whitespace(c),
;

/// `String::push` appends exactly one character.
pub assume_specification[ String::push ](s: &mut String, c: char)
    ensures
        final(s)@ == old(s)@.push(c),
;

/// The characters of `s`, in order.
pub fn to_chars(s: &str) -> (v: Vec<char>)
    ensures
        v@ == s@,
{
    broadcast use vstd::string::group_string_axioms;

    let mut v: Vec<char> = Vec::new();
    let chars = s.chars();
    assert(chars.remaining() == s@);
    for c in it: chars
        invariant
            it.seq() == s@,
            v@ == s@.take(it.index() as int),
    {
        v.push(c);
    }
    v
}

/// The string made of the characters of `v[from..to]`.
fn from_chars(v: &Vec<char>, from: usize, to: usize) -> (s: String)
    requires
        from <= to <= v.len(),
    ensures
        s@ == v@.subrange(from as int, to as int),
{
    let mut s = String::new();
    let mut i: usize = from;
    while i < to
        invariant
            from <= i <= to <= v.len(),
            s@ == v@.subrange(from as int, i as int),
        decreases to - i,
    {
        s.push(v[i]);
        i += 1;
    }
    s
}

/// Whether a scanner that has read all of `s` stands inside a tag: the last
/// angle bracket it saw, if any, was `<`.
pub open spec fn inside_tag(s: Seq<char>) -> bool
    decreases s.len(),
{
    if s.len() == 0 {
        false
    } else if s.last() == '<' {
        true
    } else if s.last() == '>' {
        false
    } else {
        inside_tag(s.drop_last())
    }
}

/// `s` without its markup: every `<`, every `>`, and every character that
/// follows a `<` with no `>` in between, is left out.
pub open spec fn strip_tags(s: Seq<char>) -> Seq<char>
    decreases s.len(),
{
    if s.len() == 0 {
        Seq::empty()
    } else if s.last() != '<' && s.last() != '>' && !inside_tag(s.drop_last()) {
        strip_tags(s.drop_last()).push(s.last())
    } else {
        strip_tags(s.drop_last())
    }
}

/// Removes markup tags from `s`. Tags do not nest: a `<` opens one, the
/// next `>` closes it, and a `>` outside a tag is dropped as well.
pub fn strip_html(s: &str) -> (result: String)
    ensures
        result@ == strip_tags(s@),
{
    let chars = to_chars(s);
    let mut result = String::new();
    let mut in_tag = false;
    let mut i: usize = 0;
    while i < chars.len()
        invariant
            i <= chars.len(),
            in_tag == inside_tag(chars@.take(i as int)),
            result@ == strip_tags(chars@.take(i as int)),
        decreases chars.len() - i,
    {
        let c = chars[i];
        proof {
            let next = chars@.take(i + 1);
            assert(next.drop_last() == chars@.take(i as int));
            assert(next.last() == c);
        }
        if c == '<' {
            in_tag = true;
        } else if c == '>' {
            in_tag = false;
        } else if !in_tag {
            result.push(c);
        }
        i += 1;
    }
    assert(chars@.take(i as int) == chars@);
    result
}

/// Stripping the markup leaves no angle bracket behind.
pub proof fn lemma_strip_tags_no_brackets(s: Seq<char>)
    ensures
        forall|i: int|
            0 <= i < strip_tags(s).len() ==> strip_tags(s)[i] != '<' && strip_tags(s)[i] != '>',
    decreases s.len(),
{
    if s.len() > 0 {
        lemma_strip_tags_no_brackets(s.drop_last());
        let shorter = strip_tags(s.drop_last());
        assert forall|i: int| 0 <= i < strip_tags(s).len() implies strip_tags(s)[i] != '<'
            && strip_tags(s)[i] != '>' by {
            if i < shorter.len() {
                assert(strip_tags(s)[i] == shorter[i]);
            }
        }
    }
}

/// Text without angle brackets is not inside a tag and passes through
/// unchanged.
pub proof fn lemma_strip_tags_plain(s: Seq<char>)
    requires
        forall|i: int| 0 <= i < s.len() ==> s[i] != '<' && s[i] != '>',
    ensures
        !inside_tag(s),
        strip_tags(s) == s,
    decreases s.len(),
{
    if s.len() > 0 {
        lemma_strip_tags_plain(s.drop_last());
        assert(s.drop_last().push(s.last()) == s);
    }
}

/// Stripping twice gives what stripping once gives.
pub proof fn lemma_strip_tags_idempotent(s: Seq<char>)
    ensures
        strip_tags(strip_tags(s)) == strip_tags(s),
{
    lemma_strip_tags_no_brackets(s);
    lemma_strip_tags_plain(strip_tags(s));
}

/// Whether `s` begins with `prefix`.
pub fn starts_with(s: &Vec<char>, prefix: &Vec<char>) -> (b: bool)
    ensures
        b == prefix@.is_prefix_of(s@),
{
    if prefix.len() > s.len() {
        return false;
    }
    let mut i: usize = 0;
    while i < prefix.len()
        invariant
            i <= prefix.len() <= s.len(),
            forall|k: int| 0 <= k < i ==> s@[k] == prefix@[k],
        decreases prefix.len() - i,
    {
        if s[i] != prefix[i] {
            return false;
        }
        i += 1;
    }
    assert(s@.subrange(0, prefix@.len() as int) =~= prefix@);
    true
}

/// Whether `pattern` occurs in `s` at position `at`.
pub open spec fn occurs_at(s: Seq<char>, pattern: Seq<char>, at: int) -> bool {
    &&& 0 <= at
    &&& at + pattern.len() <= s.len()
    &&& s.subrange(at, at + pattern.len()) == pattern
}

/// Whether `pattern` occurs somewhere in `s`.
pub open spec fn has_substring(s: Seq<char>, pattern: Seq<char>) -> bool {
    exists|at: int| occurs_at(s, pattern, at)
}

fn matches_at(s: &Vec<char>, pattern: &Vec<char>, at: usize) -> (b: bool)
    requires
        at + pattern.len() <= s.len(),
    ensures
        b == occurs_at(s@, pattern@, at as int),
{
    let mut k: usize = 0;
    while k < pattern.len()
        invariant
            k <= pattern.len(),
            at + pattern.len() <= s.len(),
            forall|j: int| 0 <= j < k ==> s@[at + j] == pattern@[j],
        decreases pattern.len() - k,
    {
        if s[at + k] != pattern[k] {
            assert(s@.subrange(at as int, at + pattern@.len())[k as int] != pattern@[k as int]);
            return false;
        }
        k += 1;
    }
    assert(s@.subrange(at as int, at + pattern@.len()) =~= pattern@);
    true
}

/// Whether `pattern` occurs somewhere in `s`.
pub fn contains(s: &Vec<char>, pattern: &Vec<char>) -> (b: bool)
    ensures
        b == has_substring(s@, pattern@),
{
    if pattern.len() > s.len() {
        return false;
    }
    let last = s.len() - pattern.len();
    let mut at: usize = 0;
    loop
        invariant
            at <= last,
            last == s.len() - pattern.len(),
            pattern.len() <= s.len(),
            forall|j: int| 0 <= j < at ==> !occurs_at(s@, pattern@, j),
        decreases last - at,
    {
        if matches_at(s, pattern, at) {
            return true;
        }
        if at == last {
            return false;
        }
        at += 1;
    }
}

/// The number of characters of `s` before its first `stop`, or its length
/// if `stop` does not occur.
pub open spec fn len_before(s: Seq<char>, stop: char) -> nat
    decreases s.len(),
{
    if s.len() == 0 || s[0] == stop {
        0
    } else {
        1 + len_before(s.drop_first(), stop)
    }
}

/// `s` up to, and without, its first `stop`.
pub open spec fn before(s: Seq<char>, stop: char) -> Seq<char> {
    s.take(len_before(s, stop) as int)
}

proof fn lemma_len_before(s: Seq<char>, stop: char, i: int)
    requires
        0 <= i <= s.len(),
        forall|k: int| 0 <= k < i ==> s[k] != stop,
        i == s.len() || s[i] == stop,
    ensures
        len_before(s, stop) == i,
    decreases i,
{
    if i > 0 {
        lemma_len_before(s.drop_first(), stop, i - 1);
    }
}

/// The number of leading whitespace characters of `s`.
pub open spec fn leading_space(s: Seq<char>) -> nat
    decreases s.len(),
{
    if s.len() == 0 || !is_whitespace(s[0]) {
        0
    } else {
        1 + leading_space(s.drop_first())
    }
}

/// The number of trailing whitespace characters of `s`.
pub open spec fn trailing_space(s: Seq<char>) -> nat
    decreases s.len(),
{
    if s.len() == 0 || !is_whitespace(s.last()) {
        0
    } else {
        1 + trailing_space(s.drop_last())
    }
}

/// `s` without its leading and trailing whitespace.
pub open spec fn trimmed(s: Seq<char>) -> Seq<char> {
    let rest = s.skip(leading_space(s) as int);
    rest.take(rest.len() - trailing_space(rest))
}

proof fn lemma_leading_space(s: Seq<char>, i: int)
    requires
        0 <= i <= s.len(),
        forall|k: int| 0 <= k < i ==> is_whitespace(s[k]),
        i == s.len() || !is_whitespace(s[i]),
    ensures
        leading_space(s) == i,
    decreases i,
{
    if i > 0 {
        lemma_leading_space(s.drop_first(), i - 1);
    }
}

proof fn lemma_trailing_space(s: Seq<char>, n: int)
    requires
        0 <= n <= s.len(),
        forall|k: int| s.len() - n <= k < s.len() ==> is_whitespace(s[k]),
        n == s.len() || !is_whitespace(s[s.len() - n - 1]),
    ensures
        trailing_space(s) == n,
    decreases n,
{
    if n > 0 {
        lemma_trailing_space(s.drop_last(), n - 1);
    }
}

/// The part of a `Content-Type` header value that names the media type:
/// what stands before the first `;`, without surrounding whitespace.
pub open spec fn media_type(content_type: Seq<char>) -> Seq<char> {
    trimmed(before(content_type, ';'))
}

/// The media type named by a `Content-Type` header value.
pub fn mime_of(content_type: &Vec<char>) -> (mime: String)
    ensures
        mime@ == media_type(content_type@),
{
    let mut end: usize = 0;
    while end < content_type.len() && content_type[end] != ';'
        invariant
            end <= content_type.len(),
            forall|k: int| 0 <= k < end ==> content_type@[k] != ';',
        decreases content_type.len() - end,
    {
        end += 1;
    }
    let ghost head = content_type@.take(end as int);
    proof {
        lemma_len_before(content_type@, ';', end as int);
        assert(head == before(content_type@, ';'));
    }
    let mut start: usize = 0;
    while start < end && content_type[start].is_whitespace()
        invariant
            start <= end <= content_type.len(),
            head == content_type@.take(end as int),
            forall|k: int| 0 <= k < start ==> is_whitespace(head[k]),
        decreases end - start,
    {
        start += 1;
    }
    let ghost rest = head.skip(start as int);
    proof {
        lemma_leading_space(head, start as int);
    }
    let mut stop: usize = end;
    while stop > start && content_type[stop - 1].is_whitespace()
        invariant
            start <= stop <= end <= content_type.len(),
            head == content_type@.take(end as int),
            rest == head.skip(start as int),
            forall|k: int| stop - start <= k < rest.len() ==> is_whitespace(rest[k]),
        decreases stop,
    {
        stop -= 1;
    }
    proof {
        lemma_trailing_space(rest, end - stop);
        assert(rest.take(rest.len() - (end - stop)) =~= content_type@.subrange(
            start as int,
            stop as int,
        ));
    }
    from_chars(content_type, start, stop)
}

/// The character that writes the digit `d`.
pub open spec fn digit_char(d: int) -> char {
    if d == 0 {
        '0'
    } else if d == 1 {
        '1'
    } else if d == 2 {
        '2'
    } else if d == 3 {
        '3'
    } else if d == 4 {
        '4'
    } else if d == 5 {
        '5'
    } else if d == 6 {
        '6'
    } else if d == 7 {
        '7'
    } else if d == 8 {
        '8'
    } else {
        '9'
    }
}

/// The decimal numeral of `n`: no sign, no leading zero, `"0"` for zero.
pub open spec fn decimal(n: nat) -> Seq<char>
    decreases n,
{
    if n < 10 {
        seq![digit_char(n as int)]
    } else {
        decimal(n / 10).push(digit_char((n % 10) as int))
    }
}

fn digit(d: u64) -> (c: char)
    requires
        d < 10,
    ensures
        c == digit_char(d as int),
{
    if d == 0 {
        '0'
    } else if d == 1 {
        '1'
    } else if d == 2 {
        '2'
    } else if d == 3 {
        '3'
    } else if d == 4 {
        '4'
    } else if d == 5 {
        '5'
    } else if d == 6 {
        '6'
    } else if d == 7 {
        '7'
    } else if d == 8 {
        '8'
    } else {
        '9'
    }
}

/// Appends the decimal numeral of `n` to `s`.
pub fn push_decimal(s: &mut String, n: u64)
    ensures
        final(s)@ == old(s)@ + decimal(n as nat),
    decreases n,
{
    if n >= 10 {
        push_decimal(s, n / 10);
    }
    s.push(digit(n % 10));
}

/// `prefix` followed by the decimal numeral of `n`.
pub fn numbered(prefix: &str, n: u64) -> (s: String)
    ensures
        s@ == prefix@ + decimal(n as nat),
{
    let mut s = prefix.to_owned();
    push_decimal(&mut s, n);
    s
}

} // verus!

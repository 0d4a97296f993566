//! Character-level text transforms used to render message bodies.

use vstd::prelude::*;

verus! {

/// Relies on `String::push`: appends one character.
#[verifier::external_body]
pub(crate) fn push_char(s: &mut String, c: char)
    ensures
        final(s)@ == old(s)@.push(c),
{
    s.push(c)
}

/// The view of an optional string.
pub open spec fn opt_string_view(s: Option<String>) -> Option<Seq<char>> {
    match s {
        Some(s) => Some(s@),
        None => None,
    }
}

/// The whitespace trimmed around header values and at the end of bodies.
pub open spec fn is_space(c: char) -> bool {
    c == ' ' || c == '\t' || c == '\n' || c == '\r'
}

/// `s` without its trailing whitespace.
pub open spec fn trim_end_spec(s: Seq<char>) -> Seq<char>
    decreases s.len(),
{
    if s.len() > 0 && is_space(s.last()) {
        trim_end_spec(s.drop_last())
    } else {
        s
    }
}

/// `s` without its leading whitespace.
pub open spec fn trim_start_spec(s: Seq<char>) -> Seq<char>
    decreases s.len(),
{
    if s.len() > 0 && is_space(s[0]) {
        trim_start_spec(s.skip(1))
    } else {
        s
    }
}

/// `s` without its leading and trailing whitespace.
pub open spec fn trim_spec(s: Seq<char>) -> Seq<char> {
    trim_end_spec(trim_start_spec(s))
}

/// `s` without its trailing whitespace.
pub fn trim_end(s: &str) -> (r: String)
    ensures
        r@ == trim_end_spec(s@),
{
    let mut n: usize = s.unicode_len();
    assert(s@.take(n as int) =~= s@);
    while n > 0 && is_space_exec(s.get_char(n - 1))
        invariant
            0 <= n <= s@.len(),
            trim_end_spec(s@) == trim_end_spec(s@.take(n as int)),
        decreases n,
    {
        assert(s@.take(n as int).drop_last() =~= s@.take(n - 1));
        n = n - 1;
    }
    let r = s.substring_char(0, n).to_owned();
    assert(s@.subrange(0, n as int) =~= s@.take(n as int));
    r
}

/// `s` without its leading and trailing whitespace.
pub fn trim(s: &str) -> (r: String)
    ensures
        r@ == trim_spec(s@),
{
    let len = s.unicode_len();
    let mut i: usize = 0;
    assert(s@.skip(0) =~= s@);
    while i < len && is_space_exec(s.get_char(i))
        invariant
            0 <= i <= len,
            len == s@.len(),
            trim_start_spec(s@) == trim_start_spec(s@.skip(i as int)),
        decreases len - i,
    {
        assert(s@.skip(i as int).skip(1) =~= s@.skip(i + 1));
        i = i + 1;
    }
    let rest = s.substring_char(i, len);
    assert(rest@ =~= s@.skip(i as int));
    trim_end(rest)
}

fn is_space_exec(c: char) -> (r: bool)
    ensures
        r == is_space(c),
{
    c == ' ' || c == '\t' || c == '\n' || c == '\r'
}

/// What character `i` of `s` becomes once every CRLF is turned into LF:
/// nothing for a carriage return that a line feed follows.
pub open spec fn newline_piece(s: Seq<char>, i: int) -> Seq<char> {
    if s[i] == '\r' && i + 1 < s.len() && s[i + 1] == '\n' {
        seq![]
    } else {
        seq![s[i]]
    }
}

/// What character `i` of `s` becomes once MML markup is escaped: a `#`
/// right after `<` gains a `!`, so `<#…>` reads `<#!…>`.
pub open spec fn escape_piece(s: Seq<char>, i: int) -> Seq<char> {
    if s[i] == '#' && i > 0 && s[i - 1] == '<' {
        seq!['#', '!']
    } else {
        seq![s[i]]
    }
}

/// The first `n` characters of `s` with every CRLF turned into LF.
pub open spec fn newlines_upto(s: Seq<char>, n: nat) -> Seq<char>
    decreases n,
{
    if n == 0 || n > s.len() {
        seq![]
    } else {
        newlines_upto(s, (n - 1) as nat) + newline_piece(s, n - 1)
    }
}

/// The first `n` characters of `s` with MML markup escaped.
pub open spec fn escaped_upto(s: Seq<char>, n: nat) -> Seq<char>
    decreases n,
{
    if n == 0 || n > s.len() {
        seq![]
    } else {
        escaped_upto(s, (n - 1) as nat) + escape_piece(s, n - 1)
    }
}

/// `s` with every CRLF turned into LF.
pub open spec fn normalize_newlines_spec(s: Seq<char>) -> Seq<char> {
    newlines_upto(s, s.len())
}

/// `s` with every `<#` turned into `<#!`.
pub open spec fn escape_mml_spec(s: Seq<char>) -> Seq<char> {
    escaped_upto(s, s.len())
}

/// `s` with every CRLF turned into LF.
pub fn normalize_newlines(s: &str) -> (r: String)
    ensures
        r@ == normalize_newlines_spec(s@),
{
    let len = s.unicode_len();
    let mut r = String::new();
    let mut i: usize = 0;
    while i < len
        invariant
            0 <= i <= len,
            len == s@.len(),
            r@ == newlines_upto(s@, i as nat),
        decreases len - i,
    {
        let c = s.get_char(i);
        let drop = c == '\r' && i + 1 < len && s.get_char(i + 1) == '\n';
        if !drop {
            push_char(&mut r, c);
        }
        assert(r@ =~= newlines_upto(s@, (i + 1) as nat));
        i = i + 1;
    }
    r
}

/// `s` with every `<#` turned into `<#!`.
pub fn escape_mml(s: &str) -> (r: String)
    ensures
        r@ == escape_mml_spec(s@),
{
    let len = s.unicode_len();
    let mut r = String::new();
    let mut i: usize = 0;
    while i < len
        invariant
            0 <= i <= len,
            len == s@.len(),
            r@ == escaped_upto(s@, i as nat),
        decreases len - i,
    {
        let c = s.get_char(i);
        push_char(&mut r, c);
        if c == '#' && i > 0 && s.get_char(i - 1) == '<' {
            push_char(&mut r, '!');
        }
        assert(r@ =~= escaped_upto(s@, (i + 1) as nat));
        i = i + 1;
    }
    r
}

/// Whether the two strings are equal.
pub fn same_str(a: &str, b: &str) -> (r: bool)
    ensures
        r == (a@ == b@),
{
    let n = a.unicode_len();
    if n != b.unicode_len() {
        return false;
    }
    let mut i: usize = 0;
    while i < n
        invariant
            0 <= i <= n,
            n == a@.len(),
            n == b@.len(),
            forall|k: int| 0 <= k < i ==> a@[k] == b@[k],
        decreases n - i,
    {
        if a.get_char(i) != b.get_char(i) {
            return false;
        }
        i = i + 1;
    }
    assert(a@ =~= b@);
    true
}

} // verus!

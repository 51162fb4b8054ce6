//! Identifier derivation: the purely lexical, deterministic conversion of a
//! PascalCase variant identifier into the snake-case name of its storage
//! field.  Before every uppercase letter at index > 0 one `'-'` separator is
//! inserted, and every letter is lowercased.  The transform is deliberately
//! naive: no acronym merging, no dictionary, no collision detection, so
//! `"HTTPServer"` becomes `"h-t-t-p-server"`.

use vstd::prelude::*;
use vstd::string::StrSliceExecFns;

verus! {

/// True exactly for the ASCII uppercase letters `'A'..='Z'`.
pub open spec fn is_upper(c: char) -> bool {
    'A' <= c && c <= 'Z'
}

/// ASCII lowercasing: an uppercase letter is shifted to its lowercase
/// counterpart; every other character is left unchanged.
pub open spec fn lower_char(c: char) -> char {
    if is_upper(c) {
        ((c as u32) + 32) as char
    } else {
        c
    }
}

/// The derived snake-case form of `s`: one `'-'` before every uppercase
/// letter at index > 0, all letters lowercased.
pub open spec fn snake_of(s: Seq<char>) -> Seq<char>
    decreases s.len(),
{
    if s.len() == 0 {
        Seq::empty()
    } else {
        let rest = snake_of(s.drop_last());
        let c = s.last();
        if is_upper(c) && s.len() > 1 {
            rest.push('-').push(lower_char(c))
        } else {
            rest.push(lower_char(c))
        }
    }
}

fn is_upper_exec(c: char) -> (r: bool)
    ensures
        r == is_upper(c),
{
    'A' <= c && c <= 'Z'
}

fn lower_char_exec(c: char) -> (r: char)
    ensures
        r == lower_char(c),
{
    match c {
        'A' => 'a',
        'B' => 'b',
        'C' => 'c',
        'D' => 'd',
        'E' => 'e',
        'F' => 'f',
        'G' => 'g',
        'H' => 'h',
        'I' => 'i',
        'J' => 'j',
        'K' => 'k',
        'L' => 'l',
        'M' => 'm',
        'N' => 'n',
        'O' => 'o',
        'P' => 'p',
        'Q' => 'q',
        'R' => 'r',
        'S' => 's',
        'T' => 't',
        'U' => 'u',
        'V' => 'v',
        'W' => 'w',
        'X' => 'x',
        'Y' => 'y',
        'Z' => 'z',
        _ => c,
    }
}

/// Relies on `String::push`: appends the given character to the end of the
/// string, changing nothing else.
#[verifier::external_body]
pub(crate) fn push_char(s: &mut String, c: char)
    ensures
        final(s)@ == old(s)@.push(c),
{
    s.push(c);
}

/// Derives the storage field name from a variant identifier.  The result is
/// `snake_of` of the input, so equal inputs always give equal results.
pub fn derive_snake(s: &str) -> (r: String)
    ensures
        r@ == snake_of(s@),
{
    let n: usize = s.unicode_len();
    let mut out = String::new();
    let mut i: usize = 0;
    while i < n
        invariant
            i <= n,
            n == s@.len(),
            out@ == snake_of(s@.take(i as int)),
        decreases n - i,
    {
        let c = s.get_char(i);
        proof {
            assert(s@.take(i as int + 1).drop_last() =~= s@.take(i as int));
        }
        if is_upper_exec(c) && i > 0 {
            push_char(&mut out, '-');
        }
        push_char(&mut out, lower_char_exec(c));
        i = i + 1;
    }
    proof {
        assert(s@.take(n as int) =~= s@);
    }
    out
}

/// Derivation is deterministic: equal inputs give equal derived names.
pub proof fn lemma_snake_deterministic(a: Seq<char>, b: Seq<char>)
    requires
        a == b,
    ensures
        snake_of(a) == snake_of(b),
{
}

/// No character of a derived name is an uppercase letter.
pub proof fn lemma_snake_no_upper(s: Seq<char>)
    ensures
        forall|i: int| 0 <= i < snake_of(s).len() ==> !is_upper(#[trigger] snake_of(s)[i]),
    decreases s.len(),
{
    if s.len() > 0 {
        lemma_snake_no_upper(s.drop_last());
        let rest = snake_of(s.drop_last());
        let c = s.last();
        assert(!is_upper(lower_char(c)));
        assert forall|i: int| 0 <= i < snake_of(s).len() implies !is_upper(
            #[trigger] snake_of(s)[i],
        ) by {
            if i < rest.len() {
                assert(snake_of(s)[i] == rest[i]);
            }
        }
    }
}

/// An input with no uppercase letters is left unchanged by derivation; in
/// particular the transform is the identity on names that are already
/// lowercase and separator-free.
pub proof fn lemma_snake_fixed_on_lower(s: Seq<char>)
    requires
        forall|i: int| 0 <= i < s.len() ==> !is_upper(#[trigger] s[i]),
    ensures
        snake_of(s) == s,
    decreases s.len(),
{
    if s.len() == 0 {
        assert(snake_of(s) =~= s);
    } else {
        assert(forall|i: int|
            0 <= i < s.drop_last().len() ==> !is_upper(#[trigger] s.drop_last()[i]));
        lemma_snake_fixed_on_lower(s.drop_last());
        assert(!is_upper(s.last()));
        assert(snake_of(s) =~= s);
    }
}

/// Derivation is idempotent: deriving an already-derived name changes
/// nothing.
pub proof fn lemma_snake_idempotent(s: Seq<char>)
    ensures
        snake_of(snake_of(s)) == snake_of(s),
{
    lemma_snake_no_upper(s);
    lemma_snake_fixed_on_lower(snake_of(s));
}

} // verus!

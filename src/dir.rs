//! Resolution of the output directory argument.
use vstd::prelude::*;

verus! {

/// The directory that bindings go to when none is given.
pub const DEFAULT_DIR: &'static str = "../src-gen";

/// A character that is stripped from both ends of a directory argument.
pub open spec fn is_quote(c: char) -> bool {
    c == '"' || c == '\''
}

/// `s` without the quote characters at its start.
pub open spec fn trim_quotes_start(s: Seq<char>) -> Seq<char>
    decreases s.len(),
{
    if s.len() > 0 && is_quote(s[0]) {
        trim_quotes_start(s.subrange(1, s.len() as int))
    } else {
        s
    }
}

/// `s` without the quote characters at its end.
pub open spec fn trim_quotes_end(s: Seq<char>) -> Seq<char>
    decreases s.len(),
{
    if s.len() > 0 && is_quote(s.last()) {
        trim_quotes_end(s.drop_last())
    } else {
        s
    }
}

/// `s` without the quote characters at either end.
pub open spec fn trim_quotes(s: Seq<char>) -> Seq<char> {
    trim_quotes_end(trim_quotes_start(s))
}

/// The directory named by a raw argument: the argument without its quotes,
/// or the default directory where nothing is left.
pub open spec fn resolve_dir(raw: Seq<char>) -> Seq<char> {
    let t = trim_quotes(raw);
    if t.len() == 0 {
        DEFAULT_DIR@
    } else {
        t
    }
}

fn is_quote_char(c: char) -> (r: bool)
    ensures
        r == is_quote(c),
{
    c == '"' || c == '\''
}

/// Strips quote characters from both ends of `attr`.
pub fn trim_quotes_of(attr: &str) -> (r: &str)
    ensures
        r@ == trim_quotes(attr@),
{
    let n = attr.unicode_len();
    let mut i: usize = 0;
    assert(attr@.subrange(0, n as int) =~= attr@);
    while i < n && is_quote_char(attr.get_char(i))
        invariant
            n == attr@.len(),
            i <= n,
            trim_quotes_start(attr@) == trim_quotes_start(attr@.subrange(i as int, n as int)),
        decreases n - i,
    {
        assert(attr@.subrange(i as int, n as int).subrange(1, (n - i) as int) =~= attr@.subrange(
            i + 1,
            n as int,
        ));
        i = i + 1;
    }
    assert(trim_quotes_start(attr@) == attr@.subrange(i as int, n as int));
    let mut j: usize = n;
    while j > i && is_quote_char(attr.get_char(j - 1))
        invariant
            n == attr@.len(),
            i <= j <= n,
            trim_quotes(attr@) == trim_quotes_end(attr@.subrange(i as int, j as int)),
        decreases j,
    {
        assert(attr@.subrange(i as int, j as int).drop_last() =~= attr@.subrange(
            i as int,
            j - 1,
        ));
        j = j - 1;
    }
    assert(trim_quotes_end(attr@.subrange(i as int, j as int)) == attr@.subrange(i as int, j as int));
    attr.substring_char(i, j)
}

/// Parses the directory argument: quotes are stripped, and an empty result
/// gives the default directory.
pub fn parse_dir_arg(attr: &str) -> (r: String)
    ensures
        r@ == resolve_dir(attr@),
{
    let t = trim_quotes_of(attr);
    if t.unicode_len() == 0 {
        String::from_str(DEFAULT_DIR)
    } else {
        String::from_str(t)
    }
}

/// The directory that an entity's declaration is exported to: the resolved
/// directory followed by a path separator.
pub fn entity(attr: &str) -> (r: String)
    ensures
        r@ == resolve_dir(attr@) + seq!['/'],
{
    let dir = parse_dir_arg(attr);
    let r = dir.concat("/");
    proof {
        reveal_strlit("/");
    }
    r
}

} // verus!

use vstd::prelude::*;
use vstd::string::StrSliceExecFns;

verus! {

/// Index of the first author-list separator (`':'`) in `s` at or after `i`,
/// or the length of `s` when there is none.
pub open spec fn author_sep_from(s: Seq<char>, i: int) -> int
    decreases s.len() - i,
{
    if i < 0 || i >= s.len() {
        s.len() as int
    } else if s[i] == ':' {
        i
    } else {
        author_sep_from(s, i + 1)
    }
}

/// The first listed author of an authors string: everything before the first
/// `':'`, or the whole string when it lists a single author.
pub open spec fn spec_first_author(s: Seq<char>) -> Seq<char> {
    s.subrange(0, author_sep_from(s, 0))
}

/// Index at which a trailing contact address starts: the first occurrence of
/// the two-character delimiter `" <"` in `s` at or after `i`, or the length
/// of `s` when there is none.
pub open spec fn address_start_from(s: Seq<char>, i: int) -> int
    decreases s.len() - i,
{
    if i < 0 || i + 1 >= s.len() {
        s.len() as int
    } else if s[i] == ' ' && s[i + 1] == '<' {
        i
    } else {
        address_start_from(s, i + 1)
    }
}

/// An author string with its trailing contact address stripped: everything
/// before the first `" <"`, or the whole string when it carries no address.
pub open spec fn spec_strip_address(s: Seq<char>) -> Seq<char> {
    s.subrange(0, address_start_from(s, 0))
}

/// The organization derived from a program's authors string: the first
/// listed author with its trailing contact address stripped.
pub open spec fn spec_organization_of(authors: Seq<char>) -> Seq<char> {
    spec_strip_address(spec_first_author(authors))
}

/// The first listed author: the prefix of `s` before the first `':'`.
pub fn first_author(s: &str) -> (r: String)
    ensures
        r@ == spec_first_author(s@),
{
    let n = s.unicode_len();
    let mut i: usize = 0;
    while i < n
        invariant
            n == s@.len(),
            i <= n,
            author_sep_from(s@, 0) == author_sep_from(s@, i as int),
        decreases n - i,
    {
        let c = s.get_char(i);
        if c == ':' {
            assert(author_sep_from(s@, i as int) == i as int);
            let prefix = s.substring_char(0, i);
            return prefix.to_owned();
        }
        assert(author_sep_from(s@, i as int) == author_sep_from(s@, i as int + 1));
        i += 1;
    }
    assert(author_sep_from(s@, i as int) == s@.len() as int);
    assert(s@.subrange(0, s@.len() as int) =~= s@);
    s.to_owned()
}

/// Strips a trailing contact address: the prefix of `s` before the first `" <"`.
pub fn strip_address(s: &str) -> (r: String)
    ensures
        r@ == spec_strip_address(s@),
{
    let n = s.unicode_len();
    let mut i: usize = 0;
    while n > 0 && i < n - 1
        invariant
            n == s@.len(),
            i <= n,
            address_start_from(s@, 0) == address_start_from(s@, i as int),
        decreases n - i,
    {
        let c = s.get_char(i);
        let d = s.get_char(i + 1);
        if c == ' ' && d == '<' {
            assert(address_start_from(s@, i as int) == i as int);
            let prefix = s.substring_char(0, i);
            return prefix.to_owned();
        }
        assert(address_start_from(s@, i as int) == address_start_from(s@, i as int + 1));
        i += 1;
    }
    assert(address_start_from(s@, i as int) == s@.len() as int);
    assert(s@.subrange(0, s@.len() as int) =~= s@);
    s.to_owned()
}

/// The organization a program's authors string yields: the first listed
/// author, with its trailing contact address stripped.
pub fn organization_of(authors: &str) -> (r: String)
    ensures
        r@ == spec_organization_of(authors@),
{
    let first = first_author(authors);
    strip_address(first.as_str())
}

} // verus!

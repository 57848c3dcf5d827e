//! WebFinger `acct:` resources and the node's domain setting.
use vstd::prelude::*;

verus! {

/// The characters of the `acct:` scheme prefix.
pub open spec fn acct_prefix() -> Seq<char> {
    seq!['a', 'c', 'c', 't', ':']
}

/// Whether `s` holds the `acct:` prefix at position `k`.
pub open spec fn prefix_at(s: Seq<char>, k: int) -> bool {
    0 <= k && k + 5 <= s.len() && s.subrange(k, k + 5) == acct_prefix()
}

/// Where the text of `s` begins once every `acct:` prefix from position `k` on
/// has been taken off the front.
pub open spec fn stripped_from(s: Seq<char>, k: int) -> int
    decreases s.len() - k,
{
    if prefix_at(s, k) {
        stripped_from(s, k + 5)
    } else {
        k
    }
}

/// `s` without its leading `acct:` prefixes (however many there are).
pub open spec fn strip_acct(s: Seq<char>) -> Seq<char> {
    s.subrange(stripped_from(s, 0), s.len() as int)
}

/// `i` is the position of the first `'@'` in `s`.
pub open spec fn is_first_at(s: Seq<char>, i: int) -> bool {
    &&& 0 <= i < s.len()
    &&& s[i] == '@'
    &&& forall|j: int| 0 <= j < i ==> s[j] != '@'
}

/// The user and the domain named by an `acct:` resource: the resource must
/// start with `acct:`, and what follows the prefix is split at its first `'@'`
/// into two parts, neither of them empty.
pub open spec fn acct_parts(acct: Seq<char>) -> Option<(Seq<char>, Seq<char>)> {
    let rest = strip_acct(acct);
    if rest.len() != acct.len() && exists|i: int| is_first_at(rest, i) {
        let i = choose|i: int| is_first_at(rest, i);
        let user = rest.subrange(0, i);
        let domain = rest.subrange(i + 1, rest.len() as int);
        if user.len() > 0 && domain.len() > 0 {
            Some((user, domain))
        } else {
            None
        }
    } else {
        None
    }
}

/// Whether `s` holds the scheme separator `://` at position `i`.
pub open spec fn separator_at(s: Seq<char>, i: int) -> bool {
    0 <= i && i + 3 <= s.len() && s[i] == ':' && s[i + 1] == '/' && s[i + 2] == '/'
}

/// Whether `s` holds the scheme separator `://`.
pub open spec fn has_scheme_separator(s: Seq<char>) -> bool {
    exists|i: int| separator_at(s, i)
}

proof fn lemma_first_at_unique(s: Seq<char>, i: int, k: int)
    requires
        is_first_at(s, i),
        is_first_at(s, k),
    ensures
        i == k,
{
    if i < k {
        assert(s[i] != '@');
    } else if k < i {
        assert(s[k] != '@');
    }
}

/// Splits a WebFinger resource `acct:user@domain` into its user and domain.
/// Any other shape gives `None`.
pub fn parse_acct<'a>(acct: &'a str) -> (r: Option<(&'a str, &'a str)>)
    ensures
        match r {
            Some((user, domain)) => acct_parts(acct@) == Some((user@, domain@)),
            None => acct_parts(acct@) is None,
        },
{
    let ghost s = acct@;
    let n = acct.unicode_len();
    let mut pos: usize = 0;
    while n - pos >= 5
        && acct.get_char(pos) == 'a'
        && acct.get_char(pos + 1) == 'c'
        && acct.get_char(pos + 2) == 'c'
        && acct.get_char(pos + 3) == 't'
        && acct.get_char(pos + 4) == ':'
        invariant
            n == s.len(),
            s == acct@,
            pos <= n,
            stripped_from(s, pos as int) == stripped_from(s, 0),
        decreases n - pos,
    {
        assert(s.subrange(pos as int, pos + 5) =~= acct_prefix());
        pos = pos + 5;
    }
    assert(!prefix_at(s, pos as int)) by {
        if pos + 5 <= n {
            if prefix_at(s, pos as int) {
                assert(s.subrange(pos as int, pos + 5)[0] == s[pos as int]);
                assert(s.subrange(pos as int, pos + 5)[1] == s[pos + 1]);
                assert(s.subrange(pos as int, pos + 5)[2] == s[pos + 2]);
                assert(s.subrange(pos as int, pos + 5)[3] == s[pos + 3]);
                assert(s.subrange(pos as int, pos + 5)[4] == s[pos + 4]);
            }
        }
    }
    let ghost rest = strip_acct(s);
    assert(rest =~= s.subrange(pos as int, n as int));
    if pos == 0 {
        return None;
    }
    let mut at: usize = pos;
    while at < n && acct.get_char(at) != '@'
        invariant
            n == s.len(),
            s == acct@,
            pos <= at <= n,
            rest == s.subrange(pos as int, n as int),
            forall|j: int| 0 <= j < at - pos ==> rest[j] != '@',
        decreases n - at,
    {
        at = at + 1;
    }
    if at == n {
        assert(!exists|i: int| is_first_at(rest, i));
        return None;
    }
    assert(is_first_at(rest, at - pos));
    let ghost i = choose|i: int| is_first_at(rest, i);
    proof {
        lemma_first_at_unique(rest, i, at - pos);
    }
    if at == pos || at + 1 == n {
        return None;
    }
    let user = acct.substring_char(pos, at);
    let domain = acct.substring_char(at + 1, n);
    assert(user@ =~= rest.subrange(0, i));
    assert(domain@ =~= rest.subrange(i + 1, rest.len() as int));
    Some((user, domain))
}

/// Accepts a domain setting unless it holds a protocol (`://`).
pub fn validate_domain(domain: String) -> (r: Result<(), String>)
    ensures
        r is Ok <==> !has_scheme_separator(domain@),
        r matches Err(m) ==> m@ == "domain should not contain a protocol"@,
{
    let n = domain.as_str().unicode_len();
    let mut i: usize = 0;
    while n - i >= 3
        invariant
            n == domain@.len(),
            i <= n,
            forall|k: int| 0 <= k < i ==> !separator_at(domain@, k),
        decreases n - i,
    {
        let s = domain.as_str();
        if s.get_char(i) == ':' && s.get_char(i + 1) == '/' && s.get_char(i + 2) == '/' {
            assert(separator_at(domain@, i as int));
            return Err(String::from_str("domain should not contain a protocol"));
        }
        i = i + 1;
    }
    assert forall|k: int| !separator_at(domain@, k) by {
        if 0 <= k < i {
        }
    }
    Ok(())
}

} // verus!

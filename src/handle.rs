//! Handles of the form `id@domain`, and the WebFinger address of one.
use vstd::prelude::*;

verus! {

/// The error of a handle that lacks the `id@domain` shape.
#[derive(Debug, Clone, Copy, PartialEq, Eq, Structural)]
pub struct BadHandleError;

/// A federated identity: a user `id` on a server `domain`.
#[derive(Debug)]
pub struct Handle {
    pub domain: String,
    pub id: String,
}

/// Index of the first `@` in `s` at or after `from`, or `s.len()` if there is none.
pub open spec fn next_at(s: Seq<char>, from: int) -> int
    decreases s.len() - from,
{
    if from >= s.len() {
        s.len() as int
    } else if s[from] == '@' {
        from
    } else {
        next_at(s, from + 1)
    }
}

/// The text before the first `@`.
pub open spec fn id_part(s: Seq<char>) -> Seq<char> {
    s.subrange(0, next_at(s, 0))
}

/// The text between the first `@` and the next one (or the end).
pub open spec fn domain_part(s: Seq<char>) -> Seq<char> {
    s.subrange(next_at(s, 0) + 1, next_at(s, next_at(s, 0) + 1))
}

/// `s` holds an `@` with a non-empty part on each side of the first one.
pub open spec fn is_handle_text(s: Seq<char>) -> bool {
    &&& next_at(s, 0) < s.len()
    &&& id_part(s).len() > 0
    &&& domain_part(s).len() > 0
}

/// The address of the WebFinger document of `id` on `domain`.
pub open spec fn webfinger_url_of(id: Seq<char>, domain: Seq<char>) -> Seq<char> {
    "https://"@ + domain + "/.well-known/webfinger?resource=acct:"@ + id + "@"@ + domain
}

/// `next_at` lands in `[from, len]`, on an `@` unless at the end, with no `@` before it.
pub proof fn lemma_next_at(s: Seq<char>, from: int)
    requires
        0 <= from <= s.len(),
    ensures
        from <= next_at(s, from) <= s.len(),
        next_at(s, from) < s.len() ==> s[next_at(s, from)] == '@',
        forall|j: int| from <= j < next_at(s, from) ==> s[j] != '@',
    decreases s.len() - from,
{
    if from < s.len() && s[from] != '@' {
        lemma_next_at(s, from + 1);
    }
}

/// Where `k` is the first `@` at or after `from` (or the end), `next_at` finds it.
pub proof fn lemma_next_at_is(s: Seq<char>, from: int, k: int)
    requires
        0 <= from <= k <= s.len(),
        k < s.len() ==> s[k] == '@',
        forall|j: int| from <= j < k ==> s[j] != '@',
    ensures
        next_at(s, from) == k,
    decreases k - from,
{
    if from < k {
        lemma_next_at_is(s, from + 1, k);
    }
}

/// A text with exactly one `@` and non-empty sides is a handle, split at that `@`.
pub proof fn lemma_single_at_parses(s: Seq<char>, i: int)
    requires
        0 < i < s.len() - 1,
        s[i] == '@',
        forall|j: int| 0 <= j < s.len() && j != i ==> s[j] != '@',
    ensures
        is_handle_text(s),
        id_part(s) == s.subrange(0, i),
        domain_part(s) == s.subrange(i + 1, s.len() as int),
{
    lemma_next_at_is(s, 0, i);
    lemma_next_at_is(s, i + 1, s.len() as int);
}

/// A text without `@`, or one that starts with `@`, or whose only `@` ends it,
/// is no handle.
pub proof fn lemma_not_handle(s: Seq<char>)
    requires
        (forall|j: int| 0 <= j < s.len() ==> s[j] != '@') || (s.len() > 0 && s[0] == '@') || (
        s.len() > 0 && s[s.len() - 1] == '@' && forall|j: int|
            0 <= j < s.len() - 1 ==> s[j] != '@'),
    ensures
        !is_handle_text(s),
{
    if forall|j: int| 0 <= j < s.len() ==> s[j] != '@' {
        lemma_next_at_is(s, 0, s.len() as int);
    } else if s.len() > 0 && s[0] == '@' {
        lemma_next_at_is(s, 0, 0);
    } else {
        lemma_next_at_is(s, 0, s.len() - 1);
        lemma_next_at_is(s, s.len() as int, s.len() as int);
    }
}

/// Index of the first `@` of `s` at or after `from`, or the length of `s`.
fn find_at(s: &str, from: usize) -> (r: usize)
    requires
        from <= s@.len(),
    ensures
        r == next_at(s@, from as int),
{
    let n = s.unicode_len();
    let mut i: usize = from;
    while i < n
        invariant
            n == s@.len(),
            from <= i <= n,
            next_at(s@, i as int) == next_at(s@, from as int),
        decreases n - i,
    {
        if s.get_char(i) == '@' {
            return i;
        }
        i = i + 1;
    }
    i
}

impl Handle {
    /// Both parts are non-empty and free of `@`.
    pub open spec fn wf(&self) -> bool {
        &&& self.id@.len() > 0
        &&& self.domain@.len() > 0
        &&& forall|j: int| 0 <= j < self.id@.len() ==> self.id@[j] != '@'
        &&& forall|j: int| 0 <= j < self.domain@.len() ==> self.domain@[j] != '@'
    }

    /// Reads `id@domain`: the id is the text before the first `@`, the domain the
    /// text up to the next `@` (anything after that is ignored). Fails when there is
    /// no `@` or either part is empty.
    pub fn parse_string(given_string: &str) -> (r: Result<Handle, BadHandleError>)
        ensures
            r is Ok <==> is_handle_text(given_string@),
            r matches Ok(h) ==> {
                &&& h.id@ == id_part(given_string@)
                &&& h.domain@ == domain_part(given_string@)
                &&& h.wf()
            },
    {
        proof {
            lemma_next_at(given_string@, 0);
        }
        let n = given_string.unicode_len();
        let first = find_at(given_string, 0);
        if first >= n || first == 0 {
            return Err(BadHandleError);
        }
        let second = find_at(given_string, first + 1);
        proof {
            lemma_next_at(given_string@, first + 1);
        }
        if second == first + 1 {
            return Err(BadHandleError);
        }
        let id = String::from_str(given_string.substring_char(0, first));
        let domain = String::from_str(given_string.substring_char(first + 1, second));
        Ok(Handle { domain, id })
    }

    /// The WebFinger address `https://{domain}/.well-known/webfinger?resource=acct:{id}@{domain}`,
    /// with both parts inserted as they are.
    pub fn to_webfinger_url(&self) -> (r: String)
        ensures
            r@ == webfinger_url_of(self.id@, self.domain@),
    {
        let mut url = String::from_str("https://");
        url.append(self.domain.as_str());
        url.append("/.well-known/webfinger?resource=acct:");
        url.append(self.id.as_str());
        url.append("@");
        url.append(self.domain.as_str());
        url
    }
}

} // verus!

//! What the discovery service is asked and what its answers become: the
//! kind of user search a query makes, its endpoints, and the results and
//! errors the state machine receives.

use vstd::prelude::*;
use crate::api::{
    ImportResult, ImportedProfile, SearchUserResult, UsernameResponse, UsernameSearchResponse,
};
use crate::types::{AsyncResult, SearchResult};

verus! {

/// Base URL of the relay's discovery service.
pub const RELAY_URL: &'static str = "https://relay.umbra.chat";

/// How a user search is made.
#[derive(Clone, Copy, Debug, PartialEq, Eq, Structural)]
pub enum SearchKind {
    /// `Name#Tag`: an exact username lookup (at most one result).
    UsernameLookup,
    /// A DID, taken as found without asking.
    Did,
    /// A partial name search (up to 10 results).
    NameSearch,
}

/// The query holds this character.
pub open spec fn has_char(s: Seq<char>, c: char) -> bool {
    exists|i: int| 0 <= i < s.len() && s[i] == c
}

/// The kind of search a query makes: a `#` makes a username lookup, a
/// leading `did:` a DID, anything else a name search.
pub open spec fn search_kind_of(q: Seq<char>) -> SearchKind {
    if has_char(q, '#') {
        SearchKind::UsernameLookup
    } else if q.len() >= 4 && q.subrange(0, 4) == seq!['d', 'i', 'd', ':'] {
        SearchKind::Did
    } else {
        SearchKind::NameSearch
    }
}

/// The kind of search a query makes.
pub fn search_kind(query: &str) -> (k: SearchKind)
    ensures
        k == search_kind_of(query@),
{
    let n = query.unicode_len();
    let mut i: usize = 0;
    while i < n
        invariant
            n == query@.len(),
            i <= n,
            forall|j: int| 0 <= j < i ==> query@[j] != '#',
        decreases n - i,
    {
        if query.get_char(i) == '#' {
            return SearchKind::UsernameLookup;
        }
        i = i + 1;
    }
    if n >= 4 && query.get_char(0) == 'd' && query.get_char(1) == 'i' && query.get_char(2) == 'd'
        && query.get_char(3) == ':' {
        assert(query@.subrange(0, 4) =~= seq!['d', 'i', 'd', ':']);
        SearchKind::Did
    } else {
        proof {
            if n >= 4 && query@.subrange(0, 4) == seq!['d', 'i', 'd', ':'] {
                assert(query@.subrange(0, 4)[0] == query@[0]);
                assert(query@.subrange(0, 4)[1] == query@[1]);
                assert(query@.subrange(0, 4)[2] == query@[2]);
                assert(query@.subrange(0, 4)[3] == query@[3]);
            }
        }
        SearchKind::NameSearch
    }
}

/// The result of a DID search: that DID, found.
pub fn did_search_results(query: &str) -> (r: Vec<SearchUserResult>)
    ensures
        r@.len() == 1,
        r@[0].found,
        r@[0].did matches Some(d) && d@ == query@,
        r@[0].username is None,
{
    let mut r: Vec<SearchUserResult> = Vec::new();
    r.push(SearchUserResult { found: true, did: Some(query.to_owned()), username: None });
    r
}

/// The result of a username lookup answered with `resp`.
pub fn lookup_results(resp: UsernameResponse) -> (r: Vec<SearchUserResult>)
    ensures
        r@.len() == 1,
        r@[0] == (SearchUserResult { found: true, did: Some(resp.did), username: resp.username }),
{
    let mut r: Vec<SearchUserResult> = Vec::new();
    r.push(SearchUserResult { found: true, did: Some(resp.did), username: resp.username });
    r
}

/// Most results a partial name search gives.
pub const NAME_SEARCH_LIMIT: usize = 10;

/// The results of a partial name search: the first ten the service gave, in
/// its order.
pub fn name_search_results(resp: UsernameSearchResponse) -> (r: Vec<SearchUserResult>)
    ensures
        r@.len() == if resp.results@.len() < NAME_SEARCH_LIMIT {
            resp.results@.len() as int
        } else {
            NAME_SEARCH_LIMIT as int
        },
        forall|i: int|
            0 <= i < r@.len() ==> #[trigger] r@[i] == (SearchUserResult {
                found: true,
                did: Some(resp.results@[i].did),
                username: Some(resp.results@[i].username),
            }),
{
    let ghost orig = resp.results@;
    let total = resp.results.len();
    let mut items = resp.results;
    let mut r: Vec<SearchUserResult> = Vec::new();
    let mut k: usize = 0;
    while items.len() > 0 && k < NAME_SEARCH_LIMIT
        invariant
            k <= orig.len(),
            k <= NAME_SEARCH_LIMIT,
            orig.len() == total,
            items@ == orig.subrange(k as int, orig.len() as int),
            r@.len() == k,
            forall|i: int|
                0 <= i < k ==> #[trigger] r@[i] == (SearchUserResult {
                    found: true,
                    did: Some(orig[i].did),
                    username: Some(orig[i].username),
                }),
        decreases items@.len(),
    {
        let it = items.remove(0);
        proof {
            assert(it == orig[k as int]);
            assert(items@ =~= orig.subrange(k + 1, orig.len() as int));
        }
        r.push(SearchUserResult { found: true, did: Some(it.did), username: Some(it.username) });
        k = k + 1;
    }
    r
}

/// The search results shown for the service's results: the found ones,
/// in order, each with its DID (empty when missing) and username.
pub open spec fn shown_results(v: Seq<SearchUserResult>) -> Seq<SearchUserResult> {
    v.filter(|x: SearchUserResult| x.found)
}

/// The entry shown for a found user.
pub open spec fn search_entry(x: SearchUserResult, e: SearchResult) -> bool {
    &&& e.did@ == crate::broadcasts::text_or(x.did, Seq::empty())
    &&& e.username == x.username
}

/// What the add-friend screen receives for the service's results.
pub fn found_users(v: Vec<SearchUserResult>) -> (r: Vec<SearchResult>)
    ensures
        r@.len() == shown_results(v@).len(),
        forall|i: int| 0 <= i < r@.len() ==> search_entry(shown_results(v@)[i], #[trigger] r@[i]),
{
    let ghost orig = v@;
    let ghost pred = |x: SearchUserResult| x.found;
    let total = v.len();
    let mut v = v;
    let mut r: Vec<SearchResult> = Vec::new();
    let mut k: usize = 0;
    proof {
        assert(orig.subrange(0, 0).filter(pred) =~= Seq::<SearchUserResult>::empty()) by {
            reveal(Seq::filter);
        }
    }
    while v.len() > 0
        invariant
            k <= orig.len(),
            orig.len() == total,
            v@ == orig.subrange(k as int, orig.len() as int),
            pred == (|x: SearchUserResult| x.found),
            r@.len() == orig.subrange(0, k as int).filter(pred).len(),
            forall|i: int| 0 <= i < r@.len() ==> search_entry(orig.subrange(0, k as int).filter(pred)[i], #[trigger] r@[i]),
        decreases v@.len(),
    {
        let x = v.remove(0);
        proof {
            assert(x == orig[k as int]);
            assert(v@ =~= orig.subrange(k + 1, orig.len() as int));
            assert(orig.subrange(0, k + 1) =~= orig.subrange(0, k as int).push(x));
            crate::lifecycle::lemma_filter_push(orig.subrange(0, k as int), pred, x);
        }
        if x.found {
            let did = match x.did {
                Some(d) => d,
                None => String::new(),
            };
            r.push(SearchResult { did, username: x.username });
        }
        k = k + 1;
    }
    assert(orig.subrange(0, orig.len() as int) =~= orig);
    r
}

/// What a registration answer becomes: the registered username, or an
/// error when the service returned none.
pub fn registration_outcome(resp: UsernameResponse) -> (r: AsyncResult)
    ensures
        match resp.username {
            Some(u) => r == AsyncResult::UsernameRegistered { username: u },
            None => r matches AsyncResult::UsernameError(m) && m@ == "No username returned"@,
        },
{
    match resp.username {
        Some(u) => AsyncResult::UsernameRegistered { username: u },
        None => AsyncResult::UsernameError("No username returned".to_owned()),
    }
}

/// What a poll answer yields: the profile once sign-in succeeded, else
/// nothing yet.
pub fn poll_outcome(result: ImportResult) -> (r: Option<ImportedProfile>)
    ensures
        r == if result.success {
            result.profile
        } else {
            None
        },
{
    if result.success {
        result.profile
    } else {
        None
    }
}

/// The endpoint that starts a profile import for a platform.
pub fn import_start_url(platform: &str) -> (r: String)
    ensures
        r@ == RELAY_URL@ + "/profile/import/"@ + platform@ + "/start"@,
{
    let a = crate::text::concat3(RELAY_URL, "/profile/import/", platform);
    crate::text::concat2(a.as_str(), "/start")
}

/// The endpoint that answers a profile import poll.
pub fn import_result_url(state: &str) -> (r: String)
    ensures
        r@ == RELAY_URL@ + "/profile/import/result/"@ + state@,
{
    crate::text::concat3(RELAY_URL, "/profile/import/result/", state)
}

/// The endpoint of a discovery request (`path` starts with `/`).
pub fn discovery_url(path: &str) -> (r: String)
    ensures
        r@ == RELAY_URL@ + path@,
{
    crate::text::concat2(RELAY_URL, path)
}

} // verus!

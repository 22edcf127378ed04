use vstd::prelude::*;
use vstd::string::StrSliceExecFns;

verus! {

/// Whether `p` occurs contiguously somewhere in `s`.
pub open spec fn is_substring(s: Seq<char>, p: Seq<char>) -> bool {
    exists|k: int| 0 <= k <= s.len() - p.len() && #[trigger] s.subrange(k, k + p.len()) == p
}

/// Whether `p` starts at position `k` of `s`.
fn match_at(s: &str, p: &str, k: usize) -> (r: bool)
    requires
        k + p@.len() <= s@.len(),
        s@.len() <= usize::MAX,
    ensures
        r == (s@.subrange(k as int, k as int + p@.len() as int) == p@),
{
    let m = p.unicode_len();
    let mut t: usize = 0;
    while t < m
        invariant
            m == p@.len(),
            k + m <= s@.len() <= usize::MAX,
            t <= m,
            forall|t0: int| 0 <= t0 < t ==> s@[k + t0] == p@[t0],
        decreases m - t,
    {
        if s.get_char(k + t) != p.get_char(t) {
            proof {
                assert(s@.subrange(k as int, k as int + m as int) != p@) by {
                    if s@.subrange(k as int, k as int + m as int) == p@ {
                        assert(s@.subrange(k as int, k as int + m as int)[t as int] == s@[k
                            + t]);
                    }
                }
            }
            return false;
        }
        t += 1;
    }
    proof {
        assert(s@.subrange(k as int, k as int + m as int) =~= p@);
    }
    true
}

/// Whether `p` occurs contiguously somewhere in `s`.
pub fn str_contains(s: &str, p: &str) -> (r: bool)
    ensures
        r == is_substring(s@, p@),
{
    let n = s.unicode_len();
    let m = p.unicode_len();
    if m > n {
        proof {
            assert(!is_substring(s@, p@)) by {
                if is_substring(s@, p@) {
                    let w = choose|k: int|
                        0 <= k <= s@.len() - p@.len() && #[trigger] s@.subrange(k, k + p@.len())
                            == p@;
                    assert(0 <= w);
                }
            }
        }
        return false;
    }
    if m == 0 {
        proof {
            assert(s@.subrange(0, 0 + p@.len() as int) =~= p@);
            assert(is_substring(s@, p@));
        }
        return true;
    }
    let mut k: usize = 0;
    while k <= n - m
        invariant
            n == s@.len(),
            m == p@.len(),
            1 <= m <= n,
            k <= n - m + 1,
            forall|k0: int| 0 <= k0 < k ==> #[trigger] s@.subrange(k0, k0 + m as int) != p@,
        decreases n - m - k + 1,
    {
        if match_at(s, p, k) {
            proof {
                assert(0 <= k as int <= s@.len() - p@.len() && s@.subrange(
                    k as int,
                    k as int + p@.len() as int,
                ) == p@);
            }
            return true;
        }
        k += 1;
    }
    proof {
        assert(!is_substring(s@, p@)) by {
            if is_substring(s@, p@) {
                let w = choose|k0: int|
                    0 <= k0 <= s@.len() - p@.len() && #[trigger] s@.subrange(k0, k0 + p@.len())
                        == p@;
                assert(s@.subrange(w, w + m as int) != p@);
            }
        }
    }
    false
}

/// Where a textual command is routed: one handler per path fragment, tried
/// in a fixed order, with `Unknown` for everything else.
#[derive(Debug, Clone, Copy, PartialEq, Eq, Structural)]
pub enum Route {
    RegisterUser,
    AddCheckup,
    PublishCheckup,
    RewardUser,
    GetProfile,
    GetPublicData,
    GetPrivateData,
    GetHistory,
    Unknown,
}

/// The route of a URL: the first path fragment it contains, in the fixed
/// order of the route table.
pub open spec fn spec_route(url: Seq<char>) -> Route {
    if is_substring(url, "/register-user"@) {
        Route::RegisterUser
    } else if is_substring(url, "/add-checkup"@) {
        Route::AddCheckup
    } else if is_substring(url, "/publish-checkup"@) {
        Route::PublishCheckup
    } else if is_substring(url, "/reward-user"@) {
        Route::RewardUser
    } else if is_substring(url, "/get-profile"@) {
        Route::GetProfile
    } else if is_substring(url, "/get-public-data"@) {
        Route::GetPublicData
    } else if is_substring(url, "/get-private-data"@) {
        Route::GetPrivateData
    } else if is_substring(url, "/get-history"@) {
        Route::GetHistory
    } else {
        Route::Unknown
    }
}

/// Decide which handler a request URL goes to.
pub fn route_of(url: &str) -> (r: Route)
    ensures
        r == spec_route(url@),
{
    if str_contains(url, "/register-user") {
        Route::RegisterUser
    } else if str_contains(url, "/add-checkup") {
        Route::AddCheckup
    } else if str_contains(url, "/publish-checkup") {
        Route::PublishCheckup
    } else if str_contains(url, "/reward-user") {
        Route::RewardUser
    } else if str_contains(url, "/get-profile") {
        Route::GetProfile
    } else if str_contains(url, "/get-public-data") {
        Route::GetPublicData
    } else if str_contains(url, "/get-private-data") {
        Route::GetPrivateData
    } else if str_contains(url, "/get-history") {
        Route::GetHistory
    } else {
        Route::Unknown
    }
}

} // verus!

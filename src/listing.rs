use vstd::prelude::*;
use vstd::multiset::Multiset;
use crate::models::UserResponse;
use crate::session::{Session, SessionResponse};
use crate::user::User;

verus! {

broadcast use vstd::seq_lib::group_to_multiset_ensures, vstd::multiset::group_multiset_axioms;

/// Sessions in ascending order of creation.
pub open spec fn sessions_sorted(s: Seq<SessionResponse>) -> bool {
    forall|i: int, j: int| 0 <= i < j < s.len() ==> s[i].created_at <= s[j].created_at
}

/// Order of optional creation times: an unknown time comes first.
pub open spec fn created_le(a: Option<i64>, b: Option<i64>) -> bool {
    match (a, b) {
        (None, _) => true,
        (Some(_), None) => false,
        (Some(x), Some(y)) => x <= y,
    }
}

/// Users in ascending order of creation.
pub open spec fn users_sorted(s: Seq<UserResponse>) -> bool {
    forall|i: int, j: int| 0 <= i < j < s.len() ==> created_le(s[i].created_at, s[j].created_at)
}

fn created_le_exec(a: Option<i64>, b: Option<i64>) -> (r: bool)
    ensures
        r == created_le(a, b),
{
    match (a, b) {
        (None, _) => true,
        (Some(_), None) => false,
        (Some(x), Some(y)) => x <= y,
    }
}

impl Session {
    /// The sessions in ascending order of creation; sessions created at the same time keep
    /// their order.
    pub fn sort_by_created(v: Vec<SessionResponse>) -> (r: Vec<SessionResponse>)
        ensures
            sessions_sorted(r@),
            r@.to_multiset() == v@.to_multiset(),
    {
        let ghost all = v@;
        let mut input = v;
        let mut out: Vec<SessionResponse> = Vec::new();
        while input.len() > 0
            invariant
                sessions_sorted(out@),
                out@.to_multiset().add(input@.to_multiset()) == all.to_multiset(),
            decreases input@.len(),
        {
            let ghost before = input@;
            let x = input.remove(0);
            proof {
                vstd::seq_lib::to_multiset_remove(before, 0);
            }
            let mut j: usize = 0;
            while j < out.len() && out[j].created_at <= x.created_at
                invariant
                    j <= out@.len(),
                    forall|k: int| 0 <= k < j ==> out@[k].created_at <= x.created_at,
                decreases out@.len() - j,
            {
                j = j + 1;
            }
            let ghost prev = out@;
            out.insert(j, x);
            proof {
                vstd::seq_lib::to_multiset_insert(prev, j as int, x);
                assert forall|a: int, b: int| 0 <= a < b < out@.len() implies out@[a].created_at
                    <= out@[b].created_at by {
                    if b == j as int {
                    } else if a == j as int {
                        assert(prev[b - 1].created_at >= prev[j as int].created_at || b - 1 == j);
                    }
                }
                assert(out@.to_multiset().add(input@.to_multiset()) =~= all.to_multiset());
            }
        }
        proof {
            assert(input@.to_multiset() =~= Multiset::empty());
            assert(out@.to_multiset() =~= all.to_multiset());
        }
        out
    }
}

impl User {
    /// The users in ascending order of creation, users without a creation time first; users
    /// created at the same time keep their order.
    pub fn sort_by_created(v: Vec<UserResponse>) -> (r: Vec<UserResponse>)
        ensures
            users_sorted(r@),
            r@.to_multiset() == v@.to_multiset(),
    {
        let ghost all = v@;
        let mut input = v;
        let mut out: Vec<UserResponse> = Vec::new();
        while input.len() > 0
            invariant
                users_sorted(out@),
                out@.to_multiset().add(input@.to_multiset()) == all.to_multiset(),
            decreases input@.len(),
        {
            let ghost before = input@;
            let x = input.remove(0);
            proof {
                vstd::seq_lib::to_multiset_remove(before, 0);
            }
            let mut j: usize = 0;
            while j < out.len() && created_le_exec(out[j].created_at, x.created_at)
                invariant
                    j <= out@.len(),
                    forall|k: int| 0 <= k < j ==> created_le(out@[k].created_at, x.created_at),
                decreases out@.len() - j,
            {
                j = j + 1;
            }
            let ghost prev = out@;
            out.insert(j, x);
            proof {
                vstd::seq_lib::to_multiset_insert(prev, j as int, x);
                assert forall|a: int, b: int| 0 <= a < b < out@.len() implies created_le(
                    out@[a].created_at,
                    out@[b].created_at,
                ) by {
                    if b == j as int {
                    } else if a == j as int {
                        assert(created_le(prev[j as int].created_at, prev[b - 1].created_at) || b
                            - 1 == j);
                    }
                }
                assert(out@.to_multiset().add(input@.to_multiset()) =~= all.to_multiset());
            }
        }
        proof {
            assert(input@.to_multiset() =~= Multiset::empty());
            assert(out@.to_multiset() =~= all.to_multiset());
        }
        out
    }

    /// The `limit` most recently created users, newest first (all of them when `limit` is
    /// negative).
    pub fn most_recent(v: Vec<UserResponse>, limit: i64) -> (r: Vec<UserResponse>)
        ensures
            r@.len() == if limit < 0 || limit as int >= v@.len() {
                v@.len() as int
            } else {
                limit as int
            },
            forall|i: int, j: int| 0 <= i < j < r@.len() ==> created_le(r@[j].created_at, r@[i].created_at),
            forall|i: int| 0 <= i < r@.len() ==> v@.contains(#[trigger] r@[i]),
    {
        let ghost vv = v@;
        let sorted = User::sort_by_created(v);
        let n = sorted.len();
        proof {
            vstd::seq_lib::to_multiset_len(vv);
            vstd::seq_lib::to_multiset_len(sorted@);
        }
        let take: usize = if limit < 0 || limit as u64 >= n as u64 {
            n
        } else {
            limit as usize
        };
        let mut sorted = sorted;
        let mut r: Vec<UserResponse> = Vec::new();
        let ghost s = sorted@;
        proof {
            assert forall|k: int| 0 <= k < s.len() implies v@.contains(#[trigger] s[k]) by {
                assert(s.to_multiset().count(s[k]) > 0);
            }
        }
        while r.len() < take
            invariant
                take <= n == s.len(),
                r@.len() <= take,
                sorted@ == s.subrange(0, n - r@.len()),
                forall|i: int| 0 <= i < r@.len() ==> r@[i] == s[n - 1 - i],
            decreases take - r@.len(),
        {
            let x = sorted.pop().unwrap();
            r.push(x);
        }
        proof {
            assert forall|i: int, j: int| 0 <= i < j < r@.len() implies created_le(
                r@[j].created_at,
                r@[i].created_at,
            ) by {
                assert(r@[j] == s[n - 1 - j] && r@[i] == s[n - 1 - i]);
            }
            assert forall|i: int| 0 <= i < r@.len() implies v@.contains(#[trigger] r@[i]) by {
                assert(r@[i] == s[n - 1 - i]);
            }
        }
        r
    }
}

} // verus!

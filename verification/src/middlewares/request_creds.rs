use std::sync::Arc;
use vstd::prelude::*;

use super::session_entity::{Claim, SessionEntity};
use crate::date_time::DateTimeAsMicroseconds;
use crate::http::{permissions_of, Permission, RequestClaim, RequestCredentials};

verus! {

/// The credentials that a resolved session lends to a request.
#[derive(Debug)]
pub struct TradingPlatformRequestCredentials {
    pub session_entity: Arc<SessionEntity>,
}

/// The permission that a stored claim stands for: its name and its expiry,
/// bound to no address.
pub open spec fn permission_of(claim: Claim) -> Permission {
    Permission { id: claim.name, expires: claim.expires, restricted: false }
}

/// The permissions that a list of stored claims stands for, one for each
/// claim, in the order of the list.
pub open spec fn permissions_granted(claims: Seq<Claim>) -> Seq<Permission> {
    claims.map_values(|claim: Claim| permission_of(claim))
}

/// What a session lends does not hang on the order of its claims: two lists
/// that hold the same claims, each as often as the other, stand for the same
/// permissions, each as often as the other.
pub proof fn lemma_permissions_ignore_order(a: Seq<Claim>, b: Seq<Claim>)
    requires
        a.to_multiset() == b.to_multiset(),
    ensures
        permissions_granted(a).to_multiset() == permissions_granted(b).to_multiset(),
    decreases a.len(),
{
    broadcast use vstd::seq_lib::group_to_multiset_ensures;

    a.to_multiset_ensures();
    b.to_multiset_ensures();
    if a.len() == 0 {
        assert(b.len() == 0);
        assert(permissions_granted(a) == permissions_granted(b));
    } else {
        let last = a.last();
        let front = a.drop_last();
        assert(a == front.push(last));
        assert(a[a.len() - 1] == last);
        assert(a.contains(last));
        assert(a.to_multiset().count(last) > 0);
        assert(b.to_multiset().count(last) > 0);
        assert(b.contains(last));
        let i = choose|i: int| 0 <= i < b.len() && b[i] == last;
        let rest = b.remove(i);
        front.to_multiset_ensures();
        permissions_granted(b).to_multiset_ensures();
        assert(front.to_multiset() == rest.to_multiset()) by {
            assert(a.to_multiset() == front.to_multiset().insert(last));
            assert(front.to_multiset() == a.to_multiset().remove(last));
        }
        lemma_permissions_ignore_order(front, rest);
        assert(permissions_granted(a) == permissions_granted(front).push(permission_of(last)));
        assert(permissions_granted(b).remove(i) == permissions_granted(rest));
        assert(permissions_granted(b)[i] == permission_of(last));
        assert(permissions_granted(b).to_multiset() == permissions_granted(rest).to_multiset().insert(
            permission_of(last),
        )) by {
            assert(permissions_granted(b).to_multiset().count(permission_of(last)) > 0);
        }
    }
}

impl TradingPlatformRequestCredentials {
    pub fn new(session_entity: Arc<SessionEntity>) -> (credentials: Self)
        ensures
            credentials.session_entity == session_entity,
    {
        Self { session_entity }
    }
}

impl RequestCredentials for TradingPlatformRequestCredentials {
    /// The identity is the trader of the session.
    open spec fn identity(&self) -> Seq<char> {
        self.session_entity@.trader_id
    }

    /// One permission for each claim of the session, in the stored order.
    open spec fn permissions(&self) -> Option<Seq<Permission>> {
        match self.session_entity@.claims {
            Some(claims) => Some(permissions_granted(claims)),
            None => None,
        }
    }

    fn get_id(&self) -> (id: &str) {
        self.session_entity.trader_id.as_str()
    }

    fn get_claims<'s>(&'s self) -> (claims: Option<Vec<RequestClaim<'s>>>) {
        let session_claims = match &self.session_entity.claims {
            Some(claims) => claims,
            None => {
                return None;
            },
        };
        let mut result: Vec<RequestClaim<'s>> = Vec::new();
        let mut i: usize = 0;
        while i < session_claims.len()
            invariant
                i <= session_claims@.len(),
                result@.len() == i,
                forall|k: int|
                    0 <= k < i ==> (#[trigger] result@[k])@ == permission_of(session_claims@[k]@),
            decreases session_claims@.len() - i,
        {
            let session_claim = &session_claims[i];
            result.push(
                RequestClaim {
                    id: session_claim.name.as_str(),
                    expires: DateTimeAsMicroseconds::new(session_claim.expires),
                    allowed_ips: None,
                },
            );
            i += 1;
        }
        assert(permissions_of(result@) == self.permissions().unwrap());
        Some(result)
    }
}

} // verus!

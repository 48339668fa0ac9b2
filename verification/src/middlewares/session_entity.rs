use vstd::prelude::*;

use crate::date_time::DateTimeAsMicroseconds;

verus! {

/// A permission granted within a session, with an expiry of its own.
#[derive(Debug, Clone)]
pub struct SessionClaim {
    pub name: String,
    pub expires: i64,
    pub ip: Option<String>,
}

/// What a claim holds, as plain values.
pub ghost struct Claim {
    pub name: Seq<char>,
    pub expires: int,
    pub ip: Option<Seq<char>>,
}

/// The characters of a string that may be absent.
pub open spec fn text_of(text: Option<String>) -> Option<Seq<char>> {
    match text {
        Some(text) => Some(text@),
        None => None,
    }
}

impl View for SessionClaim {
    type V = Claim;

    open spec fn view(&self) -> Claim {
        Claim { name: self.name@, expires: self.expires as int, ip: text_of(self.ip) }
    }
}

/// The claims of a list, each as plain values, in the order of the list.
pub open spec fn claims_of(list: Seq<SessionClaim>) -> Seq<Claim> {
    list.map_values(|claim: SessionClaim| claim@)
}

/// The record that the session store keeps for one session token.
#[derive(Debug, Clone)]
pub struct SessionEntity {
    pub partition_key: String,
    pub row_key: String,
    pub expires: DateTimeAsMicroseconds,
    pub trader_id: String,
    pub claims: Option<Vec<SessionClaim>>,
    pub country: Option<String>,
    pub ip: Option<String>,
    pub user_agent: Option<String>,
}

/// What a session holds, as plain values.
pub ghost struct Session {
    pub partition_key: Seq<char>,
    pub row_key: Seq<char>,
    pub expires: int,
    pub trader_id: Seq<char>,
    pub claims: Option<Seq<Claim>>,
    pub country: Option<Seq<char>>,
    pub ip: Option<Seq<char>>,
    pub user_agent: Option<Seq<char>>,
}

impl View for SessionEntity {
    type V = Session;

    open spec fn view(&self) -> Session {
        Session {
            partition_key: self.partition_key@,
            row_key: self.row_key@,
            expires: self.expires.unix_microseconds as int,
            trader_id: self.trader_id@,
            claims: match self.claims {
                Some(list) => Some(claims_of(list@)),
                None => None,
            },
            country: text_of(self.country),
            ip: text_of(self.ip),
            user_agent: text_of(self.user_agent),
        }
    }
}

/// The claims of a list that go by another name than `name`, in their order.
pub open spec fn without_name(list: Seq<Claim>, name: Seq<char>) -> Seq<Claim> {
    list.filter(|claim: Claim| claim.name != name)
}

/// The claims after `claim` was set: those that went by its name are gone,
/// the others stay in their order, and `claim` stands last.
pub open spec fn with_claim(claims: Option<Seq<Claim>>, claim: Claim) -> Seq<Claim> {
    match claims {
        Some(list) => without_name(list, claim.name).push(claim),
        None => seq![claim],
    }
}

/// How many claims of a list go by `name`.
pub open spec fn count_named(list: Seq<Claim>, name: Seq<char>) -> nat {
    list.filter(|claim: Claim| claim.name == name).len()
}

/// No two claims of a list share a name.
pub open spec fn names_unique(list: Seq<Claim>) -> bool {
    forall|i: int, j: int|
        0 <= i < j < list.len() ==> (#[trigger] list[i]).name != (#[trigger] list[j]).name
}

impl Session {
    /// The claims of the session are a map by name: no name occurs twice.
    pub open spec fn well_formed(self) -> bool {
        match self.claims {
            Some(list) => names_unique(list),
            None => true,
        }
    }
}

impl SessionEntity {
    /// The partition that holds every session.
    pub const PARTITION_KEY: &'static str = "t";

    /// The partition key under which sessions are looked up.
    pub fn get_pk() -> (key: &'static str)
        ensures
            key@ == Self::PARTITION_KEY@,
    {
        Self::PARTITION_KEY
    }

    /// The session token, which is the row key of the record.
    pub fn get_session_token(&self) -> (token: &str)
        ensures
            token@ == self@.row_key,
    {
        self.row_key.as_str()
    }

    /// Moves the end of the session to `new_expiration`.
    pub fn extend_expiration(&mut self, new_expiration: DateTimeAsMicroseconds)
        ensures
            final(self)@ == (Session {
                expires: new_expiration.unix_microseconds as int,
                ..old(self)@
            }),
    {
        self.expires = new_expiration;
    }

    /// Grants the claim `name` until `expires`. A claim that the session
    /// held under that name is replaced, the others are kept in their order.
    pub fn set_claim(&mut self, name: String, expires: DateTimeAsMicroseconds, ip: Option<String>)
        ensures
            final(self)@ == (Session {
                claims: Some(
                    with_claim(
                        old(self)@.claims,
                        Claim {
                            name: name@,
                            expires: expires.unix_microseconds as int,
                            ip: text_of(ip),
                        },
                    ),
                ),
                ..old(self)@
            }),
            old(self)@.well_formed() ==> final(self)@.well_formed(),
    {
        let ghost granted = Claim {
            name: name@,
            expires: expires.unix_microseconds as int,
            ip: text_of(ip),
        };
        proof {
            lemma_set_claim_upserts(old(self)@.claims, granted);
        }
        let ghost other = |claim: Claim| claim.name != name@;
        let mut claims = match self.claims.take() {
            Some(claims) => claims,
            None => {
                let mut claims: Vec<SessionClaim> = Vec::new();
                claims.push(SessionClaim { name, expires: expires.unix_microseconds, ip });
                assert(claims_of(claims@) == seq![granted]);
                self.claims = Some(claims);
                return ;
            },
        };
        let ghost before = claims_of(claims@);
        let mut i: usize = claims.len();
        assert(before.take(i as int) == before);
        assert(before.skip(i as int) == Seq::<Claim>::empty());
        while i > 0
            invariant
                i <= claims@.len(),
                other == |claim: Claim| claim.name != name@,
                before.filter(other) == claims_of(claims@).take(i as int).filter(other)
                    + claims_of(claims@).skip(i as int),
            decreases i,
        {
            let ghost list = claims_of(claims@);
            i -= 1;
            proof {
                assert(list.take(i + 1) == list.take(i as int).push(list[i as int]));
                list.take(i as int).lemma_filter_push(list[i as int], other);
            }
            if claims[i].name == name {
                claims.remove(i);
                proof {
                    let after = claims_of(claims@);
                    assert(after.take(i as int) == list.take(i as int));
                    assert(after.skip(i as int) == list.skip(i + 1));
                }
            } else {
                proof {
                    assert(list.take(i as int).filter(other).push(list[i as int]) + list.skip(
                        i + 1,
                    ) == list.take(i as int).filter(other) + list.skip(i as int));
                }
            }
        }
        proof {
            let kept = claims_of(claims@);
            assert(kept.take(0).filter(other) == Seq::<Claim>::empty()) by {
                reveal(Seq::filter);
            }
            assert(kept.skip(0) == kept);
            assert(before.filter(other) == kept);
        }
        let ghost kept_list = claims@;
        claims.push(SessionClaim { name, expires: expires.unix_microseconds, ip });
        assert(claims_of(claims@) == claims_of(kept_list).push(granted));
        self.claims = Some(claims);
    }
}

/// A filter that no element passes leaves nothing.
proof fn lemma_filter_none<A>(list: Seq<A>, pred: spec_fn(A) -> bool)
    requires
        forall|i: int| 0 <= i < list.len() ==> !pred(#[trigger] list[i]),
    ensures
        list.filter(pred) == Seq::<A>::empty(),
    decreases list.len(),
{
    reveal(Seq::filter);
    if list.len() > 0 {
        assert(!pred(list[list.len() - 1]));
        assert forall|i: int| 0 <= i < list.drop_last().len() implies !pred(
            #[trigger] list.drop_last()[i],
        ) by {
            assert(list.drop_last()[i] == list[i]);
        }
        lemma_filter_none(list.drop_last(), pred);
    }
}

/// A filter that every element passes changes nothing.
proof fn lemma_filter_all<A>(list: Seq<A>, pred: spec_fn(A) -> bool)
    requires
        forall|i: int| 0 <= i < list.len() ==> pred(#[trigger] list[i]),
    ensures
        list.filter(pred) == list,
    decreases list.len(),
{
    reveal(Seq::filter);
    if list.len() > 0 {
        assert(pred(list[list.len() - 1]));
        assert forall|i: int| 0 <= i < list.drop_last().len() implies pred(
            #[trigger] list.drop_last()[i],
        ) by {
            assert(list.drop_last()[i] == list[i]);
        }
        lemma_filter_all(list.drop_last(), pred);
        assert(list.drop_last().push(list.last()) == list);
    }
}

/// What is left of a list after a filter is taken from the list, and where
/// the list had no name twice, neither has what is left.
proof fn lemma_filter_keeps_unique(list: Seq<Claim>, pred: spec_fn(Claim) -> bool)
    ensures
        forall|k: int|
            0 <= k < list.filter(pred).len() ==> list.contains(#[trigger] list.filter(pred)[k]),
        names_unique(list) ==> names_unique(list.filter(pred)),
    decreases list.len(),
{
    reveal(Seq::filter);
    if list.len() > 0 {
        let front = list.drop_last();
        let last = list.last();
        lemma_filter_keeps_unique(front, pred);
        let kept = front.filter(pred);
        assert forall|k: int| 0 <= k < kept.len() implies list.contains(#[trigger] kept[k]) by {
            assert(front.contains(kept[k]));
            let i = choose|i: int| 0 <= i < front.len() && front[i] == kept[k];
            assert(list[i] == kept[k]);
        }
        assert(list[list.len() - 1] == last);
        if names_unique(list) {
            assert(names_unique(front)) by {
                assert forall|i: int, j: int| 0 <= i < j < front.len() implies (
                #[trigger] front[i]).name != (#[trigger] front[j]).name by {
                    assert(front[i] == list[i] && front[j] == list[j]);
                }
            }
            if pred(last) {
                let all = kept.push(last);
                assert forall|i: int, j: int| 0 <= i < j < all.len() implies (
                #[trigger] all[i]).name != (#[trigger] all[j]).name by {
                    if j < kept.len() {
                        assert(all[i] == kept[i] && all[j] == kept[j]);
                    } else {
                        assert(all[i] == kept[i]);
                        assert(front.contains(kept[i]));
                        let m = choose|m: int| 0 <= m < front.len() && front[m] == kept[i];
                        assert(list[m] == kept[i]);
                        assert(list[m].name != list[list.len() - 1].name);
                    }
                }
            }
        }
    }
}

/// Setting a claim is an upsert by name: afterwards the claim stands last,
/// it is the only one of its name, and the session holds no name twice if it
/// held none twice before.
pub proof fn lemma_set_claim_upserts(claims: Option<Seq<Claim>>, claim: Claim)
    ensures
        with_claim(claims, claim).len() > 0,
        with_claim(claims, claim).last() == claim,
        count_named(with_claim(claims, claim), claim.name) == 1,
        forall|i: int|
            0 <= i < with_claim(claims, claim).len() - 1 ==> (#[trigger] with_claim(
                claims,
                claim,
            )[i]).name != claim.name,
        (claims matches Some(list) ==> names_unique(list)) ==> names_unique(
            with_claim(claims, claim),
        ),
{
    let same = |other: Claim| other.name == claim.name;
    let differs = |other: Claim| other.name != claim.name;
    let kept = match claims {
        Some(list) => without_name(list, claim.name),
        None => Seq::<Claim>::empty(),
    };
    let all = with_claim(claims, claim);
    assert(all == kept.push(claim));
    assert forall|i: int| 0 <= i < kept.len() implies !same(#[trigger] kept[i]) by {
        let list = claims.unwrap();
        list.lemma_filter_pred(differs, i);
    }
    lemma_filter_none(kept, same);
    kept.lemma_filter_push(claim, same);
    assert forall|i: int| 0 <= i < all.len() - 1 implies (#[trigger] all[i]).name
        != claim.name by {
        assert(all[i] == kept[i]);
        assert(!same(kept[i]));
    }
    if claims is Some && names_unique(claims.unwrap()) {
        lemma_filter_keeps_unique(claims.unwrap(), differs);
        assert forall|i: int, j: int| 0 <= i < j < all.len() implies (#[trigger] all[i]).name != (
        #[trigger] all[j]).name by {
            if j < kept.len() {
                assert(all[i] == kept[i] && all[j] == kept[j]);
            } else {
                assert(all[i] == kept[i]);
                assert(!same(kept[i]));
            }
        }
    }
}

/// Setting a claim twice under one name leaves what setting the second alone
/// would have left: one claim of that name, with the second expiry.
pub proof fn lemma_set_claim_twice(claims: Option<Seq<Claim>>, first: Claim, second: Claim)
    requires
        first.name == second.name,
    ensures
        with_claim(Some(with_claim(claims, first)), second) == with_claim(claims, second),
        count_named(with_claim(Some(with_claim(claims, first)), second), second.name) == 1,
        with_claim(Some(with_claim(claims, first)), second).last().expires == second.expires,
{
    let differs = |other: Claim| other.name != second.name;
    let kept = match claims {
        Some(list) => without_name(list, first.name),
        None => Seq::<Claim>::empty(),
    };
    assert(with_claim(claims, first) == kept.push(first));
    assert forall|i: int| 0 <= i < kept.len() implies differs(#[trigger] kept[i]) by {
        let list = claims.unwrap();
        list.lemma_filter_pred(differs, i);
    }
    lemma_filter_all(kept, differs);
    kept.lemma_filter_push(first, differs);
    assert(without_name(kept.push(first), second.name) == kept);
    lemma_set_claim_upserts(claims, second);
}

/// Setting a claim leaves the claims of every other name as they were.
pub proof fn lemma_set_claim_keeps_others(claims: Option<Seq<Claim>>, claim: Claim, name: Seq<char>)
    requires
        name != claim.name,
    ensures
        without_name(with_claim(claims, claim), claim.name) == match claims {
            Some(list) => without_name(list, claim.name),
            None => Seq::<Claim>::empty(),
        },
        count_named(with_claim(claims, claim), name) == match claims {
            Some(list) => count_named(list, name),
            None => 0,
        },
{
    let differs = |other: Claim| other.name != claim.name;
    let named = |other: Claim| other.name == name;
    let kept = match claims {
        Some(list) => without_name(list, claim.name),
        None => Seq::<Claim>::empty(),
    };
    assert(with_claim(claims, claim) == kept.push(claim));
    assert forall|i: int| 0 <= i < kept.len() implies differs(#[trigger] kept[i]) by {
        let list = claims.unwrap();
        list.lemma_filter_pred(differs, i);
    }
    lemma_filter_all(kept, differs);
    kept.lemma_filter_push(claim, differs);
    kept.lemma_filter_push(claim, named);
    match claims {
        Some(list) => {
            lemma_filter_twice(list, differs, named);
        },
        None => {
            lemma_filter_none(kept, named);
        },
    }
}

/// Where every element that passes `inner` passes `outer` too, filtering by
/// `outer` first does not change what `inner` lets through.
proof fn lemma_filter_twice<A>(list: Seq<A>, outer: spec_fn(A) -> bool, inner: spec_fn(A) -> bool)
    requires
        forall|a: A| #[trigger] inner(a) ==> outer(a),
    ensures
        list.filter(outer).filter(inner) == list.filter(inner),
    decreases list.len(),
{
    reveal(Seq::filter);
    if list.len() > 0 {
        lemma_filter_twice(list.drop_last(), outer, inner);
        if outer(list.last()) {
            list.drop_last().filter(outer).lemma_filter_push(list.last(), inner);
        }
    }
}

} // verus!

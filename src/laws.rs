use vstd::prelude::*;

use crate::registry::{
    spec_admin, spec_get_attrs, spec_initialize, spec_mint, spec_owner_of, spec_transfer,
    spec_update_attrs, RegistryView,
};
use crate::types::{AttrsView, Error};

verus! {

/// One issuance request: who authorized it, the recipient, and the payload.
pub struct MintCall {
    pub signed: Seq<Seq<char>>,
    pub to: Seq<char>,
    pub attrs: AttrsView,
}

/// The state and the results after issuing `calls` one after another.
pub open spec fn spec_mint_all(v: RegistryView, calls: Seq<MintCall>) -> (RegistryView, Seq<
    Result<u128, Error>,
>)
    decreases calls.len(),
{
    if calls.len() == 0 {
        (v, Seq::empty())
    } else {
        let (w, rs) = spec_mint_all(v, calls.drop_last());
        let c = calls.last();
        let (w2, r) = spec_mint(w, c.signed, c.to, c.attrs);
        (w2, rs.push(r))
    }
}

/// Over any sequence of issuance calls, the ids handed out are at least 1 and
/// strictly increasing, so never repeat; when every call succeeds they are
/// exactly the next `calls.len()` numbers after those already issued (from a
/// fresh registry: 1, 2, 3, ...).
pub proof fn lemma_mint_ids_consecutive(v: RegistryView, calls: Seq<MintCall>)
    requires
        v.wf(),
        v.owners.len() + calls.len() < u128::MAX,
    ensures
        ({
            let (w, rs) = spec_mint_all(v, calls);
            &&& rs.len() == calls.len()
            &&& w.wf()
            &&& v.owners.len() <= w.owners.len() <= v.owners.len() + calls.len()
            &&& forall|i: int|
                0 <= i < rs.len() && (#[trigger] rs[i]) is Ok ==> 1 <= rs[i]->Ok_0 <= w.owners.len()
            &&& forall|i: int, j: int|
                0 <= i < j < rs.len() && (#[trigger] rs[i]) is Ok && (#[trigger] rs[j]) is Ok
                    ==> rs[i]->Ok_0 < rs[j]->Ok_0
            &&& (forall|i: int| 0 <= i < rs.len() ==> (#[trigger] rs[i]) is Ok) ==> {
                &&& w.owners.len() == v.owners.len() + calls.len()
                &&& forall|i: int|
                    0 <= i < rs.len() ==> #[trigger] rs[i] == Ok::<u128, Error>(
                        (v.owners.len() + i + 1) as u128,
                    )
            }
        }),
    decreases calls.len(),
{
    if calls.len() > 0 {
        let prefix = calls.drop_last();
        lemma_mint_ids_consecutive(v, prefix);
        let (w, rs) = spec_mint_all(v, prefix);
        let c = calls.last();
        let (w2, r) = spec_mint(w, c.signed, c.to, c.attrs);
        let rs2 = rs.push(r);
        assert(spec_mint_all(v, calls) == (w2, rs2));
        assert forall|i: int| 0 <= i < rs2.len() && (#[trigger] rs2[i]) is Ok implies 1
            <= rs2[i]->Ok_0 <= w2.owners.len() by {
            if i < rs.len() {
                assert(rs2[i] == rs[i]);
            }
        }
        assert forall|i: int, j: int|
            0 <= i < j < rs2.len() && (#[trigger] rs2[i]) is Ok && (#[trigger] rs2[j]) is Ok
                implies rs2[i]->Ok_0 < rs2[j]->Ok_0 by {
            assert(rs2[i] == rs[i]);
            if j < rs.len() {
                assert(rs2[j] == rs[j]);
            }
        }
        if forall|i: int| 0 <= i < rs2.len() ==> (#[trigger] rs2[i]) is Ok {
            assert forall|i: int| 0 <= i < rs.len() implies (#[trigger] rs[i]) is Ok by {
                assert(rs2[i] == rs[i]);
            }
            assert(rs2[rs.len() as int] == r);
            assert forall|i: int| 0 <= i < rs2.len() implies #[trigger] rs2[i] == Ok::<
                u128,
                Error,
            >((v.owners.len() + i + 1) as u128) by {
                if i < rs.len() {
                    assert(rs2[i] == rs[i]);
                }
            }
        }
    }
}

/// Issuance writes owner and payload together: a failed issuance changes
/// nothing, so the id it would have assigned has neither owner nor payload; a
/// successful one gives the new id both the recipient and the payload.
pub proof fn lemma_mint_atomic(v: RegistryView, signed: Seq<Seq<char>>, to: Seq<char>, a: AttrsView)
    requires
        v.wf(),
    ensures
        ({
            let (w, r) = spec_mint(v, signed, to, a);
            &&& r is Err ==> {
                &&& w == v
                &&& spec_owner_of(w, v.next_id()) is None
                &&& spec_get_attrs(w, v.next_id()) == Err::<AttrsView, Error>(Error::TokenNotFound)
            }
            &&& r is Ok ==> {
                &&& r->Ok_0 == v.next_id()
                &&& spec_owner_of(w, r->Ok_0) == Some(to)
                &&& spec_get_attrs(w, r->Ok_0) == Ok::<AttrsView, Error>(a)
            }
        }),
{
}

/// An update by anyone other than the record's owner fails with `NotOwner`
/// and leaves the stored payload as it was.
pub proof fn lemma_update_by_non_owner(
    v: RegistryView,
    signed: Seq<Seq<char>>,
    caller: Seq<char>,
    id: u128,
    a: AttrsView,
)
    requires
        v.wf(),
        spec_owner_of(v, id) is Some,
        spec_owner_of(v, id) != Some(caller),
    ensures
        ({
            let (w, r) = spec_update_attrs(v, signed, caller, id, a);
            &&& r == Err::<(), Error>(Error::NotOwner)
            &&& spec_get_attrs(w, id) == spec_get_attrs(v, id)
            &&& w == v
        }),
{
}

/// A transfer whose `from` is not the record's owner fails with `NotOwner`
/// and leaves the stored owner as it was.
pub proof fn lemma_transfer_by_non_owner(
    v: RegistryView,
    signed: Seq<Seq<char>>,
    from: Seq<char>,
    to: Seq<char>,
    id: u128,
)
    requires
        v.wf(),
        spec_owner_of(v, id) is Some,
        spec_owner_of(v, id) != Some(from),
    ensures
        ({
            let (w, r) = spec_transfer(v, signed, from, to, id);
            &&& r == Err::<(), Error>(Error::NotOwner)
            &&& spec_owner_of(w, id) == spec_owner_of(v, id)
            &&& w == v
        }),
{
}

/// After a successful transfer to someone else, the record belongs to `to`,
/// and the previous owner can neither update nor transfer it again, whoever
/// authorizes those calls.
pub proof fn lemma_transfer_hands_over(
    v: RegistryView,
    signed: Seq<Seq<char>>,
    from: Seq<char>,
    to: Seq<char>,
    id: u128,
    later_signed: Seq<Seq<char>>,
    a: AttrsView,
    next_to: Seq<char>,
)
    requires
        v.wf(),
        spec_transfer(v, signed, from, to, id).1 is Ok,
        from != to,
    ensures
        ({
            let w = spec_transfer(v, signed, from, to, id).0;
            &&& w.wf()
            &&& spec_owner_of(w, id) == Some(to)
            &&& spec_update_attrs(w, later_signed, from, id, a).1 == Err::<(), Error>(
                Error::NotOwner,
            )
            &&& spec_transfer(w, later_signed, from, next_to, id).1 == Err::<(), Error>(
                Error::NotOwner,
            )
        }),
{
}

/// For an id that was never issued, reading the payload fails with
/// `TokenNotFound` while asking for the owner gives no owner.
pub proof fn lemma_never_issued(v: RegistryView, id: u128)
    requires
        v.wf(),
        !v.issued(id),
    ensures
        spec_get_attrs(v, id) == Err::<AttrsView, Error>(Error::TokenNotFound),
        spec_owner_of(v, id) is None,
{
}

/// A second initialization, with any values, reports that nothing was done
/// and keeps the administrator, name and symbol stored by the first.
pub proof fn lemma_initialize_once(
    v: RegistryView,
    admin1: Seq<char>,
    name1: Seq<char>,
    symbol1: Seq<char>,
    admin2: Seq<char>,
    name2: Seq<char>,
    symbol2: Seq<char>,
)
    requires
        v.wf(),
    ensures
        ({
            let (w1, first) = spec_initialize(v, admin1, name1, symbol1);
            let (w2, second) = spec_initialize(w1, admin2, name2, symbol2);
            &&& !second
            &&& w2 == w1
            &&& spec_admin(w2) == spec_admin(w1)
            &&& v.meta is None ==> first && spec_admin(w2) == Ok::<Seq<char>, Error>(admin1)
                && w2.meta == Some(
                crate::registry::MetadataView { admin: admin1, name: name1, symbol: symbol1 },
            )
        }),
{
}

/// Once the registry is initialized, no operation changes its administrator,
/// name or symbol.
pub proof fn lemma_metadata_fixed(
    v: RegistryView,
    signed: Seq<Seq<char>>,
    who: Seq<char>,
    to: Seq<char>,
    id: u128,
    a: AttrsView,
    admin: Seq<char>,
    name: Seq<char>,
    symbol: Seq<char>,
)
    requires
        v.wf(),
        v.meta is Some,
    ensures
        spec_initialize(v, admin, name, symbol).0.meta == v.meta,
        spec_mint(v, signed, to, a).0.meta == v.meta,
        spec_update_attrs(v, signed, who, id, a).0.meta == v.meta,
        spec_transfer(v, signed, who, to, id).0.meta == v.meta,
{
}

} // verus!

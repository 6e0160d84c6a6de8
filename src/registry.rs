use vstd::prelude::*;

use crate::types::{Address, AttrsView, Error, VaccineAttrs};

verus! {

/// Administrator identity and metadata, set once by initialization.
pub struct Metadata {
    pub admin: Address,
    pub name: String,
    pub symbol: String,
}

pub struct MetadataView {
    pub admin: Seq<char>,
    pub name: Seq<char>,
    pub symbol: Seq<char>,
}

impl View for Metadata {
    type V = MetadataView;

    open spec fn view(&self) -> MetadataView {
        MetadataView { admin: self.admin@, name: self.name@, symbol: self.symbol@ }
    }
}

/// The abstract state of the registry. Record `id` (counting from 1) is
/// owned by `owners[id - 1]` and carries the payload `attrs[id - 1]`; the
/// next record to be issued gets `owners.len() + 1`.
pub struct RegistryView {
    pub meta: Option<MetadataView>,
    pub owners: Seq<Seq<char>>,
    pub attrs: Seq<AttrsView>,
}

impl RegistryView {
    /// Every issued record has an owner and a payload, records exist only
    /// once the registry is initialized, and ids fit in a `u128`.
    pub open spec fn wf(self) -> bool {
        &&& self.owners.len() == self.attrs.len()
        &&& self.owners.len() < u128::MAX
        &&& self.meta is None ==> self.owners.len() == 0
    }

    pub open spec fn issued(self, id: u128) -> bool {
        1 <= id <= self.owners.len()
    }

    pub open spec fn next_id(self) -> u128 {
        (self.owners.len() + 1) as u128
    }
}

/// The identities, as text, that authorized the current call.
pub open spec fn signers(auth: Seq<Address>) -> Seq<Seq<char>> {
    auth.map_values(|a: Address| a@)
}

pub open spec fn authorized(signed: Seq<Seq<char>>, who: Seq<char>) -> bool {
    signed.contains(who)
}

pub open spec fn spec_admin(v: RegistryView) -> Result<Seq<char>, Error> {
    match v.meta {
        Some(m) => Ok(m.admin),
        None => Err(Error::Uninitialized),
    }
}

pub open spec fn spec_owner_of(v: RegistryView, id: u128) -> Option<Seq<char>> {
    if v.issued(id) {
        Some(v.owners[id - 1])
    } else {
        None
    }
}

pub open spec fn spec_get_attrs(v: RegistryView, id: u128) -> Result<AttrsView, Error> {
    if v.issued(id) {
        Ok(v.attrs[id - 1])
    } else {
        Err(Error::TokenNotFound)
    }
}

/// The first initialization stores the administrator and metadata and
/// starts the id counter at zero; any later one changes nothing.
pub open spec fn spec_initialize(
    v: RegistryView,
    admin: Seq<char>,
    name: Seq<char>,
    symbol: Seq<char>,
) -> (RegistryView, bool) {
    match v.meta {
        Some(_) => (v, false),
        None => (
            RegistryView {
                meta: Some(MetadataView { admin, name, symbol }),
                owners: Seq::empty(),
                attrs: Seq::empty(),
            },
            true,
        ),
    }
}

/// The call must be authorized by the stored administrator.
pub open spec fn spec_admin_check(v: RegistryView, signed: Seq<Seq<char>>) -> Result<(), Error> {
    match v.meta {
        None => Err(Error::Uninitialized),
        Some(m) => if authorized(signed, m.admin) {
            Ok(())
        } else {
            Err(Error::Unauthorized)
        },
    }
}

/// The record must exist, `claimed` must be its owner, and the call must be
/// authorized by `claimed`; checked in that order.
pub open spec fn spec_owner_check(
    v: RegistryView,
    signed: Seq<Seq<char>>,
    claimed: Seq<char>,
    id: u128,
) -> Result<(), Error> {
    if !v.issued(id) {
        Err(Error::TokenNotFound)
    } else if v.owners[id - 1] != claimed {
        Err(Error::NotOwner)
    } else if !authorized(signed, claimed) {
        Err(Error::Unauthorized)
    } else {
        Ok(())
    }
}

pub open spec fn spec_mint(
    v: RegistryView,
    signed: Seq<Seq<char>>,
    to: Seq<char>,
    a: AttrsView,
) -> (RegistryView, Result<u128, Error>) {
    match spec_admin_check(v, signed) {
        Err(e) => (v, Err(e)),
        Ok(_) => (
            RegistryView { owners: v.owners.push(to), attrs: v.attrs.push(a), ..v },
            Ok(v.next_id()),
        ),
    }
}

pub open spec fn spec_update_attrs(
    v: RegistryView,
    signed: Seq<Seq<char>>,
    caller: Seq<char>,
    id: u128,
    a: AttrsView,
) -> (RegistryView, Result<(), Error>) {
    match spec_owner_check(v, signed, caller, id) {
        Err(e) => (v, Err(e)),
        Ok(_) => (RegistryView { attrs: v.attrs.update(id - 1, a), ..v }, Ok(())),
    }
}

pub open spec fn spec_transfer(
    v: RegistryView,
    signed: Seq<Seq<char>>,
    from: Seq<char>,
    to: Seq<char>,
    id: u128,
) -> (RegistryView, Result<(), Error>) {
    match spec_owner_check(v, signed, from, id) {
        Err(e) => (v, Err(e)),
        Ok(_) => (RegistryView { owners: v.owners.update(id - 1, to), ..v }, Ok(())),
    }
}

pub open spec fn meta_view(m: Option<Metadata>) -> Option<MetadataView> {
    match m {
        Some(m) => Some(m@),
        None => None,
    }
}

pub open spec fn address_option_view(r: Option<Address>) -> Option<Seq<char>> {
    match r {
        Some(a) => Some(a@),
        None => None,
    }
}

pub open spec fn address_result_view(r: Result<Address, Error>) -> Result<Seq<char>, Error> {
    match r {
        Ok(a) => Ok(a@),
        Err(e) => Err(e),
    }
}

pub open spec fn attrs_result_view(r: Result<VaccineAttrs, Error>) -> Result<AttrsView, Error> {
    match r {
        Ok(a) => Ok(a@),
        Err(e) => Err(e),
    }
}

/// Whether `who` is among the identities that authorized the call.
pub fn is_authorized(auth: &Vec<Address>, who: &Address) -> (r: bool)
    ensures
        r == authorized(signers(auth@), who@),
{
    let mut i: usize = 0;
    while i < auth.len()
        invariant
            0 <= i <= auth@.len(),
            forall|j: int| 0 <= j < i ==> auth@[j]@ != who@,
        decreases auth@.len() - i,
    {
        if auth[i].same_as(who) {
            assert(signers(auth@)[i as int] == who@);
            return true;
        }
        i = i + 1;
    }
    assert forall|k: int| 0 <= k < signers(auth@).len() implies signers(auth@)[k] != who@ by {
        assert(auth@[k]@ != who@);
    }
    false
}

} // verus!

use vstd::prelude::*;

use crate::registry::{
    address_option_view, address_result_view, attrs_result_view, is_authorized, signers,
    spec_admin, spec_admin_check, spec_get_attrs, spec_initialize, spec_mint, spec_owner_check,
    spec_owner_of, spec_transfer, spec_update_attrs, meta_view, Metadata, RegistryView,
};
use crate::types::{Address, AttrsView, Error, VaccineAttrs};

verus! {

/// The registry store: administrator metadata, the ownership table and the
/// attribute store. Record `id` lives at index `id - 1` of both tables, so
/// ids are handed out densely from 1 and the two tables always have the same
/// length.
pub struct VaccineNftContract {
    meta: Option<Metadata>,
    owners: Vec<Address>,
    attrs: Vec<VaccineAttrs>,
}

impl View for VaccineNftContract {
    type V = RegistryView;

    closed spec fn view(&self) -> RegistryView {
        RegistryView {
            meta: meta_view(self.meta),
            owners: self.owners@.map_values(|a: Address| a@),
            attrs: self.attrs@.map_values(|a: VaccineAttrs| a@),
        }
    }
}

impl VaccineNftContract {
    /// An empty, uninitialized registry.
    pub fn new() -> (r: VaccineNftContract)
        ensures
            r@ == (RegistryView { meta: None, owners: Seq::empty(), attrs: Seq::empty() }),
            r@.wf(),
    {
        let r = VaccineNftContract { meta: None, owners: Vec::new(), attrs: Vec::new() };
        assert(r@.owners =~= Seq::empty());
        assert(r@.attrs =~= Seq::empty());
        r
    }

    /// Rebuilds a registry from its stored parts: the metadata, and the owner
    /// and payload of records 1, 2, ... in order. Refused (`None`) when the
    /// two tables differ in length or records exist without metadata.
    pub fn from_parts(meta: Option<Metadata>, owners: Vec<Address>, attrs: Vec<VaccineAttrs>) -> (r:
        Option<VaccineNftContract>)
        ensures
            r is Some <==> (owners@.len() == attrs@.len() && (meta is None ==> owners@.len()
                == 0)),
            r is Some ==> r->0@ == (RegistryView {
                meta: meta_view(meta),
                owners: owners@.map_values(|a: Address| a@),
                attrs: attrs@.map_values(|a: VaccineAttrs| a@),
            }) && r->0@.wf(),
    {
        if owners.len() != attrs.len() || (meta.is_none() && owners.len() != 0) {
            return None;
        }
        Some(VaccineNftContract { meta, owners, attrs })
    }

    /// Stores the administrator, name and symbol if the registry has not
    /// been initialized yet, and reports whether it did; a registry that is
    /// already initialized is left as it is.
    pub fn initialize(&mut self, admin: Address, name: String, symbol: String) -> (r: bool)
        requires
            old(self)@.wf(),
        ensures
            (final(self)@, r) == spec_initialize(old(self)@, admin@, name@, symbol@),
            final(self)@.wf(),
    {
        if self.meta.is_some() {
            return false;
        }
        self.meta = Some(Metadata { admin, name, symbol });
        assert(self@.owners =~= Seq::empty());
        assert(self@.attrs =~= Seq::empty());
        true
    }

    /// The stored administrator.
    pub fn admin(&self) -> (r: Result<Address, Error>)
        ensures
            address_result_view(r) == spec_admin(self@),
    {
        match &self.meta {
            Some(m) => Ok(m.admin.duplicate()),
            None => Err(Error::Uninitialized),
        }
    }

    /// The registry's name.
    pub fn name(&self) -> (r: Result<String, Error>)
        ensures
            match r {
                Ok(s) => self@.meta is Some && s@ == self@.meta->0.name,
                Err(e) => self@.meta is None && e == Error::Uninitialized,
            },
    {
        match &self.meta {
            Some(m) => Ok(m.name.clone()),
            None => Err(Error::Uninitialized),
        }
    }

    /// The registry's symbol.
    pub fn symbol(&self) -> (r: Result<String, Error>)
        ensures
            match r {
                Ok(s) => self@.meta is Some && s@ == self@.meta->0.symbol,
                Err(e) => self@.meta is None && e == Error::Uninitialized,
            },
    {
        match &self.meta {
            Some(m) => Ok(m.symbol.clone()),
            None => Err(Error::Uninitialized),
        }
    }

    /// The number of records issued so far, which is also the last id issued.
    pub fn issued_count(&self) -> (r: u128)
        requires
            self@.wf(),
        ensures
            r == self@.owners.len(),
    {
        self.owners.len() as u128
    }

    /// The owner of record `token_id`, or `None` if it was never issued.
    pub fn owner_of(&self, token_id: u128) -> (r: Option<Address>)
        requires
            self@.wf(),
        ensures
            address_option_view(r) == spec_owner_of(self@, token_id),
    {
        if token_id == 0 || token_id > self.owners.len() as u128 {
            return None;
        }
        let i: usize = (token_id - 1) as usize;
        Some(self.owners[i].duplicate())
    }

    /// The payload of record `token_id`.
    pub fn get_attrs(&self, token_id: u128) -> (r: Result<VaccineAttrs, Error>)
        requires
            self@.wf(),
        ensures
            attrs_result_view(r) == spec_get_attrs(self@, token_id),
    {
        if token_id == 0 || token_id > self.attrs.len() as u128 {
            return Err(Error::TokenNotFound);
        }
        let i: usize = (token_id - 1) as usize;
        Ok(self.attrs[i].duplicate())
    }

    /// Demands that the stored administrator authorized the call.
    pub fn require_admin(&self, auth: &Vec<Address>) -> (r: Result<(), Error>)
        ensures
            r == spec_admin_check(self@, signers(auth@)),
    {
        match &self.meta {
            None => Err(Error::Uninitialized),
            Some(m) => if is_authorized(auth, &m.admin) {
                Ok(())
            } else {
                Err(Error::Unauthorized)
            },
        }
    }

    /// Demands that record `token_id` exists, that `claimed` owns it, and that
    /// `claimed` authorized the call.
    pub fn require_owner(&self, auth: &Vec<Address>, claimed: &Address, token_id: u128) -> (r:
        Result<(), Error>)
        requires
            self@.wf(),
        ensures
            r == spec_owner_check(self@, signers(auth@), claimed@, token_id),
    {
        if token_id == 0 || token_id > self.owners.len() as u128 {
            return Err(Error::TokenNotFound);
        }
        let i: usize = (token_id - 1) as usize;
        if !self.owners[i].same_as(claimed) {
            return Err(Error::NotOwner);
        }
        if !is_authorized(auth, claimed) {
            return Err(Error::Unauthorized);
        }
        Ok(())
    }

    /// Issues a new record to `to` with the given payload, on the
    /// administrator's authorization, and returns its id. Ids are handed out
    /// as 1, 2, 3, ...; on failure nothing is written.
    pub fn mint_with_attrs(
        &mut self,
        auth: &Vec<Address>,
        to: Address,
        vaccine_name: String,
        batch: String,
        exp_date: u64,
        taken_date: u64,
    ) -> (r: Result<u128, Error>)
        requires
            old(self)@.wf(),
        ensures
            (final(self)@, r) == spec_mint(
                old(self)@,
                signers(auth@),
                to@,
                AttrsView { name: vaccine_name@, batch: batch@, exp_date, taken_date },
            ),
            final(self)@.wf(),
    {
        match self.require_admin(auth) {
            Err(e) => return Err(e),
            Ok(()) => {},
        }
        let n: usize = self.owners.len();
        let id: u128 = n as u128 + 1;
        let attrs = VaccineAttrs::new(vaccine_name, batch, exp_date, taken_date);
        let ghost before = self@;
        self.owners.push(to);
        self.attrs.push(attrs);
        assert(self@.owners =~= before.owners.push(to@));
        assert(self@.attrs =~= before.attrs.push(attrs@));
        Ok(id)
    }

    /// Replaces the whole payload of record `token_id`; only its owner may,
    /// with their authorization. On failure nothing is written.
    pub fn update_attrs(
        &mut self,
        auth: &Vec<Address>,
        caller: Address,
        token_id: u128,
        vaccine_name: String,
        batch: String,
        exp_date: u64,
        taken_date: u64,
    ) -> (r: Result<(), Error>)
        requires
            old(self)@.wf(),
        ensures
            (final(self)@, r) == spec_update_attrs(
                old(self)@,
                signers(auth@),
                caller@,
                token_id,
                AttrsView { name: vaccine_name@, batch: batch@, exp_date, taken_date },
            ),
            final(self)@.wf(),
    {
        match self.require_owner(auth, &caller, token_id) {
            Err(e) => return Err(e),
            Ok(()) => {},
        }
        let n: usize = self.owners.len();
        assert(1 <= token_id <= n);
        let i: usize = (token_id - 1) as usize;
        let attrs = VaccineAttrs::new(vaccine_name, batch, exp_date, taken_date);
        let ghost before = self@;
        self.attrs[i] = attrs;
        assert(self@.attrs =~= before.attrs.update(i as int, attrs@));
        assert(self@.owners =~= before.owners);
        Ok(())
    }

    /// Hands record `token_id` from `from`, its owner, to `to`, on the
    /// authorization of `from`. On failure nothing is written.
    pub fn transfer(&mut self, auth: &Vec<Address>, from: Address, to: Address, token_id: u128) -> (r:
        Result<(), Error>)
        requires
            old(self)@.wf(),
        ensures
            (final(self)@, r) == spec_transfer(old(self)@, signers(auth@), from@, to@, token_id),
            final(self)@.wf(),
    {
        match self.require_owner(auth, &from, token_id) {
            Err(e) => return Err(e),
            Ok(()) => {},
        }
        let n: usize = self.owners.len();
        assert(1 <= token_id <= n);
        let i: usize = (token_id - 1) as usize;
        let ghost before = self@;
        self.owners[i] = to;
        assert(self@.owners =~= before.owners.update(i as int, to@));
        assert(self@.attrs =~= before.attrs);
        Ok(())
    }
}

} // verus!

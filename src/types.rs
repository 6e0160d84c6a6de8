use vstd::prelude::*;

verus! {

/// An identity that can own records or administer the registry, written in
/// its textual (strkey) form.
pub struct Address {
    pub strkey: String,
}

impl View for Address {
    type V = Seq<char>;

    open spec fn view(&self) -> Seq<char> {
        self.strkey@
    }
}

impl Address {
    pub fn new(strkey: String) -> (r: Address)
        ensures
            r@ == strkey@,
    {
        Address { strkey }
    }

    /// Whether two addresses denote the same identity.
    pub fn same_as(&self, other: &Address) -> (r: bool)
        ensures
            r == (self@ == other@),
    {
        self.strkey == other.strkey
    }

    /// A second copy of this address.
    pub fn duplicate(&self) -> (r: Address)
        ensures
            r@ == self@,
    {
        Address { strkey: self.strkey.clone() }
    }
}

/// The vaccine record payload kept for each issued record.
pub struct VaccineAttrs {
    pub name: String,
    pub batch: String,
    pub exp_date: u64,
    pub taken_date: u64,
}

/// The mathematical value of a payload.
pub struct AttrsView {
    pub name: Seq<char>,
    pub batch: Seq<char>,
    pub exp_date: u64,
    pub taken_date: u64,
}

impl View for VaccineAttrs {
    type V = AttrsView;

    open spec fn view(&self) -> AttrsView {
        AttrsView {
            name: self.name@,
            batch: self.batch@,
            exp_date: self.exp_date,
            taken_date: self.taken_date,
        }
    }
}

impl VaccineAttrs {
    pub fn new(name: String, batch: String, exp_date: u64, taken_date: u64) -> (r: VaccineAttrs)
        ensures
            r@ == (AttrsView { name: name@, batch: batch@, exp_date, taken_date }),
    {
        VaccineAttrs { name, batch, exp_date, taken_date }
    }

    /// A second copy of this payload.
    pub fn duplicate(&self) -> (r: VaccineAttrs)
        ensures
            r@ == self@,
    {
        VaccineAttrs {
            name: self.name.clone(),
            batch: self.batch.clone(),
            exp_date: self.exp_date,
            taken_date: self.taken_date,
        }
    }
}

/// Why a registry operation was refused.
#[derive(Clone, Copy, Debug, PartialEq, Eq, Structural)]
pub enum Error {
    /// No record exists at the given id.
    TokenNotFound,
    /// The claimed caller is not the record's owner.
    NotOwner,
    /// Reserved for administrator-only operations; no operation raises it.
    NotAdmin,
    /// The registry has not been initialized.
    Uninitialized,
    /// The identity that must approve the call did not authorize it.
    Unauthorized,
}

} // verus!

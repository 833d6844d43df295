use vstd::prelude::*;

verus! {

/// An amount of CCD, counted in micro CCD.
#[derive(Clone, Copy, Debug, PartialEq, Eq, Structural)]
pub struct Amount {
    pub micro_ccd: u64,
}

/// The address of an account: 32 bytes.
#[derive(Clone, Copy, Debug, Eq)]
pub struct AccountAddress(pub [u8; 32]);

/// The address of a contract instance.
#[derive(Clone, Copy, Debug, PartialEq, Eq, Structural)]
pub struct ContractAddress {
    pub index: u64,
    pub subindex: u64,
}

/// The identity of a caller: an account or a contract instance.
#[derive(Clone, Copy, Debug, Eq)]
pub enum Address {
    Account(AccountAddress),
    Contract(ContractAddress),
}

impl AccountAddress {
    /// Compares the two addresses byte by byte.
    pub fn same_as(&self, other: &AccountAddress) -> (r: bool)
        ensures
            r == (*self == *other),
    {
        let mut i: usize = 0;
        while i < 32
            invariant
                i <= 32,
                forall|j: int| 0 <= j < i ==> self.0[j] == other.0[j],
            decreases 32 - i,
        {
            if self.0[i] != other.0[i] {
                return false;
            }
            i = i + 1;
        }
        proof {
            broadcast use vstd::array::group_array_axioms;
            assert(self.0 =~= other.0);
        }
        true
    }
}

impl PartialEq for AccountAddress {
    fn eq(&self, other: &AccountAddress) -> (r: bool) {
        self.same_as(other)
    }
}

impl vstd::std_specs::cmp::PartialEqSpecImpl for AccountAddress {
    open spec fn obeys_eq_spec() -> bool {
        true
    }

    open spec fn eq_spec(&self, other: &AccountAddress) -> bool {
        *self == *other
    }
}

impl Address {
    /// Whether the two identities are the same.
    pub fn same_as(&self, other: &Address) -> (r: bool)
        ensures
            r == (*self == *other),
    {
        match (self, other) {
            (Address::Account(a), Address::Account(b)) => a.same_as(b),
            (Address::Contract(a), Address::Contract(b)) => a.index == b.index && a.subindex
                == b.subindex,
            _ => false,
        }
    }
}

impl PartialEq for Address {
    fn eq(&self, other: &Address) -> (r: bool) {
        self.same_as(other)
    }
}

impl vstd::std_specs::cmp::PartialEqSpecImpl for Address {
    open spec fn obeys_eq_spec() -> bool {
        true
    }

    open spec fn eq_spec(&self, other: &Address) -> bool {
        *self == *other
    }
}

/// Whether `a` occurs in `v`.
pub fn contains_address(v: &Vec<Address>, a: &Address) -> (r: bool)
    ensures
        r == v@.contains(*a),
{
    let mut i: usize = 0;
    while i < v.len()
        invariant
            i <= v@.len(),
            forall|j: int| 0 <= j < i ==> v@[j] != *a,
        decreases v@.len() - i,
    {
        if v[i].same_as(a) {
            return true;
        }
        i = i + 1;
    }
    false
}

/// A copy of `v`, element by element.
pub fn copy_addresses(v: &Vec<Address>) -> (r: Vec<Address>)
    ensures
        r@ == v@,
{
    let mut out: Vec<Address> = Vec::new();
    let mut i: usize = 0;
    while i < v.len()
        invariant
            i <= v@.len(),
            out@ == v@.subrange(0, i as int),
        decreases v@.len() - i,
    {
        out.push(v[i]);
        i = i + 1;
    }
    assert(v@.subrange(0, v@.len() as int) =~= v@);
    out
}

} // verus!

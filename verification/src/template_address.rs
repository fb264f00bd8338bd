//! The identifier of a ledger template: a fixed 32-byte value, carried here
//! as plain bytes so that the codecs and settings logic over it can be
//! verified. Its canonical text form is lowercase hex.

use crate::serialization::{spec_hex_encode, serialize_hex};
use vstd::prelude::*;

verus! {

/// A 32-byte template identifier.
#[derive(Debug)]
pub struct TemplateAddress {
    bytes: Vec<u8>,
}

impl View for TemplateAddress {
    type V = Seq<u8>;

    closed spec fn view(&self) -> Seq<u8> {
        self.bytes@
    }
}

impl TemplateAddress {
    #[verifier::type_invariant]
    spec fn type_inv(self) -> bool {
        self.bytes@.len() == 32
    }

    /// Every address holds exactly 32 bytes.
    pub open spec fn wf(self) -> bool {
        self@.len() == 32
    }

    /// Builds an address from its raw bytes; exactly the 32-byte vectors are
    /// accepted.
    pub fn try_from_vec(bytes: Vec<u8>) -> (r: Option<TemplateAddress>)
        ensures
            r is Some <==> bytes@.len() == 32,
            r matches Some(t) ==> t@ == bytes@,
    {
        if bytes.len() == 32 {
            Some(TemplateAddress { bytes })
        } else {
            None
        }
    }

    /// The raw bytes of the address.
    pub fn as_bytes(&self) -> (r: &[u8])
        ensures
            r@ == self@,
            self@.len() == 32,
    {
        proof {
            use_type_invariant(self);
        }
        self.bytes.as_slice()
    }

    /// The canonical text form: 64 lowercase hex digits.
    pub fn to_hex(&self) -> (r: String)
        ensures
            r@ == spec_hex_encode(self@),
            self@.len() == 32,
    {
        serialize_hex(self.as_bytes())
    }
}

impl Clone for TemplateAddress {
    fn clone(&self) -> (r: TemplateAddress)
        ensures
            r@ == self@,
    {
        proof {
            use_type_invariant(self);
        }
        TemplateAddress { bytes: vstd::slice::slice_to_vec(self.bytes.as_slice()) }
    }
}

impl PartialEq for TemplateAddress {
    fn eq(&self, other: &TemplateAddress) -> (r: bool) {
        let mut i: usize = 0;
        proof {
            use_type_invariant(self);
            use_type_invariant(other);
        }
        while i < 32
            invariant
                self@.len() == 32,
                other@.len() == 32,
                i <= 32,
                forall|j: int| 0 <= j < i ==> self@[j] == other@[j],
            decreases 32 - i,
        {
            if self.bytes[i] != other.bytes[i] {
                return false;
            }
            i += 1;
        }
        proof {
            assert(self@ =~= other@);
        }
        true
    }
}

impl vstd::std_specs::cmp::PartialEqSpecImpl for TemplateAddress {
    open spec fn obeys_eq_spec() -> bool {
        true
    }

    open spec fn eq_spec(&self, other: &TemplateAddress) -> bool {
        self@ == other@
    }
}

} // verus!

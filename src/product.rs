use vstd::prelude::*;
use crate::code::{classify, classifies_as, code_of, supported_len, Code};

verus! {

/// A product of the catalogue: its classified barcode and its name.
#[derive(Debug, Clone)]
pub struct Product {
    pub barcode: Code,
    pub name: String,
}

/// One product as the configuration lists it, before classification.
#[derive(Debug, Clone)]
pub struct ConfigProduct {
    pub barcode: String,
    pub name: String,
}

impl Product {
    /// The barcode agrees with its symbology and `p` came from `code` and `name`.
    pub open spec fn made_from(&self, code: Seq<char>, name: Seq<char>) -> bool {
        &&& self.barcode.wf()
        &&& classifies_as(code, self.barcode)
        &&& self.name@ == name
    }

    /// Builds a product from a raw barcode, whose length must be one that a
    /// supported symbology uses, and a name.
    pub fn new(code: String, name: String) -> (p: Product)
        requires
            supported_len(code@.len() as int),
        ensures
            p.made_from(code@, name@),
            p.barcode == code_of(code),
            p.name == name,
    {
        match classify(code) {
            Ok(barcode) => Product { barcode, name },
            Err(_) => vstd::pervasive::unreached(),
        }
    }
}

} // verus!

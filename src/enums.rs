use vstd::prelude::*;

verus! {

/// Settlement and regulatory classification of a monetary unit.
#[allow(non_camel_case_types, clippy::upper_case_acronyms)]
#[derive(Clone, Copy, Debug, PartialEq, Eq, Structural, Hash)]
pub enum CurrencyType {
    CRYPTO,
    FIAT,
}

} // verus!

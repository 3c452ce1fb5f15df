use crate::enums::CurrencyType;
use vstd::prelude::*;
use vstd::std_specs::cmp::PartialEqSpec;

verus! {

/// The mathematical content of a `Currency`: its five fields, with the
/// owned strings seen as character sequences.
pub struct CurrencyModel {
    pub code: Seq<char>,
    pub precision: u8,
    pub iso4217: u16,
    pub name: Seq<char>,
    pub currency_type: CurrencyType,
}

/// The model of the value built from the given arguments.
pub open spec fn currency_model(
    code: Seq<char>,
    precision: u8,
    iso4217: u16,
    name: Seq<char>,
    currency_type: CurrencyType,
) -> CurrencyModel {
    CurrencyModel { code, precision, iso4217, name, currency_type }
}

/// An immutable descriptor of a monetary unit, fiat or crypto.
///
/// Equality and hashing are structural over all five fields.
#[derive(Hash, Debug)]
pub struct Currency {
    pub code: Box<String>,
    pub precision: u8,
    pub iso4217: u16,
    pub name: Box<String>,
    pub currency_type: CurrencyType,
}

impl View for Currency {
    type V = CurrencyModel;

    open spec fn view(&self) -> CurrencyModel {
        currency_model(self.code@, self.precision, self.iso4217, self.name@, self.currency_type)
    }
}

impl Currency {
    /// Builds a currency whose fields are exactly the arguments, with `code`
    /// and `name` copied into storage owned by the new value.
    pub fn new(
        code: &str,
        precision: u8,
        iso4217: u16,
        name: &str,
        currency_type: CurrencyType,
    ) -> (r: Currency)
        ensures
            r@ == currency_model(code@, precision, iso4217, name@, currency_type),
    {
        Currency {
            code: Box::new(code.to_string()),
            precision,
            iso4217,
            name: Box::new(name.to_string()),
            currency_type,
        }
    }
}

impl PartialEq for Currency {
    /// Structural equality: every field is compared.
    fn eq(&self, other: &Currency) -> (r: bool)
        ensures
            r == (self@ == other@),
    {
        *self.code == *other.code && self.precision == other.precision && self.iso4217
            == other.iso4217 && *self.name == *other.name && self.currency_type
            == other.currency_type
    }
}

impl vstd::std_specs::cmp::PartialEqSpecImpl for Currency {
    open spec fn obeys_eq_spec() -> bool {
        true
    }

    open spec fn eq_spec(&self, other: &Currency) -> bool {
        self@ == other@
    }
}

impl Eq for Currency {
}

impl Clone for Currency {
    /// A copy with storage of its own and the same field values.
    fn clone(&self) -> (r: Currency)
        ensures
            r@ == self@,
    {
        Currency {
            code: Box::new((*self.code).clone()),
            precision: self.precision,
            iso4217: self.iso4217,
            name: Box::new((*self.name).clone()),
            currency_type: self.currency_type,
        }
    }
}

/// Equality of currencies is an equivalence relation: reflexive, symmetric
/// and transitive.
pub proof fn lemma_eq_equivalence(a: Currency, b: Currency, c: Currency)
    ensures
        a.eq_spec(&a),
        a.eq_spec(&b) ==> b.eq_spec(&a),
        a.eq_spec(&b) && b.eq_spec(&c) ==> a.eq_spec(&c),
{
}

/// Two currencies built from the same arguments, by two separate calls of
/// `Currency::new`, are equal.
pub proof fn lemma_same_arguments_equal(
    a: Currency,
    b: Currency,
    code: Seq<char>,
    precision: u8,
    iso4217: u16,
    name: Seq<char>,
    currency_type: CurrencyType,
)
    requires
        a@ == currency_model(code, precision, iso4217, name, currency_type),
        b@ == currency_model(code, precision, iso4217, name, currency_type),
    ensures
        a.eq_spec(&b),
{
}

/// Two currencies are equal exactly when all five fields are: a difference in
/// any single field, the others held fixed, makes them unequal.
pub proof fn lemma_eq_every_field(a: Currency, b: Currency)
    ensures
        a.eq_spec(&b) <==> (a.code@ == b.code@ && a.precision == b.precision && a.iso4217
            == b.iso4217 && a.name@ == b.name@ && a.currency_type == b.currency_type),
        a.code@ != b.code@ ==> !a.eq_spec(&b),
        a.precision != b.precision ==> !a.eq_spec(&b),
        a.iso4217 != b.iso4217 ==> !a.eq_spec(&b),
        a.name@ != b.name@ ==> !a.eq_spec(&b),
        a.currency_type != b.currency_type ==> !a.eq_spec(&b),
{
}

} // verus!

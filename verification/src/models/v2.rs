//! Records of the second version of the data model. All of them are known by a global id of their
//! own.
use vstd::prelude::*;

use crate::seq_facts::lemma_common_prefix;
use crate::unique_constraints::{
    lemma_single_constraints, share_a_constraint, UniqueConstraints,
};

verus! {

/// A payment that a merchant intends to take.
#[derive(Debug, Clone, PartialEq, Eq)]
pub struct PaymentIntent {
    /// The global id, as text.
    pub id: String,
}

impl UniqueConstraints for PaymentIntent {
    open spec fn constraints(&self) -> Seq<Seq<char>> {
        seq![self.id@]
    }

    open spec fn table(&self) -> Seq<char> {
        "PaymentIntent"@
    }

    fn unique_constraints(&self) -> (constraints: Vec<String>) {
        let constraints = vec![self.id.clone()];
        assert(constraints.deep_view() =~= self.constraints());
        constraints
    }

    fn table_name(&self) -> (name: &str) {
        "PaymentIntent"
    }
}

/// A payment intent claims exactly one text, whatever its ids: it is the id, letter for letter.
pub proof fn law_payment_intent_claims_one_text(a: PaymentIntent)
    ensures
        a.constraints().len() == 1,
        ({
            let text = a.constraints()[0];
            &&& text.len() == a.id@.len()
            &&& forall|i: int| 0 <= i < text.len() ==> text[i] == a.id@[i]
        }),
{
}

/// Two payment intents claim the same constraint exactly if they have the same id.
pub proof fn law_payment_intent_is_known_by_its_id(a: PaymentIntent, b: PaymentIntent)
    ensures
        a.constraints() == b.constraints() <==> a.id@ == b.id@,
        share_a_constraint(a.constraints(), b.constraints()) <==> a.constraints()
            == b.constraints(),
{
    lemma_single_constraints(a.constraints(), b.constraints());
    assert(a.constraints()[0] == b.constraints()[0] ==> a.constraints() =~= b.constraints());
}

/// A stored payment method.
#[derive(Debug, Clone, PartialEq, Eq)]
pub struct PaymentMethod {
    /// The global id, as text.
    pub id: String,
}

impl UniqueConstraints for PaymentMethod {
    open spec fn constraints(&self) -> Seq<Seq<char>> {
        seq![self.id@]
    }

    open spec fn table(&self) -> Seq<char> {
        "PaymentMethod"@
    }

    fn unique_constraints(&self) -> (constraints: Vec<String>) {
        let constraints = vec![self.id.clone()];
        assert(constraints.deep_view() =~= self.constraints());
        constraints
    }

    fn table_name(&self) -> (name: &str) {
        "PaymentMethod"
    }
}

/// A payment method claims exactly one text, whatever its ids: it is the id, letter for letter.
pub proof fn law_payment_method_claims_one_text(a: PaymentMethod)
    ensures
        a.constraints().len() == 1,
        ({
            let text = a.constraints()[0];
            &&& text.len() == a.id@.len()
            &&& forall|i: int| 0 <= i < text.len() ==> text[i] == a.id@[i]
        }),
{
}

/// Two payment methods claim the same constraint exactly if they have the same id.
pub proof fn law_payment_method_is_known_by_its_id(a: PaymentMethod, b: PaymentMethod)
    ensures
        a.constraints() == b.constraints() <==> a.id@ == b.id@,
        share_a_constraint(a.constraints(), b.constraints()) <==> a.constraints()
            == b.constraints(),
{
    lemma_single_constraints(a.constraints(), b.constraints());
    assert(a.constraints()[0] == b.constraints()[0] ==> a.constraints() =~= b.constraints());
}

/// A customer.
#[derive(Debug, Clone, PartialEq, Eq)]
pub struct Customer {
    /// The global id, as text.
    pub id: String,
}

impl UniqueConstraints for Customer {
    open spec fn constraints(&self) -> Seq<Seq<char>> {
        seq!["customer_"@ + self.id@]
    }

    open spec fn table(&self) -> Seq<char> {
        "Customer"@
    }

    fn unique_constraints(&self) -> (constraints: Vec<String>) {
        let constraints = vec!["customer_".to_string().concat(self.id.as_str())];
        assert(constraints.deep_view() =~= self.constraints());
        constraints
    }

    fn table_name(&self) -> (name: &str) {
        "Customer"
    }
}

/// A customer claims exactly one text, whatever its ids: it begins with `customer_` and ends with
/// the id.
pub proof fn law_customer_claims_one_text(a: Customer)
    ensures
        a.constraints().len() == 1,
        ({
            let text = a.constraints()[0];
            let n = "customer_"@.len() as int;
            &&& text.len() == n + a.id@.len()
            &&& text.take(n) == "customer_"@
            &&& text.skip(n) == a.id@
        }),
{
    reveal_strlit("customer_");
    let text = a.constraints()[0];
    let n = "customer_"@.len() as int;
    assert(text.take(n) =~= "customer_"@);
    assert(text.skip(n) =~= a.id@);
}

/// Two customers claim the same constraint exactly if they have the same id.
pub proof fn law_customer_is_known_by_its_id(a: Customer, b: Customer)
    ensures
        a.constraints() == b.constraints() <==> a.id@ == b.id@,
        share_a_constraint(a.constraints(), b.constraints()) <==> a.constraints()
            == b.constraints(),
{
    lemma_single_constraints(a.constraints(), b.constraints());
    lemma_common_prefix("customer_"@, a.id@, b.id@);
    assert(a.constraints()[0] == b.constraints()[0] ==> a.constraints() =~= b.constraints());
}

} // verus!

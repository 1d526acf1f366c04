//! Records of the first version of the data model. All but payment methods, which are known by an
//! id of their own, are identified together with their merchant.
use vstd::prelude::*;

use crate::joined::{
    alike_when_joined, joined, law_joined_names, lemma_joined_behind_prefix, runs_over,
};
use crate::seq_facts::{lemma_common_prefix, lemma_common_suffix, lemma_four_parts};
use crate::unique_constraints::{
    lemma_single_constraints, share_a_constraint, UniqueConstraints,
};

verus! {

/// A payment that a merchant intends to take.
#[derive(Debug, Clone, PartialEq, Eq)]
pub struct PaymentIntent {
    /// The id of the merchant, as text.
    pub merchant_id: String,
    /// The id of the payment, as text.
    pub payment_id: String,
}

impl UniqueConstraints for PaymentIntent {
    open spec fn constraints(&self) -> Seq<Seq<char>> {
        seq!["pi_"@ + self.merchant_id@ + "_"@ + self.payment_id@]
    }

    open spec fn table(&self) -> Seq<char> {
        "PaymentIntent"@
    }

    fn unique_constraints(&self) -> (constraints: Vec<String>) {
        let constraint = "pi_".to_string()
            .concat(self.merchant_id.as_str())
            .concat("_")
            .concat(self.payment_id.as_str());
        let constraints = vec![constraint];
        assert(constraints.deep_view() =~= self.constraints());
        constraints
    }

    fn table_name(&self) -> (name: &str) {
        "PaymentIntent"
    }
}

/// A payment intent claims exactly one text, whatever its ids: it begins with `pi_`, goes on with
/// the merchant's id and one `_`, and ends with the payment's id.
pub proof fn law_payment_intent_claims_one_text(a: PaymentIntent)
    ensures
        a.constraints().len() == 1,
        ({
            let text = a.constraints()[0];
            let start = "pi_"@.len() as int;
            let middle = start + a.merchant_id@.len();
            &&& text.len() == middle + 1 + a.payment_id@.len()
            &&& text.take(start) == "pi_"@
            &&& text.subrange(start, middle) == a.merchant_id@
            &&& text[middle] == '_'
            &&& text.skip(middle + 1) == a.payment_id@
        }),
{
    reveal_strlit("_");
    let middle = ("pi_"@.len() + a.merchant_id@.len()) as int;
    lemma_four_parts("pi_"@, a.merchant_id@, "_"@, a.payment_id@);
    assert(a.constraints()[0].subrange(middle, middle + 1)[0] == '_');
}

/// Two payment intents of one merchant claim the same constraint exactly if they have the same
/// payment id.
pub proof fn law_payment_intent_is_known_within_its_merchant(a: PaymentIntent, b: PaymentIntent)
    requires
        a.merchant_id@ == b.merchant_id@,
    ensures
        a.constraints() == b.constraints() <==> a.payment_id@ == b.payment_id@,
{
    lemma_common_prefix("pi_"@ + a.merchant_id@ + "_"@, a.payment_id@, b.payment_id@);
    assert(a.constraints()[0] == b.constraints()[0] ==> a.constraints() =~= b.constraints());
}

/// Any two payment intents claim the same constraint exactly if they have the same ids, or ids that
/// cannot be told apart once they are joined.
pub proof fn law_payment_intents_with_one_constraint(a: PaymentIntent, b: PaymentIntent)
    ensures
        a.constraints() == b.constraints() <==> alike_when_joined(
            a.merchant_id@,
            a.payment_id@,
            b.merchant_id@,
            b.payment_id@,
        ),
        share_a_constraint(a.constraints(), b.constraints()) <==> a.constraints()
            == b.constraints(),
{
    lemma_single_constraints(a.constraints(), b.constraints());
    lemma_joined_behind_prefix(
        "pi_"@,
        a.merchant_id@,
        a.payment_id@,
        b.merchant_id@,
        b.payment_id@,
    );
}

/// An attempt at a payment.
#[derive(Debug, Clone, PartialEq, Eq)]
pub struct PaymentAttempt {
    /// The id of the merchant, as text.
    pub merchant_id: String,
    /// The id of the payment, as text.
    pub payment_id: String,
    /// The id of the attempt.
    pub attempt_id: String,
}

impl UniqueConstraints for PaymentAttempt {
    open spec fn constraints(&self) -> Seq<Seq<char>> {
        seq!["pa_"@ + self.merchant_id@ + "_"@ + self.payment_id@ + "_"@ + self.attempt_id@]
    }

    open spec fn table(&self) -> Seq<char> {
        "PaymentAttempt"@
    }

    fn unique_constraints(&self) -> (constraints: Vec<String>) {
        let constraint = "pa_".to_string()
            .concat(self.merchant_id.as_str())
            .concat("_")
            .concat(self.payment_id.as_str())
            .concat("_")
            .concat(self.attempt_id.as_str());
        let constraints = vec![constraint];
        assert(constraints.deep_view() =~= self.constraints());
        constraints
    }

    fn table_name(&self) -> (name: &str) {
        "PaymentAttempt"
    }
}

/// A payment attempt claims exactly one text, whatever its ids: it begins with `pa_` and has the
/// merchant's id, the payment's id and the attempt's id in this order, with one `_` between two of
/// them.
pub proof fn law_payment_attempt_claims_one_text(a: PaymentAttempt)
    ensures
        a.constraints().len() == 1,
        ({
            let text = a.constraints()[0];
            let start = "pa_"@.len() as int;
            let after_merchant = start + a.merchant_id@.len();
            let after_payment = after_merchant + 1 + a.payment_id@.len();
            &&& text.len() == after_payment + 1 + a.attempt_id@.len()
            &&& text.take(start) == "pa_"@
            &&& text.subrange(start, after_merchant) == a.merchant_id@
            &&& text[after_merchant] == '_'
            &&& text.subrange(after_merchant + 1, after_payment) == a.payment_id@
            &&& text[after_payment] == '_'
            &&& text.skip(after_payment + 1) == a.attempt_id@
        }),
{
    reveal_strlit("_");
    let text = a.constraints()[0];
    let start = "pa_"@.len() as int;
    let after_merchant = start + a.merchant_id@.len();
    let after_payment = after_merchant + 1 + a.payment_id@.len();
    assert(text.take(start) =~= "pa_"@);
    assert(text.subrange(start, after_merchant) =~= a.merchant_id@);
    assert(text.subrange(after_merchant + 1, after_payment) =~= a.payment_id@);
    assert(text.skip(after_payment + 1) =~= a.attempt_id@);
}

/// Two attempts at one payment of one merchant claim the same constraint exactly if they have the
/// same attempt id.
pub proof fn law_payment_attempt_is_known_within_its_payment(a: PaymentAttempt, b: PaymentAttempt)
    requires
        a.merchant_id@ == b.merchant_id@,
        a.payment_id@ == b.payment_id@,
    ensures
        a.constraints() == b.constraints() <==> a.attempt_id@ == b.attempt_id@,
{
    lemma_common_prefix(
        "pa_"@ + a.merchant_id@ + "_"@ + a.payment_id@ + "_"@,
        a.attempt_id@,
        b.attempt_id@,
    );
    assert(a.constraints()[0] == b.constraints()[0] ==> a.constraints() =~= b.constraints());
}

/// Any two payment attempts claim the same constraint exactly if they have the same ids, or ids
/// that cannot be told apart once they are joined: those of the payment and the attempt, or that
/// of the merchant and the two others.
pub proof fn law_payment_attempts_with_one_constraint(a: PaymentAttempt, b: PaymentAttempt)
    ensures
        a.constraints() == b.constraints() <==> {
            let rest = joined(a.payment_id@, a.attempt_id@);
            let other_rest = joined(b.payment_id@, b.attempt_id@);
            ||| a.merchant_id@ == b.merchant_id@ && alike_when_joined(
                a.payment_id@,
                a.attempt_id@,
                b.payment_id@,
                b.attempt_id@,
            )
            ||| runs_over(a.merchant_id@, rest, b.merchant_id@, other_rest)
            ||| runs_over(b.merchant_id@, other_rest, a.merchant_id@, rest)
        },
        share_a_constraint(a.constraints(), b.constraints()) <==> a.constraints()
            == b.constraints(),
{
    lemma_single_constraints(a.constraints(), b.constraints());
    let rest = joined(a.payment_id@, a.attempt_id@);
    let other_rest = joined(b.payment_id@, b.attempt_id@);
    law_joined_names(a.payment_id@, a.attempt_id@, b.payment_id@, b.attempt_id@);
    lemma_joined_behind_prefix("pa_"@, a.merchant_id@, rest, b.merchant_id@, other_rest);
    assert(a.constraints()[0] =~= "pa_"@ + a.merchant_id@ + "_"@ + rest);
    assert(b.constraints()[0] =~= "pa_"@ + b.merchant_id@ + "_"@ + other_rest);
}

/// A stored payment method.
#[derive(Debug, Clone, PartialEq, Eq)]
pub struct PaymentMethod {
    /// The id of the payment method.
    pub payment_method_id: String,
}

impl UniqueConstraints for PaymentMethod {
    open spec fn constraints(&self) -> Seq<Seq<char>> {
        seq!["paymentmethod_"@ + self.payment_method_id@]
    }

    open spec fn table(&self) -> Seq<char> {
        "PaymentMethod"@
    }

    fn unique_constraints(&self) -> (constraints: Vec<String>) {
        let constraint = "paymentmethod_".to_string().concat(self.payment_method_id.as_str());
        let constraints = vec![constraint];
        assert(constraints.deep_view() =~= self.constraints());
        constraints
    }

    fn table_name(&self) -> (name: &str) {
        "PaymentMethod"
    }
}

/// A payment method claims exactly one text, whatever its ids: it begins with `paymentmethod_` and
/// ends with the id.
pub proof fn law_payment_method_claims_one_text(a: PaymentMethod)
    ensures
        a.constraints().len() == 1,
        ({
            let text = a.constraints()[0];
            let n = "paymentmethod_"@.len() as int;
            &&& text.len() == n + a.payment_method_id@.len()
            &&& text.take(n) == "paymentmethod_"@
            &&& text.skip(n) == a.payment_method_id@
        }),
{
    reveal_strlit("paymentmethod_");
    let text = a.constraints()[0];
    let n = "paymentmethod_"@.len() as int;
    assert(text.take(n) =~= "paymentmethod_"@);
    assert(text.skip(n) =~= a.payment_method_id@);
}

/// Two payment methods claim the same constraint exactly if they have the same id.
pub proof fn law_payment_method_is_known_by_its_id(a: PaymentMethod, b: PaymentMethod)
    ensures
        a.constraints() == b.constraints() <==> a.payment_method_id@ == b.payment_method_id@,
        share_a_constraint(a.constraints(), b.constraints()) <==> a.constraints()
            == b.constraints(),
{
    lemma_single_constraints(a.constraints(), b.constraints());
    lemma_common_prefix("paymentmethod_"@, a.payment_method_id@, b.payment_method_id@);
    assert(a.constraints()[0] == b.constraints()[0] ==> a.constraints() =~= b.constraints());
}

/// A customer of a merchant.
#[derive(Debug, Clone, PartialEq, Eq)]
pub struct Customer {
    /// The id of the customer, as text.
    pub customer_id: String,
    /// The id of the merchant, as text.
    pub merchant_id: String,
}

impl UniqueConstraints for Customer {
    open spec fn constraints(&self) -> Seq<Seq<char>> {
        seq!["customer_"@ + self.customer_id@ + "_"@ + self.merchant_id@]
    }

    open spec fn table(&self) -> Seq<char> {
        "Customer"@
    }

    fn unique_constraints(&self) -> (constraints: Vec<String>) {
        let constraint = "customer_".to_string()
            .concat(self.customer_id.as_str())
            .concat("_")
            .concat(self.merchant_id.as_str());
        let constraints = vec![constraint];
        assert(constraints.deep_view() =~= self.constraints());
        constraints
    }

    fn table_name(&self) -> (name: &str) {
        "Customer"
    }
}

/// A customer claims exactly one text, whatever its ids: it begins with `customer_`, goes on with
/// the customer's id and one `_`, and ends with the merchant's id.
pub proof fn law_customer_claims_one_text(a: Customer)
    ensures
        a.constraints().len() == 1,
        ({
            let text = a.constraints()[0];
            let start = "customer_"@.len() as int;
            let middle = start + a.customer_id@.len();
            &&& text.len() == middle + 1 + a.merchant_id@.len()
            &&& text.take(start) == "customer_"@
            &&& text.subrange(start, middle) == a.customer_id@
            &&& text[middle] == '_'
            &&& text.skip(middle + 1) == a.merchant_id@
        }),
{
    reveal_strlit("_");
    let middle = ("customer_"@.len() + a.customer_id@.len()) as int;
    lemma_four_parts("customer_"@, a.customer_id@, "_"@, a.merchant_id@);
    assert(a.constraints()[0].subrange(middle, middle + 1)[0] == '_');
}

/// Two customers of one merchant claim the same constraint exactly if they have the same customer
/// id.
pub proof fn law_customer_is_known_within_its_merchant(a: Customer, b: Customer)
    requires
        a.merchant_id@ == b.merchant_id@,
    ensures
        a.constraints() == b.constraints() <==> a.customer_id@ == b.customer_id@,
{
    lemma_common_suffix("customer_"@ + a.customer_id@, "customer_"@ + b.customer_id@, "_"@);
    lemma_common_suffix(
        "customer_"@ + a.customer_id@ + "_"@,
        "customer_"@ + b.customer_id@ + "_"@,
        a.merchant_id@,
    );
    lemma_common_prefix("customer_"@, a.customer_id@, b.customer_id@);
    assert(a.constraints()[0] == b.constraints()[0] ==> a.constraints() =~= b.constraints());
}

/// Any two customers claim the same constraint exactly if they have the same ids, or ids that
/// cannot be told apart once they are joined.
pub proof fn law_customers_with_one_constraint(a: Customer, b: Customer)
    ensures
        a.constraints() == b.constraints() <==> alike_when_joined(
            a.customer_id@,
            a.merchant_id@,
            b.customer_id@,
            b.merchant_id@,
        ),
        share_a_constraint(a.constraints(), b.constraints()) <==> a.constraints()
            == b.constraints(),
{
    lemma_single_constraints(a.constraints(), b.constraints());
    lemma_joined_behind_prefix(
        "customer_"@,
        a.customer_id@,
        a.merchant_id@,
        b.customer_id@,
        b.merchant_id@,
    );
}

} // verus!

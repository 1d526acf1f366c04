//! The records that claim unique constraints, each with the ids that make it unique.
//!
//! Records that depend on the version of the data model stand in [`v1`] and [`v2`]: those whose ids
//! differ between the two versions in both, payment attempts in [`v1`] alone.
use vstd::prelude::*;

use crate::joined::{alike_when_joined, lemma_joined_behind_prefix};
use crate::seq_facts::{lemma_common_prefix, lemma_four_parts};
use crate::unique_constraints::{
    constraint_set_key, law_tables_have_their_own_sets, lemma_single_constraints,
    share_a_constraint, UniqueConstraints,
};

pub mod v1;
pub mod v2;

verus! {

/// An address.
#[derive(Debug, Clone, PartialEq, Eq)]
pub struct Address {
    /// The id of the address.
    pub address_id: String,
}

impl UniqueConstraints for Address {
    open spec fn constraints(&self) -> Seq<Seq<char>> {
        seq!["address_"@ + self.address_id@]
    }

    open spec fn table(&self) -> Seq<char> {
        "Address"@
    }

    fn unique_constraints(&self) -> (constraints: Vec<String>) {
        let constraints = vec!["address_".to_string().concat(self.address_id.as_str())];
        assert(constraints.deep_view() =~= self.constraints());
        constraints
    }

    fn table_name(&self) -> (name: &str) {
        "Address"
    }
}

/// An address claims exactly one text, whatever its ids: it begins with `address_` and ends with
/// the id.
pub proof fn law_address_claims_one_text(a: Address)
    ensures
        a.constraints().len() == 1,
        ({
            let text = a.constraints()[0];
            let n = "address_"@.len() as int;
            &&& text.len() == n + a.address_id@.len()
            &&& text.take(n) == "address_"@
            &&& text.skip(n) == a.address_id@
        }),
{
    reveal_strlit("address_");
    let text = a.constraints()[0];
    let n = "address_"@.len() as int;
    assert(text.take(n) =~= "address_"@);
    assert(text.skip(n) =~= a.address_id@);
}

/// Two addresses claim the same constraint exactly if they have the same id.
pub proof fn law_address_is_known_by_its_id(a: Address, b: Address)
    ensures
        a.constraints() == b.constraints() <==> a.address_id@ == b.address_id@,
        share_a_constraint(a.constraints(), b.constraints()) <==> a.constraints()
            == b.constraints(),
{
    lemma_single_constraints(a.constraints(), b.constraints());
    lemma_common_prefix("address_"@, a.address_id@, b.address_id@);
    assert(a.constraints()[0] == b.constraints()[0] ==> a.constraints() =~= b.constraints());
}

/// A refund of a merchant.
#[derive(Debug, Clone, PartialEq, Eq)]
pub struct Refund {
    /// The id of the merchant, as text.
    pub merchant_id: String,
    /// The id of the refund.
    pub refund_id: String,
}

impl UniqueConstraints for Refund {
    open spec fn constraints(&self) -> Seq<Seq<char>> {
        seq!["refund_"@ + self.merchant_id@ + "_"@ + self.refund_id@]
    }

    open spec fn table(&self) -> Seq<char> {
        "Refund"@
    }

    fn unique_constraints(&self) -> (constraints: Vec<String>) {
        let constraint = "refund_".to_string()
            .concat(self.merchant_id.as_str())
            .concat("_")
            .concat(self.refund_id.as_str());
        let constraints = vec![constraint];
        assert(constraints.deep_view() =~= self.constraints());
        constraints
    }

    fn table_name(&self) -> (name: &str) {
        "Refund"
    }
}

/// A refund claims exactly one text, whatever its ids: it begins with `refund_`, goes on with the
/// merchant's id and one `_`, and ends with the refund's id.
pub proof fn law_refund_claims_one_text(a: Refund)
    ensures
        a.constraints().len() == 1,
        ({
            let text = a.constraints()[0];
            let start = "refund_"@.len() as int;
            let middle = start + a.merchant_id@.len();
            &&& text.len() == middle + 1 + a.refund_id@.len()
            &&& text.take(start) == "refund_"@
            &&& text.subrange(start, middle) == a.merchant_id@
            &&& text[middle] == '_'
            &&& text.skip(middle + 1) == a.refund_id@
        }),
{
    reveal_strlit("_");
    let middle = ("refund_"@.len() + a.merchant_id@.len()) as int;
    lemma_four_parts("refund_"@, a.merchant_id@, "_"@, a.refund_id@);
    assert(a.constraints()[0].subrange(middle, middle + 1)[0] == '_');
}

/// Two refunds of one merchant claim the same constraint exactly if they have the same id.
pub proof fn law_refund_is_known_within_its_merchant(a: Refund, b: Refund)
    requires
        a.merchant_id@ == b.merchant_id@,
    ensures
        a.constraints() == b.constraints() <==> a.refund_id@ == b.refund_id@,
{
    lemma_common_prefix("refund_"@ + a.merchant_id@ + "_"@, a.refund_id@, b.refund_id@);
    assert(a.constraints()[0] == b.constraints()[0] ==> a.constraints() =~= b.constraints());
}

/// Any two refunds claim the same constraint exactly if they have the same ids, or ids that
/// cannot be told apart once they are joined.
pub proof fn law_refunds_with_one_constraint(a: Refund, b: Refund)
    ensures
        a.constraints() == b.constraints() <==> alike_when_joined(
            a.merchant_id@,
            a.refund_id@,
            b.merchant_id@,
            b.refund_id@,
        ),
        share_a_constraint(a.constraints(), b.constraints()) <==> a.constraints()
            == b.constraints(),
{
    lemma_single_constraints(a.constraints(), b.constraints());
    lemma_joined_behind_prefix(
        "refund_"@,
        a.merchant_id@,
        a.refund_id@,
        b.merchant_id@,
        b.refund_id@,
    );
}

/// An entry that leads from a secondary id to a record.
#[derive(Debug, Clone, PartialEq, Eq)]
pub struct ReverseLookup {
    /// The id that is looked up.
    pub lookup_id: String,
}

impl UniqueConstraints for ReverseLookup {
    open spec fn constraints(&self) -> Seq<Seq<char>> {
        seq!["reverselookup_"@ + self.lookup_id@]
    }

    open spec fn table(&self) -> Seq<char> {
        "ReverseLookup"@
    }

    fn unique_constraints(&self) -> (constraints: Vec<String>) {
        let constraints = vec!["reverselookup_".to_string().concat(self.lookup_id.as_str())];
        assert(constraints.deep_view() =~= self.constraints());
        constraints
    }

    fn table_name(&self) -> (name: &str) {
        "ReverseLookup"
    }
}

/// A reverse lookup claims exactly one text, whatever its ids: it begins with `reverselookup_` and
/// ends with the id.
pub proof fn law_reverse_lookup_claims_one_text(a: ReverseLookup)
    ensures
        a.constraints().len() == 1,
        ({
            let text = a.constraints()[0];
            let n = "reverselookup_"@.len() as int;
            &&& text.len() == n + a.lookup_id@.len()
            &&& text.take(n) == "reverselookup_"@
            &&& text.skip(n) == a.lookup_id@
        }),
{
    reveal_strlit("reverselookup_");
    let text = a.constraints()[0];
    let n = "reverselookup_"@.len() as int;
    assert(text.take(n) =~= "reverselookup_"@);
    assert(text.skip(n) =~= a.lookup_id@);
}

/// Two reverse lookups claim the same constraint exactly if they have the same id.
pub proof fn law_reverse_lookup_is_known_by_its_id(a: ReverseLookup, b: ReverseLookup)
    ensures
        a.constraints() == b.constraints() <==> a.lookup_id@ == b.lookup_id@,
        share_a_constraint(a.constraints(), b.constraints()) <==> a.constraints()
            == b.constraints(),
{
    lemma_single_constraints(a.constraints(), b.constraints());
    lemma_common_prefix("reverselookup_"@, a.lookup_id@, b.lookup_id@);
    assert(a.constraints()[0] == b.constraints()[0] ==> a.constraints() =~= b.constraints());
}

/// A payout of a merchant.
#[derive(Debug, Clone, PartialEq, Eq)]
pub struct Payouts {
    /// The id of the merchant, as text.
    pub merchant_id: String,
    /// The id of the payout.
    pub payout_id: String,
}

impl UniqueConstraints for Payouts {
    open spec fn constraints(&self) -> Seq<Seq<char>> {
        seq!["po_"@ + self.merchant_id@ + "_"@ + self.payout_id@]
    }

    open spec fn table(&self) -> Seq<char> {
        "Payouts"@
    }

    fn unique_constraints(&self) -> (constraints: Vec<String>) {
        let constraint = "po_".to_string()
            .concat(self.merchant_id.as_str())
            .concat("_")
            .concat(self.payout_id.as_str());
        let constraints = vec![constraint];
        assert(constraints.deep_view() =~= self.constraints());
        constraints
    }

    fn table_name(&self) -> (name: &str) {
        "Payouts"
    }
}

/// A payout claims exactly one text, whatever its ids: it begins with `po_`, goes on with the
/// merchant's id and one `_`, and ends with the payout's id.
pub proof fn law_payout_claims_one_text(a: Payouts)
    ensures
        a.constraints().len() == 1,
        ({
            let text = a.constraints()[0];
            let start = "po_"@.len() as int;
            let middle = start + a.merchant_id@.len();
            &&& text.len() == middle + 1 + a.payout_id@.len()
            &&& text.take(start) == "po_"@
            &&& text.subrange(start, middle) == a.merchant_id@
            &&& text[middle] == '_'
            &&& text.skip(middle + 1) == a.payout_id@
        }),
{
    reveal_strlit("_");
    let middle = ("po_"@.len() + a.merchant_id@.len()) as int;
    lemma_four_parts("po_"@, a.merchant_id@, "_"@, a.payout_id@);
    assert(a.constraints()[0].subrange(middle, middle + 1)[0] == '_');
}

/// Two payouts of one merchant claim the same constraint exactly if they have the same id.
pub proof fn law_payout_is_known_within_its_merchant(a: Payouts, b: Payouts)
    requires
        a.merchant_id@ == b.merchant_id@,
    ensures
        a.constraints() == b.constraints() <==> a.payout_id@ == b.payout_id@,
{
    lemma_common_prefix("po_"@ + a.merchant_id@ + "_"@, a.payout_id@, b.payout_id@);
    assert(a.constraints()[0] == b.constraints()[0] ==> a.constraints() =~= b.constraints());
}

/// Any two payouts claim the same constraint exactly if they have the same ids, or ids that
/// cannot be told apart once they are joined.
pub proof fn law_payouts_with_one_constraint(a: Payouts, b: Payouts)
    ensures
        a.constraints() == b.constraints() <==> alike_when_joined(
            a.merchant_id@,
            a.payout_id@,
            b.merchant_id@,
            b.payout_id@,
        ),
        share_a_constraint(a.constraints(), b.constraints()) <==> a.constraints()
            == b.constraints(),
{
    lemma_single_constraints(a.constraints(), b.constraints());
    lemma_joined_behind_prefix(
        "po_"@,
        a.merchant_id@,
        a.payout_id@,
        b.merchant_id@,
        b.payout_id@,
    );
}

/// An attempt at a payout of a merchant.
#[derive(Debug, Clone, PartialEq, Eq)]
pub struct PayoutAttempt {
    /// The id of the merchant, as text.
    pub merchant_id: String,
    /// The id of the attempt.
    pub payout_attempt_id: String,
}

impl UniqueConstraints for PayoutAttempt {
    open spec fn constraints(&self) -> Seq<Seq<char>> {
        seq!["poa_"@ + self.merchant_id@ + "_"@ + self.payout_attempt_id@]
    }

    open spec fn table(&self) -> Seq<char> {
        "PayoutAttempt"@
    }

    fn unique_constraints(&self) -> (constraints: Vec<String>) {
        let constraint = "poa_".to_string()
            .concat(self.merchant_id.as_str())
            .concat("_")
            .concat(self.payout_attempt_id.as_str());
        let constraints = vec![constraint];
        assert(constraints.deep_view() =~= self.constraints());
        constraints
    }

    fn table_name(&self) -> (name: &str) {
        "PayoutAttempt"
    }
}

/// A payout attempt claims exactly one text, whatever its ids: it begins with `poa_`, goes on with
/// the merchant's id and one `_`, and ends with the attempt's id.
pub proof fn law_payout_attempt_claims_one_text(a: PayoutAttempt)
    ensures
        a.constraints().len() == 1,
        ({
            let text = a.constraints()[0];
            let start = "poa_"@.len() as int;
            let middle = start + a.merchant_id@.len();
            &&& text.len() == middle + 1 + a.payout_attempt_id@.len()
            &&& text.take(start) == "poa_"@
            &&& text.subrange(start, middle) == a.merchant_id@
            &&& text[middle] == '_'
            &&& text.skip(middle + 1) == a.payout_attempt_id@
        }),
{
    reveal_strlit("_");
    let middle = ("poa_"@.len() + a.merchant_id@.len()) as int;
    lemma_four_parts("poa_"@, a.merchant_id@, "_"@, a.payout_attempt_id@);
    assert(a.constraints()[0].subrange(middle, middle + 1)[0] == '_');
}

/// Two payout attempts of one merchant claim the same constraint exactly if they have the same id.
pub proof fn law_payout_attempt_is_known_within_its_merchant(a: PayoutAttempt, b: PayoutAttempt)
    requires
        a.merchant_id@ == b.merchant_id@,
    ensures
        a.constraints() == b.constraints() <==> a.payout_attempt_id@ == b.payout_attempt_id@,
{
    lemma_common_prefix(
        "poa_"@ + a.merchant_id@ + "_"@,
        a.payout_attempt_id@,
        b.payout_attempt_id@,
    );
    assert(a.constraints()[0] == b.constraints()[0] ==> a.constraints() =~= b.constraints());
}

/// Any two payout attempts claim the same constraint exactly if they have the same ids, or ids that
/// cannot be told apart once they are joined.
pub proof fn law_payout_attempts_with_one_constraint(a: PayoutAttempt, b: PayoutAttempt)
    ensures
        a.constraints() == b.constraints() <==> alike_when_joined(
            a.merchant_id@,
            a.payout_attempt_id@,
            b.merchant_id@,
            b.payout_attempt_id@,
        ),
        share_a_constraint(a.constraints(), b.constraints()) <==> a.constraints()
            == b.constraints(),
{
    lemma_single_constraints(a.constraints(), b.constraints());
    lemma_joined_behind_prefix(
        "poa_"@,
        a.merchant_id@,
        a.payout_attempt_id@,
        b.merchant_id@,
        b.payout_attempt_id@,
    );
}

/// A mandate of a merchant.
#[derive(Debug, Clone, PartialEq, Eq)]
pub struct Mandate {
    /// The id of the merchant, as text.
    pub merchant_id: String,
    /// The id of the mandate.
    pub mandate_id: String,
}

impl UniqueConstraints for Mandate {
    open spec fn constraints(&self) -> Seq<Seq<char>> {
        seq!["mand_"@ + self.merchant_id@ + "_"@ + self.mandate_id@]
    }

    open spec fn table(&self) -> Seq<char> {
        "Mandate"@
    }

    fn unique_constraints(&self) -> (constraints: Vec<String>) {
        let constraint = "mand_".to_string()
            .concat(self.merchant_id.as_str())
            .concat("_")
            .concat(self.mandate_id.as_str());
        let constraints = vec![constraint];
        assert(constraints.deep_view() =~= self.constraints());
        constraints
    }

    fn table_name(&self) -> (name: &str) {
        "Mandate"
    }
}

/// A mandate claims exactly one text, whatever its ids: it begins with `mand_`, goes on with the
/// merchant's id and one `_`, and ends with the mandate's id.
pub proof fn law_mandate_claims_one_text(a: Mandate)
    ensures
        a.constraints().len() == 1,
        ({
            let text = a.constraints()[0];
            let start = "mand_"@.len() as int;
            let middle = start + a.merchant_id@.len();
            &&& text.len() == middle + 1 + a.mandate_id@.len()
            &&& text.take(start) == "mand_"@
            &&& text.subrange(start, middle) == a.merchant_id@
            &&& text[middle] == '_'
            &&& text.skip(middle + 1) == a.mandate_id@
        }),
{
    reveal_strlit("_");
    let middle = ("mand_"@.len() + a.merchant_id@.len()) as int;
    lemma_four_parts("mand_"@, a.merchant_id@, "_"@, a.mandate_id@);
    assert(a.constraints()[0].subrange(middle, middle + 1)[0] == '_');
}

/// Two mandates of one merchant claim the same constraint exactly if they have the same id.
pub proof fn law_mandate_is_known_within_its_merchant(a: Mandate, b: Mandate)
    requires
        a.merchant_id@ == b.merchant_id@,
    ensures
        a.constraints() == b.constraints() <==> a.mandate_id@ == b.mandate_id@,
{
    lemma_common_prefix("mand_"@ + a.merchant_id@ + "_"@, a.mandate_id@, b.mandate_id@);
    assert(a.constraints()[0] == b.constraints()[0] ==> a.constraints() =~= b.constraints());
}

/// Any two mandates claim the same constraint exactly if they have the same ids, or ids that
/// cannot be told apart once they are joined.
pub proof fn law_mandates_with_one_constraint(a: Mandate, b: Mandate)
    ensures
        a.constraints() == b.constraints() <==> alike_when_joined(
            a.merchant_id@,
            a.mandate_id@,
            b.merchant_id@,
            b.mandate_id@,
        ),
        share_a_constraint(a.constraints(), b.constraints()) <==> a.constraints()
            == b.constraints(),
{
    lemma_single_constraints(a.constraints(), b.constraints());
    lemma_joined_behind_prefix(
        "mand_"@,
        a.merchant_id@,
        a.mandate_id@,
        b.merchant_id@,
        b.mandate_id@,
    );
}

/// Every record belongs to the table that is named after its kind, whatever its ids. Records of
/// different kinds belong to tables with different names, so their constraints stand in different
/// sets. The two versions of a kind belong to the same table.
pub proof fn law_kinds_have_their_own_tables(
    address: Address,
    refund: Refund,
    reverse_lookup: ReverseLookup,
    payout: Payouts,
    payout_attempt: PayoutAttempt,
    mandate: Mandate,
    payment_intents: (v1::PaymentIntent, v2::PaymentIntent),
    payment_attempt: v1::PaymentAttempt,
    payment_methods: (v1::PaymentMethod, v2::PaymentMethod),
    customers: (v1::Customer, v2::Customer),
)
    ensures
        ({
            let tables = seq![
                address.table(),
                refund.table(),
                reverse_lookup.table(),
                payout.table(),
                payout_attempt.table(),
                mandate.table(),
                payment_intents.0.table(),
                payment_attempt.table(),
                payment_methods.0.table(),
                customers.0.table(),
            ];
            forall|i: int, j: int|
                0 <= i < tables.len() && 0 <= j < tables.len() && i != j ==> #[trigger] tables[i]
                    != #[trigger] tables[j] && constraint_set_key(tables[i]) != constraint_set_key(
                    tables[j],
                )
        }),
        address.table() == "Address"@,
        refund.table() == "Refund"@,
        reverse_lookup.table() == "ReverseLookup"@,
        payout.table() == "Payouts"@,
        payout_attempt.table() == "PayoutAttempt"@,
        mandate.table() == "Mandate"@,
        payment_intents.0.table() == "PaymentIntent"@,
        payment_attempt.table() == "PaymentAttempt"@,
        payment_methods.0.table() == "PaymentMethod"@,
        customers.0.table() == "Customer"@,
        payment_intents.0.table() == payment_intents.1.table(),
        payment_methods.0.table() == payment_methods.1.table(),
        customers.0.table() == customers.1.table(),
{
    reveal_strlit("Address");
    reveal_strlit("Refund");
    reveal_strlit("ReverseLookup");
    reveal_strlit("Payouts");
    reveal_strlit("PayoutAttempt");
    reveal_strlit("Mandate");
    reveal_strlit("PaymentIntent");
    reveal_strlit("PaymentAttempt");
    reveal_strlit("PaymentMethod");
    reveal_strlit("Customer");
    // Names of one length differ in one of these letters.
    assert("Address"@[0] == 'A' && "Payouts"@[0] == 'P' && "Mandate"@[0] == 'M');
    assert("ReverseLookup"@[3] == 'e' && "PayoutAttempt"@[3] == 'o');
    assert("PaymentIntent"@[3] == 'm' && "PaymentMethod"@[3] == 'm');
    assert("PaymentIntent"@[7] == 'I' && "PaymentMethod"@[7] == 'M');
    let tables = seq![
        address.table(),
        refund.table(),
        reverse_lookup.table(),
        payout.table(),
        payout_attempt.table(),
        mandate.table(),
        payment_intents.0.table(),
        payment_attempt.table(),
        payment_methods.0.table(),
        customers.0.table(),
    ];
    assert forall|i: int, j: int|
        0 <= i < tables.len() && 0 <= j < tables.len() && i != j implies #[trigger] tables[i]
        != #[trigger] tables[j] && constraint_set_key(tables[i]) != constraint_set_key(
        tables[j],
    ) by {
        law_tables_have_their_own_sets(tables[i], tables[j]);
    }
}

} // verus!

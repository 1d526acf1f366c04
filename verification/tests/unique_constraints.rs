use std::sync::Arc;

use storage_impl::errors::RedisError;
use storage_impl::models::v1;
use storage_impl::models::v2;
use storage_impl::models::{Address, Mandate, PayoutAttempt, Payouts, Refund, ReverseLookup};
use storage_impl::redis::SaddReply;
use storage_impl::unique_constraints::{constraint_verdict, UniqueConstraints};

fn text(value: &str) -> String {
    value.to_string()
}

fn expect<M: UniqueConstraints>(record: &M, constraint: &str, table: &str) {
    assert_eq!(record.unique_constraints(), vec![text(constraint)]);
    assert_eq!(record.table_name(), table);
    let redis_conn = Arc::new("pool");
    let request = record.check_for_constraints(&redis_conn);
    assert!(Arc::ptr_eq(&request.redis_conn, &redis_conn));
    assert_eq!(request.key, format!("unique_constraint:{}", table));
    assert_eq!(request.members, vec![text(constraint)]);
}

#[test]
fn address_constraint() {
    let address = Address { address_id: text("add_7") };
    expect(&address, "address_add_7", "Address");
}

#[test]
fn refund_constraint() {
    let refund = Refund { merchant_id: text("m1"), refund_id: text("r1") };
    expect(&refund, "refund_m1_r1", "Refund");
}

#[test]
fn reverse_lookup_constraint() {
    let lookup = ReverseLookup { lookup_id: text("l1") };
    expect(&lookup, "reverselookup_l1", "ReverseLookup");
}

#[test]
fn payout_constraint() {
    let payout = Payouts { merchant_id: text("m1"), payout_id: text("p1") };
    expect(&payout, "po_m1_p1", "Payouts");
}

#[test]
fn payout_attempt_constraint() {
    let attempt = PayoutAttempt { merchant_id: text("m1"), payout_attempt_id: text("p1_1") };
    expect(&attempt, "poa_m1_p1_1", "PayoutAttempt");
}

#[test]
fn mandate_constraint() {
    let mandate = Mandate { merchant_id: text("m1"), mandate_id: text("man1") };
    expect(&mandate, "mand_m1_man1", "Mandate");
}

#[test]
fn v1_payment_intent_constraint() {
    let intent = v1::PaymentIntent { merchant_id: text("m1"), payment_id: text("pay1") };
    expect(&intent, "pi_m1_pay1", "PaymentIntent");
}

#[test]
fn v1_payment_attempt_constraint() {
    let attempt = v1::PaymentAttempt {
        merchant_id: text("m1"),
        payment_id: text("pay1"),
        attempt_id: text("pay1_1"),
    };
    expect(&attempt, "pa_m1_pay1_pay1_1", "PaymentAttempt");
}

#[test]
fn v1_payment_method_constraint() {
    let method = v1::PaymentMethod { payment_method_id: text("pm1") };
    expect(&method, "paymentmethod_pm1", "PaymentMethod");
}

#[test]
fn v1_customer_constraint_names_the_customer_first() {
    let customer = v1::Customer { customer_id: text("c1"), merchant_id: text("m1") };
    expect(&customer, "customer_c1_m1", "Customer");
}

#[test]
fn v2_payment_intent_constraint_is_the_bare_id() {
    let intent = v2::PaymentIntent { id: text("12345_pay_1") };
    expect(&intent, "12345_pay_1", "PaymentIntent");
}

#[test]
fn v2_payment_method_constraint_is_the_bare_id() {
    let method = v2::PaymentMethod { id: text("12345_pm_1") };
    expect(&method, "12345_pm_1", "PaymentMethod");
}

#[test]
fn v2_customer_constraint() {
    let customer = v2::Customer { id: text("12345_cus_1") };
    expect(&customer, "customer_12345_cus_1", "Customer");
}

#[test]
fn empty_ids_leave_their_separators() {
    let attempt = v1::PaymentAttempt {
        merchant_id: text(""),
        payment_id: text(""),
        attempt_id: text(""),
    };
    expect(&attempt, "pa___", "PaymentAttempt");
    expect(&v2::PaymentIntent { id: text("") }, "", "PaymentIntent");
}

#[test]
fn ids_of_other_alphabets_are_kept() {
    let refund = Refund { merchant_id: text("händler"), refund_id: text("払戻") };
    expect(&refund, "refund_händler_払戻", "Refund");
}

#[test]
fn records_of_one_merchant_are_told_apart_by_their_id() {
    let first = Refund { merchant_id: text("m_1"), refund_id: text("2_r") };
    let second = Refund { merchant_id: text("m_1"), refund_id: text("3_r") };
    assert_ne!(first.unique_constraints(), second.unique_constraints());
    assert_eq!(first.unique_constraints(), first.clone().unique_constraints());
}

#[test]
fn records_of_two_merchants_can_share_a_constraint() {
    let first = Refund { merchant_id: text("a_b"), refund_id: text("c") };
    let second = Refund { merchant_id: text("a"), refund_id: text("b_c") };
    assert_eq!(first.unique_constraints(), second.unique_constraints());
}

#[test]
fn every_table_has_a_set_of_its_own() {
    let id = || text("1");
    let redis_conn = Arc::new("pool");
    let keys = vec![
        Address { address_id: id() }.check_for_constraints(&redis_conn).key,
        Refund { merchant_id: id(), refund_id: id() }.check_for_constraints(&redis_conn).key,
        ReverseLookup { lookup_id: id() }.check_for_constraints(&redis_conn).key,
        Payouts { merchant_id: id(), payout_id: id() }.check_for_constraints(&redis_conn).key,
        PayoutAttempt { merchant_id: id(), payout_attempt_id: id() }
            .check_for_constraints(&redis_conn)
            .key,
        Mandate { merchant_id: id(), mandate_id: id() }.check_for_constraints(&redis_conn).key,
        v1::PaymentIntent { merchant_id: id(), payment_id: id() }
            .check_for_constraints(&redis_conn)
            .key,
        v1::PaymentAttempt { merchant_id: id(), payment_id: id(), attempt_id: id() }
            .check_for_constraints(&redis_conn)
            .key,
        v1::PaymentMethod { payment_method_id: id() }.check_for_constraints(&redis_conn).key,
        v1::Customer { customer_id: id(), merchant_id: id() }
            .check_for_constraints(&redis_conn)
            .key,
    ];
    for (i, key) in keys.iter().enumerate() {
        for other in keys.iter().skip(i + 1) {
            assert_ne!(key, other);
        }
    }
}

#[test]
fn added_constraints_pass_the_check() {
    assert_eq!(constraint_verdict(Ok(SaddReply::KeySet)), Ok(()));
}

#[test]
fn constraints_that_are_there_already_fail_the_check() {
    assert_eq!(
        constraint_verdict(Ok(SaddReply::KeyNotSet)),
        Err(RedisError::SetAddMembersFailed)
    );
}

#[test]
fn a_failed_call_fails_the_check_with_its_error() {
    let error = RedisError::Other(text("connection reset"));
    assert_eq!(constraint_verdict(Err(error.clone())), Err(error));
}

#[test]
fn an_attempt_can_share_its_constraint_with_one_of_another_payment() {
    let attempt = |merchant: &str, payment: &str, attempt: &str| v1::PaymentAttempt {
        merchant_id: text(merchant),
        payment_id: text(payment),
        attempt_id: text(attempt),
    };
    let first = attempt("m", "p_1", "1").unique_constraints();
    assert_eq!(first, attempt("m", "p", "1_1").unique_constraints());
    assert_eq!(first, attempt("m_p", "1", "1").unique_constraints());
    assert_ne!(first, attempt("m", "p_1", "2").unique_constraints());
}

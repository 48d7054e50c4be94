use payment_gateway::api::handler::{
    admission_status, handle_tower_error, submit_work_handler, Ingress, FAST_PATH_PERMITS,
};
use payment_gateway::appstate::AppState;
use payment_gateway::constantes::{NATS_URL, REDIS_URL, URL_DEFAULT, URL_FALLBACK};
use payment_gateway::models::payment::{amount_from_decimal, Payment, PaymentRequest};
use payment_gateway::models::processor::{default_address, default_tipo, Processor, TipoProcessador};
use payment_gateway::models::summary::DecimalParts;
use payment_gateway::text::{chars_of, digit_of, joined, push_digits, same_text, value_of};

fn state(queues: usize) -> AppState {
    AppState::new(URL_DEFAULT.to_string(), URL_FALLBACK.to_string(), queues, 75)
}

#[test]
fn default_processor_is_failing_and_unknown() {
    let p = Processor::default();
    assert!(p.failing);
    assert_eq!(p.min_response_time, 100);
    assert_eq!(p.address, "");
    assert_eq!(p.tipo, TipoProcessador::Nenhum);
}

#[test]
fn new_processor_holds_what_it_is_given() {
    let p = Processor::new(false, 7, "http://x".to_string(), TipoProcessador::Fallback);
    assert!(!p.failing);
    assert_eq!(p.min_response_time, 7);
    assert_eq!(p.address, "http://x");
    assert_eq!(p.tipo, TipoProcessador::Fallback);
    let q = p.duplicate();
    assert_eq!(q.address, "http://x");
    assert_eq!(q.min_response_time, 7);
    assert_eq!(q.tipo, TipoProcessador::Fallback);
    assert!(!q.failing);
}

#[test]
fn defaults_of_a_state_that_arrives_without_them() {
    assert_eq!(default_tipo(), TipoProcessador::Nenhum);
    assert_eq!(default_address(), "");
}

#[test]
fn addresses_used_without_settings() {
    assert_eq!(URL_DEFAULT, "http://localhost:8001");
    assert_eq!(URL_FALLBACK, "http://localhost:8002");
    assert_eq!(REDIS_URL, "redis://localhost:6379/");
    assert_eq!(NATS_URL, "nats://localhost:4222");
}

#[test]
fn state_starts_healthy() {
    let s = state(4);
    assert!(!s.processors_default.failing);
    assert!(!s.processors_fallback.failing);
    assert_eq!(s.processors_default.min_response_time, 100);
    assert_eq!(s.processors_fallback.min_response_time, 100);
    assert_eq!(s.processors_default.tipo, TipoProcessador::Default);
    assert_eq!(s.processors_fallback.tipo, TipoProcessador::Fallback);
    assert_eq!(s.processors_default.address, "http://localhost:8001");
    assert_eq!(s.processors_fallback.address, "http://localhost:8002");
    assert_eq!(s.sender_queue, 4);
    assert_eq!(s.round_robin_counter, 0);
    assert_eq!(s.retry_default_percentage, 75);
}

#[test]
fn health_is_written_by_slot() {
    let mut s = state(4);
    assert!(s.set_health(0, true, 9));
    assert!(s.processors_default.failing);
    assert_eq!(s.processors_default.min_response_time, 9);
    assert!(s.set_health(1, true, 11));
    assert_eq!(s.processors_fallback.min_response_time, 11);
    assert!(!s.set_health(2, false, 1));
    assert!(!s.set_health(usize::MAX, false, 1));
    assert!(s.processors_default.failing && s.processors_fallback.failing);
}

#[test]
fn marking_keeps_the_response_time() {
    let mut s = state(4);
    s.set_health(1, false, 33);
    s.mark_failing(TipoProcessador::Fallback);
    assert!(s.processors_fallback.failing);
    assert_eq!(s.processors_fallback.min_response_time, 33);
    assert!(!s.processors_default.failing);
    s.mark_failing(TipoProcessador::Nenhum);
    assert!(!s.processors_default.failing);
    s.mark_failing(TipoProcessador::Default);
    assert!(s.processors_default.failing);
}

#[test]
fn fresh_payment_has_no_time_and_no_kind() {
    let p = Payment::fresh(5, 10);
    assert_eq!(
        p,
        Payment { correlation_id: 5, amount: 10, requested_at: None, tipo: None }
    );
}

#[test]
fn update_date_reads_the_clock_once() {
    let mut p = Payment::fresh(5, 10);
    p.update_date();
    let first = p.requested_at.expect("assigned");
    assert!(first > 1_577_836_800_000_000);
    p.update_date();
    assert_eq!(p.requested_at, Some(first));
    let mut q = Payment { correlation_id: 1, amount: 1, requested_at: Some(-3), tipo: None };
    q.update_date();
    assert_eq!(q.requested_at, Some(-3));
}

#[test]
fn stamp_keeps_a_time_that_is_there() {
    let mut p = Payment::fresh(5, 10);
    p.stamp(100);
    assert_eq!(p.requested_at, Some(100));
    p.stamp(200);
    assert_eq!(p.requested_at, Some(100));
    assert_eq!(p.correlation_id, 5);
    assert_eq!(p.amount, 10);
    assert_eq!(p.tipo, None);
}

#[test]
fn set_processador_records_the_kind() {
    let mut p = Payment::fresh(5, 10);
    p.stamp(1);
    p.set_processador(TipoProcessador::Fallback);
    assert_eq!(p.tipo, Some(TipoProcessador::Fallback));
    p.set_processador(TipoProcessador::Default);
    assert_eq!(
        p,
        Payment {
            correlation_id: 5,
            amount: 10,
            requested_at: Some(1),
            tipo: Some(TipoProcessador::Default),
        }
    );
}

#[test]
fn request_carries_id_amount_and_time() {
    let p = Payment {
        correlation_id: 5,
        amount: 10,
        requested_at: Some(99),
        tipo: Some(TipoProcessador::Default),
    };
    assert_eq!(
        p.to_payment_request(),
        PaymentRequest { correlation_id: 5, amount: 10, requested_at: 99 }
    );
    assert_eq!(p.amount_parts(), DecimalParts { mantissa: 10, scale: 4 });
}

#[test]
fn amounts_of_up_to_four_places_are_exact() {
    assert_eq!(amount_from_decimal(1050, 2), Some(105_000));
    assert_eq!(amount_from_decimal(105, 1), Some(105_000));
    assert_eq!(amount_from_decimal(10, 0), Some(100_000));
    assert_eq!(amount_from_decimal(199, 3), Some(1990));
    assert_eq!(amount_from_decimal(12345, 4), Some(12345));
    assert_eq!(amount_from_decimal(0, 0), Some(0));
    assert_eq!(amount_from_decimal(-1050, 2), Some(-105_000));
}

#[test]
fn places_beyond_the_fourth_are_cut_off() {
    assert_eq!(amount_from_decimal(123456, 5), Some(12345));
    assert_eq!(amount_from_decimal(123459, 5), Some(12345));
    assert_eq!(amount_from_decimal(-123459, 5), Some(-12345));
    assert_eq!(amount_from_decimal(9, 5), Some(0));
    assert_eq!(amount_from_decimal(-9, 5), Some(0));
    assert_eq!(amount_from_decimal(1, 28), Some(0));
    assert_eq!(amount_from_decimal(i128::MAX, u32::MAX), Some(0));
    assert_eq!(amount_from_decimal(i128::MIN, u32::MAX), Some(0));
    assert_eq!(amount_from_decimal(10_000_000_000_000_000_000_000_000_000, 28), Some(10_000));
}

#[test]
fn amounts_that_do_not_fit_give_nothing() {
    assert_eq!(amount_from_decimal(i64::MAX as i128, 4), Some(i64::MAX));
    assert_eq!(amount_from_decimal(i64::MIN as i128, 4), Some(i64::MIN));
    assert_eq!(amount_from_decimal(i64::MAX as i128 + 1, 4), None);
    assert_eq!(amount_from_decimal(i64::MIN as i128 - 1, 4), None);
    assert_eq!(amount_from_decimal(i64::MAX as i128, 3), None);
    assert_eq!(amount_from_decimal(922_337_203_685_477, 0), Some(9_223_372_036_854_770_000));
    assert_eq!(amount_from_decimal(922_337_203_685_478, 0), None);
    assert_eq!(amount_from_decimal(i128::MAX, 0), None);
    assert_eq!(amount_from_decimal(i128::MIN, 0), None);
    assert_eq!(amount_from_decimal(i128::MAX, 5), None);
    assert_eq!(amount_from_decimal(i128::MIN, 5), None);
    assert_eq!(amount_from_decimal((i64::MAX as i128) * 10 + 9, 5), Some(i64::MAX));
    assert_eq!(amount_from_decimal((i64::MAX as i128 + 1) * 10, 5), None);
    assert_eq!(amount_from_decimal((i64::MIN as i128) * 10 - 9, 5), Some(i64::MIN));
    assert_eq!(amount_from_decimal((i64::MIN as i128 - 1) * 10, 5), None);
}

#[test]
fn fast_path_dispatches_a_cleared_payment() {
    assert_eq!(FAST_PATH_PERMITS, 100);
    let mut s = state(4);
    let parsed = Payment {
        correlation_id: 8,
        amount: 3,
        requested_at: Some(1),
        tipo: Some(TipoProcessador::Fallback),
    };
    let ingress = submit_work_handler(&mut s, true, Some(parsed));
    assert_eq!(ingress, Ingress::Dispatch { payment: Payment::fresh(8, 3) });
    assert_eq!(admission_status(&ingress, true), 200);
    assert_eq!(admission_status(&ingress, false), 200);
    assert_eq!(s.round_robin_counter, 0);
}

#[test]
fn fast_path_rejects_what_did_not_parse() {
    let mut s = state(4);
    let ingress = submit_work_handler(&mut s, true, None);
    assert_eq!(ingress, Ingress::Reject);
    assert_eq!(admission_status(&ingress, true), 400);
    assert_eq!(s.round_robin_counter, 0);
}

#[test]
fn queued_path_goes_round_the_queues() {
    let mut s = state(3);
    let mut shards = Vec::new();
    for _ in 0..7 {
        match submit_work_handler(&mut s, false, None) {
            Ingress::Enqueue { shard } => shards.push(shard),
            other => panic!("queued path expected, got {:?}", other),
        }
    }
    assert_eq!(shards, vec![0, 1, 2, 0, 1, 2, 0]);
    assert_eq!(s.round_robin_counter, 7);
    // The body goes unparsed: what the caller made of it plays no part.
    let ingress = submit_work_handler(&mut s, false, Some(Payment::fresh(1, 1)));
    assert_eq!(ingress, Ingress::Enqueue { shard: 1 });
}

#[test]
fn queued_path_counter_wraps_round() {
    let mut s = state(4);
    s.round_robin_counter = usize::MAX;
    let ingress = submit_work_handler(&mut s, false, None);
    assert_eq!(ingress, Ingress::Enqueue { shard: usize::MAX % 4 });
    assert_eq!(s.round_robin_counter, 0);
}

#[test]
fn overload_answers_503() {
    let mut s = state(2);
    let ingress = submit_work_handler(&mut s, false, None);
    assert_eq!(admission_status(&ingress, true), 200);
    assert_eq!(admission_status(&ingress, false), 503);
    assert_eq!(handle_tower_error(), 503);
    let mut none = state(0);
    let ingress = submit_work_handler(&mut none, false, None);
    assert_eq!(ingress, Ingress::Unavailable);
    assert_eq!(admission_status(&ingress, true), 503);
    assert_eq!(none.round_robin_counter, 0);
}

#[test]
fn digits_and_text() {
    assert_eq!(digit_of(0), '0');
    assert_eq!(digit_of(9), '9');
    assert_eq!(value_of('0'), Some(0));
    assert_eq!(value_of('9'), Some(9));
    assert_eq!(value_of('/'), None);
    assert_eq!(value_of(':'), None);
    assert_eq!(value_of('a'), None);
    let mut out = vec!['x'];
    push_digits(&mut out, 0);
    push_digits(&mut out, 1203);
    push_digits(&mut out, u128::MAX);
    let text: String = out.iter().collect();
    assert_eq!(text, "x01203340282366920938463463374607431768211455");
    assert_eq!(chars_of("a\u{e9}z"), vec!['a', '\u{e9}', 'z']);
    assert_eq!(joined("ab", "\u{e9}d"), "ab\u{e9}d");
    assert_eq!(joined("", ""), "");
    assert!(same_text("abc", "abc"));
    assert!(same_text("", ""));
    assert!(!same_text("abc", "abd"));
    assert!(!same_text("abc", "ab"));
    assert!(!same_text("", "a"));
}

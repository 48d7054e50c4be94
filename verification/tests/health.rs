use payment_gateway::api::http::{accepted, cria_cliente_http, payment_url};
use payment_gateway::api::nats::{
    cria_cliente_nats, slot_of_subject, status_subject, ConnectStep, SUBJECT_PATTERN,
};
use payment_gateway::appstate::AppState;
use payment_gateway::models::payment::Payment;
use payment_gateway::models::processor::TipoProcessador;
use payment_gateway::workers::consumer::{fallback_threshold, Action, Dispatch, Event, RetryBudget};
use payment_gateway::workers::health_checker::{
    coleta_saude_processador, cria_worker_coleta_saude, marcar_como_falho, plan_probe, role_of,
    HealthReport, ProbeOutcome, Role,
};
use payment_gateway::workers::health_consumer::cria_worker_confere_saude;

fn state() -> AppState {
    AppState::new("http://default:8080".to_string(), "http://fallback:8080".to_string(), 4, 75)
}

#[test]
fn subjects_of_the_two_slots() {
    assert_eq!(status_subject(0), "processor.0.status");
    assert_eq!(status_subject(1), "processor.1.status");
    assert_eq!(status_subject(10), "processor.10.status");
    assert_eq!(status_subject(907), "processor.907.status");
    assert_eq!(SUBJECT_PATTERN, "processor.*.status");
}

#[test]
fn subject_names_its_slot() {
    assert_eq!(slot_of_subject(&status_subject(0)), Some(0));
    assert_eq!(slot_of_subject(&status_subject(1)), Some(1));
    assert_eq!(slot_of_subject(&status_subject(2)), None);
    assert_eq!(slot_of_subject(&status_subject(usize::MAX)), None);
}

#[test]
fn slot_is_read_as_an_index() {
    assert_eq!(slot_of_subject("processor.0.status"), Some(0));
    assert_eq!(slot_of_subject("processor.1.status"), Some(1));
    assert_eq!(slot_of_subject("processor.+1.status"), Some(1));
    assert_eq!(slot_of_subject("processor.01.status"), Some(1));
    assert_eq!(slot_of_subject("processor.000.status"), Some(0));
    assert_eq!(slot_of_subject("processor.+000001.status"), Some(1));
}

#[test]
fn subjects_that_name_no_slot() {
    for subject in [
        "",
        "processor.",
        ".status",
        "processor.status",
        "processor..status",
        "processor.+.status",
        "processor.-1.status",
        "processor.-0.status",
        "processor.++1.status",
        "processor.1+.status",
        "processor.2.status",
        "processor.10.status",
        "processor.11.status",
        "processor.99999999999999999999999999999999.status",
        "processor.a.status",
        "processor.1a.status",
        "processor. 1.status",
        "processor.1 .status",
        "processor.1.statu",
        "processor.1.status ",
        "Processor.1.status",
        "rocessor.1.status",
        "processor.1.statusprocessor.1.status",
        "processor.*.status",
        "processor.\u{661}.status",
    ] {
        assert_eq!(slot_of_subject(subject), None, "subject {:?}", subject);
    }
}

#[test]
fn connection_is_tried_five_times() {
    assert_eq!(cria_cliente_nats(1, true), ConnectStep::Connected);
    assert_eq!(cria_cliente_nats(3, true), ConnectStep::Connected);
    assert_eq!(cria_cliente_nats(1, false), ConnectStep::RetryAfter { secs: 5 });
    assert_eq!(cria_cliente_nats(4, false), ConnectStep::RetryAfter { secs: 5 });
    assert_eq!(cria_cliente_nats(5, false), ConnectStep::GiveUp);
    assert_eq!(cria_cliente_nats(6, false), ConnectStep::GiveUp);
}

#[test]
fn role_defaults_to_leader() {
    assert_eq!(role_of(None), Role::Leader);
    assert_eq!(role_of(Some("LIDER")), Role::Leader);
    assert_eq!(role_of(Some("lider")), Role::Follower);
    assert_eq!(role_of(Some("SEGUIDOR")), Role::Follower);
    assert_eq!(role_of(Some("")), Role::Follower);
    assert_eq!(role_of(Some("LIDER ")), Role::Follower);
}

#[test]
fn leader_probes_both_upstreams() {
    assert_eq!(cria_worker_coleta_saude(), (TipoProcessador::Default, TipoProcessador::Fallback));
}

#[test]
fn probe_asks_the_health_endpoint_within_the_timeout() {
    let mut s = state();
    let plan = plan_probe(&s, TipoProcessador::Default).unwrap();
    assert_eq!(plan.url, "http://default:8080/payments/service-health");
    assert_eq!(plan.timeout_ms, 200);
    s.processors_fallback.min_response_time = 65535;
    let plan = plan_probe(&s, TipoProcessador::Fallback).unwrap();
    assert_eq!(plan.url, "http://fallback:8080/payments/service-health");
    assert_eq!(plan.timeout_ms, 65635);
    assert!(plan_probe(&s, TipoProcessador::Nenhum).is_none());
}

#[test]
fn report_is_written_and_published() {
    let mut s = state();
    let outcome = ProbeOutcome::Answered {
        status: 200,
        report: Some(HealthReport { failing: true, min_response_time: 42 }),
    };
    let step = coleta_saude_processador(&mut s, TipoProcessador::Default, outcome).unwrap();
    assert!(s.processors_default.failing);
    assert_eq!(s.processors_default.min_response_time, 42);
    assert!(!s.processors_fallback.failing);
    assert_eq!(s.processors_fallback.min_response_time, 100);
    assert_eq!(step.sleep_ms, 5100);
    let publication = step.publication.unwrap();
    assert_eq!(publication.subject, "processor.0.status");
    assert!(publication.state.failing);
    assert_eq!(publication.state.min_response_time, 42);
    assert_eq!(publication.state.address, "http://default:8080");
    assert_eq!(publication.state.tipo, TipoProcessador::Default);

    let outcome = ProbeOutcome::Answered {
        status: 204,
        report: Some(HealthReport { failing: false, min_response_time: 0 }),
    };
    let step = coleta_saude_processador(&mut s, TipoProcessador::Fallback, outcome).unwrap();
    assert!(!s.processors_fallback.failing);
    assert_eq!(s.processors_fallback.min_response_time, 0);
    assert_eq!(step.publication.unwrap().subject, "processor.1.status");
}

#[test]
fn report_clears_a_failure_that_a_dispatch_marked() {
    let mut s = state();
    s.mark_failing(TipoProcessador::Default);
    assert!(s.processors_default.failing);
    let outcome = ProbeOutcome::Answered {
        status: 200,
        report: Some(HealthReport { failing: false, min_response_time: 7 }),
    };
    coleta_saude_processador(&mut s, TipoProcessador::Default, outcome);
    assert!(!s.processors_default.failing);
}

#[test]
fn failed_probe_marks_the_slot_and_publishes_nothing() {
    let report = Some(HealthReport { failing: false, min_response_time: 1 });
    for outcome in [
        ProbeOutcome::Unreachable,
        ProbeOutcome::Answered { status: 500, report },
        ProbeOutcome::Answered { status: 429, report },
        ProbeOutcome::Answered { status: 199, report },
        ProbeOutcome::Answered { status: 300, report },
        ProbeOutcome::Answered { status: 200, report: None },
    ] {
        let mut s = state();
        s.processors_fallback.min_response_time = 30;
        let step = coleta_saude_processador(&mut s, TipoProcessador::Fallback, outcome).unwrap();
        assert!(s.processors_fallback.failing, "{:?}", outcome);
        assert_eq!(s.processors_fallback.min_response_time, 500);
        assert!(step.publication.is_none());
        assert_eq!(step.sleep_ms, 5030);
        assert!(!s.processors_default.failing);
        assert_eq!(s.processors_default.min_response_time, 100);
    }
}

#[test]
fn there_is_no_prober_for_no_kind() {
    let mut s = state();
    assert!(coleta_saude_processador(&mut s, TipoProcessador::Nenhum, ProbeOutcome::Unreachable)
        .is_none());
    assert!(!s.processors_default.failing && !s.processors_fallback.failing);
}

#[test]
fn marcar_como_falho_writes_failing_and_500() {
    let mut s = state();
    marcar_como_falho(&mut s.processors_default);
    assert!(s.processors_default.failing);
    assert_eq!(s.processors_default.min_response_time, 500);
    assert_eq!(s.processors_default.address, "http://default:8080");
    assert_eq!(s.processors_default.tipo, TipoProcessador::Default);
}

#[test]
fn message_is_mirrored_in_its_slot() {
    let mut s = state();
    let report = Some(HealthReport { failing: true, min_response_time: 250 });
    assert!(cria_worker_confere_saude(&mut s, "processor.1.status", report));
    assert!(s.processors_fallback.failing);
    assert_eq!(s.processors_fallback.min_response_time, 250);
    assert!(!s.processors_default.failing);
    assert_eq!(s.processors_default.min_response_time, 100);
    assert_eq!(s.processors_fallback.address, "http://fallback:8080");
    let report = Some(HealthReport { failing: false, min_response_time: 1 });
    assert!(cria_worker_confere_saude(&mut s, "processor.1.status", report));
    assert!(!s.processors_fallback.failing);
}

#[test]
fn messages_that_cannot_be_used_are_dropped() {
    let report = Some(HealthReport { failing: true, min_response_time: 250 });
    for (subject, report) in [
        ("processor.2.status", report),
        ("processor.x.status", report),
        ("health.0", report),
        ("processor.0.status", None),
    ] {
        let mut s = state();
        assert!(!cria_worker_confere_saude(&mut s, subject, report));
        assert!(!s.processors_default.failing && !s.processors_fallback.failing);
        assert_eq!(s.processors_default.min_response_time, 100);
        assert_eq!(s.processors_fallback.min_response_time, 100);
    }
}

#[test]
fn health_propagation() {
    let mut leader = state();
    let mut follower = state();
    let outcome = ProbeOutcome::Answered {
        status: 200,
        report: Some(HealthReport { failing: true, min_response_time: 120 }),
    };
    let step = coleta_saude_processador(&mut leader, TipoProcessador::Default, outcome).unwrap();
    let publication = step.publication.unwrap();
    // The payload travels as the published state; the follower decodes its two health fields.
    let report = HealthReport {
        failing: publication.state.failing,
        min_response_time: publication.state.min_response_time,
    };
    assert!(cria_worker_confere_saude(&mut follower, &publication.subject, Some(report)));
    assert!(follower.processors_default.failing);
    assert_eq!(follower.processors_default.min_response_time, 120);

    let threshold = fallback_threshold(40, 75);
    let mut early = Dispatch::new(Payment::fresh(1, 1), RetryBudget::standard(), threshold);
    assert_eq!(
        early.step(&mut follower, Event::Started { now: 1 }),
        Action::Sleep { ms: 100 }
    );
    let mut due = Dispatch::new(Payment::fresh(2, 1), RetryBudget::standard(), 0);
    let action = due.step(&mut follower, Event::Started { now: 1 });
    assert!(matches!(action, Action::Post { tipo: TipoProcessador::Fallback, .. }));
}

#[test]
fn client_settings() {
    let settings = cria_cliente_http();
    assert_eq!(settings.timeout_ms, 2000);
    assert_eq!(settings.connect_timeout_ms, 500);
    assert!(settings.tcp_nodelay);
    assert_eq!(settings.pool_max_idle_per_host, 100);
}

#[test]
fn upstream_accepts_with_any_status_in_the_two_hundreds() {
    assert!(accepted(200));
    assert!(accepted(299));
    assert!(!accepted(199));
    assert!(!accepted(300));
    assert!(!accepted(0));
    assert!(!accepted(u16::MAX));
}

#[test]
fn payments_are_posted_to_the_payments_path() {
    let s = state();
    assert_eq!(
        payment_url(&s, TipoProcessador::Default).unwrap(),
        "http://default:8080/payments"
    );
    assert_eq!(
        payment_url(&s, TipoProcessador::Fallback).unwrap(),
        "http://fallback:8080/payments"
    );
    assert_eq!(payment_url(&s, TipoProcessador::Nenhum), None);
}

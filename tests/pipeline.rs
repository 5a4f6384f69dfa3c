use proof_queue::artifacts::{artifact_payload, verification_outcome};
use proof_queue::config::{Config, ConfigError};
use proof_queue::notify::notify_url;
use proof_queue::queue::{submit_verification, VerificationQueue};
use proof_queue::records::{ping_single, Plonky2Proof, ProofDataPlonky2, VerificationError, VerifyProof};
use proof_queue::registry::{register_proof, ProofRegistry};
use proof_queue::worker::{VerifyOutcome, Worker, WorkerAction, WorkerState, POLL_INTERVAL_MS};

fn registration(tx_id: &str, tag: &str) -> ProofDataPlonky2 {
    ProofDataPlonky2 {
        tx_id: tx_id.to_string(),
        proof_file_path: format!("{}/proof.bin", tag),
        common_data_file_path: format!("{}/common.bin", tag),
        verifier_data_file_path: format!("{}/verifier.bin", tag),
    }
}

fn request(tx_id: &str) -> VerifyProof {
    VerifyProof { tx_id: tx_id.to_string(), verify_type: 1 }
}

#[test]
fn registry_overwrite_keeps_second() {
    let mut reg = ProofRegistry::new();
    assert!(register_proof(&mut reg, registration("t1", "a")).is_submitted);
    assert!(register_proof(&mut reg, registration("t1", "b")).is_submitted);
    let p: &Plonky2Proof = reg.lookup(&"t1".to_string()).unwrap();
    assert_eq!(p.proof_file_path, "b/proof.bin");
    assert_eq!(p.common_data_file_path, "b/common.bin");
    assert_eq!(p.verifier_data_file_path, "b/verifier.bin");
    assert!(reg.lookup(&"t2".to_string()).is_none());
}

#[test]
fn enqueue_gating() {
    let mut reg = ProofRegistry::new();
    let mut q = VerificationQueue::new();
    assert!(!submit_verification(&mut q, &reg, request("t1")).is_submitted);
    assert!(q.is_empty());
    register_proof(&mut reg, registration("t1", "a"));
    assert!(submit_verification(&mut q, &reg, request("t1")).is_submitted);
    assert_eq!(q.len(), 1);
    let head = q.dequeue().unwrap();
    assert_eq!(head.tx_id, "t1");
    assert!(q.dequeue().is_none());
}

fn finish_round(w: &mut Worker, outcome: VerifyOutcome) -> (String, bool) {
    let r = w.complete(outcome).unwrap();
    assert!(w.dispatched());
    assert!(w.is_idle());
    (r.tx_id, r.is_valid)
}

#[test]
fn fifo_order() {
    let mut reg = ProofRegistry::new();
    let mut q = VerificationQueue::new();
    for id in ["A", "B", "C"] {
        register_proof(&mut reg, registration(id, id));
    }
    for id in ["A", "B", "C"] {
        assert!(submit_verification(&mut q, &reg, request(id)).is_submitted);
    }
    let mut w = Worker::new();
    let mut seen = Vec::new();
    for _ in 0..3 {
        match w.poll(&mut q, &reg) {
            WorkerAction::Verify { tx_id, proof } => {
                assert_eq!(proof.proof_file_path, format!("{}/proof.bin", tx_id));
                seen.push(tx_id);
            }
            other => panic!("unexpected action {:?}", other),
        }
        finish_round(&mut w, VerifyOutcome::Valid);
    }
    assert_eq!(seen, vec!["A", "B", "C"]);
    assert!(q.is_empty());
}

#[test]
fn at_most_one_in_progress() {
    let mut reg = ProofRegistry::new();
    let mut q = VerificationQueue::new();
    register_proof(&mut reg, registration("t1", "a"));
    submit_verification(&mut q, &reg, request("t1"));
    submit_verification(&mut q, &reg, request("t1"));
    let mut w = Worker::new();
    assert!(matches!(w.poll(&mut q, &reg), WorkerAction::Verify { .. }));
    assert!(matches!(w.poll(&mut q, &reg), WorkerAction::Busy));
    assert_eq!(q.len(), 1);
    assert!(w.complete(VerifyOutcome::Invalid).is_some());
    assert!(matches!(w.poll(&mut q, &reg), WorkerAction::Busy));
    assert!(w.complete(VerifyOutcome::Valid).is_none());
    assert!(w.dispatched());
    assert!(!w.dispatched());
    assert!(matches!(w.poll(&mut q, &reg), WorkerAction::Verify { .. }));
    assert!(q.is_empty());
}

#[test]
fn idle_polling_sleeps_then_resumes() {
    let mut reg = ProofRegistry::new();
    let mut q = VerificationQueue::new();
    let mut w = Worker::new();
    match w.poll(&mut q, &reg) {
        WorkerAction::Sleep { millis } => assert_eq!(millis, 100),
        other => panic!("unexpected action {:?}", other),
    }
    assert_eq!(POLL_INTERVAL_MS, 100);
    assert!(w.is_idle());
    register_proof(&mut reg, registration("t9", "z"));
    submit_verification(&mut q, &reg, request("t9"));
    assert!(matches!(w.poll(&mut q, &reg), WorkerAction::Verify { .. }));
    assert!(!w.is_idle());
}

#[test]
fn end_to_end_scenario() {
    let mut reg = ProofRegistry::new();
    let mut q = VerificationQueue::new();
    register_proof(&mut reg, registration("t1", "/data/t1"));
    let accepted = submit_verification(&mut q, &reg, VerifyProof { tx_id: "t1".to_string(), verify_type: 1 });
    assert!(accepted.is_submitted);
    let mut w = Worker::new();
    let proof = match w.poll(&mut q, &reg) {
        WorkerAction::Verify { tx_id, proof } => {
            assert_eq!(tx_id, "t1");
            proof
        }
        other => panic!("unexpected action {:?}", other),
    };
    assert_eq!(proof.proof_file_path, "/data/t1/proof.bin");
    let result = w.complete(verification_outcome(true, true)).unwrap();
    assert_eq!(result.tx_id, "t1");
    assert!(result.is_valid);
    assert_eq!(result.error, None);
    assert!(w.dispatched());
    assert_eq!(notify_url(0), "http://127.0.0.1:0/submit-result");
}

#[test]
fn end_to_end_rejection_scenario() {
    let reg = ProofRegistry::new();
    let mut q = VerificationQueue::new();
    let accepted = submit_verification(&mut q, &reg, VerifyProof { tx_id: "unknown".to_string(), verify_type: 1 });
    assert!(!accepted.is_submitted);
    assert!(q.is_empty());
    let mut w = Worker::new();
    assert!(matches!(w.poll(&mut q, &reg), WorkerAction::Sleep { .. }));
    assert!(w.complete(VerifyOutcome::Valid).is_none());
}

#[test]
fn unregistered_head_is_reported_as_error() {
    let mut known = ProofRegistry::new();
    register_proof(&mut known, registration("ghost", "g"));
    let mut q = VerificationQueue::new();
    assert!(submit_verification(&mut q, &known, request("ghost")).is_submitted);
    let empty = ProofRegistry::new();
    let mut w = Worker::new();
    match w.poll(&mut q, &empty) {
        WorkerAction::Report { result } => {
            assert_eq!(result.tx_id, "ghost");
            assert!(!result.is_valid);
            assert_eq!(result.error, Some(VerificationError::NotRegistered));
        }
        other => panic!("unexpected action {:?}", other),
    }
    assert!(matches!(w.current(), WorkerState::Reporting { .. }));
    assert!(w.dispatched());
    assert!(w.is_idle());
}

#[test]
fn outcomes_map_to_results() {
    assert_eq!(verification_outcome(false, true), VerifyOutcome::Error);
    assert_eq!(verification_outcome(true, false), VerifyOutcome::Invalid);
    assert_eq!(verification_outcome(true, true), VerifyOutcome::Valid);
    let mut reg = ProofRegistry::new();
    let mut q = VerificationQueue::new();
    register_proof(&mut reg, registration("e", "e"));
    submit_verification(&mut q, &reg, request("e"));
    submit_verification(&mut q, &reg, request("e"));
    let mut w = Worker::new();
    w.poll(&mut q, &reg);
    let r = w.complete(VerifyOutcome::Error).unwrap();
    assert!(!r.is_valid);
    assert_eq!(r.error, Some(VerificationError::Artifacts));
    assert!(w.dispatched());
    w.poll(&mut q, &reg);
    let r = w.complete(VerifyOutcome::Invalid).unwrap();
    assert!(!r.is_valid);
    assert_eq!(r.error, None);
}

#[test]
fn unknown_id_never_reaches_worker() {
    let mut reg = ProofRegistry::new();
    let mut q = VerificationQueue::new();
    register_proof(&mut reg, registration("k", "k"));
    assert!(!submit_verification(&mut q, &reg, request("unknown")).is_submitted);
    assert!(submit_verification(&mut q, &reg, request("k")).is_submitted);
    let mut w = Worker::new();
    match w.poll(&mut q, &reg) {
        WorkerAction::Verify { tx_id, .. } => assert_eq!(tx_id, "k"),
        other => panic!("unexpected action {:?}", other),
    }
    let r = w.complete(VerifyOutcome::Valid).unwrap();
    assert_eq!(r.tx_id, "k");
    assert!(w.dispatched());
    assert!(matches!(w.poll(&mut q, &reg), WorkerAction::Sleep { .. }));
}

#[test]
fn notify_url_digits() {
    assert_eq!(notify_url(8081), "http://127.0.0.1:8081/submit-result");
    assert_eq!(notify_url(65535), "http://127.0.0.1:65535/submit-result");
    assert_eq!(notify_url(10), "http://127.0.0.1:10/submit-result");
}

#[test]
fn artifact_header_is_stripped() {
    let short = vec![7u8; 31];
    assert!(artifact_payload(&short).is_none());
    let exact = vec![7u8; 32];
    assert_eq!(artifact_payload(&exact).unwrap(), Vec::<u8>::new());
    let mut bytes = vec![0u8; 32];
    bytes.extend_from_slice(&[1, 2, 3]);
    assert_eq!(artifact_payload(&bytes).unwrap(), vec![1, 2, 3]);
}

#[test]
fn config_defaults() {
    let c = Config::from_vars(None, None, None, None).unwrap();
    assert_eq!(c.port, 8080);
    assert_eq!(c.workers, 1);
    assert!(!c.delete_files);
    assert_eq!(c.u_port, 0);
}

#[test]
fn config_values_and_errors() {
    let c = Config::from_vars(Some("9000"), Some("+4"), Some("true"), Some("65535")).unwrap();
    assert_eq!((c.port, c.workers, c.delete_files, c.u_port), (9000, 4, true, 65535));
    assert_eq!(Config::from_vars(Some("65536"), None, None, None).unwrap_err(), ConfigError::Port);
    assert_eq!(Config::from_vars(Some("x"), Some("y"), None, None).unwrap_err(), ConfigError::Port);
    assert_eq!(Config::from_vars(None, Some(""), None, None).unwrap_err(), ConfigError::Workers);
    assert_eq!(Config::from_vars(None, Some("+"), None, None).unwrap_err(), ConfigError::Workers);
    assert_eq!(Config::from_vars(None, None, Some("True"), None).unwrap_err(), ConfigError::DeleteFiles);
    assert_eq!(Config::from_vars(None, None, None, Some("-1")).unwrap_err(), ConfigError::UPort);
    let copy = c;
    assert_eq!(copy.port, c.port);
}

#[test]
fn ping_reports_success() {
    assert!(ping_single().success);
}

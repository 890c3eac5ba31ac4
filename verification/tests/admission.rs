use codex_grpc::admission::{AdmissionGate, ConcurrencyLimit, Permit, Refusal};

fn granted(gate: &mut AdmissionGate) -> Permit {
    match gate.try_acquire() {
        Ok(permit) => permit,
        Err(refusal) => panic!("expected a grant, got {:?}", refusal),
    }
}

fn refused(gate: &mut AdmissionGate) -> Refusal {
    match gate.try_acquire() {
        Ok(_) => panic!("expected a refusal"),
        Err(refusal) => refusal,
    }
}

#[test]
fn new_gate_is_open_and_empty() {
    let gate = AdmissionGate::new(ConcurrencyLimit::BoundedBy(4));
    assert_eq!(gate.limit(), ConcurrencyLimit::BoundedBy(4));
    assert_eq!(gate.in_flight(), 0);
    assert!(!gate.is_closed());
}

#[test]
fn limit_from_option() {
    assert_eq!(ConcurrencyLimit::from_option(None), ConcurrencyLimit::Unbounded);
    assert_eq!(ConcurrencyLimit::from_option(Some(3)), ConcurrencyLimit::BoundedBy(3));
    assert_eq!(ConcurrencyLimit::from_option(Some(1)), ConcurrencyLimit::BoundedBy(1));
}

#[test]
fn zero_is_no_limit_to_accept() {
    assert!(!ConcurrencyLimit::accepts(Some(0)));
    assert!(ConcurrencyLimit::accepts(Some(1)));
    assert!(ConcurrencyLimit::accepts(Some(usize::MAX)));
    assert!(ConcurrencyLimit::accepts(None));
}

#[test]
fn first_caller_is_granted() {
    let mut gate = AdmissionGate::new(ConcurrencyLimit::BoundedBy(1));
    assert!(gate.try_acquire().is_ok());
    let mut gate = AdmissionGate::new(ConcurrencyLimit::BoundedBy(usize::MAX));
    assert!(gate.try_acquire().is_ok());
    let mut gate = AdmissionGate::new(ConcurrencyLimit::Unbounded);
    assert!(gate.try_acquire().is_ok());
}

#[test]
fn admission_never_exceeds_the_limit() {
    let mut gate = AdmissionGate::new(ConcurrencyLimit::BoundedBy(3));
    let mut permits = Vec::new();
    for _ in 0..10 {
        if let Ok(permit) = gate.try_acquire() {
            permits.push(permit);
        }
        assert!(gate.in_flight() <= 3);
    }
    assert_eq!(permits.len(), 3);
    assert_eq!(gate.in_flight(), 3);
    assert_eq!(refused(&mut gate), Refusal::MustWait);
}

#[test]
fn admission_under_load_stays_within_limit() {
    let mut gate = AdmissionGate::new(ConcurrencyLimit::BoundedBy(2));
    let mut running = Vec::new();
    let mut peak = 0usize;
    for round in 0..100 {
        if round % 3 == 2 {
            if let Some(permit) = running.pop() {
                gate.release(permit);
            }
        } else if let Ok(permit) = gate.try_acquire() {
            running.push(permit);
        }
        assert_eq!(gate.in_flight(), running.len());
        if running.len() > peak {
            peak = running.len();
        }
    }
    assert_eq!(peak, 2);
}

#[test]
fn limit_one_serializes_two_callers() {
    let mut gate = AdmissionGate::new(ConcurrencyLimit::BoundedBy(1));
    let first = granted(&mut gate);
    assert_eq!(refused(&mut gate), Refusal::MustWait);
    assert_eq!(refused(&mut gate), Refusal::MustWait);
    assert_eq!(gate.in_flight(), 1);
    gate.release(first);
    assert_eq!(gate.in_flight(), 0);
    let _second = granted(&mut gate);
    assert_eq!(gate.in_flight(), 1);
}

#[test]
fn unbounded_gate_grants_and_counts() {
    let mut gate = AdmissionGate::new(ConcurrencyLimit::Unbounded);
    let mut permits = Vec::new();
    for held in 0..1000 {
        assert_eq!(gate.in_flight(), held);
        permits.push(granted(&mut gate));
    }
    assert_eq!(gate.in_flight(), 1000);
    while let Some(permit) = permits.pop() {
        gate.release(permit);
        assert_eq!(gate.in_flight(), permits.len());
    }
    assert_eq!(gate.in_flight(), 0);
}

#[test]
fn closed_gate_refuses() {
    let mut gate = AdmissionGate::new(ConcurrencyLimit::BoundedBy(2));
    let held = granted(&mut gate);
    gate.close();
    assert!(gate.is_closed());
    assert_eq!(refused(&mut gate), Refusal::Unavailable);
    assert_eq!(gate.in_flight(), 1);
    gate.release(held);
    assert_eq!(gate.in_flight(), 0);
    assert_eq!(refused(&mut gate), Refusal::Unavailable);
}

#[test]
fn closed_unbounded_gate_refuses() {
    let mut gate = AdmissionGate::new(ConcurrencyLimit::Unbounded);
    gate.close();
    assert_eq!(refused(&mut gate), Refusal::Unavailable);
    assert_eq!(gate.in_flight(), 0);
}

#[test]
fn closing_twice_is_closing_once() {
    let mut gate = AdmissionGate::new(ConcurrencyLimit::BoundedBy(1));
    gate.close();
    gate.close();
    assert!(gate.is_closed());
    assert_eq!(gate.in_flight(), 0);
    assert_eq!(gate.limit(), ConcurrencyLimit::BoundedBy(1));
}

#[test]
fn released_slot_is_granted_again() {
    let mut gate = AdmissionGate::new(ConcurrencyLimit::BoundedBy(2));
    let first = granted(&mut gate);
    let second = granted(&mut gate);
    assert_eq!(refused(&mut gate), Refusal::MustWait);
    gate.release(second);
    let third = granted(&mut gate);
    assert_eq!(refused(&mut gate), Refusal::MustWait);
    gate.release(first);
    gate.release(third);
    assert_eq!(gate.in_flight(), 0);
}

use driven::strategy::{
    derive_claim_token, LaneClaim, LaneId, PassNumber, WorkerId, LANE_CLAIM_SCHEMA,
};

#[test]
fn lane_id_accepts_only_one_through_thirty() {
    assert!(LaneId::new(1).is_ok());
    assert!(LaneId::new(30).is_ok());
    assert!(LaneId::new(0).is_err());
    assert!(LaneId::new(31).is_err());
}

#[test]
fn worker_id_normalizes_and_rejects_invalid_input() {
    assert_eq!(
        WorkerId::new(" Worker.One ").unwrap().as_str(),
        "worker.one"
    );
    assert!(WorkerId::new("worker one").is_err());
}

#[test]
fn claim_token_is_deterministic() {
    let lane = LaneId::new(2).unwrap();
    let pass = PassNumber::new(3).unwrap();
    let worker = WorkerId::new("worker-a").unwrap();
    assert_eq!(
        derive_claim_token(lane, pass, &worker, "scope"),
        derive_claim_token(lane, pass, &worker, "scope")
    );
}

#[test]
fn claim_validation_rejects_tampered_schema_and_token() {
    let mut claim = LaneClaim::new(
        LaneId::new(1).unwrap(),
        PassNumber::first(),
        WorkerId::new("worker-a").unwrap(),
        "scope",
    );

    claim.schema = "wrong".to_string();
    assert!(claim.validate().is_err());

    claim.schema = LANE_CLAIM_SCHEMA.to_string();
    claim.scope = "other-scope".to_string();
    assert!(claim.validate().is_err());
}

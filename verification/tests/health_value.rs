use health_check::eth_sender::{EthTxBlobSidecar, EthTxBlobSidecarV1, SidecarBlob};
use health_check::{Health, HealthStatus};

const ALL: [HealthStatus; 6] = [
    HealthStatus::NotReady,
    HealthStatus::Ready,
    HealthStatus::Affected,
    HealthStatus::ShuttingDown,
    HealthStatus::ShutDown,
    HealthStatus::Panicked,
];

#[test]
fn only_ready_and_affected_are_healthy() {
    assert!(HealthStatus::Ready.is_healthy());
    assert!(HealthStatus::Affected.is_healthy());
    assert!(!HealthStatus::NotReady.is_healthy());
    assert!(!HealthStatus::ShuttingDown.is_healthy());
    assert!(!HealthStatus::ShutDown.is_healthy());
    assert!(!HealthStatus::Panicked.is_healthy());
}

#[test]
fn priorities_for_aggregation() {
    assert_eq!(HealthStatus::Ready.priority_for_aggregation(), 0);
    assert_eq!(HealthStatus::Affected.priority_for_aggregation(), 1);
    assert_eq!(HealthStatus::ShuttingDown.priority_for_aggregation(), 2);
    assert_eq!(HealthStatus::ShutDown.priority_for_aggregation(), 3);
    assert_eq!(HealthStatus::NotReady.priority_for_aggregation(), 4);
    assert_eq!(HealthStatus::Panicked.priority_for_aggregation(), 5);
}

#[test]
fn priorities_are_distinct() {
    for a in ALL {
        for b in ALL {
            assert_eq!(
                a.priority_for_aggregation() == b.priority_for_aggregation(),
                a == b
            );
        }
    }
}

#[test]
fn worse_of_picks_the_greater_priority() {
    for a in ALL {
        for b in ALL {
            let worse = a.worse_of(b);
            let expected = a
                .priority_for_aggregation()
                .max(b.priority_for_aggregation());
            assert_eq!(worse.priority_for_aggregation(), expected);
            assert_eq!(worse, b.worse_of(a));
        }
    }
    assert_eq!(
        HealthStatus::Ready.worse_of(HealthStatus::NotReady),
        HealthStatus::NotReady
    );
    assert_eq!(
        HealthStatus::Affected.worse_of(HealthStatus::Ready),
        HealthStatus::Affected
    );
}

#[test]
fn health_from_status_has_no_details() {
    for status in ALL {
        let health = Health::from(status);
        assert_eq!(health.status(), status);
        assert!(health.details().is_none());
        assert!(health == Health::new(status));
        let converted: Health = status.into();
        assert!(converted == health);
    }
}

#[test]
fn with_details_keeps_the_status() {
    let value = serde_json::Value::from(42);
    let health = Health::from(HealthStatus::Affected).with_details(value.clone());
    assert_eq!(health.status(), HealthStatus::Affected);
    assert_eq!(health.details(), Some(&value));

    // Later details replace earlier ones.
    let other = serde_json::Value::from("queue is full");
    let health = health.with_details(other.clone());
    assert_eq!(health.status(), HealthStatus::Affected);
    assert_eq!(health.details(), Some(&other));
}

#[test]
fn health_equality_is_structural() {
    let bare = Health::from(HealthStatus::Ready);
    let one = Health::from(HealthStatus::Ready).with_details(serde_json::Value::from(1));
    let one_again = Health::from(HealthStatus::Ready).with_details(serde_json::Value::from(1));
    let two = Health::from(HealthStatus::Ready).with_details(serde_json::Value::from(2));
    let null = Health::from(HealthStatus::Ready).with_details(serde_json::Value::Null);
    let other_status = Health::from(HealthStatus::Affected).with_details(serde_json::Value::from(1));

    assert!(bare == Health::from(HealthStatus::Ready));
    assert!(one == one_again);
    assert!(one != two);
    assert!(bare != one);
    assert!(one != bare);
    // Details that are JSON `null` are still details.
    assert!(bare != null);
    assert!(one != other_status);
    assert!(bare != Health::from(HealthStatus::Affected));
}

#[test]
fn clone_of_a_health_is_equal_to_it() {
    let mut object = serde_json::Map::new();
    object.insert("lag".to_owned(), serde_json::Value::from(17));
    object.insert(
        "peers".to_owned(),
        serde_json::Value::Array(vec![
            serde_json::Value::from("a"),
            serde_json::Value::from("b"),
        ]),
    );
    let health =
        Health::from(HealthStatus::Affected).with_details(serde_json::Value::Object(object));
    let copy = health.clone();
    assert!(copy == health);
    assert_eq!(copy.status(), HealthStatus::Affected);
    assert_eq!(copy.details(), health.details());
}

#[test]
fn sidecar_holds_its_blobs_in_order() {
    let first = SidecarBlob {
        blob: vec![1, 2, 3],
        commitment: vec![4],
        proof: vec![5, 6],
    };
    let second = SidecarBlob {
        blob: vec![],
        commitment: vec![7, 8],
        proof: vec![9],
    };
    let sidecar = EthTxBlobSidecar::EthTxBlobSidecarV1(EthTxBlobSidecarV1 {
        blobs: vec![first, second],
    });
    let copy = sidecar.clone();
    let EthTxBlobSidecar::EthTxBlobSidecarV1(inner) = copy;
    assert_eq!(inner.blobs.len(), 2);
    assert_eq!(inner.blobs[0].blob, vec![1, 2, 3]);
    assert_eq!(inner.blobs[0].commitment, vec![4]);
    assert_eq!(inner.blobs[0].proof, vec![5, 6]);
    assert!(inner.blobs[1].blob.is_empty());
    assert_eq!(inner.blobs[1].commitment, vec![7, 8]);
    assert_eq!(inner.blobs[1].proof, vec![9]);
}

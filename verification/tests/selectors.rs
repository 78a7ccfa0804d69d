use assets_factory::selector::{lookup_operation, selector_for, OperationKind};

const ALL_OPS: [OperationKind; 8] = [
    OperationKind::ConvertAssetIdToAddress,
    OperationKind::Create,
    OperationKind::SetMetadata,
    OperationKind::SetMinBalance,
    OperationKind::SetTeam,
    OperationKind::TransferOwnership,
    OperationKind::StartDestroy,
    OperationKind::FinishDestroy,
];

#[test]
fn selector_values_match_canonical_signatures() {
    assert_eq!(selector_for(OperationKind::ConvertAssetIdToAddress), 0xa70174cb);
    assert_eq!(selector_for(OperationKind::Create), 0x9c28547e);
    assert_eq!(selector_for(OperationKind::SetMetadata), 0xf96ee86d);
    assert_eq!(selector_for(OperationKind::SetMinBalance), 0x28bfefa1);
    assert_eq!(selector_for(OperationKind::SetTeam), 0xb6e6b7d4);
    assert_eq!(selector_for(OperationKind::TransferOwnership), 0x0a94864e);
    assert_eq!(selector_for(OperationKind::StartDestroy), 0x13f946af);
    assert_eq!(selector_for(OperationKind::FinishDestroy), 0x99c720ff);
}

#[test]
fn selectors_are_pairwise_distinct() {
    for (i, a) in ALL_OPS.iter().enumerate() {
        for (j, b) in ALL_OPS.iter().enumerate() {
            if i != j {
                assert_ne!(selector_for(*a), selector_for(*b));
            }
        }
    }
}

#[test]
fn lookup_routes_each_selector_to_its_operation() {
    for op in ALL_OPS.iter() {
        assert_eq!(lookup_operation(selector_for(*op)), Some(*op));
    }
}

#[test]
fn lookup_rejects_unknown_selector() {
    assert_eq!(lookup_operation(0xdeadbeef), None);
    assert_eq!(lookup_operation(0x00000000), None);
}

use football_sim::result::{PlayerCollectionResult, PlayerResult};

#[test]
fn fresh_result_requests_nothing() {
    let result = PlayerResult::new();
    assert!(result.transfer_requests.is_empty());
}

#[test]
fn request_transfer_appends_ids_in_order() {
    let mut result = PlayerResult::new();
    result.request_transfer(5);
    result.request_transfer(6);
    assert_eq!(result.transfer_requests, vec![5, 6]);
}

#[test]
fn collection_result_bundles_its_parts() {
    let mut per_player = PlayerResult::new();
    per_player.request_transfer(3);
    let bundle = PlayerCollectionResult::new(vec![PlayerResult::new(), per_player], Vec::new());
    assert_eq!(bundle.players.len(), 2);
    assert!(bundle.players[0].transfer_requests.is_empty());
    assert_eq!(bundle.players[1].transfer_requests, vec![3]);
    assert!(bundle.outgoing_players.is_empty());
}

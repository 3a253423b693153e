use aperture_grpc_client::{endpoint_uses_https, SubscribeFilters, SubscribeRequest, VoteFilter};

#[test]
fn default_filters_make_an_empty_request() {
    let request = SubscribeRequest::from_filters(SubscribeFilters::default());
    assert_eq!(request.vote, VoteFilter::All as i32);
    assert!(request.signature.is_empty());
    assert!(request.account_include.is_empty());
    assert!(request.account_exclude.is_empty());
    assert!(request.account_required.is_empty());
    assert!(!request.signatures_only);
    assert!(!request.include_simulation);
}

#[test]
fn account_keys_keep_their_order() {
    let filters = SubscribeFilters::default()
        .vote(VoteFilter::VoteOnly)
        .include_account([7; 32])
        .include_account([8; 32])
        .exclude_account([9; 32]);
    assert_eq!(filters.account_include, vec![[7; 32], [8; 32]]);
    let request = SubscribeRequest::from_filters(filters);
    assert_eq!(request.vote, 1);
    assert_eq!(request.account_include, vec![vec![7; 32], vec![8; 32]]);
    assert_eq!(request.account_exclude, vec![vec![9; 32]]);
    assert!(request.account_required.is_empty());
}

#[test]
fn flag_setters_take_their_argument() {
    let filters = SubscribeFilters::default()
        .signatures_only()
        .include_simulation()
        .with_signatures_only(false)
        .with_include_simulation(false);
    assert!(!filters.signatures_only);
    assert!(!filters.include_simulation);
    let filters = filters.with_signatures_only(true).with_include_simulation(true);
    assert!(filters.signatures_only);
    assert!(filters.include_simulation);
}

#[test]
fn signature_replaces_previous_signature() {
    let filters = SubscribeFilters::default().signature([1; 64]).signature([5; 64]);
    assert_eq!(filters.signature, Some([5; 64]));
    assert_eq!(SubscribeRequest::from_filters(filters).signature, vec![5; 64]);
}

#[test]
fn scheme_detection_edge_cases() {
    assert!(!endpoint_uses_https(""));
    assert!(!endpoint_uses_https("https:/"));
    assert!(endpoint_uses_https("https://"));
    assert!(endpoint_uses_https("hTtPs://x"));
    assert!(!endpoint_uses_https(" https://x"));
    assert!(!endpoint_uses_https("httpé://x"));
}

#[test]
fn clearing_signatures_only_gives_back_the_default() {
    let filters = SubscribeFilters::default().signatures_only().with_signatures_only(false);
    assert_eq!(filters, SubscribeFilters::default());
}

#[test]
fn default_filters_with_repeated_account() {
    let request = SubscribeRequest::from_filters(
        SubscribeFilters::default().include_account([7; 32]).include_account([7; 32]),
    );
    assert!(request.signature.is_empty());
    assert_eq!(request.account_include, vec![vec![7; 32], vec![7; 32]]);
    assert!(request.account_exclude.is_empty());
    assert!(request.account_required.is_empty());
    assert_eq!(request.vote, VoteFilter::default() as i32);
    assert!(!request.signatures_only);
    assert!(!request.include_simulation);
}

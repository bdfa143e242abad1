use outsaver::storage::{LookupError, MoveError, RemoteNode, Snapshot, UploadError};

fn listing() -> Snapshot {
    Snapshot::new(vec![
        RemoteNode::new("h1".to_string(), "Clips".to_string()),
        RemoteNode::new("h2".to_string(), "Staging".to_string()),
        RemoteNode::new("h3".to_string(), "Clips".to_string()),
    ])
}

#[test]
fn handle_in_listing_is_found() {
    let n = listing().node_by_handle("h2").unwrap();
    assert_eq!(n.handle, "h2");
    assert_eq!(n.name, "Staging");
}

#[test]
fn handle_not_in_listing_is_not_found() {
    assert_eq!(listing().node_by_handle("zz").err(), Some(LookupError::NotFound));
    assert_eq!(Snapshot::new(Vec::new()).node_by_handle("h1").err(), Some(LookupError::NotFound));
}

#[test]
fn names_match_in_listing_order_with_duplicates() {
    let found = listing().nodes_by_names(&vec!["Clips".to_string(), "Nope".to_string()]);
    let handles: Vec<&str> = found.iter().map(|n| n.handle.as_str()).collect();
    assert_eq!(handles, vec!["h1", "h3"]);
    let found = listing().nodes_by_names(&vec!["Staging".to_string(), "Clips".to_string()]);
    let handles: Vec<&str> = found.iter().map(|n| n.handle.as_str()).collect();
    assert_eq!(handles, vec!["h1", "h2", "h3"]);
}

#[test]
fn missing_upload_destination_is_reported() {
    assert_eq!(listing().upload_destination("h3"), Ok(2));
    assert_eq!(
        listing().upload_destination("nope"),
        Err(UploadError::NoSuchDestination("nope".to_string()))
    );
}

#[test]
fn move_targets_resolve_both_ends() {
    assert_eq!(listing().move_targets("h2", "h1"), Ok((1, 0)));
    assert_eq!(listing().move_targets("x", "h1"), Err(MoveError::NoSuchSource("x".to_string())));
    assert_eq!(
        listing().move_targets("h1", "y"),
        Err(MoveError::NoSuchDestination("y".to_string()))
    );
}

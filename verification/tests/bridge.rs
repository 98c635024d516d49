use dataset_bridge::add_dataset;
use dataset_bridge::all_datasets;
use dataset_bridge::dataset_url;
use dataset_bridge::listing_url;
use dataset_bridge::remove_dataset;
use dataset_bridge::run_query;
use dataset_bridge::run_write;

#[test]
fn add_then_remove_echoed_name() {
    // A server that echoes the dataset name answers both requests with it.
    let added = add_dataset(Some(String::from("ds1")));
    assert_eq!(added, "Added ds1");
    let removed = remove_dataset(Some(String::from("ds1")));
    assert_eq!(removed, "Removed ds1");
}

#[test]
fn add_unreachable_server() {
    assert_eq!(add_dataset(None), "Error");
}

#[test]
fn remove_unreachable_server() {
    assert_eq!(remove_dataset(None), "Error");
}

#[test]
fn all_datasets_unreachable_server() {
    let r = all_datasets(None);
    assert_eq!(r, vec![String::from("Error")]);
}

#[test]
fn all_datasets_drops_empty_segment() {
    let r = all_datasets(Some(String::from("a\nb\n\nc")));
    assert_eq!(
        r,
        vec![String::from("a"), String::from("b"), String::from("c")]
    );
}

#[test]
fn all_datasets_empty_body() {
    let r = all_datasets(Some(String::new()));
    assert!(r.is_empty());
}

#[test]
fn all_datasets_trailing_newline() {
    let r = all_datasets(Some(String::from("a\n")));
    assert_eq!(r, vec![String::from("a")]);
}

#[test]
fn all_datasets_only_newlines() {
    let r = all_datasets(Some(String::from("\n\n\n")));
    assert!(r.is_empty());
}

#[test]
fn all_datasets_single_name_no_newline() {
    let r = all_datasets(Some(String::from("only")));
    assert_eq!(r, vec![String::from("only")]);
}

#[test]
fn run_write_only_logs() {
    // The stub takes no transport outcome: it cannot touch the network and
    // only renders the log line.
    let line = run_write("ds1", "INSERT x");
    assert_eq!(line, "Running Write on ds1:\nINSERT x");
}

#[test]
fn run_query_only_logs() {
    let line = run_query("ds1", "SELECT x");
    assert_eq!(line, "Running Query on ds1:\nSELECT x");
}

#[test]
fn urls_are_fixed() {
    assert_eq!(dataset_url("ds1"), "http://localhost:4200/datasets/ds1");
    assert_eq!(listing_url(), "http://localhost:4200/datasets");
}

#[test]
fn independent_results() {
    // Each call depends on its own arguments alone: interleaving two adds
    // cannot leak state from one into the other.
    let a = add_dataset(Some(String::from("a")));
    let b = add_dataset(Some(String::from("b")));
    assert_eq!(a, "Added a");
    assert_eq!(b, "Added b");
}

use vminfo::query::QueryRequest;

fn names(v: &[&str]) -> Vec<String> {
    v.iter().map(|s| s.to_string()).collect()
}

#[test]
fn single_hostname_query() {
    let hostname = names(&["linux-01"]);
    let req_body = QueryRequest::make(&hostname, false, false, false, None, None, &None);
    assert_eq!(req_body.options.skip, 0);
    assert_eq!(req_body.options.top, 1000);
    assert_eq!(req_body.query.contains("matches regex"), false);
    assert!(req_body.query.contains("in ('linux-01')"));
}

#[test]
fn many_hostnames_query() {
    let hostnames = names(&["linux-01", "linux-02", "windows-98", "ubuntu-test-04"]);
    let req_body = QueryRequest::make(&hostnames, false, false, false, None, None, &None);
    assert_eq!(req_body.options.skip, 0);
    assert_eq!(req_body.options.top, 1000);
    assert_eq!(req_body.query.contains("matches regex"), false);
    assert!(req_body
        .query
        .contains("in ('linux-01', 'linux-02', 'windows-98', 'ubuntu-test-04')"));
}

#[test]
fn regular_expression_matching() {
    let hostnames = names(&["linux-[0-9]+"]);
    let req_body = QueryRequest::make(&hostnames, true, false, false, None, None, &None);
    assert_eq!(req_body.options.skip, 0);
    assert_eq!(req_body.options.top, 1000);
    assert_eq!(req_body.query.contains("matches regex"), true);
}

#[test]
fn query_extensions() {
    let hostnames = names(&["linux-01", "linux-02", "windows-98", "ubuntu-test-04"]);
    let req_body = QueryRequest::make(&hostnames, false, true, false, None, None, &None);
    assert_eq!(req_body.options.skip, 0);
    assert_eq!(req_body.options.top, 1000);
    assert_eq!(req_body.query.contains("matches regex"), false);
    assert!(req_body.query.contains("linux-01"));
    assert!(req_body.query.contains("linux-02"));
    assert!(req_body.query.contains("windows-98"));
    assert!(req_body.query.contains("ubuntu-test-04"));
    assert!(req_body.query.contains(
        "| join kind=leftouter(Resources | where type =~ 'microsoft.compute/virtualmachines/extensions'"
    ))
}

#[test]
fn query_with_custom_page_size() {
    let hostnames = names(&[".*linux-[0-9]+$"]);
    let req_body = QueryRequest::make(&hostnames, true, false, false, None, Some(150), &None);
    assert_eq!(req_body.options.skip, 0);
    assert_eq!(req_body.options.top, 150);
}

#[test]
fn query_a_page() {
    let hostnames = names(&[".*linux-[0-9]+$"]);
    let req_body =
        QueryRequest::make(&hostnames, true, false, false, Some(3000), Some(1000), &None);
    assert_eq!(req_body.options.skip, 3000);
    assert_eq!(req_body.options.top, 1000);
}

#[test]
fn query_single_hostname_query() {
    let hostname = names(&["linux-01"]);
    let req_body = QueryRequest::make(&hostname, false, false, false, None, None, &None);
    assert_eq!(req_body.options.skip, 0);
    assert_eq!(req_body.options.top, 1000);
    assert_eq!(req_body.query.contains("matches regex"), false);
    assert!(req_body.query.contains("in ('linux-01')"));
}

#[test]
fn query_many_hostnames_query() {
    let hostnames = names(&["linux-01", "linux-02", "windows-98", "ubuntu-test-04"]);
    let req_body = QueryRequest::make(&hostnames, false, false, false, None, None, &None);
    assert_eq!(req_body.options.skip, 0);
    assert_eq!(req_body.options.top, 1000);
    assert_eq!(req_body.query.contains("matches regex"), false);
    assert!(req_body
        .query
        .contains("in ('linux-01', 'linux-02', 'windows-98', 'ubuntu-test-04')"));
}

#[test]
fn query_regular_expression_matching() {
    let hostnames = names(&["linux-[0-9]+"]);
    let req_body = QueryRequest::make(&hostnames, true, false, false, None, None, &None);
    assert_eq!(req_body.options.skip, 0);
    assert_eq!(req_body.options.top, 1000);
    assert_eq!(req_body.query.contains("matches regex"), true);
}

#[test]
fn query_query_extensions() {
    let hostnames = names(&["linux-01", "linux-02", "windows-98", "ubuntu-test-04"]);
    let req_body = QueryRequest::make(&hostnames, false, true, false, None, None, &None);
    assert_eq!(req_body.options.skip, 0);
    assert_eq!(req_body.options.top, 1000);
    assert_eq!(req_body.query.contains("matches regex"), false);
    assert!(req_body.query.contains("linux-01"));
    assert!(req_body.query.contains("linux-02"));
    assert!(req_body.query.contains("windows-98"));
    assert!(req_body.query.contains("ubuntu-test-04"));
    assert!(req_body.query.contains(
        "| join kind=leftouter(Resources | where type =~ 'microsoft.compute/virtualmachines/extensions'"
    ))
}

#[test]
fn query_tags() {
    let hostnames = names(&["linux-01", "linux-02", "windows-98", "ubuntu-test-04"]);
    let req_body = QueryRequest::make(&hostnames, false, false, true, None, None, &None);
    assert_eq!(req_body.options.skip, 0);
    assert_eq!(req_body.options.top, 1000);
    assert_eq!(req_body.query.contains("matches regex"), false);
    assert!(req_body.query.contains("linux-01"));
    assert!(req_body.query.contains("linux-02"));
    assert!(req_body.query.contains("windows-98"));
    assert!(req_body.query.contains("ubuntu-test-04"));
    assert!(req_body.query.contains(", tags=tags"))
}

#[test]
fn query_query_with_custom_page_size() {
    let hostnames = names(&[".*linux-[0-9]+$"]);
    let req_body = QueryRequest::make(&hostnames, true, false, false, None, Some(150), &None);
    assert_eq!(req_body.options.skip, 0);
    assert_eq!(req_body.options.top, 150);
}

#[test]
fn query_query_a_page() {
    let hostnames = names(&[".*linux-[0-9]+$"]);
    let req_body =
        QueryRequest::make(&hostnames, true, false, false, Some(3000), Some(1000), &None);
    assert_eq!(req_body.options.skip, 3000);
    assert_eq!(req_body.options.top, 1000);
}

#[test]
fn mixed_case_names_are_lowered_in_query() {
    let hostnames = names(&["Linux-01", "WINDOWS-98"]);
    let req_body = QueryRequest::make(&hostnames, false, false, false, None, None, &None);
    assert!(req_body.query.contains("in ('linux-01', 'windows-98')"));
    let regex = names(&["Linux-[0-9]+", "ignored"]);
    let req_body = QueryRequest::make(&regex, true, false, false, None, None, &None);
    assert!(req_body.query.contains("matches regex 'linux-[0-9]+'"));
    assert!(!req_body.query.contains("ignored"));
}

#[test]
fn empty_name_list_holds_one_empty_name() {
    let req_body = QueryRequest::make(&Vec::new(), false, false, false, None, None, &None);
    assert!(req_body.query.contains("in ('')"));
}

#[test]
fn subscriptions_are_carried_and_options_set() {
    let subs = Some(names(&["sub-a", "sub-b"]));
    let req_body =
        QueryRequest::make(&names(&["a"]), false, false, false, Some(7), Some(20), &subs);
    assert_eq!(req_body.subscriptions, subs);
    assert_eq!(req_body.options.skip, 7);
    assert_eq!(req_body.options.top, 20);
    assert_eq!(req_body.options.skip_token, None);
    assert!(req_body.query.starts_with(
        "Resources | where type =~ 'microsoft.compute/virtualmachines' | where tolower(tostring(name)) in ('a')"
    ));
    assert!(req_body.query.ends_with("order by subnet asc"));
}

use buggle::flags::BuggleFlags;
use buggle::plan::{plan_query, plan_query_given, query_result, QueryPlan};
use buggle::query::{build_assigned_query, build_product_query, QuerySpec};
use buggle::report::BuggleResult;
use buggle::tally::FetchOutcome;

fn query(name: &str, kind: &str, match_value: &str) -> QuerySpec {
    QuerySpec { name: name.to_string(), kind: kind.to_string(), match_value: match_value.to_string() }
}

fn switches(verbose: bool, dry_run: bool) -> BuggleFlags {
    BuggleFlags { verbose, dry_run, twitter: false }
}

#[test]
fn unknown_kind_is_skipped_with_a_notice() {
    for flags in [switches(false, false), switches(true, false), switches(true, true)] {
        for accepted in [false, true] {
            assert_eq!(
                plan_query_given(&query("odd", "component", "x"), &flags, accepted),
                QueryPlan::Skip { notice: "Unknown query name=odd kind=component\n".to_string() }
            );
        }
        assert_eq!(
            plan_query(&query("odd", "", "x"), &flags),
            QueryPlan::Skip { notice: "Unknown query name=odd kind=\n".to_string() }
        );
    }
}

#[test]
fn live_query_is_fetched() {
    assert_eq!(
        plan_query_given(&query("cmake", "product", "cmake"), &switches(false, false), true),
        QueryPlan::Fetch { diagnostic: None, url: build_product_query("cmake".to_string()) }
    );
    assert_eq!(
        plan_query_given(&query("me", "owner", "x@y.org"), &switches(false, false), true),
        QueryPlan::Fetch { diagnostic: None, url: build_assigned_query("x@y.org".to_string()) }
    );
}

#[test]
fn verbose_run_names_the_query_and_its_url() {
    let url = build_assigned_query("x@y.org".to_string());
    assert_eq!(
        plan_query_given(&query("me", "owner", "x@y.org"), &switches(true, false), true),
        QueryPlan::Fetch { diagnostic: Some(format!("Query for me = {}", url)), url: url.clone() }
    );
    assert_eq!(
        plan_query_given(&query("me", "owner", "x@y.org"), &switches(true, true), true),
        QueryPlan::Settled {
            diagnostic: Some(format!("Query for me = {}", url)),
            result: BuggleResult { id: "me".to_string(), count: None },
        }
    );
}

#[test]
fn dry_run_settles_without_a_count() {
    for accepted in [false, true] {
        assert_eq!(
            plan_query_given(&query("cmake", "product", "cmake"), &switches(false, true), accepted),
            QueryPlan::Settled {
                diagnostic: None,
                result: BuggleResult { id: "cmake".to_string(), count: None },
            }
        );
    }
    assert_eq!(
        plan_query(&query("cmake", "product", "cmake"), &switches(false, true)),
        QueryPlan::Settled {
            diagnostic: None,
            result: BuggleResult { id: "cmake".to_string(), count: None },
        }
    );
}

#[test]
fn refused_url_settles_without_a_count() {
    assert_eq!(
        plan_query_given(&query("cmake", "product", "cmake"), &switches(false, false), false),
        QueryPlan::Settled {
            diagnostic: None,
            result: BuggleResult { id: "cmake".to_string(), count: None },
        }
    );
}

#[test]
fn well_formed_urls_are_fetched() {
    for (kind, m) in [
        ("product", "cmake"),
        ("owner", "x@y.org"),
        ("product", "devel/cmake"),
        ("owner", "a%40b"),
        ("product", "back\\slash"),
        ("product", ""),
    ] {
        let planned = plan_query(&query("q", kind, m), &switches(false, false));
        assert!(matches!(planned, QueryPlan::Fetch { diagnostic: None, .. }));
    }
}

#[test]
fn malformed_urls_are_not_fetched() {
    let long = "x".repeat(70000);
    for m in ["two words", "tab\there", "a<b", "a>b", "quo\"te", "größe", "line\nbreak", long.as_str()] {
        for kind in ["product", "owner"] {
            let planned = plan_query(&query("q", kind, m), &switches(false, false));
            assert_eq!(
                planned,
                QueryPlan::Settled {
                    diagnostic: None,
                    result: BuggleResult { id: "q".to_string(), count: None },
                }
            );
        }
    }
}

#[test]
fn plan_agrees_with_hyper() {
    for m in ["cmake", "x@y.org", "two words", "a<b", "a\"b", "ü", "#frag", "100%"] {
        let spec = query("q", "product", m);
        let accepted = build_product_query(m.to_string()).parse::<hyper::Uri>().is_ok();
        assert_eq!(
            plan_query(&spec, &switches(true, false)),
            plan_query_given(&spec, &switches(true, false), accepted)
        );
    }
}

#[test]
fn query_result_takes_the_count_of_the_outcome() {
    assert_eq!(
        query_result("cmake".to_string(), &FetchOutcome::Response { status: 200, body: b"h\n1\n2\n3\n4\n5\n6\n7".to_vec() }),
        BuggleResult { id: "cmake".to_string(), count: Some(7) }
    );
    assert_eq!(
        query_result("me".to_string(), &FetchOutcome::Response { status: 404, body: b"h\n1".to_vec() }),
        BuggleResult { id: "me".to_string(), count: None }
    );
    assert_eq!(
        query_result("me".to_string(), &FetchOutcome::Failed),
        BuggleResult { id: "me".to_string(), count: None }
    );
}

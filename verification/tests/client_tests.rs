use fakturoid::client::{EntityKind, Fakturoid, Method, PageNav, PagedResponse};
use fakturoid::filters::Filter;
use fakturoid::models::InvoiceAction;

fn client() -> Fakturoid {
    Fakturoid::new("fake@user.com", "apicode", "testslug", None)
}

#[test]
fn detail_plan_builds_id_url() {
    let plan = client().detail_plan(EntityKind::Invoice, 123);
    assert_eq!(plan.method, Method::Get);
    assert_eq!(plan.url, "https://app.fakturoid.cz/api/v2/accounts/testslug/invoices/123.json");
    assert!(plan.query.is_empty());
    assert!(!plan.sends_entity);
}

#[test]
fn account_plan_uses_singleton_path() {
    let plan = client().account_plan();
    assert_eq!(plan.method, Method::Get);
    assert_eq!(plan.url, "https://app.fakturoid.cz/api/v2/accounts/testslug/account.json");
}

#[test]
fn update_plan_patches_with_body() {
    let plan = client().update_plan(EntityKind::Subject, 7);
    assert_eq!(plan.method, Method::Patch);
    assert_eq!(plan.url, "https://app.fakturoid.cz/api/v2/accounts/testslug/subjects/7.json");
    assert!(plan.sends_entity);
}

#[test]
fn delete_plan_deletes_id_path() {
    let plan = client().delete_plan(EntityKind::Invoice, 55);
    assert_eq!(plan.method, Method::Delete);
    assert_eq!(plan.url, "https://app.fakturoid.cz/api/v2/accounts/testslug/invoices/55.json");
    assert!(!plan.sends_entity);
}

#[test]
fn create_plan_posts_to_collection() {
    let plan = client().create_plan(EntityKind::Subject);
    assert_eq!(plan.method, Method::Post);
    assert_eq!(plan.url, "https://app.fakturoid.cz/api/v2/accounts/testslug/subjects.json");
    assert!(plan.sends_entity);
}

#[test]
fn list_plan_without_filter_has_no_query() {
    let plan = client().list_plan(EntityKind::Invoice, None);
    assert_eq!(plan.method, Method::Get);
    assert_eq!(plan.url, "https://app.fakturoid.cz/api/v2/accounts/testslug/invoices.json");
    assert!(plan.query.is_empty());
}

#[test]
fn list_plan_with_empty_filter_has_no_query() {
    let plan = client().list_plan(EntityKind::Invoice, Some(Filter::new()));
    assert!(plan.query.is_empty());
}

#[test]
fn list_plan_projects_filter() {
    let plan = client().list_plan(EntityKind::Invoice, Some(Filter::new().page(2)));
    assert_eq!(plan.query, vec![("page".to_string(), "2".to_string())]);
}

#[test]
fn fulltext_plan_uses_search_path_and_query() {
    let plan = client().fulltext_plan(EntityKind::Subject, "some hard work");
    assert_eq!(plan.method, Method::Get);
    assert_eq!(plan.url, "https://app.fakturoid.cz/api/v2/accounts/testslug/subjects/search.json");
    assert_eq!(plan.query, vec![("query".to_string(), "some hard work".to_string())]);
}

#[test]
fn action_plan_fires_event_on_id_path() {
    let plan = client().action_plan(1234, &InvoiceAction::MarkAsSent);
    assert_eq!(plan.method, Method::Post);
    assert_eq!(
        plan.url,
        "https://app.fakturoid.cz/api/v2/accounts/testslug/invoices/1234/fire.json"
    );
    assert_eq!(plan.query, vec![("event".to_string(), "mark_as_sent".to_string())]);
    assert!(!plan.sends_entity);
}

#[test]
fn user_agent_defaults_when_not_configured() {
    assert_eq!(client().user_agent(), "Rust API client (pepa@bukova.info)");
    let custom = Fakturoid::new(
        "fake@user.com",
        "apicode",
        "testslug",
        Some("Rust API client TEST (pepa@bukova.info)"),
    );
    assert_eq!(custom.user_agent(), "Rust API client TEST (pepa@bukova.info)");
    assert_eq!(custom.user(), "fake@user.com");
    assert_eq!(custom.password(), "apicode");
}

#[test]
fn page_without_header_has_no_relations() {
    let page: PagedResponse<i32> = PagedResponse::new(vec![1, 2, 3], client(), None);
    assert!(!page.has_next());
    assert!(!page.has_prev());
    assert_eq!(page.data(), &vec![1, 2, 3]);
}

#[test]
fn next_absent_stays_on_same_page() {
    let page: PagedResponse<i32> =
        PagedResponse::new(vec![10, 20], client(), Some("<https://x/p>; rel=\"prev\""));
    assert!(page.has_prev());
    assert!(!page.has_next());
    match page.next_page() {
        PageNav::Stay(same) => assert_eq!(same.data(), &vec![10, 20]),
        PageNav::Fetch(_, _) => panic!("absent relation must not fetch"),
    }
}

#[test]
fn present_relation_requests_its_url() {
    let page: PagedResponse<i32> = PagedResponse::new(
        vec![1],
        client(),
        Some("<https://x/n>; rel=\"next\", <https://x/l>; rel=\"last\""),
    );
    assert!(page.has_next());
    match page.next_page() {
        PageNav::Fetch(cfg, url) => {
            assert_eq!(url, "https://x/n");
            assert_eq!(cfg.user(), "fake@user.com");
        },
        PageNav::Stay(_) => panic!("present relation must fetch"),
    }
}

#[test]
fn repeated_relation_keeps_the_latest_url() {
    let page: PagedResponse<i32> = PagedResponse::new(
        vec![1],
        client(),
        Some("<https://x/old>; rel=\"next\", <https://x/new>; rel=\"next\""),
    );
    match page.last_page() {
        PageNav::Stay(same) => match same.next_page() {
            PageNav::Fetch(_, url) => assert_eq!(url, "https://x/new"),
            PageNav::Stay(_) => panic!("next is present"),
        },
        PageNav::Fetch(_, _) => panic!("last is absent"),
    }
}

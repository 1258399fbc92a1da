use home_services::pages::index_response;
use home_services::pages::render_error_page;
use home_services::pages::render_index_page;
use home_services::pages::replace_first;
use home_services::record::Service;
use home_services::record::Services;
use home_services::registry::DirScan;
use home_services::registry::EntryOutcome;

fn service(name: &str, url: &str, description: &str) -> Service {
    Service {
        name: name.to_string(),
        url: url.to_string(),
        description: description.to_string(),
    }
}

#[test]
fn service_renders_to_exact_html() {
    let s = service("A", "http://x", "d");
    assert_eq!(
        s.as_html(),
        "<article class=\"service-entry\" onclick=\"goto('http://x')\"><h2>A</h2><span>d</span></article>"
    );
}

#[test]
fn registry_renders_to_list_items_in_order() {
    let services = Services { services: vec![service("A", "u1", "d1"), service("B", "u2", "d2")] };
    let expected = format!("<li>{}</li><li>{}</li>",
        services.services[0].as_html(), services.services[1].as_html());
    assert_eq!(services.as_html(), expected);
}

#[test]
fn empty_registry_renders_to_nothing() {
    let services = Services { services: vec![] };
    assert_eq!(services.as_html(), "");
}

#[test]
fn replace_first_substitutes_the_marker() {
    assert_eq!(replace_first("a{{x}}b", "{{x}}", "Y"), "aYb");
}

#[test]
fn replace_first_without_occurrence_returns_text_unchanged() {
    assert_eq!(replace_first("plain text", "{{x}}", "Y"), "plain text");
}

#[test]
fn replace_first_touches_only_the_first_occurrence() {
    assert_eq!(replace_first("{{x}}-{{x}}", "{{x}}", "Y"), "Y-{{x}}");
}

#[test]
fn index_page_embeds_the_rendered_list() {
    let services = Services { services: vec![service("A", "u", "d")] };
    let body = render_index_page("<ul>{{services-list}}</ul>", &services);
    assert_eq!(body, format!("<ul><li>{}</li></ul>", services.services[0].as_html()));
}

#[test]
fn error_page_carries_context_and_cause() {
    let body = render_error_page("err: {{context}} because {{e}}", "reading cfg", "boom");
    assert_eq!(body, "err: reading cfg because boom");
}

#[test]
fn index_response_is_200_with_entries() {
    let entries = vec![EntryOutcome::Text {
        content: "name = \"A\"\nurl = \"u\"\ndescription = \"d\"\n".to_string(),
    }];
    let (resp, warnings) = index_response(
        "<ul>{{services-list}}</ul>",
        "{{context}}: {{e}}",
        DirScan::Entries { entries },
    );
    assert_eq!(resp.status, 200);
    assert!(resp.body.contains("<h2>A</h2>"));
    assert_eq!(warnings.len(), 0);
}

#[test]
fn index_response_on_empty_directory_is_200_with_no_items() {
    let (resp, warnings) = index_response(
        "<ul>{{services-list}}</ul>",
        "{{context}}: {{e}}",
        DirScan::CreatedEmpty,
    );
    assert_eq!(resp.status, 200);
    assert_eq!(resp.body, "<ul></ul>");
    assert_eq!(warnings.len(), 0);
}

#[test]
fn index_response_on_uncreatable_directory_is_500_with_context_and_cause() {
    let (resp, warnings) = index_response(
        "<ul>{{services-list}}</ul>",
        "{{context}}: {{e}}",
        DirScan::CreateFailed { cause: "no parent".to_string() },
    );
    assert_eq!(resp.status, 500);
    assert_eq!(resp.body, "reading cfg: Error creating cfg dir: no parent");
    assert_eq!(warnings.len(), 0);
}

use docker_stat_agent::stats_source::{
    active_status_filter, connect_plan, connect_plan_for, identities, identity_of, ConnectPlan,
    ContainerIdentity, ContainerSummary, CONNECT_TIMEOUT_SECONDS, DEFAULT_DOCKER_HOST,
    STATUS_FILTER,
};

fn summary(id: Option<&str>, names: Option<&[&str]>) -> ContainerSummary {
    ContainerSummary {
        id: id.map(|s| s.to_string()),
        names: names.map(|all| all.iter().map(|s| s.to_string()).collect()),
    }
}

fn who(id: &str, name: &str) -> ContainerIdentity {
    ContainerIdentity { id: id.to_string(), name: name.to_string() }
}

#[test]
fn source_constants_have_their_values() {
    assert_eq!(DEFAULT_DOCKER_HOST, "unix:///var/run/docker.sock");
    assert_eq!(CONNECT_TIMEOUT_SECONDS, 4);
    assert_eq!(STATUS_FILTER, "status");
}

#[test]
fn local_endpoint_is_taken_as_it_is() {
    assert_eq!(connect_plan("unix:///var/run/docker.sock"), ConnectPlan::Defaults);
    assert_eq!(connect_plan(DEFAULT_DOCKER_HOST), ConnectPlan::Defaults);
}

#[test]
fn http_endpoint_is_reached_over_http() {
    assert_eq!(connect_plan("http://localhost:2375"), ConnectPlan::Http);
    assert_eq!(connect_plan("http://10.0.0.7:2375/"), ConnectPlan::Http);
    assert_eq!(connect_plan("http://docker.example.org"), ConnectPlan::Http);
}

#[test]
fn other_schemes_fall_back_to_the_local_endpoint() {
    assert_eq!(connect_plan("https://localhost:2376"), ConnectPlan::DefaultsAfterUnsupportedScheme);
    assert_eq!(connect_plan("tcp://localhost:2375"), ConnectPlan::DefaultsAfterUnsupportedScheme);
    assert_eq!(connect_plan("ssh://user@host"), ConnectPlan::DefaultsAfterUnsupportedScheme);
}

#[test]
fn uri_without_scheme_falls_back_to_the_local_endpoint() {
    assert_eq!(connect_plan("localhost:2375"), ConnectPlan::DefaultsAfterUnsupportedScheme);
    assert_eq!(connect_plan("/var/run/docker.sock"), ConnectPlan::DefaultsAfterUnsupportedScheme);
}

#[test]
fn text_that_is_no_uri_falls_back_to_the_local_endpoint() {
    assert_eq!(connect_plan(""), ConnectPlan::DefaultsAfterInvalidUri);
    assert_eq!(connect_plan("not a uri"), ConnectPlan::DefaultsAfterInvalidUri);
    assert_eq!(connect_plan("http://"), ConnectPlan::DefaultsAfterInvalidUri);
    assert_eq!(
        connect_plan("unix:///var/run/other.sock"),
        ConnectPlan::DefaultsAfterInvalidUri
    );
}

#[test]
fn plan_for_a_parsed_endpoint() {
    let http = Some(Some("http".to_string()));
    let https = Some(Some("https".to_string()));
    let upper = Some(Some("HTTP".to_string()));
    assert_eq!(connect_plan_for("http://h", &http), ConnectPlan::Http);
    assert_eq!(connect_plan_for("https://h", &https), ConnectPlan::DefaultsAfterUnsupportedScheme);
    assert_eq!(connect_plan_for("HTTP://h", &upper), ConnectPlan::DefaultsAfterUnsupportedScheme);
    assert_eq!(connect_plan_for("h", &Some(None)), ConnectPlan::DefaultsAfterUnsupportedScheme);
    assert_eq!(connect_plan_for("h h", &None), ConnectPlan::DefaultsAfterInvalidUri);
}

#[test]
fn plan_for_the_local_endpoint_ignores_the_parser() {
    let http = Some(Some("http".to_string()));
    assert_eq!(connect_plan_for(DEFAULT_DOCKER_HOST, &http), ConnectPlan::Defaults);
    assert_eq!(connect_plan_for(DEFAULT_DOCKER_HOST, &Some(None)), ConnectPlan::Defaults);
    assert_eq!(connect_plan_for(DEFAULT_DOCKER_HOST, &None), ConnectPlan::Defaults);
}

#[test]
fn running_and_paused_containers_are_active() {
    assert_eq!(active_status_filter(), vec!["running".to_string(), "paused".to_string()]);
}

#[test]
fn identity_is_id_and_first_name() {
    let listed = summary(Some("abc"), Some(&["/web", "/other/web"]));
    assert_eq!(identity_of(&listed), Some(who("abc", "/web")));
}

#[test]
fn container_without_id_or_name_has_no_identity() {
    assert_eq!(identity_of(&summary(None, Some(&["/web"]))), None);
    assert_eq!(identity_of(&summary(Some("abc"), None)), None);
    assert_eq!(identity_of(&summary(Some("abc"), Some(&[]))), None);
    assert_eq!(identity_of(&summary(None, None)), None);
}

#[test]
fn identities_keep_listing_order_and_pass_over_the_nameless() {
    let listing = vec![
        summary(Some("c"), Some(&["/third"])),
        summary(None, Some(&["/nobody"])),
        summary(Some("a"), Some(&["/first", "/alias"])),
        summary(Some("x"), Some(&[])),
        summary(Some("b"), Some(&["/second"])),
        summary(Some("y"), None),
    ];
    assert_eq!(
        identities(&listing),
        vec![who("c", "/third"), who("a", "/first"), who("b", "/second")]
    );
    assert_eq!(identities(&Vec::new()), Vec::new());
}

#[test]
fn cloned_identity_is_equal() {
    let one = who("abc", "/web");
    assert_eq!(one.clone(), one);
}

use keycloak_auth::claims::{Access, RealmAccess, ResourceAccess};
use keycloak_auth::role::{has_role, ExtractRoles, KeycloakRole, NumRoles, Role};

fn names(list: &[&str]) -> Vec<String> {
    list.iter().map(|name| name.to_string()).collect()
}

fn realm(list: &[&str]) -> RealmAccess {
    RealmAccess(Access { roles: names(list) })
}

fn resources(list: &[(&str, &[&str])]) -> ResourceAccess {
    ResourceAccess(
        list.iter().map(|(client, roles)| (client.to_string(), Access { roles: names(roles) })).collect(),
    )
}

fn realm_role(name: &str) -> KeycloakRole<String> {
    KeycloakRole::Realm { role: name.to_string() }
}

fn client_role(client: &str, name: &str) -> KeycloakRole<String> {
    KeycloakRole::Client { client: client.to_string(), role: name.to_string() }
}

#[test]
fn a_string_is_a_role_by_its_name() {
    let role = <String as Role>::from_name("admin".to_string());
    assert_eq!(role, "admin");
    assert_eq!(Role::name(&role), "admin");
    assert!(role.same(&"admin".to_string()));
    assert!(!role.same(&"Admin".to_string()));
}

#[test]
fn a_role_is_read_from_either_kind() {
    assert_eq!(realm_role("a").role(), "a");
    assert_eq!(client_role("app", "b").role(), "b");
}

#[test]
fn realm_access_counts_its_names() {
    assert_eq!(realm(&[]).num_roles(), 0);
    assert_eq!(realm(&["a", "b", "a"]).num_roles(), 3);
}

#[test]
fn resource_access_counts_over_all_clients() {
    assert_eq!(resources(&[]).num_roles(), 0);
    assert_eq!(resources(&[("app", &[])]).num_roles(), 0);
    assert_eq!(resources(&[("app", &["r", "w"]), ("shop", &[]), ("crm", &["x"])]).num_roles(), 3);
}

#[test]
fn realm_roles_are_extracted_in_order() {
    let mut target: Vec<KeycloakRole<String>> = Vec::new();
    realm(&["user", "admin", "auditor"]).extract_roles(&mut target);
    assert_eq!(target, vec![realm_role("user"), realm_role("admin"), realm_role("auditor")]);
}

#[test]
fn extraction_appends_to_what_is_there() {
    let mut target = vec![client_role("app", "r")];
    realm(&["user"]).extract_roles(&mut target);
    assert_eq!(target, vec![client_role("app", "r"), realm_role("user")]);
}

#[test]
fn resource_roles_are_grouped_by_client() {
    let mut target: Vec<KeycloakRole<String>> = Vec::new();
    resources(&[("app", &["r", "w"]), ("shop", &[]), ("crm", &["x"])]).extract_roles(&mut target);
    assert_eq!(
        target,
        vec![client_role("app", "r"), client_role("app", "w"), client_role("crm", "x")]
    );
}

#[test]
fn duplicate_names_are_kept() {
    let mut target: Vec<KeycloakRole<String>> = Vec::new();
    realm(&["user", "user"]).extract_roles(&mut target);
    resources(&[("app", &["user", "user"])]).extract_roles(&mut target);
    assert_eq!(
        target,
        vec![
            realm_role("user"),
            realm_role("user"),
            client_role("app", "user"),
            client_role("app", "user"),
        ]
    );
}

#[test]
fn as_many_roles_come_out_as_were_counted() {
    let realm_access = realm(&["a", "b"]);
    let resource_access = resources(&[("app", &["c"]), ("shop", &["d", "e"])]);
    let counted = realm_access.num_roles() + resource_access.num_roles();
    let mut target: Vec<KeycloakRole<String>> = Vec::new();
    realm_access.extract_roles(&mut target);
    resource_access.extract_roles(&mut target);
    assert_eq!(counted, 5);
    assert_eq!(target.len(), counted);
}

#[test]
fn a_held_role_is_found_whatever_grants_it() {
    let held = vec![realm_role("user"), client_role("app", "writer")];
    assert!(has_role(&held, &"user".to_string()));
    assert!(has_role(&held, &"writer".to_string()));
    assert!(!has_role(&held, &"admin".to_string()));
    assert!(!has_role(&held, &"app".to_string()));
}

#[test]
fn nothing_is_found_among_no_roles() {
    let held: Vec<KeycloakRole<String>> = Vec::new();
    assert!(!has_role(&held, &"user".to_string()));
}

#[test]
fn new_resource_access_is_empty() {
    let access = ResourceAccess::new();
    assert!(access.0.is_empty());
    assert_eq!(access.num_roles(), 0);
}

#[test]
fn inserted_clients_keep_the_order_of_their_arrival() {
    let mut access = ResourceAccess::new();
    assert!(access.insert("shop".to_string(), Access { roles: names(&["buyer"]) }).is_none());
    assert!(access.insert("app".to_string(), Access { roles: names(&["r", "w"]) }).is_none());
    let clients: Vec<&str> = access.0.iter().map(|(client, _)| client.as_str()).collect();
    assert_eq!(clients, vec!["shop", "app"]);
    assert_eq!(access.num_roles(), 3);
}

#[test]
fn inserting_a_known_client_replaces_its_access_in_place() {
    let mut access = resources(&[("shop", &["buyer"]), ("app", &["r"]), ("crm", &[])]);
    let replaced = access.insert("app".to_string(), Access { roles: names(&["w", "x"]) });
    assert_eq!(replaced.unwrap().roles, names(&["r"]));
    let clients: Vec<&str> = access.0.iter().map(|(client, _)| client.as_str()).collect();
    assert_eq!(clients, vec!["shop", "app", "crm"]);
    assert_eq!(access.0[1].1.roles, names(&["w", "x"]));
    assert_eq!(access.0[0].1.roles, names(&["buyer"]));
    let mut target: Vec<KeycloakRole<String>> = Vec::new();
    access.extract_roles(&mut target);
    assert_eq!(
        target,
        vec![client_role("shop", "buyer"), client_role("app", "w"), client_role("app", "x")]
    );
}

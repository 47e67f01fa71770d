use ql_core::InstanceSelection;
use ql_core::OptifineUniqueVersion;
use ql_core::VersionDetails;
use ql_core::find_forge_shim_file;
use ql_core::get_jar_path;
use ql_core::is_forge_shim_name;

#[test]
fn instance_dot_minecraft_path_is_nested() {
    let sel = InstanceSelection::Instance("Foo".to_owned());
    assert!(sel.get_dot_minecraft_path().ends_with("instances/Foo/.minecraft"));
    assert_eq!(sel.get_instance_path(), "instances/Foo");
}

#[test]
fn server_dot_minecraft_path_is_the_instance_path() {
    let sel = InstanceSelection::Server("Foo".to_owned());
    assert_eq!(sel.get_dot_minecraft_path(), sel.get_instance_path());
    assert_eq!(sel.get_instance_path(), "servers/Foo");
}

#[test]
fn selection_constructor_and_accessors() {
    let client = InstanceSelection::new("Alpha", false);
    assert_eq!(client, InstanceSelection::Instance("Alpha".to_owned()));
    assert_eq!(client.get_name(), "Alpha");
    assert!(!client.is_server());
    assert_eq!(client.get_pair(), ("Alpha", false));

    let server = InstanceSelection::new("Alpha", true);
    assert_eq!(server, InstanceSelection::Server("Alpha".to_owned()));
    assert!(server.is_server());
    assert_ne!(client, server);
}

#[test]
fn rename_keeps_the_kind() {
    let mut sel = InstanceSelection::new("Old", true);
    sel.set_name("New");
    assert_eq!(sel, InstanceSelection::Server("New".to_owned()));
    assert_eq!(sel.get_instance_path(), "servers/New");
}

fn details(id: &str, preferred: Option<&str>) -> VersionDetails {
    VersionDetails {
        id: id.to_owned(),
        preferred_id: preferred.map(str::to_owned),
    }
}

#[test]
fn custom_jar_wins() {
    let d = details("1.20.1", None);
    let p = get_jar_path(&d, "instances/Foo", Some("override.jar"), Some("my.jar"), true);
    assert_eq!(p, "custom_jars/my.jar");
}

#[test]
fn blank_custom_jar_is_ignored() {
    let d = details("1.20.1", None);
    let p = get_jar_path(&d, "instances/Foo", None, Some("   "), false);
    assert_eq!(p, "instances/Foo/.minecraft/versions/1.20.1/1.20.1.jar");
}

#[test]
fn unicode_blank_custom_jar_is_ignored() {
    // Form feed and no-break space count as whitespace, as `str::trim`
    // sees them: the custom jar falls through to the override jar.
    let d = details("1.20.1", None);
    let p = get_jar_path(&d, "instances/Foo", Some("mods/o.jar"), Some("\u{000C}"), true);
    assert_eq!(p, "mods/o.jar");
    let p = get_jar_path(&d, "instances/Foo", Some("mods/o.jar"), Some("\u{00A0}\u{00A0}"), true);
    assert_eq!(p, "mods/o.jar");
}

#[test]
fn optifine_jar_wins_over_version_jar() {
    let d = details("1.20.1", None);
    let p = get_jar_path(&d, "instances/Foo", Some("mods/OptiFine.jar"), None, true);
    assert_eq!(p, "mods/OptiFine.jar");
}

#[test]
fn preferred_id_is_used_when_its_jar_exists() {
    let d = details("1.20.1", Some("custom-1.20.1"));
    let p = get_jar_path(&d, "instances/Foo", None, None, true);
    assert_eq!(p, "instances/Foo/.minecraft/versions/custom-1.20.1/custom-1.20.1.jar");
}

#[test]
fn missing_preferred_jar_falls_back_to_plain_id() {
    let d = details("1.20.1", Some("custom-1.20.1"));
    let p = get_jar_path(&d, "instances/Foo", None, None, false);
    assert_eq!(p, "instances/Foo/.minecraft/versions/1.20.1/1.20.1.jar");
}

#[test]
fn version_details_id_preference() {
    assert_eq!(details("a", None).get_id(), "a");
    assert_eq!(details("a", Some("b")).get_id(), "b");
}

#[test]
fn shim_names() {
    assert!(is_forge_shim_name("forge-1.20.1-47.2.0-shim.jar"));
    assert!(!is_forge_shim_name("forge-1.20.1-47.2.0.jar"));
    assert!(!is_forge_shim_name("fabric-loader-shim.jar"));
}

#[test]
fn finds_the_first_shim() {
    let names = vec![
        "eula.txt".to_owned(),
        "forge-1.20-shim.jar".to_owned(),
        "forge-1.21-shim.jar".to_owned(),
    ];
    assert_eq!(find_forge_shim_file(&names), Some("forge-1.20-shim.jar".to_owned()));
    let none = vec!["eula.txt".to_owned(), "server.jar".to_owned()];
    assert_eq!(find_forge_shim_file(&none), None);
}

#[test]
fn optifine_versions_are_recognized() {
    assert_eq!(
        OptifineUniqueVersion::from_version("1.5.2"),
        Some(OptifineUniqueVersion::V1_5_2),
    );
    assert_eq!(
        OptifineUniqueVersion::from_version("b1.7.3"),
        Some(OptifineUniqueVersion::B1_7_3),
    );
    assert_eq!(OptifineUniqueVersion::from_version("1.20.1"), None);
}

#[test]
fn optifine_urls() {
    let (url, direct) = OptifineUniqueVersion::V1_5_2.get_url();
    assert_eq!(url, "https://optifine.net/adloadx?f=OptiFine_1.5.2_HD_U_D5.zip");
    assert!(!direct);
    let (url, direct) = OptifineUniqueVersion::B1_7_3.get_url();
    assert!(url.starts_with("https://b2.mcarchive.net/"));
    assert!(direct);
}

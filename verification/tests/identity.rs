use ql_core::ModId;
use ql_core::SelectedMod;
use ql_core::StoreBackendType;

#[test]
fn curseforge_index_str_round_trips() {
    let m = ModId::from_index_str("CF:123");
    assert_eq!(m, ModId::Curseforge("123".to_owned()));
    assert_eq!(m.get_index_str(), "CF:123");
}

#[test]
fn modrinth_index_str_round_trips() {
    let m = ModId::from_index_str("abc");
    assert_eq!(m, ModId::Modrinth("abc".to_owned()));
    assert_eq!(m.get_index_str(), "abc");
}

#[test]
fn index_str_is_inverse_of_parsing() {
    assert_eq!(ModId::Curseforge("9".to_owned()).get_index_str(), "CF:9");
    assert_eq!(ModId::Modrinth("P7dR8mSH".to_owned()).get_index_str(), "P7dR8mSH");
    assert_eq!(
        ModId::from_index_str(&ModId::Curseforge("238222".to_owned()).get_index_str()),
        ModId::Curseforge("238222".to_owned()),
    );
    assert_eq!(
        ModId::from_index_str(&ModId::Modrinth("sodium".to_owned()).get_index_str()),
        ModId::Modrinth("sodium".to_owned()),
    );
}

#[test]
fn internal_id_ignores_backend() {
    assert_eq!(ModId::Modrinth("x1".to_owned()).get_internal_id(), "x1");
    assert_eq!(ModId::Curseforge("x1".to_owned()).get_internal_id(), "x1");
}

#[test]
fn backend_of_each_variant() {
    assert_eq!(ModId::Modrinth("a".to_owned()).get_backend(), StoreBackendType::Modrinth);
    assert_eq!(ModId::Curseforge("a".to_owned()).get_backend(), StoreBackendType::Curseforge);
}

#[test]
fn pair_conversions() {
    let m = ModId::from_pair("55", StoreBackendType::Curseforge);
    assert_eq!(m, ModId::Curseforge("55".to_owned()));
    let (id, backend) = m.to_pair();
    assert_eq!(id, "55");
    assert_eq!(backend, StoreBackendType::Curseforge);

    let m = ModId::from_pair("55", StoreBackendType::Modrinth);
    assert_eq!(m, ModId::Modrinth("55".to_owned()));
    let (id, backend) = m.to_pair();
    assert_eq!(id, "55");
    assert_eq!(backend, StoreBackendType::Modrinth);
}

#[test]
fn equality_distinguishes_backends() {
    assert_ne!(
        ModId::Modrinth("same".to_owned()),
        ModId::Curseforge("same".to_owned()),
    );
    assert_eq!(ModId::Modrinth("same".to_owned()), ModId::Modrinth("same".to_owned()));
}

#[test]
fn selected_mod_from_pair_with_id_is_downloaded() {
    let id = ModId::Modrinth("abc".to_owned());
    let m = SelectedMod::from_pair("Sodium".to_owned(), Some(id.clone()));
    assert_eq!(
        m,
        SelectedMod::Downloaded {
            name: "Sodium".to_owned(),
            id,
        },
    );
}

#[test]
fn selected_mod_from_pair_without_id_is_local() {
    let m = SelectedMod::from_pair("extra.jar".to_owned(), None);
    assert_eq!(
        m,
        SelectedMod::Local {
            file_name: "extra.jar".to_owned(),
        },
    );
}

#[test]
fn selected_mod_equality_respects_variants() {
    let local_a = SelectedMod::Local { file_name: "m.jar".to_owned() };
    let local_b = SelectedMod::Local { file_name: "m.jar".to_owned() };
    assert_eq!(local_a, local_b);

    let downloaded = SelectedMod::Downloaded {
        name: "m.jar".to_owned(),
        id: ModId::Modrinth("m.jar".to_owned()),
    };
    assert_ne!(local_a, downloaded);
}

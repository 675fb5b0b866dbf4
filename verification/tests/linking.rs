use papyrus_linking::artifact::artifact_file_name;
use papyrus_linking::artifact::resolve;
use papyrus_linking::artifact::stage;
use papyrus_linking::artifact::FileRecord;
use papyrus_linking::artifact::LinkError;
use papyrus_linking::linking::staged_path;
use papyrus_linking::linking::LinkingArgument;
use papyrus_linking::linking::LinkingConfiguration;

#[test]
fn artifact_name_follows_convention() {
    assert_eq!(artifact_file_name("geo"), "libgeo.rlib");
    assert_eq!(artifact_file_name("some_lib"), "libsome_lib.rlib");
}

#[test]
fn resolve_finds_matching_entry() {
    let entries = vec![
        String::from("host"),
        String::from("libgeo.rlib"),
        String::from("notes.txt"),
    ];
    let found = resolve("geo", None, &entries);
    assert_eq!(found.unwrap(), "libgeo.rlib");
}

#[test]
fn resolve_fails_without_matching_entry() {
    let entries = vec![String::from("host"), String::from("libother.rlib")];
    let missing = resolve("geo", None, &entries);
    match missing {
        Err(LinkError::NotFound(file)) => assert_eq!(file, "libgeo.rlib"),
        _ => panic!("expected a NotFound error"),
    }
}

#[test]
fn resolve_failure_message_names_module() {
    let entries: Vec<String> = Vec::new();
    let missing = resolve("geo", None, &entries);
    let message = missing.unwrap_err().message();
    assert_eq!(message, "did not find file: 'libgeo.rlib'");
    assert!(message.contains("geo"));
}

#[test]
fn resolve_uses_explicit_path_unchecked() {
    let entries: Vec<String> = Vec::new();
    let found = resolve("geo", Some(String::from("/elsewhere/libgeo.rlib")), &entries);
    assert_eq!(found.unwrap(), "/elsewhere/libgeo.rlib");
}

#[test]
fn stage_is_idempotent() {
    let mut dest: Vec<FileRecord> = Vec::new();
    let bytes = vec![0xde, 0xad, 0xbe, 0xef];
    let first = stage(&mut dest, "geo", &bytes);
    assert_eq!(first, "libgeo.rlib");
    assert_eq!(dest.len(), 1);
    assert_eq!(dest[0].name, "libgeo.rlib");
    assert_eq!(dest[0].content, bytes);

    let second = stage(&mut dest, "geo", &bytes);
    assert_eq!(second, "libgeo.rlib");
    assert_eq!(dest.len(), 1);
    assert_eq!(dest[0].name, "libgeo.rlib");
    assert_eq!(dest[0].content, bytes);
}

#[test]
fn stage_overwrites_and_keeps_other_files() {
    let mut dest: Vec<FileRecord> = vec![FileRecord {
        name: String::from("other.txt"),
        content: vec![9],
    }];
    stage(&mut dest, "geo", &vec![1, 2]);
    stage(&mut dest, "geo", &vec![3, 4, 5]);
    assert_eq!(dest.len(), 2);
    assert_eq!(dest[0].name, "other.txt");
    assert_eq!(dest[0].content, vec![9]);
    assert_eq!(dest[1].name, "libgeo.rlib");
    assert_eq!(dest[1].content, vec![3, 4, 5]);
}

#[test]
fn staged_path_is_canonical() {
    assert_eq!(staged_path("/tmp/build", "geo"), "/tmp/build/libgeo.rlib");
}

#[test]
fn build_stages_into_destination_directory() {
    let entries = vec![String::from("libgeo.rlib")];
    let plan =
        LinkingConfiguration::link_external_crate("/tmp/build", "geo", None, &entries).unwrap();
    assert_eq!(plan.source, "libgeo.rlib");
    assert_eq!(plan.destination, "/tmp/build/libgeo.rlib");
    let config = LinkingConfiguration::finish_link("geo", plan, true).unwrap();
    assert_eq!(config.crate_name, "geo");
    assert_eq!(config.artifact_path, "/tmp/build/libgeo.rlib");
    assert!(config.data_type.is_none());
}

#[test]
fn build_fails_with_not_found_naming_module() {
    let entries = vec![String::from("unrelated")];
    let failed = LinkingConfiguration::link_external_crate("/tmp/build", "geo", None, &entries);
    match failed {
        Err(err) => {
            let message = err.message();
            assert!(message.contains("geo"));
            assert_eq!(message, "did not find file: 'libgeo.rlib'");
        }
        Ok(_) => panic!("expected resolution to fail"),
    }
}

#[test]
fn failed_copy_becomes_staging_error() {
    let entries = vec![String::from("libgeo.rlib")];
    let plan =
        LinkingConfiguration::link_external_crate("/tmp/build", "geo", None, &entries).unwrap();
    let failed = LinkingConfiguration::finish_link("geo", plan, false);
    assert!(matches!(failed, Err(LinkError::StagingFailed)));
}

#[test]
fn with_data_attaches_descriptor_verbatim() {
    let config = sample_config("m").with_data("some_mod::MyStruct");
    assert_eq!(config.data_type.as_deref(), Some("some_mod::MyStruct"));
    assert_eq!(config.crate_name, "m");
}

fn sample_config(module: &str) -> LinkingConfiguration {
    let entries = vec![artifact_file_name(module)];
    let plan =
        LinkingConfiguration::link_external_crate("/tmp/build", module, None, &entries).unwrap();
    LinkingConfiguration::finish_link(module, plan, true).unwrap()
}

#[test]
fn no_binding_renders_no_parameter() {
    let bare = sample_config("m");
    assert_eq!(bare.construct_fn_args(&LinkingArgument::NoData), "");
    assert_eq!(bare.construct_fn_args(&LinkingArgument::BorrowData), "");
    assert_eq!(bare.construct_fn_args(&LinkingArgument::BorrowMutData), "");
    let with_descriptor = sample_config("m").with_data("T");
    assert_eq!(with_descriptor.construct_fn_args(&LinkingArgument::NoData), "");
}

#[test]
fn shared_binding_renders_shared_reference() {
    let config = sample_config("m").with_data("T");
    assert_eq!(
        config.construct_fn_args(&LinkingArgument::BorrowData),
        "app_data: &m::T"
    );
}

#[test]
fn exclusive_binding_renders_mutable_reference() {
    let config = sample_config("m").with_data("T");
    assert_eq!(
        config.construct_fn_args(&LinkingArgument::BorrowMutData),
        "app_data: &mut m::T"
    );
}

#[test]
fn call_arguments_pair_with_parameters() {
    let config = sample_config("m").with_data("T");
    assert_eq!(
        config.construct_fn_call_args(&LinkingArgument::BorrowData),
        "app_data"
    );
    assert_eq!(
        config.construct_fn_call_args(&LinkingArgument::BorrowMutData),
        "app_data"
    );
    assert_eq!(config.construct_fn_call_args(&LinkingArgument::NoData), "");
    let bare = sample_config("m");
    assert_eq!(bare.construct_fn_call_args(&LinkingArgument::BorrowData), "");
}

#[test]
fn qualified_descriptor_renders_full_path() {
    let config = sample_config("some_lib").with_data("some_mod::MyStruct");
    assert_eq!(
        config.construct_fn_args(&LinkingArgument::BorrowData),
        "app_data: &some_lib::some_mod::MyStruct"
    );
    assert_eq!(
        config.construct_fn_args(&LinkingArgument::BorrowMutData),
        "app_data: &mut some_lib::some_mod::MyStruct"
    );
}

use robocopyrs::properties::{DirectoryProperties, FileProperties};
use robocopyrs::{
    FileAttributes, FilesystemOptionSet, FilesystemOptions, MultipleVariant, PostCopyActions,
};

#[test]
fn file_attribute_letters_follow_declaration_order() {
    assert_eq!(FileAttributes::all().to_letters(), "RASHCNET");
    assert_eq!(FileAttributes::none().to_letters(), "");
    assert_eq!(FileAttributes::READ_ONLY.to_letters(), "R");
    assert_eq!(
        FileAttributes::TEMPORARY.combine(FileAttributes::HIDDEN).to_letters(),
        "HT"
    );
}

#[test]
fn file_attribute_combination_is_commutative() {
    let ab = FileAttributes::ARCHIVE.combine(FileAttributes::ENCRYPTED);
    let ba = FileAttributes::ENCRYPTED.combine(FileAttributes::ARCHIVE);
    assert_eq!(ab, ba);
    assert_eq!(ab.to_letters(), "AE");
}

#[test]
fn combining_an_attribute_with_itself_decomposes_to_it_once() {
    let v = FileAttributes::SYSTEM.combine(FileAttributes::SYSTEM).single_variants();
    assert_eq!(v, vec![FileAttributes::SYSTEM]);
}

#[test]
fn attribute_tokens_do_not_depend_on_combination_order() {
    let one = FileAttributes::READ_ONLY
        .combine(FileAttributes::SYSTEM)
        .combine(FileAttributes::COMPRESSED);
    let other = FileAttributes::COMPRESSED
        .combine(FileAttributes::READ_ONLY)
        .combine(FileAttributes::SYSTEM);
    assert_eq!(one.to_letters(), other.to_letters());
    assert_eq!(one.single_variants(), other.single_variants());
}

#[test]
fn combining_all_attributes_round_trips_through_all() {
    let combined = FileAttributes::READ_ONLY
        .combine(FileAttributes::ARCHIVE)
        .combine(FileAttributes::SYSTEM)
        .combine(FileAttributes::HIDDEN)
        .combine(FileAttributes::COMPRESSED)
        .combine(FileAttributes::NOT_CONTENT_INDEXED)
        .combine(FileAttributes::ENCRYPTED)
        .combine(FileAttributes::TEMPORARY);
    let parts = combined.single_variants();
    assert_eq!(parts.len(), 8);
    assert_eq!(parts, FileAttributes::all().single_variants());
    assert_eq!(
        parts,
        vec![
            FileAttributes::READ_ONLY,
            FileAttributes::ARCHIVE,
            FileAttributes::SYSTEM,
            FileAttributes::HIDDEN,
            FileAttributes::COMPRESSED,
            FileAttributes::NOT_CONTENT_INDEXED,
            FileAttributes::ENCRYPTED,
            FileAttributes::TEMPORARY,
        ]
    );
}

#[test]
fn file_property_tokens_carry_the_copy_prefix() {
    assert_eq!(FileProperties::DATA.to_token(), "/copy:D");
    assert_eq!(FileProperties::all().to_token(), "/copy:DATSOU");
    assert_eq!(FileProperties::none().to_token(), "/copy:");
    assert_eq!(
        FileProperties::DATA.combine(FileProperties::TIME_STAMPS).to_token(),
        "/copy:DT"
    );
}

#[test]
fn file_property_combination_is_commutative_and_idempotent() {
    let ab = FileProperties::OWNER_INFO.combine(FileProperties::DATA);
    let ba = FileProperties::DATA.combine(FileProperties::OWNER_INFO);
    assert_eq!(ab, ba);
    assert_eq!(
        FileProperties::AUDITING_INFO.combine(FileProperties::AUDITING_INFO).single_variants(),
        vec![FileProperties::AUDITING_INFO]
    );
}

#[test]
fn combining_all_file_properties_round_trips_through_all() {
    let combined = FileProperties::DATA
        .combine(FileProperties::ATTRIBUTES)
        .combine(FileProperties::TIME_STAMPS)
        .combine(FileProperties::NTFS_ACCESS_CONTROL_LIST)
        .combine(FileProperties::OWNER_INFO)
        .combine(FileProperties::AUDITING_INFO);
    let parts = combined.single_variants();
    assert_eq!(parts.len(), 6);
    assert_eq!(parts, FileProperties::all().single_variants());
}

#[test]
fn directory_property_tokens_carry_the_dcopy_prefix() {
    assert_eq!(DirectoryProperties::all().to_token(), "/dcopy:DAT");
    assert_eq!(DirectoryProperties::TIME_STAMPS.to_token(), "/dcopy:T");
    assert_eq!(
        DirectoryProperties::ATTRIBUTES.combine(DirectoryProperties::DATA).to_token(),
        "/dcopy:DA"
    );
}

#[test]
fn combining_all_directory_properties_round_trips_through_all() {
    let combined = DirectoryProperties::DATA
        .combine(DirectoryProperties::ATTRIBUTES)
        .combine(DirectoryProperties::TIME_STAMPS);
    let parts = combined.single_variants();
    assert_eq!(parts.len(), 3);
    assert_eq!(parts, DirectoryProperties::all().single_variants());
}

#[test]
fn post_copy_actions_merge_their_halves() {
    let add = PostCopyActions::AddAttribsToFiles(FileAttributes::READ_ONLY);
    let rmv = PostCopyActions::RmvAttribsFromFiles(FileAttributes::ARCHIVE);
    assert_eq!(add.combine(rmv).to_tokens(), vec!["/a+:R", "/a-:A"]);
    assert_eq!(rmv.combine(add).to_tokens(), vec!["/a+:R", "/a-:A"]);
    let add2 = PostCopyActions::AddAttribsToFiles(FileAttributes::SYSTEM);
    assert_eq!(add.combine(add2).to_tokens(), vec!["/a+:RS"]);
}

#[test]
fn post_copy_actions_decompose_into_their_halves() {
    let add = PostCopyActions::AddAttribsToFiles(FileAttributes::READ_ONLY);
    let rmv = PostCopyActions::RmvAttribsFromFiles(FileAttributes::ARCHIVE);
    let both = add.combine(rmv);
    let parts = both.single_variants();
    assert_eq!(parts.len(), 2);
    assert!(matches!(parts[0], PostCopyActions::AddAttribsToFiles(_)));
    assert!(matches!(parts[1], PostCopyActions::RmvAttribsFromFiles(_)));
    assert_eq!(add.single_variants(), vec![add]);
}

#[test]
fn filesystem_options_serialize_in_declaration_order() {
    assert_eq!(FilesystemOptions::FAT_FILE_NAMES.to_tokens(), vec!["/fat"]);
    assert_eq!(
        FilesystemOptions::_MULTIPLE(FilesystemOptionSet {
            fat_file_names: true,
            assume_fat_file_times: true,
            disable_long_paths: true,
        })
        .to_tokens(),
        vec!["/fat", "/fft", "/256"]
    );
    assert_eq!(
        FilesystemOptions::_MULTIPLE(FilesystemOptionSet {
            fat_file_names: false,
            assume_fat_file_times: false,
            disable_long_paths: true,
        })
        .to_tokens(),
        vec!["/256"]
    );
}

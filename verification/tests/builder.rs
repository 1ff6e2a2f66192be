use robocopyrs::logging::{LogFileSettings, LoggingOptions};
use robocopyrs::performance::{PerformanceChoice, PerformanceOptions, RetrySettings};
use robocopyrs::properties::{DirectoryProperties, FileProperties};
use robocopyrs::{CopyMode, Move, RobocopyCommandBuilder};

#[test]
fn the_default_builder_emits_paths_and_plain_recursion() {
    let b = RobocopyCommandBuilder::default();
    assert_eq!(b.build(), vec![".", ".", "/s"]);
}

#[test]
fn the_mirror_combination_emits_the_mirror_and_empty_directory_flags() {
    let b = RobocopyCommandBuilder {
        empty_dir_copy: true,
        remove_files_and_dirs_not_in_src: true,
        overwrite_destination_dir_sec_settings_when_mirror: true,
        ..RobocopyCommandBuilder::default()
    };
    let tokens = b.build();
    assert_eq!(tokens, vec![".", ".", "/mir", "/e"]);
    assert!(tokens.contains(&"/mir".to_string()));
    assert!(tokens.contains(&"/e".to_string()));
    assert!(!tokens.contains(&"/purge".to_string()));
    assert!(!tokens.contains(&"/s".to_string()));
}

#[test]
fn without_the_mirror_combination_recursion_and_purge_stay_separate() {
    let b = RobocopyCommandBuilder {
        empty_dir_copy: false,
        remove_files_and_dirs_not_in_src: true,
        overwrite_destination_dir_sec_settings_when_mirror: false,
        ..RobocopyCommandBuilder::default()
    };
    let tokens = b.build();
    assert_eq!(tokens, vec![".", ".", "/s", "/purge"]);
    let s = tokens.iter().position(|t| t == "/s").unwrap();
    let purge = tokens.iter().position(|t| t == "/purge").unwrap();
    assert!(s < purge);
}

#[test]
fn empty_directory_copying_alone_emits_the_empty_directory_flag() {
    let b = RobocopyCommandBuilder {
        empty_dir_copy: true,
        overwrite_destination_dir_sec_settings_when_mirror: true,
        ..RobocopyCommandBuilder::default()
    };
    assert_eq!(b.build(), vec![".", ".", "/e"]);
}

#[test]
fn an_unspecified_thread_count_serializes_to_the_default_of_eight() {
    assert_eq!(PerformanceChoice::Threads(None).to_token(), "/mt:8");
}

#[test]
fn thread_counts_are_clamped_into_the_documented_range() {
    assert_eq!(PerformanceChoice::Threads(Some(255)).to_token(), "/mt:128");
    assert_eq!(PerformanceChoice::Threads(Some(0)).to_token(), "/mt:1");
    assert_eq!(PerformanceChoice::Threads(Some(64)).to_token(), "/mt:64");
}

#[test]
fn the_inter_packet_gap_serializes_its_value() {
    assert_eq!(PerformanceChoice::InterPacketGap(750).to_token(), "/ipg:750");
    assert_eq!(PerformanceChoice::InterPacketGap(0).to_token(), "/ipg:0");
}

#[test]
fn absent_retry_fields_emit_no_tokens() {
    assert_eq!(RetrySettings::default().to_tokens(), Vec::<String>::new());
}

#[test]
fn a_retry_field_without_a_number_emits_an_empty_trailing_value() {
    let s = RetrySettings {
        specify_retries_failed_copies: Some(None),
        ..RetrySettings::default()
    };
    assert_eq!(s.to_tokens(), vec!["/r:"]);
}

#[test]
fn a_retry_field_with_a_number_carries_it() {
    let s = RetrySettings {
        specify_retries_failed_copies: Some(Some(5)),
        specify_wait_between_retries: Some(None),
        save_specifications: true,
        await_share_names_def: true,
        ..RetrySettings::default()
    };
    assert_eq!(s.to_tokens(), vec!["/r:5", "/w:", "/reg", "/tbd"]);
}

#[test]
fn log_file_settings_spell_their_flag_from_the_choices() {
    let plain = LogFileSettings {
        log: "out.txt".to_string(),
        unicode: false,
        append: false,
    };
    assert_eq!(plain.to_token(), "/log:out.txt");
    let unicode_append = LogFileSettings {
        log: "out.txt".to_string(),
        unicode: true,
        append: true,
    };
    assert_eq!(unicode_append.to_token(), "/unilog+:out.txt");
}

#[test]
fn logging_options_serialize_in_declaration_order() {
    let l = LoggingOptions {
        verbose: true,
        dont_log_class: true,
        log_file: Some(LogFileSettings {
            log: "c.log".to_string(),
            unicode: false,
            append: true,
        }),
        combination_log: true,
        ..LoggingOptions::default()
    };
    assert_eq!(l.to_tokens(), vec!["/v", "/nc", "/log+:c.log", "/tee"]);
}

#[test]
fn a_full_command_assembles_in_the_fixed_precedence_order() {
    let b = RobocopyCommandBuilder {
        source: "C:\\src".to_string(),
        destination: "D:\\dst".to_string(),
        files: vec!["*.rs".to_string(), "notes.md".to_string()],
        copy_mode: Some(CopyMode::RESTARTABLE_MODE_BACKUP_MODE_FALLBACK),
        unbuffered: true,
        empty_dir_copy: true,
        remove_files_and_dirs_not_in_src: false,
        only_copy_top_n_levels: Some(3),
        structure_and_size_zero_files_only: true,
        copy_file_properties: Some(FileProperties::all()),
        copy_dir_properties: Some(DirectoryProperties::DATA),
        filter: None,
        filesystem_options: None,
        performance_options: Some(PerformanceOptions {
            performance_choice: Some(PerformanceChoice::Threads(Some(16))),
            dont_offload: true,
            request_network_compression: false,
            copy_rather_than_follow_link: false,
        }),
        retry_settings: Some(RetrySettings {
            specify_retries_failed_copies: Some(Some(2)),
            ..RetrySettings::default()
        }),
        logging: Some(LoggingOptions {
            no_progress_display: true,
            ..LoggingOptions::default()
        }),
        mv: Some(Move::FILES),
        post_copy_actions: None,
        overwrite_destination_dir_sec_settings_when_mirror: false,
    };
    assert_eq!(
        b.build(),
        vec![
            "C:\\src", "D:\\dst", "*.rs", "notes.md", "/zb", "/j", "/e", "/lev:3", "/create",
            "/copy:DATSOU", "/dcopy:D", "/mt:16", "/nooffload", "/r:2", "/np", "/mov",
        ]
    );
}

#[test]
fn copy_and_move_modes_have_their_own_tokens() {
    assert_eq!(CopyMode::RESTARTABLE_MODE.to_token(), "/z");
    assert_eq!(CopyMode::BACKUP_MODE.to_token(), "/b");
    assert_eq!(Move::FILES.to_token(), "/mov");
    assert_eq!(Move::FILES_AND_DIRS.to_token(), "/move");
}

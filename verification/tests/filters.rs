use robocopyrs::filter::{
    DirectoryExclusionFilter, FileAndDirectoryExclusionFilter, FileExclusionFilter,
    FileExclusionFilterException, Filter,
};
use robocopyrs::{FileAttributes, MultipleVariant};

#[test]
fn file_exclusion_flags_serialize_in_canonical_order() {
    let combined = FileExclusionFilter::NEWER
        .combine(FileExclusionFilter::CHANGED)
        .combine(FileExclusionFilter::JUNCTION_POINTS);
    assert_eq!(combined.to_tokens(), vec!["/xc", "/xn", "/xjf"]);
}

#[test]
fn file_exclusion_attributes_and_patterns_come_after_the_flags() {
    let combined = FileExclusionFilter::PathOrName(vec!["*.tmp".to_string()])
        .combine(FileExclusionFilter::Attributes(FileAttributes::READ_ONLY))
        .combine(FileExclusionFilter::OLDER);
    assert_eq!(combined.to_tokens(), vec!["/xo", "/xa:R", "/xf", "*.tmp"]);
}

#[test]
fn file_exclusion_pattern_lists_concatenate_in_operand_order() {
    let a = FileExclusionFilter::PathOrName(vec!["a".to_string(), "b".to_string()]);
    let b = FileExclusionFilter::PathOrName(vec!["c".to_string()]);
    assert_eq!(a.combine(b).to_tokens(), vec!["/xf", "a", "b", "c"]);
}

#[test]
fn file_exclusion_attribute_filters_union_recursively() {
    let a = FileExclusionFilter::Attributes(FileAttributes::READ_ONLY);
    let b = FileExclusionFilter::Attributes(FileAttributes::HIDDEN);
    assert_eq!(a.combine(b).to_tokens(), vec!["/xa:RH"]);
}

#[test]
fn combining_a_file_exclusion_flag_with_itself_decomposes_to_it_once() {
    let parts = FileExclusionFilter::CHANGED
        .combine(FileExclusionFilter::CHANGED)
        .single_variants();
    assert_eq!(parts.len(), 1);
    assert!(matches!(parts[0], FileExclusionFilter::CHANGED));
}

#[test]
fn an_atomic_pattern_filter_keeps_an_empty_list() {
    let atomic = FileExclusionFilter::PathOrName(Vec::new());
    assert_eq!(atomic.to_tokens(), vec!["/xf"]);
    let combined = FileExclusionFilter::PathOrName(Vec::new())
        .combine(FileExclusionFilter::OLDER);
    assert_eq!(combined.to_tokens(), vec!["/xo"]);
}

#[test]
fn directory_exclusion_junction_comes_before_the_patterns() {
    let combined = DirectoryExclusionFilter::PathOrName(vec!["build".to_string()])
        .combine(DirectoryExclusionFilter::JUNCTION_POINTS);
    assert_eq!(combined.to_tokens(), vec!["/xjd", "/xd", "build"]);
}

#[test]
fn directory_exclusion_patterns_concatenate_in_operand_order() {
    let a = DirectoryExclusionFilter::PathOrName(vec!["x".to_string()]);
    let b = DirectoryExclusionFilter::PathOrName(vec!["y".to_string()]);
    assert_eq!(a.combine(b).to_tokens(), vec!["/xd", "x", "y"]);
}

#[test]
fn combining_the_junction_exclusion_with_itself_decomposes_to_it_once() {
    let combined = DirectoryExclusionFilter::JUNCTION_POINTS
        .combine(DirectoryExclusionFilter::JUNCTION_POINTS);
    assert_eq!(combined.to_tokens(), vec!["/xjd"]);
    let parts = combined.single_variants();
    assert_eq!(parts.len(), 1);
    assert!(matches!(parts[0], DirectoryExclusionFilter::JUNCTION_POINTS));
}

#[test]
fn file_and_directory_exclusion_serializes_in_declaration_order() {
    let combined = FileAndDirectoryExclusionFilter::JUNCTION_POINTS
        .combine(FileAndDirectoryExclusionFilter::EXTRA);
    assert_eq!(combined.to_tokens(), vec!["/xx", "/xj"]);
    assert_eq!(
        FileAndDirectoryExclusionFilter::LONELY.to_tokens(),
        vec!["/xl"]
    );
}

#[test]
fn exception_flags_serialize_in_declaration_order() {
    let combined = FileExclusionFilterException::TWEAKED
        .combine(FileExclusionFilterException::MODIFIED)
        .combine(FileExclusionFilterException::SAME);
    assert_eq!(combined.to_tokens(), vec!["/im", "/is", "/it"]);
    assert_eq!(
        FileExclusionFilterException::SAME
            .combine(FileExclusionFilterException::SAME)
            .single_variants(),
        vec![FileExclusionFilterException::SAME]
    );
}

#[test]
fn size_bounds_render_the_largest_value_exactly() {
    let filter = Filter {
        max_size: Some(u128::MAX),
        ..Filter::default()
    };
    assert_eq!(
        filter.to_tokens(),
        vec!["/max:340282366920938463463374607431768211455"]
    );
}

#[test]
fn an_empty_filter_serializes_to_nothing() {
    let filter = Filter::default();
    assert_eq!(filter.to_tokens(), Vec::<String>::new());
}

#[test]
fn a_full_filter_serializes_in_the_fixed_order() {
    let filter = Filter {
        handle_archive_and_reset: true,
        include_only_files_with_any_of_these_attribs: Some(FileAttributes::HIDDEN),
        file_exclusion_filter: Some(FileExclusionFilter::CHANGED),
        directory_exclusion_filter: Some(DirectoryExclusionFilter::JUNCTION_POINTS),
        file_and_directory_exclusion_filter: Some(FileAndDirectoryExclusionFilter::EXTRA),
        file_exclusion_filter_exceptions: Some(FileExclusionFilterException::MODIFIED),
        max_size: Some(1048576),
        min_size: Some(9),
        max_age: Some("20240101".to_string()),
        min_age: Some("5".to_string()),
        max_last_access_date: Some("20231231".to_string()),
        min_last_access_date: Some("1900".to_string()),
    };
    assert_eq!(
        filter.to_tokens(),
        vec![
            "/m",
            "/ia:H",
            "/xc",
            "/xjd",
            "/xx",
            "/im",
            "/max:1048576",
            "/min:9",
            "/maxage:20240101",
            "/minage:5",
            "/maxlad:20231231",
            "/minlad:1900",
        ]
    );
}

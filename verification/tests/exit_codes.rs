use robocopyrs::exit_codes::{ErrExitCode, OkExitCode};
use robocopyrs::Error;

#[test]
fn zero_is_success_without_changes() {
    assert_eq!(OkExitCode::try_from(0), Ok(OkExitCode::NO_CHANGE));
}

#[test]
fn seven_is_success_with_all_three_conditions() {
    assert_eq!(
        OkExitCode::try_from(7),
        Ok(OkExitCode::SOME_COPIES_MISMATCHES_EXTRA_FOUND)
    );
}

#[test]
fn eight_is_the_bare_failure() {
    assert_eq!(OkExitCode::try_from(8), Err(ErrExitCode::FAIL));
}

#[test]
fn sixteen_is_the_fatal_error_without_changes() {
    assert_eq!(
        OkExitCode::try_from(16),
        Err(ErrExitCode::NO_CHANGE_FATAL_ERROR)
    );
}

#[test]
fn out_of_range_codes_are_reported_as_themselves() {
    assert_eq!(
        OkExitCode::try_from(200),
        Err(ErrExitCode::INVALID_EXIT_CODE(200))
    );
    assert_eq!(
        OkExitCode::try_from(-1),
        Err(ErrExitCode::INVALID_EXIT_CODE(-1))
    );
    assert_ne!(OkExitCode::try_from(200), Err(ErrExitCode::FAIL));
    assert_ne!(
        OkExitCode::try_from(200),
        Err(ErrExitCode::NO_CHANGE_FATAL_ERROR)
    );
}

#[test]
fn every_documented_code_gets_its_own_variant() {
    let all = [
        OkExitCode::try_from(0),
        OkExitCode::try_from(1),
        OkExitCode::try_from(2),
        OkExitCode::try_from(3),
        OkExitCode::try_from(4),
        OkExitCode::try_from(5),
        OkExitCode::try_from(6),
        OkExitCode::try_from(7),
        OkExitCode::try_from(8),
        OkExitCode::try_from(9),
        OkExitCode::try_from(10),
        OkExitCode::try_from(11),
        OkExitCode::try_from(12),
        OkExitCode::try_from(13),
        OkExitCode::try_from(14),
        OkExitCode::try_from(15),
        OkExitCode::try_from(16),
    ];
    for i in 0..all.len() {
        assert_eq!(all[i].is_ok(), i < 8);
        for j in 0..all.len() {
            if i != j {
                assert_ne!(all[i], all[j]);
            }
        }
    }
}

#[test]
fn an_error_exit_code_converts_into_the_error_type() {
    let e = Error::from(ErrExitCode::SOME_COPIES_FAIL);
    assert!(matches!(e, Error::ExitCode(ErrExitCode::SOME_COPIES_FAIL)));
}

use xr_bringup::app_info::{application_info, ApplicationInfoError, NAME_BUFFER_SIZE};
use xr_bringup::bring_up::{BringUp, Progress, Step};

#[test]
fn empty_application_name_is_rejected_before_any_call() {
    let r = BringUp::start("", 1, None, None);
    assert!(matches!(r, Err(ApplicationInfoError::EmptyApplicationName)));
}

#[test]
fn over_long_application_names_are_rejected_before_any_call() {
    for len in [128usize, 129, 200, 1000] {
        let name = "a".repeat(len);
        let r = BringUp::start(&name, 1, None, None);
        assert!(matches!(r, Err(ApplicationInfoError::ApplicationNameTooLong)));
    }
}

#[test]
fn longest_application_name_that_fits_with_its_terminator() {
    let name = "b".repeat(127);
    let d = application_info(&name, 3, None, None).unwrap();
    assert_eq!(d.application_name.len(), NAME_BUFFER_SIZE);
    assert!(d.application_name[..127].iter().all(|&c| c == b'b'));
    assert_eq!(d.application_name[127], 0);
}

#[test]
fn application_name_is_copied_and_zero_filled() {
    let d = application_info("test", 1, None, None).unwrap();
    assert_eq!(&d.application_name[..4], b"test");
    assert!(d.application_name[4..].iter().all(|&c| c == 0));
    assert_eq!(d.application_name.len(), 128);
    assert_eq!(d.application_version, 1);
    assert_eq!(d.engine_name, vec![0u8; 128]);
    assert_eq!(d.engine_version, 0);
}

#[test]
fn engine_name_and_version_go_to_their_own_fields() {
    let d = application_info("app", 7, Some("engine"), Some(9)).unwrap();
    assert_eq!(&d.engine_name[..6], b"engine");
    assert!(d.engine_name[6..].iter().all(|&c| c == 0));
    assert_eq!(&d.application_name[..3], b"app");
    assert!(d.application_name[3..].iter().all(|&c| c == 0));
    assert_eq!(d.engine_version, 9);
    assert_eq!(d.application_version, 7);
}

#[test]
fn over_long_engine_name_is_rejected() {
    let engine = "e".repeat(128);
    let r = application_info("app", 1, Some(&engine), None);
    assert!(matches!(r, Err(ApplicationInfoError::EngineNameTooLong)));
}

#[test]
fn empty_name_is_reported_before_engine_name() {
    let engine = "e".repeat(300);
    let r = application_info("", 1, Some(&engine), None);
    assert!(matches!(r, Err(ApplicationInfoError::EmptyApplicationName)));
}

#[test]
fn accepted_names_start_with_loading_the_entry_points() {
    let b = BringUp::start("test", 1, None, None).unwrap();
    assert_eq!(b.progress, Progress::Pending(Step::LoadEntryPoints));
    assert_eq!(b.next_call(), Some(Step::LoadEntryPoints));
}

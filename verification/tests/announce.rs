use photoproof_desktop::announce::announcement;
use photoproof_desktop::heatmap::{parse_source, DwellSource};
use photoproof_desktop::os::CmdError;
use photoproof_desktop::settings::{control_file, LiveControlFile};

#[test]
fn events_announce_one_pulse_each_and_every_touched_image_once() {
    let a = announcement(&vec![
        vec!["cc".to_string(), "aa".to_string()],
        Vec::new(),
        vec!["aa".to_string(), "bb".to_string()],
    ]);
    assert_eq!(a.pulses, 3);
    assert_eq!(a.journal_changed, Some(vec!["aa".to_string(), "bb".to_string(), "cc".to_string()]));
}

#[test]
fn session_remarks_touch_no_image_and_stay_silent() {
    let a = announcement(&vec![Vec::new(), Vec::new()]);
    assert_eq!(a.pulses, 2);
    assert_eq!(a.journal_changed, None);
    let none = announcement(&Vec::new());
    assert_eq!(none.pulses, 0);
    assert_eq!(none.journal_changed, None);
}

#[test]
fn dwell_sources_are_look_or_grid() {
    assert_eq!(parse_source("look").unwrap(), DwellSource::Look);
    assert_eq!(parse_source("grid").unwrap(), DwellSource::Grid);
    assert_eq!(parse_source("lens").unwrap_err(), CmdError::Invalid("bad dwell source: lens".into()));
}

#[test]
fn restore_defaults_names_one_of_three_control_files() {
    assert_eq!(control_file("settings").unwrap(), LiveControlFile::Settings);
    assert_eq!(control_file("config").unwrap(), LiveControlFile::Config);
    assert_eq!(control_file("tuning").unwrap(), LiveControlFile::Tuning);
    assert_eq!(
        control_file("bogus").unwrap_err(),
        CmdError::Invalid("unknown control file \"bogus\"; expected settings, config, or tuning".into())
    );
    assert_eq!(
        control_file("a\"b").unwrap_err(),
        CmdError::Invalid("unknown control file \"a\\\"b\"; expected settings, config, or tuning".into())
    );
}

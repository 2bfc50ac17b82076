use bbtrackball::hid::{HidDevice, Protocol, ReportType, Subclass};
use bbtrackball::report::{MouseReport, MOUSE_REPORT_DESCRIPTOR};
use bbtrackball::trackball::{Trackball, TrackballReport, REPORT_DESCRIPTOR};

#[test]
fn mouse_report_pressed_button_and_move() {
    let report = MouseReport::_new(true, -1, 5);
    assert_eq!(report.as_ref(), &[0x01, 0xff, 0x05, 0x00]);
}

#[test]
fn mouse_report_released_button() {
    let report = MouseReport::_new(false, 127, -128);
    assert_eq!(report.as_ref(), &[0x00, 0x7f, 0x80, 0x00]);
}

#[test]
fn mouse_descriptor_bounds() {
    assert_eq!(MOUSE_REPORT_DESCRIPTOR.len(), 52);
    assert_eq!(&MOUSE_REPORT_DESCRIPTOR[0..4], &[0x05, 0x01, 0x09, 0x02]);
    assert_eq!(&MOUSE_REPORT_DESCRIPTOR[50..], &[0xc0, 0xc0]);
}

#[test]
fn trackball_report_bytes() {
    let report = TrackballReport::new(-5, 5, [1, 2, 3]);
    assert_eq!(report.x, -5);
    assert_eq!(report.y, 5);
    assert_eq!(report.buttons, [1, 2, 3]);
    assert_eq!(report.as_bytes(), [0xfb, 0x05, 1, 2, 3]);
}

#[test]
fn trackball_report_default() {
    let report = TrackballReport::default();
    assert_eq!(report.x, 50);
    assert_eq!(report.y, 50);
    assert_eq!(report.buttons, [0, 0, 0]);
    assert_eq!(report.as_bytes(), [50, 50, 0, 0, 0]);
}

#[test]
fn new_trackball_hands_out_default_report() {
    let mut trackball = Trackball::new();
    assert_eq!(trackball.get_report(ReportType::Input, 0), Ok(&[50u8, 50, 0, 0, 0][..]));
}

#[test]
fn get_report_after_set_report() {
    let mut trackball = Trackball::new();
    trackball.set_report(TrackballReport::new(-1, 3, [0x80, 0, 7]));
    assert_eq!(trackball.get_report(ReportType::Input, 1), Ok(&[0xffu8, 3, 0x80, 0, 7][..]));
    trackball.set_report(TrackballReport::new(0, 0, [0, 0, 0]));
    assert_eq!(trackball.get_report(ReportType::Input, 0), Ok(&[0u8, 0, 0, 0, 0][..]));
}

#[test]
fn get_report_refuses_other_kinds() {
    let mut trackball = Trackball::new();
    assert_eq!(trackball.get_report(ReportType::Output, 0), Err(()));
    assert_eq!(trackball.get_report(ReportType::Feature, 0), Err(()));
    assert_eq!(trackball.get_report(ReportType::Reserved(9), 0), Err(()));
}

#[test]
fn host_reports_are_accepted_and_ignored() {
    let mut trackball = Trackball::new();
    trackball.set_report(TrackballReport::new(1, 2, [3, 4, 5]));
    assert_eq!(trackball.handle_set_report(ReportType::Output, 0, &[9, 9, 9]), Ok(()));
    assert_eq!(trackball.get_report(ReportType::Input, 0), Ok(&[1u8, 2, 3, 4, 5][..]));
}

#[test]
fn trackball_interface_description() {
    let trackball = Trackball::new();
    assert_eq!(trackball.subclass(), Subclass::NoSubclass);
    assert_eq!(trackball.protocol(), Protocol::NoProtocol);
    assert_eq!(trackball.report_descriptor(), &REPORT_DESCRIPTOR[..]);
    assert_eq!(trackball.report_descriptor().len(), 52);
    assert_eq!(trackball.report_descriptor()[4], 0x05);
}

#[test]
fn different_reports_have_different_bytes() {
    let a = TrackballReport::new(-128, 0, [0, 0, 0]);
    let b = TrackballReport::new(127, 0, [0, 0, 0]);
    let c = TrackballReport::new(-128, 0, [0, 0, 1]);
    assert_ne!(a.as_bytes(), b.as_bytes());
    assert_ne!(a.as_bytes(), c.as_bytes());
    assert_eq!(a.as_bytes(), [0x80, 0, 0, 0, 0]);
}

#[test]
fn last_set_report_wins() {
    let mut trackball = Trackball::new();
    let _ = trackball.subclass();
    let _ = trackball.protocol();
    let _ = trackball.report_descriptor();
    assert_eq!(trackball.get_report(ReportType::Input, 7), Ok(&[50u8, 50, 0, 0, 0][..]));
    trackball.set_report(TrackballReport::new(1, 1, [1, 1, 1]));
    assert_eq!(trackball.handle_set_report(ReportType::Feature, 2, &[0; 5]), Ok(()));
    trackball.set_report(TrackballReport::new(-2, 9, [0, 4, 0]));
    assert_eq!(trackball.get_report(ReportType::Output, 3), Err(()));
    assert_eq!(trackball.handle_set_report(ReportType::Output, 0, &[]), Ok(()));
    let answer = trackball.get_report(ReportType::Input, 200).unwrap();
    assert_eq!(answer.len(), 5);
    assert_eq!(answer, &[0xfeu8, 9, 0, 4, 0][..]);
}

#[test]
fn mouse_report_has_four_bytes() {
    assert_eq!(MouseReport::_new(true, 0, 0).as_ref().len(), 4);
}

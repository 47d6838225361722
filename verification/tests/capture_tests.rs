use framecast::capture_helper::capture_type_from_answer;
use framecast::capture_helper::monitor_index_from_answer;
use framecast::capture_helper::CaptureType;
use framecast::capture_helper::SerializedDeviceSize;
use framecast::captures::Dimensions;
use framecast::captures::SerializedDimensions;

#[test]
fn menu_answer_selects_capture_type() {
    assert!(matches!(
        capture_type_from_answer('1', 0),
        Some(CaptureType::Camera)
    ));
    assert!(matches!(
        capture_type_from_answer('2', 3),
        Some(CaptureType::Monitor(3))
    ));
    assert!(capture_type_from_answer('x', 0).is_none());
    assert!(capture_type_from_answer('0', 0).is_none());
}

#[test]
fn monitor_numbers_are_one_based() {
    assert_eq!(monitor_index_from_answer(1), Some(0));
    assert_eq!(monitor_index_from_answer(4), Some(3));
    assert_eq!(monitor_index_from_answer(0), None);
    assert_eq!(monitor_index_from_answer(-2), None);
}

#[test]
fn dimensions_serialize_to_plain_fields() {
    let dims = Dimensions { width: 1920, height: 1080 };
    let s = SerializedDimensions::from_dimensions(dims);
    assert_eq!(s.width, 1920);
    assert_eq!(s.height, 1080);

    let d = SerializedDeviceSize::new(dims);
    assert_eq!(d.width, 1920);
    assert_eq!(d.height, 1080);
}

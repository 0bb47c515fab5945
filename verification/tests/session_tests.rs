use jlab::annotation::{Annotation, Object, FULL_CONFIDENCE};
use jlab::geometry::Point;
use jlab::i18n::Language;
use jlab::shape_id::{roi_id_from_index, roi_index_from_id};
use jlab::state::ThemeColor;

fn pt(x: f64, y: f64) -> Point {
    Point::new((x * 1_000_000.0).round() as i32, (y * 1_000_000.0).round() as i32)
}

#[test]
fn test_language_code() {
    assert_eq!(Language::ZhCN.code(), "zh-CN");
    assert_eq!(Language::EnUS.code(), "en-US");
}

#[test]
fn test_language_name() {
    assert_eq!(Language::ZhCN.name(), "中文");
    assert_eq!(Language::EnUS.name(), "English");
}

#[test]
fn test_annotation_creation() {
    let mut annotation = Annotation::new("test-tool");
    assert_eq!(annotation.version, "2.0");
    assert_eq!(annotation.objects.len(), 0);

    let obj = Object::new(0, 1, vec![pt(0.0, 0.0), pt(1.0, 0.0), pt(1.0, 1.0), pt(0.0, 1.0)]);

    annotation.add_object(obj);
    assert_eq!(annotation.objects.len(), 1);
}

#[test]
fn test_object_properties() {
    let mut obj = Object::new(0, 1, vec![]);
    obj.set_property(0, 5, FULL_CONFIDENCE);

    let prop = obj.get_property(0).unwrap();
    assert_eq!(prop.value, 5);
    assert_eq!(prop.confidence, FULL_CONFIDENCE);
}

#[test]
fn test_next_object_id() {
    let mut annotation = Annotation::new("test");
    assert_eq!(annotation.next_object_id(), 0);

    annotation.add_object(Object::new(0, 1, vec![]));
    assert_eq!(annotation.next_object_id(), 1);

    annotation.add_object(Object::new(5, 1, vec![]));
    assert_eq!(annotation.next_object_id(), 6);
}

#[test]
fn roi_ids_and_positions_correspond() {
    for k in [0usize, 1, 2, 17, 1000, 0x7fff_ffff] {
        assert_eq!(roi_index_from_id(roi_id_from_index(k)), Some(k));
    }
    assert_eq!(roi_id_from_index(0), -1);
    assert_eq!(roi_id_from_index(4), -5);
    assert_eq!(roi_index_from_id(-1), Some(0));
    assert_eq!(roi_index_from_id(i32::MIN), Some(0x7fff_ffff));
}

#[test]
fn object_ids_are_no_roi_ids() {
    for n in [0, 1, 2, 99, i32::MAX] {
        assert_eq!(roi_index_from_id(n), None);
    }
}

#[test]
fn theme_names_round_trip() {
    for theme in [ThemeColor::Light, ThemeColor::Dark, ThemeColor::System] {
        assert_eq!(ThemeColor::from_str(theme.as_str()), Some(theme));
    }
    assert_eq!(ThemeColor::from_str("Light"), None);
    assert_eq!(ThemeColor::from_str(""), None);
    assert_eq!(ThemeColor::Dark.name_key(), "options.theme_dark");
}

#[test]
fn language_follows_the_locale() {
    assert_eq!(Language::for_locale(Some("zh-CN")), Language::ZhCN);
    assert_eq!(Language::for_locale(Some("zh")), Language::ZhCN);
    assert_eq!(Language::for_locale(Some("en-GB")), Language::EnUS);
    assert_eq!(Language::for_locale(Some("z")), Language::EnUS);
    assert_eq!(Language::for_locale(None), Language::EnUS);
}

#[test]
fn annotation_is_stamped_with_the_clock() {
    let annotation = Annotation::new("clock");
    // Later than the year 2020, in milliseconds.
    assert!(annotation.created_at > 1_577_836_800_000);
    assert_eq!(annotation.created_at, annotation.last_modified);
    assert_eq!(annotation.user_agent, "clock");
    let fixed = Annotation::new_at("fixed", 42);
    assert_eq!(fixed.created_at, 42);
    assert_eq!(fixed.last_modified, 42);
}

#[test]
fn system_language_is_a_language() {
    let language = Language::detect_system();
    assert!(language == Language::ZhCN || language == Language::EnUS);
}

use jlab::annotation::{Annotation, Object, ObjectProperty, PropertyValueWithConfidence};
use jlab::error::Error;
use jlab::export::{
    export_annotation, export_voc, export_yolo, pixel_of, BatchItem, CocoExporter, ExportFormat,
    Exporter, VocExporter, YoloExporter,
};
use jlab::geometry::Point;
use jlab::import::{
    bbox_to_polygon, build_annotation, coordinate_from_pixels, find_category_id_by_name,
    rect_polygon,
};
use jlab::meta::{
    Category, CategoryProperty, Meta, PropertySpecialValue, PropertyType, PropertyValue, RoiConfig,
    ShapeConfig,
};
use jlab::validation::{validate_annotation, ValidationResult};

fn pt(x: f64, y: f64) -> Point {
    Point::new((x * 1_000_000.0).round() as i32, (y * 1_000_000.0).round() as i32)
}

fn meta(name: &str, categories: Vec<Category>) -> Meta {
    Meta {
        id: 1,
        name: name.to_string(),
        description: "test".to_string(),
        shape: ShapeConfig { title_style: 1, thickness: 2, auto_save: true, vertex_radius: 10_000 },
        roi: RoiConfig { color: "#800080".to_string() },
        categories,
        property_types: vec![],
        property_special_values: vec![],
    }
}

fn person() -> Category {
    Category {
        id: 0,
        name: "person".to_string(),
        description: "Person".to_string(),
        hotkey: "1".to_string(),
        color: "#FF0000".to_string(),
        properties: vec![],
    }
}

fn box_object() -> Object {
    Object::new(0, 0, vec![pt(0.1, 0.1), pt(0.5, 0.1), pt(0.5, 0.5), pt(0.1, 0.5)])
}

#[test]
fn test_validate_empty_annotation() {
    let annotation = Annotation::new("test");
    let meta = meta("test", vec![]);

    let result = validate_annotation(&annotation, &meta);
    assert!(result.is_valid);
    assert_eq!(result.warnings.len(), 1);
}

#[test]
fn test_validate_invalid_category() {
    let mut annotation = Annotation::new("test");
    let obj = Object::new(
        0,
        999, // Invalid category
        vec![pt(0.0, 0.0), pt(1.0, 0.0), pt(0.5, 1.0)],
    );
    annotation.add_object(obj);

    let meta = meta("test", vec![]);

    let result = validate_annotation(&annotation, &meta);
    assert!(!result.is_valid);
    assert!(!result.errors.is_empty());
}

#[test]
fn test_yolo_export() {
    let mut annotation = Annotation::new("test");

    // Create a simple polygon object
    annotation.add_object(box_object());

    let meta = meta("test", vec![]);

    let exporter = YoloExporter;
    let result = exporter.export_annotation(&annotation, &meta, "test.jpg", 1920, 1080).unwrap();

    // Expected: class_id=0, x_center=0.3, y_center=0.3, width=0.4, height=0.4
    assert!(result.contains("0 0.300000 0.300000 0.400000 0.400000"));
}

#[test]
fn test_voc_export() {
    let mut annotation = Annotation::new("test");
    annotation.add_object(box_object());

    let meta = meta("TestDataset", vec![person()]);

    let exporter = VocExporter;
    let result =
        exporter.export_annotation(&annotation, &meta, "/path/to/test.jpg", 1000, 1000).unwrap();

    assert!(result.contains("<annotation>"));
    assert!(result.contains("<name>person</name>"));
    assert!(result.contains("<width>1000</width>"));
    assert!(result.contains("<xmin>100</xmin>"));
}

#[test]
fn test_coco_batch_export() {
    let mut annotation = Annotation::new("test");
    annotation.add_object(box_object());

    let mut meta = meta("TestDataset", vec![person()]);
    meta.description = "Test COCO export".to_string();

    let batch =
        vec![BatchItem { image_path: "test.jpg".to_string(), annotation, width: 1000, height: 1000 }];

    let exporter = CocoExporter;
    let result = exporter.export_batch(&batch, &meta, 0).unwrap();

    assert!(!result.images.is_empty());
    assert!(!result.annotations.is_empty());
    assert!(!result.categories.is_empty());
}

#[test]
fn validation_messages_name_the_object_and_the_fault() {
    let mut annotation = Annotation::new_at("test", 0);
    annotation.objects.push(Object::new(0, 999, vec![pt(0.0, 0.0), pt(1.5, -0.25)]));
    let result = validate_annotation(&annotation, &meta("test", vec![person()]));
    assert!(!result.is_valid);
    assert!(result.warnings.is_empty());
    assert_eq!(
        result.errors,
        vec![
            "Object 0 has invalid category ID: 999".to_string(),
            "Object 0 has invalid polygon with 2 points (minimum 3 required)".to_string(),
            "Object 0 point 1 has invalid x coordinate: 1500000 (must be 0-1000000)".to_string(),
            "Object 0 point 1 has invalid y coordinate: -250000 (must be 0-1000000)".to_string(),
        ]
    );
}

#[test]
fn validation_accepts_a_good_document() {
    let mut annotation = Annotation::new_at("test", 0);
    annotation.objects.push(box_object());
    annotation.objects.push(box_object());
    let result = validate_annotation(&annotation, &meta("test", vec![person()]));
    assert!(result.is_valid);
    assert!(result.errors.is_empty());
    assert!(result.warnings.is_empty());
}

#[test]
fn validation_checks_property_values() {
    let mut category = person();
    category.properties = vec![
        CategoryProperty { id: 3, name: "sex".to_string(), property_type: "sex".to_string() },
        CategoryProperty { id: 4, name: "age".to_string(), property_type: "age".to_string() },
    ];
    let mut meta = meta("test", vec![category]);
    let value = |id: i32| PropertyValue {
        id,
        name: "v".to_string(),
        description: String::new(),
        hotkey: String::new(),
        color: String::new(),
        sign: String::new(),
    };
    meta.property_types = vec![PropertyType {
        id: 0,
        name: "sex".to_string(),
        description: String::new(),
        values: vec![value(1), value(2)],
    }];
    meta.property_special_values = vec![PropertySpecialValue {
        id: -1,
        name: "pending".to_string(),
        description: String::new(),
        hotkey: String::new(),
        color: String::new(),
        sign: String::new(),
    }];
    let mut annotation = Annotation::new_at("test", 0);
    let mut object = box_object();
    object.properties = vec![
        ObjectProperty {
            id: 3,
            values: vec![
                PropertyValueWithConfidence { value: 2, confidence: 1_000_000 },
                PropertyValueWithConfidence { value: 7, confidence: 1_000_000 },
                PropertyValueWithConfidence { value: -1, confidence: 1_000_000 },
            ],
        },
        // The project has no type for the property 4: its values are not checked.
        ObjectProperty { id: 4, values: vec![PropertyValueWithConfidence { value: 99, confidence: 0 }] },
    ];
    annotation.objects.push(box_object());
    annotation.objects.push(object);
    let result = validate_annotation(&annotation, &meta);
    assert_eq!(result.errors, vec!["Object 1 has invalid property value: property=3, value=7".to_string()]);
    assert!(!result.is_valid);
}

#[test]
fn validation_result_records_errors_and_warnings() {
    let mut result = ValidationResult::new();
    assert!(result.is_valid);
    result.add_warning("careful".to_string());
    assert!(result.is_valid);
    result.add_error("wrong".to_string());
    result.add_error("worse".to_string());
    assert!(!result.is_valid);
    assert_eq!(result.errors, vec!["wrong".to_string(), "worse".to_string()]);
    assert_eq!(result.warnings, vec!["careful".to_string()]);
}

#[test]
fn yolo_text_has_a_line_per_object_with_points() {
    let mut annotation = Annotation::new_at("test", 0);
    annotation.objects.push(box_object());
    annotation.objects.push(Object::new(1, 5, vec![]));
    annotation.objects.push(Object::new(2, -3, vec![pt(0.0, 0.25), pt(1.0, 0.75), pt(0.5, 1.0)]));
    assert_eq!(
        export_yolo(&annotation),
        "0 0.300000 0.300000 0.400000 0.400000\n-3 0.500000 0.625000 1.000000 0.750000"
    );
    assert_eq!(export_yolo(&Annotation::new_at("test", 0)), "");
    // Coordinates beyond the image and between the steps of the text.
    let mut annotation = Annotation::new_at("test", 0);
    annotation.objects.push(Object::new(0, 12, vec![Point::new(-1_500_000, 7), Point::new(3, 8)]));
    assert_eq!(export_yolo(&annotation), "12 -0.749999 0.000007 1.500003 0.000001");
}

#[test]
fn voc_text_is_complete() {
    let mut annotation = Annotation::new_at("test", 0);
    annotation.objects.push(box_object());
    annotation.objects.push(Object::new(1, 9, vec![pt(0.25, 0.5)]));
    annotation.objects.push(Object::new(2, 0, vec![]));
    let text = export_voc(&annotation, &meta("Set", vec![person()]), "imgs", "a.jpg", "imgs/a.jpg", 640, 480);
    let expected = "<annotation>\n  <folder>imgs</folder>\n  <filename>a.jpg</filename>\n  <path>imgs/a.jpg</path>\n  <source>\n    <database>Set</database>\n  </source>\n  <size>\n    <width>640</width>\n    <height>480</height>\n    <depth>3</depth>\n  </size>\n  <segmented>0</segmented>\n  <object>\n    <name>person</name>\n    <pose>Unspecified</pose>\n    <truncated>0</truncated>\n    <difficult>0</difficult>\n    <bndbox>\n      <xmin>64</xmin>\n      <ymin>48</ymin>\n      <xmax>320</xmax>\n      <ymax>240</ymax>\n    </bndbox>\n  </object>\n  <object>\n    <name>unknown</name>\n    <pose>Unspecified</pose>\n    <truncated>0</truncated>\n    <difficult>0</difficult>\n    <bndbox>\n      <xmin>160</xmin>\n      <ymin>240</ymin>\n      <xmax>160</xmax>\n      <ymax>240</ymax>\n    </bndbox>\n  </object>\n</annotation>\n";
    assert_eq!(text, expected);
}

#[test]
fn voc_export_names_the_file_and_its_folder() {
    let annotation = Annotation::new_at("test", 0);
    let text = VocExporter
        .export_annotation(&annotation, &meta("Set", vec![]), "/path/to/test.jpg", 10, 10)
        .unwrap();
    assert!(text.contains("<folder>to</folder>"));
    assert!(text.contains("<filename>test.jpg</filename>"));
    assert!(text.contains("<path>/path/to/test.jpg</path>"));
    let text =
        VocExporter.export_annotation(&annotation, &meta("Set", vec![]), "test.jpg", 10, 10).unwrap();
    assert!(text.contains("<filename>test.jpg</filename>"));
}

#[test]
fn pixels_round_towards_zero() {
    assert_eq!(pixel_of(100_000, 1000), 100);
    assert_eq!(pixel_of(999_999, 1000), 999);
    assert_eq!(pixel_of(-1_500, 1000), -1);
    assert_eq!(pixel_of(-999, 1000), 0);
    assert_eq!(pixel_of(i32::MAX, u32::MAX), i32::MAX);
}

#[test]
fn single_documents_cannot_go_to_coco() {
    let annotation = Annotation::new_at("test", 0);
    let m = meta("Set", vec![]);
    match CocoExporter.export_annotation(&annotation, &m, "a.jpg", 10, 10) {
        Err(Error::Export(text)) => {
            assert_eq!(text, "COCO format requires batch export. Use export_batch instead.")
        }
        other => panic!("unexpected {:?}", other),
    }
    match export_annotation(&annotation, &m, "a.jpg", 10, 10, ExportFormat::Coco) {
        Err(error) => assert_eq!(error.message(), "Export error: COCO format requires batch export"),
        Ok(_) => panic!("COCO needs a batch"),
    }
    assert_eq!(export_annotation(&annotation, &m, "a.jpg", 10, 10, ExportFormat::Yolo).unwrap(), "");
    assert!(export_annotation(&annotation, &m, "a.jpg", 10, 10, ExportFormat::Voc)
        .unwrap()
        .starts_with("<annotation>"));
}

#[test]
fn errors_are_shown_with_their_kind() {
    assert_eq!(Error::Io("disk".to_string()).message(), "IO error: disk");
    assert_eq!(Error::Yaml("tab".to_string()).message(), "YAML serialization error: tab");
    assert_eq!(Error::InvalidData("x".to_string()).message(), "Invalid data: x");
    assert_eq!(Error::NotFound("y".to_string()).message(), "Not found: y");
    assert_eq!(Error::Export("z".to_string()).message(), "Export error: z");
}

#[test]
fn coco_data_set_counts_ids_through_the_batch() {
    let mut first = Annotation::new_at("test", 111);
    first.objects.push(box_object());
    first.objects.push(Object::new(1, 4, vec![]));
    first.objects.push(Object::new(2, 4, vec![pt(0.5, 0.5), pt(0.75, 1.0)]));
    let mut second = Annotation::new_at("test", 222);
    second.objects.push(box_object());
    let batch = vec![
        BatchItem { image_path: "a.jpg".to_string(), annotation: first, width: 1000, height: 500 },
        BatchItem { image_path: "b/c.png".to_string(), annotation: second, width: 10, height: 10 },
    ];
    let data = CocoExporter.export_batch(&batch, &meta("Set", vec![person()]), 333).unwrap();
    assert_eq!(data.version, "1.0");
    assert_eq!(data.contributor, "Set");
    assert_eq!(data.description, "test");
    assert_eq!(data.created_at, 333);
    assert_eq!(data.images.len(), 2);
    assert_eq!(data.images[1].id, 1);
    assert_eq!(data.images[1].image_path, "b/c.png");
    assert_eq!(data.images[1].license, 1);
    assert_eq!(data.images[0].captured_at, 111);
    assert_eq!((data.images[0].width, data.images[0].height), (1000, 500));
    assert_eq!(data.annotations.len(), 3);
    let ids: Vec<(i32, i32, i32)> =
        data.annotations.iter().map(|a| (a.id, a.image_id, a.category_id)).collect();
    assert_eq!(ids, vec![(0, 0, 0), (1, 0, 4), (2, 1, 0)]);
    // Lengths are in millionths of a pixel: 0.1 of 1000 pixels are 100 pixels.
    let a = &data.annotations[0];
    assert_eq!(a.bbox, (100_000_000, 50_000_000, 400_000_000, 200_000_000));
    assert_eq!(a.area, 400_000_000 * 200_000_000);
    assert_eq!(
        a.segmentation,
        vec![
            100_000_000,
            50_000_000,
            500_000_000,
            50_000_000,
            500_000_000,
            250_000_000,
            100_000_000,
            250_000_000
        ]
    );
    assert_eq!(a.iscrowd, 0);
    assert_eq!(data.categories.len(), 1);
    assert_eq!(data.categories[0].name, "person");
    assert_eq!(data.categories[0].supercategory, "object");
}

#[test]
fn imported_rectangles_are_limited_to_the_image() {
    assert_eq!(
        rect_polygon(100_000, 200_000, 300_000, 400_000),
        vec![pt(0.1, 0.2), pt(0.3, 0.2), pt(0.3, 0.4), pt(0.1, 0.4)]
    );
    // Corners in any order, limited to the image.
    assert_eq!(
        rect_polygon(1_300_000, 400_000, -100_000, 200_000),
        vec![pt(0.0, 0.2), pt(1.0, 0.2), pt(1.0, 0.4), pt(0.0, 0.4)]
    );
    // No area, no polygon.
    assert!(rect_polygon(100_000, 200_000, 100_000, 400_000).is_empty());
    assert!(rect_polygon(2_000_000, 0, 3_000_000, 500_000).is_empty());

    // A box of 100 by 50 pixels at (200, 100) on an image of 1000 by 500 pixels.
    assert_eq!(
        bbox_to_polygon((200_000_000, 100_000_000, 100_000_000, 50_000_000), 1000, 500),
        vec![pt(0.2, 0.2), pt(0.3, 0.2), pt(0.3, 0.3), pt(0.2, 0.3)]
    );
    assert!(bbox_to_polygon((0, 0, 1, 1), 0, 500).is_empty());
    assert_eq!(coordinate_from_pixels(250_000_000, 1000), 250_000);
    assert_eq!(coordinate_from_pixels(-5, 1000), 0);
    assert_eq!(coordinate_from_pixels(i64::MAX, 1), 1_000_000);
}

#[test]
fn imported_objects_are_numbered_anew() {
    assert!(build_annotation(vec![], "import").is_none());
    let objects = vec![Object::new(7, 1, vec![pt(0.1, 0.1)]), Object::new(7, 2, vec![])];
    let annotation = build_annotation(objects, "import").unwrap();
    assert_eq!(annotation.user_agent, "import");
    assert_eq!(annotation.objects.iter().map(|o| (o.id, o.category)).collect::<Vec<_>>(), vec![(0, 1), (1, 2)]);
    assert_eq!(annotation.objects[0].polygon, vec![pt(0.1, 0.1)]);
}

#[test]
fn categories_are_found_by_name() {
    let mut other = person();
    other.id = 5;
    other.name = "car".to_string();
    let mut again = person();
    again.id = 9;
    let m = meta("Set", vec![person(), other, again]);
    assert_eq!(find_category_id_by_name(&m, "person"), Some(0));
    assert_eq!(find_category_id_by_name(&m, "car"), Some(5));
    assert_eq!(find_category_id_by_name(&m, "Car"), None);
    assert_eq!(m.find_category(5).unwrap().name, "car");
    assert!(m.find_category(6).is_none());
    assert!(m.find_property_type(0).is_none());
    assert!(m.find_special_value(0).is_none());
}

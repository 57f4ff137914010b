use import_rewrite::{transform_filename, FilenameCase};

#[test]
fn test_to_kebab_case() {
    assert_eq!(transform_filename("Button", &FilenameCase::KebabCase), "button");
    assert_eq!(transform_filename("DatePicker", &FilenameCase::KebabCase), "date-picker");
    assert_eq!(transform_filename("MyComponent", &FilenameCase::KebabCase), "my-component");
    assert_eq!(transform_filename("XMLHttpRequest", &FilenameCase::KebabCase), "xml-http-request");
}

#[test]
fn test_to_camel_case() {
    assert_eq!(transform_filename("Button", &FilenameCase::CamelCase), "button");
    assert_eq!(transform_filename("DatePicker", &FilenameCase::CamelCase), "datePicker");
    assert_eq!(transform_filename("MyComponent", &FilenameCase::CamelCase), "myComponent");
}

#[test]
fn test_to_snake_case() {
    assert_eq!(transform_filename("Button", &FilenameCase::SnakeCase), "button");
    assert_eq!(transform_filename("DatePicker", &FilenameCase::SnakeCase), "date_picker");
    assert_eq!(transform_filename("MyComponent", &FilenameCase::SnakeCase), "my_component");
}

#[test]
fn test_transform_filename() {
    assert_eq!(transform_filename("DatePicker", &FilenameCase::KebabCase), "date-picker");
    assert_eq!(transform_filename("DatePicker", &FilenameCase::CamelCase), "datePicker");
    assert_eq!(transform_filename("DatePicker", &FilenameCase::SnakeCase), "date_picker");
    assert_eq!(transform_filename("DatePicker", &FilenameCase::PascalCase), "DatePicker");
}

#[test]
fn xml_words_in_each_case() {
    assert_eq!(transform_filename("XMLHttpRequest", &FilenameCase::CamelCase), "xmlHttpRequest");
    assert_eq!(transform_filename("XMLHttpRequest", &FilenameCase::SnakeCase), "xml_http_request");
    assert_eq!(transform_filename("XMLHttpRequest", &FilenameCase::PascalCase), "XmlHttpRequest");
}

#[test]
fn conversion_is_deterministic() {
    for case in [
        FilenameCase::KebabCase,
        FilenameCase::CamelCase,
        FilenameCase::SnakeCase,
        FilenameCase::PascalCase,
    ] {
        assert_eq!(transform_filename("XMLHttpRequest", &case), transform_filename("XMLHttpRequest", &case));
    }
}

#[test]
fn pascal_case_twice_is_pascal_case_once() {
    for name in ["DatePicker", "date_picker", "XMLHttpRequest", "button", "my-component"] {
        let once = transform_filename(name, &FilenameCase::PascalCase);
        let twice = transform_filename(&once, &FilenameCase::PascalCase);
        assert_eq!(once, twice);
    }
}

#[test]
fn pascal_case_is_not_idempotent_with_digits_between_capitals() {
    let once = transform_filename("aB1C", &FilenameCase::PascalCase);
    assert_eq!(once, "AB1c");
    assert_eq!(transform_filename(&once, &FilenameCase::PascalCase), "Ab1c");
}

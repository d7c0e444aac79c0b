//! Path derivation and decimal formatting, plus name validation.

use agartex::domain::{Document, Resource, ResourceMetadata};
use agartex::filesystem::{
    get_document_path, get_project_path, get_resource_path, i32_string, u64_string,
};
use agartex::validation::{validate_resource_name, validated_json_resource, ValidatedJsonRejection};

#[test]
fn decimal_rendering() {
    assert_eq!("0", u64_string(0));
    assert_eq!("10", u64_string(10));
    assert_eq!("12345", u64_string(12345));
    assert_eq!("18446744073709551615", u64_string(u64::MAX));
    assert_eq!("0", i32_string(0));
    assert_eq!("-7", i32_string(-7));
    assert_eq!("2147483647", i32_string(i32::MAX));
    assert_eq!("-2147483648", i32_string(i32::MIN));
}

#[test]
fn derived_paths() {
    assert_eq!("blobs/7", get_project_path("blobs", 7));
    assert_eq!("blobs/-5", get_project_path("blobs", -5));

    let document = Document {
        document_id: 3,
        project_id: 7,
        name: String::from("main.tex"),
    };
    assert_eq!("blobs/7/main.tex", get_document_path("blobs", &document));

    let resource = Resource {
        resource_id: 4,
        project_id: 12,
        name: String::from("figure.png"),
    };
    assert_eq!("blobs/12/figure.png", get_resource_path("blobs", &resource));
}

#[test]
fn name_validation_accepts_ordinary_names() {
    assert!(validate_resource_name("main.tex"));
    assert!(validate_resource_name("My Figure_2.png"));
    assert!(validate_resource_name("a"));
    assert!(validate_resource_name("..a"));
    assert!(validate_resource_name(&"x".repeat(128)));
}

#[test]
fn name_validation_rejects_unsafe_names() {
    assert!(!validate_resource_name(""));
    assert!(!validate_resource_name(&"x".repeat(129)));
    assert!(!validate_resource_name("."));
    assert!(!validate_resource_name(".."));
    assert!(!validate_resource_name("a/b"));
    assert!(!validate_resource_name("a\\b"));
    assert!(!validate_resource_name("nul\0byte"));
    assert!(!validate_resource_name("héllo"));
}

#[test]
fn validated_json_rejects_bad_resource_names() {
    let good = ResourceMetadata {
        name: String::from("figure.png"),
    };
    assert_eq!(good.clone(), validated_json_resource(good).unwrap().0);

    let bad = ResourceMetadata {
        name: String::from(".."),
    };
    assert_eq!(
        Err(ValidatedJsonRejection::ValidationRejection),
        validated_json_resource(bad)
    );
}

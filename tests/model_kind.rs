use std::str::FromStr;
use hide_my_mess::{HideError, RvmModelKind};

#[test]
fn filenames_of_both_variants() {
    assert_eq!(RvmModelKind::MobileNetV3.to_filename(), "rvm_mobilenetv3_tf");
    assert_eq!(RvmModelKind::Resnet50.to_filename(), "rvm_resnet50_tf");
}

#[test]
fn names_round_trip_through_parse() {
    for kind in [RvmModelKind::MobileNetV3, RvmModelKind::Resnet50] {
        assert_eq!(RvmModelKind::parse(kind.name()), Ok(kind));
    }
    assert_eq!(RvmModelKind::MobileNetV3.name(), "mobilenetv3");
    assert_eq!(RvmModelKind::Resnet50.name(), "resnet50");
}

#[test]
fn unknown_model_is_rejected_with_its_text() {
    assert_eq!(RvmModelKind::parse("resnet"), Err(HideError::InvalidModel("resnet".to_string())));
    assert_eq!(RvmModelKind::parse(""), Err(HideError::InvalidModel(String::new())));
    let parsed: Result<RvmModelKind, HideError> = "mobilenetv3".parse();
    assert_eq!(parsed, Ok(RvmModelKind::MobileNetV3));
}

#[test]
fn default_variant_is_mobilenet() {
    assert_eq!(RvmModelKind::default(), RvmModelKind::MobileNetV3);
}

#[test]
fn from_str_matches_names_exactly() {
    for kind in [RvmModelKind::MobileNetV3, RvmModelKind::Resnet50] {
        assert_eq!(RvmModelKind::from_str(kind.name()), Ok(kind));
    }
    assert_eq!(RvmModelKind::from_str("Resnet50"), Err(HideError::InvalidModel("Resnet50".to_string())));
    assert_eq!(RvmModelKind::from_str("mobilenet"), Err(HideError::InvalidModel("mobilenet".to_string())));
}

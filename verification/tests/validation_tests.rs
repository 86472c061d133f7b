use occt_codegen::{validate, FacadeParam, MethodKind, MethodSpec, ReturnType, ValidationError};

fn spec(name: &'static str) -> MethodSpec {
    MethodSpec {
        name,
        kind: MethodKind::CustomBody,
        params: &[],
        return_type: ReturnType::ShapeId,
        occt_class: "",
        ctor_args: "",
        setup_code: "return 0;",
        includes: &[],
        category: "test",
    }
}

#[test]
fn validate_accepts_empty_list() {
    assert_eq!(validate(&[]), Ok(()));
}

#[test]
fn validate_reports_duplicate_method_name() {
    let err = validate(&[spec("a"), spec("b"), spec("a")]).unwrap_err();
    assert_eq!(err, ValidationError::DuplicateMethodName("a"));
    assert_eq!(err.message(), "duplicate method name: 'a'");
}

#[test]
fn validate_reports_non_lowercase_category() {
    let mut s = spec("x");
    s.category = "modeLing";
    let err = validate(&[s]).unwrap_err();
    assert_eq!(
        err,
        ValidationError::NonLowercaseCategory { method: "x", category: "modeLing" }
    );
    assert_eq!(err.message(), "method 'x' has non-lowercase category 'modeLing'");
}

#[test]
fn validate_accepts_non_ascii_and_digits_in_category() {
    let mut s = spec("x");
    s.category = "io2_\u{c9}t\u{e9}";
    assert_eq!(validate(&[s]), Ok(()));
}

#[test]
fn validate_reports_skipped_method_with_params() {
    let mut s = spec("x");
    s.kind = MethodKind::Skip;
    s.params = &[FacadeParam::Int("n")];
    let err = validate(&[s]).unwrap_err();
    assert_eq!(err, ValidationError::SkippedWithParams("x"));
    assert_eq!(err.message(), "skipped method 'x' should have empty params");
}

#[test]
fn validate_accepts_skipped_method_without_params() {
    let mut s = spec("x");
    s.kind = MethodKind::Skip;
    s.setup_code = "";
    assert_eq!(validate(&[s]), Ok(()));
}

#[test]
fn validate_reports_empty_custom_body() {
    let mut s = spec("x");
    s.setup_code = "";
    let err = validate(&[s]).unwrap_err();
    assert_eq!(err, ValidationError::EmptyCustomBody("x"));
    assert_eq!(err.message(), "CustomBody method 'x' has empty setup_code");
}

#[test]
fn validate_accepts_empty_raw_body() {
    let mut s = spec("x");
    s.kind = MethodKind::CustomBodyRaw;
    s.setup_code = "";
    assert_eq!(validate(&[s]), Ok(()));
}

#[test]
fn validate_reports_missing_occt_class_for_every_generable_kind() {
    for kind in [
        MethodKind::SimpleShape,
        MethodKind::BooleanOp,
        MethodKind::FilletLike,
        MethodKind::SetupShape,
    ] {
        let mut s = spec("g");
        s.kind = kind;
        let err = validate(&[s]).unwrap_err();
        assert_eq!(err, ValidationError::MissingOcctClass("g"));
        assert_eq!(err.message(), "generable method 'g' is missing occt_class");
    }
}

#[test]
fn validate_reports_empty_param_name() {
    let mut s = spec("x");
    s.params = &[FacadeParam::Double("a"), FacadeParam::Bool("")];
    let err = validate(&[s]).unwrap_err();
    assert_eq!(err, ValidationError::EmptyParamName("x"));
    assert_eq!(err.message(), "method 'x' has an empty parameter name");
}

#[test]
fn validate_reports_duplicate_param_name() {
    let mut s = spec("x");
    s.params = &[
        FacadeParam::VectorInt("v"),
        FacadeParam::String("w"),
        FacadeParam::VectorDouble("v"),
    ];
    let err = validate(&[s]).unwrap_err();
    assert_eq!(err, ValidationError::DuplicateParamName { method: "x", param: "v" });
    assert_eq!(err.message(), "method 'x' has duplicate parameter name 'v'");
}

#[test]
fn validate_reports_the_first_fault_in_list_order() {
    let mut bad_category = spec("first");
    bad_category.category = "Bad";
    let mut empty_body = spec("second");
    empty_body.setup_code = "";
    assert_eq!(
        validate(&[bad_category, empty_body]),
        Err(ValidationError::NonLowercaseCategory { method: "first", category: "Bad" })
    );
    assert_eq!(
        validate(&[empty_body, bad_category]),
        Err(ValidationError::EmptyCustomBody("second"))
    );
}

#[test]
fn validate_checks_name_before_category() {
    let mut dup = spec("same");
    dup.category = "Bad";
    assert_eq!(
        validate(&[spec("same"), dup]),
        Err(ValidationError::DuplicateMethodName("same"))
    );
}

#[test]
fn param_names_of_every_kind() {
    let params = [
        FacadeParam::ShapeId("a"),
        FacadeParam::Uint32("b"),
        FacadeParam::Double("c"),
        FacadeParam::VectorShapeIds("d"),
        FacadeParam::Bool("e"),
        FacadeParam::Int("f"),
        FacadeParam::String("g"),
        FacadeParam::VectorDouble("h"),
        FacadeParam::VectorInt("i"),
    ];
    let names: Vec<&str> = params.iter().map(|p| p.name()).collect();
    assert_eq!(names, vec!["a", "b", "c", "d", "e", "f", "g", "h", "i"]);
}

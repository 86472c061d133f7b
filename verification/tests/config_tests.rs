use occt_codegen::{emit_bindings, emit_kernel, target_methods, validate, FacadeParam, MethodKind, MethodSpec, ReturnType};

fn sample(name: &'static str) -> MethodSpec {
    MethodSpec {
        name,
        kind: MethodKind::CustomBody,
        params: &[],
        return_type: ReturnType::ShapeId,
        occt_class: "",
        ctor_args: "",
        setup_code: "return 0;",
        includes: &[],
        category: "test",
    }
}

#[test]
fn validate_accepts_bundled_specs() {
    assert!(
        validate(target_methods()).is_ok(),
        "bundled specs failed validation: {:?}",
        validate(target_methods()).err()
    );
}

#[test]
fn defeature_uses_occt_defeaturing_algorithm() {
    let spec = target_methods()
        .iter()
        .find(|method| method.name == "defeature")
        .expect("defeature method spec");

    assert!(spec.includes.contains(&"BRepAlgoAPI_Defeaturing.hxx"));
    assert!(spec.setup_code.contains("BRepAlgoAPI_Defeaturing maker"));
    assert!(spec
        .setup_code
        .contains("maker.AddFacesToRemove(facesToRemove)"));
    assert!(!spec.setup_code.contains("MakeThickSolidByJoin"));
}

#[test]
fn validate_rejects_duplicate_method_names() {
    assert!(validate(&[sample("dup"), sample("dup")]).is_err());
}

#[test]
fn validate_rejects_non_lowercase_category() {
    let mut spec = sample("x");
    spec.category = "Primitives";
    assert!(validate(&[spec]).is_err());
}

#[test]
fn validate_rejects_empty_custom_body() {
    let mut spec = sample("x");
    spec.setup_code = "";
    assert!(validate(&[spec]).is_err());
}

#[test]
fn validate_rejects_missing_occt_class() {
    let mut spec = sample("x");
    spec.kind = MethodKind::SimpleShape;
    assert!(validate(&[spec]).is_err());
}

#[test]
fn validate_rejects_duplicate_param_names() {
    let mut spec = sample("x");
    spec.params = &[FacadeParam::Double("a"), FacadeParam::ShapeId("a")];
    assert!(validate(&[spec]).is_err());
}

#[test]
fn bundled_kernel_and_bindings_cover_recent_methods() {
    let all: Vec<&MethodSpec> = target_methods().iter().collect();
    let kernel = emit_kernel(&all);
    assert!(kernel.contains("uint32_t OcctKernel::fillet2D(uint32_t wireId, double radius) {"));
    assert!(kernel.contains("std::vector<double> OcctKernel::wireFirstPointTangent(uint32_t wireId) {"));
    let ax3 = kernel
        .lines()
        .find(|l| l.starts_with("uint32_t OcctKernel::transformShapeAx3(uint32_t shapeId, "))
        .unwrap();
    assert_eq!(ax3.matches("double ").count(), 18);
    let bindings = emit_bindings(&all);
    for name in ["fillet2D", "wireFirstPointTangent", "transformShapeAx3"] {
        let line = format!(".function(\"{}\", &OcctKernel::{})", name, name);
        assert!(bindings.contains(&line));
    }
}

#[test]
fn bundled_translate_is_a_setup_shape() {
    let spec = target_methods().iter().find(|m| m.name == "translate").unwrap();
    let kernel = emit_kernel(&[spec]);
    assert!(kernel.contains(
        "uint32_t OcctKernel::translate(uint32_t id, double dx, double dy, double dz) {\n    try {\n        gp_Trsf trsf;\n        trsf.SetTranslation(gp_Vec(dx, dy, dz));\n        BRepBuilderAPI_Transform maker(get(id), trsf, true);\n        return store(maker.Shape());\n    } catch"
    ));
    let start = kernel.find("uint32_t OcctKernel::translate(").unwrap();
    let body = &kernel[start..];
    let body = &body[..body.find("\n}\n").unwrap()];
    assert!(!body.contains("IsDone"));
    assert!(!body.contains("Build()"));
}

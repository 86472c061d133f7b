use occt_codegen::{emit_bindings, emit_kernel, FacadeParam, MethodKind, MethodSpec, ReturnType};

fn make_box() -> MethodSpec {
    MethodSpec {
        name: "makeBox",
        kind: MethodKind::SimpleShape,
        params: &[
            FacadeParam::Double("dx"),
            FacadeParam::Double("dy"),
            FacadeParam::Double("dz"),
        ],
        return_type: ReturnType::ShapeId,
        occt_class: "BRepPrimAPI_MakeBox",
        ctor_args: "dx, dy, dz",
        setup_code: "",
        includes: &[],
        category: "Primitives",
    }
}

fn fuse() -> MethodSpec {
    MethodSpec {
        name: "fuse",
        kind: MethodKind::BooleanOp,
        params: &[FacadeParam::ShapeId("a"), FacadeParam::ShapeId("b")],
        return_type: ReturnType::ShapeId,
        occt_class: "BRepAlgoAPI_Fuse",
        ctor_args: "get(a), get(b)",
        setup_code: "",
        includes: &[],
        category: "Booleans",
    }
}

fn fillet() -> MethodSpec {
    MethodSpec {
        name: "fillet",
        kind: MethodKind::FilletLike,
        params: &[
            FacadeParam::ShapeId("solidId"),
            FacadeParam::VectorShapeIds("edgeIds"),
            FacadeParam::Double("radius"),
        ],
        return_type: ReturnType::ShapeId,
        occt_class: "BRepFilletAPI_MakeFillet",
        ctor_args: "TopoDS::Solid(get(solidId))",
        setup_code: "",
        includes: &["TopoDS.hxx"],
        category: "Modeling",
    }
}

#[test]
fn kernel_simple_shape_matches_expected() {
    let make_box = make_box();
    let methods: Vec<&MethodSpec> = vec![&make_box];
    let output = emit_kernel(&methods);

    assert!(output.contains("uint32_t OcctKernel::makeBox(double dx, double dy, double dz)"));
    assert!(output.contains("BRepPrimAPI_MakeBox maker(dx, dy, dz)"));
    assert!(output.contains("maker.Build()"));
    assert!(output.contains("store(maker.Shape())"));
    assert!(output.contains("#include <BRepPrimAPI_MakeBox.hxx>"));
    assert!(output.contains("// === Primitives ==="));
}

#[test]
fn kernel_boolean_op_uses_ctor_args() {
    let fuse = fuse();
    let methods: Vec<&MethodSpec> = vec![&fuse];
    let output = emit_kernel(&methods);

    assert!(output.contains("BRepAlgoAPI_Fuse op(get(a), get(b))"));
    assert!(output.contains("op.HasErrors()"));
    assert!(output.contains("boolean operation failed"));
}

#[test]
fn kernel_fillet_like_iterates_edges() {
    let fillet = fillet();
    let methods: Vec<&MethodSpec> = vec![&fillet];
    let output = emit_kernel(&methods);

    assert!(output.contains("for (uint32_t eid : edgeIds)"));
    assert!(output.contains("maker.Add(radius, TopoDS::Edge(get(eid)))"));
    assert!(output.contains("#include <TopoDS.hxx>"));
}

#[test]
fn bindings_emits_compilable_embind() {
    let (make_box, fuse, fillet) = (make_box(), fuse(), fillet());
    let methods: Vec<&MethodSpec> = vec![&make_box, &fuse, &fillet];
    let output = emit_bindings(&methods);

    assert!(output.contains("// AUTO-GENERATED by cargo xtask codegen"));
    assert!(output.contains("#include <emscripten/bind.h>"));
    assert!(output.contains("EMSCRIPTEN_BINDINGS(occt_wasm)"));
    assert!(output.contains(".function(\"makeBox\", &OcctKernel::makeBox)"));
    assert!(output.contains(".function(\"fuse\", &OcctKernel::fuse)"));
    assert!(output.contains(".function(\"fillet\", &OcctKernel::fillet)"));
    assert!(output.contains("class_<OcctKernel>(\"OcctKernel\")"));
}

#[test]
fn skip_methods_are_excluded() {
    let skipped = MethodSpec {
        name: "makeEllipsoid",
        kind: MethodKind::Skip,
        params: &[],
        return_type: ReturnType::ShapeId,
        occt_class: "",
        ctor_args: "",
        setup_code: "",
        includes: &[],
        category: "Primitives",
    };
    let make_box = make_box();
    let methods: Vec<&MethodSpec> = vec![&skipped, &make_box];
    let kernel = emit_kernel(&methods);
    let bindings = emit_bindings(&methods);

    assert!(!kernel.contains("makeEllipsoid"));
    assert!(!bindings.contains("makeEllipsoid"));
}

#[test]
fn includes_are_deduplicated_and_sorted() {
    let (make_box, fuse, fillet) = (make_box(), fuse(), fillet());
    let methods: Vec<&MethodSpec> = vec![&make_box, &fuse, &fillet];
    let output = emit_kernel(&methods);

    // All includes should appear exactly once.
    let count = output.matches("#include <TopoDS.hxx>").count();
    assert_eq!(count, 1);

    // Sorted: BRepAlgoAPI_Fuse before BRepPrimAPI_MakeBox.
    let fuse_pos = output
        .find("#include <BRepAlgoAPI_Fuse.hxx>")
        .expect("fuse include");
    let box_pos = output
        .find("#include <BRepPrimAPI_MakeBox.hxx>")
        .expect("box include");
    assert!(fuse_pos < box_pos);
}

#[test]
fn custom_body_bool_return() {
    let is_valid = MethodSpec {
        name: "isValid",
        kind: MethodKind::CustomBody,
        params: &[FacadeParam::ShapeId("id")],
        return_type: ReturnType::Bool,
        occt_class: "",
        ctor_args: "",
        setup_code: "BRepCheck_Analyzer checker(get(id));\nreturn checker.IsValid();",
        includes: &["BRepCheck_Analyzer.hxx"],
        category: "healing",
    };
    let output = emit_kernel(&[&is_valid]);
    assert!(output.contains("bool OcctKernel::isValid(uint32_t id)"));
    assert!(output.contains("BRepCheck_Analyzer checker(get(id))"));
}

#[test]
fn custom_body_void_return() {
    let build_curves = MethodSpec {
        name: "buildCurves3d",
        kind: MethodKind::CustomBody,
        params: &[FacadeParam::ShapeId("wireId")],
        return_type: ReturnType::Void,
        occt_class: "",
        ctor_args: "",
        setup_code: "BRepLib::BuildCurves3d(get(wireId));",
        includes: &["BRepLib.hxx"],
        category: "healing",
    };
    let output = emit_kernel(&[&build_curves]);
    assert!(output.contains("void OcctKernel::buildCurves3d(uint32_t wireId)"));
    assert!(output.contains("BRepLib::BuildCurves3d(get(wireId))"));
}

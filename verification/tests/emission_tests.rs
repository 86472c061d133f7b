use occt_codegen::{emit_bindings, emit_kernel, FacadeParam, MethodKind, MethodSpec, ReturnType};

fn base(name: &'static str, kind: MethodKind) -> MethodSpec {
    MethodSpec {
        name,
        kind,
        params: &[],
        return_type: ReturnType::ShapeId,
        occt_class: "",
        ctor_args: "",
        setup_code: "",
        includes: &[],
        category: "misc",
    }
}

fn make_box() -> MethodSpec {
    MethodSpec {
        params: &[
            FacadeParam::Double("dx"),
            FacadeParam::Double("dy"),
            FacadeParam::Double("dz"),
        ],
        occt_class: "BRepPrimAPI_MakeBox",
        ctor_args: "dx, dy, dz",
        category: "Primitives",
        ..base("makeBox", MethodKind::SimpleShape)
    }
}

const STD_INCLUDES: &str = "#include <algorithm>\n#include <cmath>\n#include <cstdio>\n#include <cstdlib>\n#include <fstream>\n#include <iomanip>\n#include <set>\n#include <sstream>\n#include <stdexcept>\n#include <string>\n#include <vector>\n";

#[test]
fn kernel_of_one_simple_shape_is_exact() {
    let m = make_box();
    let expected = String::new()
        + "// AUTO-GENERATED by cargo xtask codegen -- DO NOT EDIT\n"
        + "\n"
        + "#include \"occt_kernel.h\"\n"
        + "\n"
        + "#include <BRepPrimAPI_MakeBox.hxx>\n"
        + "#include <Standard_Failure.hxx>\n"
        + "\n"
        + STD_INCLUDES
        + "\n"
        + "// === Primitives ===\n"
        + "\n"
        + "uint32_t OcctKernel::makeBox(double dx, double dy, double dz) {\n"
        + "    try {\n"
        + "        BRepPrimAPI_MakeBox maker(dx, dy, dz);\n"
        + "        maker.Build();\n"
        + "        if (!maker.IsDone()) {\n"
        + "            throw std::runtime_error(\"makeBox: construction failed\");\n"
        + "        }\n"
        + "        return store(maker.Shape());\n"
        + "    } catch (const Standard_Failure& e) {\n"
        + "        throw std::runtime_error(std::string(\"makeBox: \") + e.what());\n"
        + "    }\n"
        + "}\n";
    assert_eq!(emit_kernel(&[&m]), expected);
}

#[test]
fn kernel_of_no_methods_ends_after_standard_includes() {
    let expected = String::new()
        + "// AUTO-GENERATED by cargo xtask codegen -- DO NOT EDIT\n"
        + "\n"
        + "#include \"occt_kernel.h\"\n"
        + "\n"
        + "#include <Standard_Failure.hxx>\n"
        + "\n"
        + STD_INCLUDES;
    assert_eq!(emit_kernel(&[]), expected);
}

#[test]
fn raw_body_lines_follow_str_lines() {
    let m = MethodSpec {
        return_type: ReturnType::Int,
        params: &[FacadeParam::Int("ptr"), FacadeParam::Int("count")],
        setup_code: "a\r\nb\n\nc\r",
        ..base("raw", MethodKind::CustomBodyRaw)
    };
    let out = emit_kernel(&[&m]);
    assert!(out.contains("int OcctKernel::raw(int ptr, int count) {\n    a\n    b\n    \n    c\r\n}\n"));
    assert!(!out.contains("Standard_Failure& e"));
}

#[test]
fn custom_body_is_wrapped_in_a_handler() {
    let m = MethodSpec {
        return_type: ReturnType::VectorDouble,
        params: &[FacadeParam::String("path"), FacadeParam::VectorInt("ids")],
        setup_code: "return {};\n",
        ..base("load", MethodKind::CustomBody)
    };
    let out = emit_kernel(&[&m]);
    let expected = String::new()
        + "std::vector<double> OcctKernel::load(const std::string& path, std::vector<int> ids) {\n"
        + "    try {\n"
        + "        return {};\n"
        + "    } catch (const Standard_Failure& e) {\n"
        + "        throw std::runtime_error(std::string(\"load: \") + e.what());\n"
        + "    }\n"
        + "}\n";
    assert!(out.contains(&expected));
}

#[test]
fn fillet_like_joins_every_scalar_parameter() {
    let m = MethodSpec {
        params: &[
            FacadeParam::ShapeId("solidId"),
            FacadeParam::VectorShapeIds("edgeIds"),
            FacadeParam::Double("d"),
            FacadeParam::Bool("flag"),
            FacadeParam::Int("n"),
            FacadeParam::VectorShapeIds("other"),
        ],
        occt_class: "BRepFilletAPI_MakeChamfer",
        ctor_args: "TopoDS::Solid(get(solidId))",
        ..base("chamferish", MethodKind::FilletLike)
    };
    let out = emit_kernel(&[&m]);
    assert!(out.contains("        for (uint32_t eid : edgeIds) {\n            maker.Add(d, n, TopoDS::Edge(get(eid)));\n        }\n"));
    assert!(!out.contains("eid : other"));
    assert!(out.contains("return store(unwrapSingletonSolid(maker.Shape()));"));
    // The fillet family pulls in the unwrap helper and its headers.
    assert!(out.contains("static TopoDS_Shape unwrapSingletonSolid(const TopoDS_Shape& shape) {"));
    assert!(out.contains("#include <TopExp_Explorer.hxx>\n"));
    assert!(out.contains("#include <TopoDS_Shape.hxx>\n"));
    assert!(out.contains("#include <TopoDS.hxx>\n"));
    assert!(out.contains("// === helper functions ==="));
    assert!(!out.contains("buildEvolution"));
}

#[test]
fn fillet_like_without_vector_parameter_has_no_loop() {
    let m = MethodSpec {
        params: &[FacadeParam::ShapeId("solidId"), FacadeParam::Double("r")],
        occt_class: "BRepFilletAPI_MakeFillet",
        ctor_args: "TopoDS::Solid(get(solidId))",
        ..base("noEdges", MethodKind::FilletLike)
    };
    let out = emit_kernel(&[&m]);
    assert!(out.contains("        BRepFilletAPI_MakeFillet maker(TopoDS::Solid(get(solidId)));\n        maker.Build();\n"));
    assert!(!out.contains("maker.Add("));
}

#[test]
fn setup_shape_emits_setup_then_maker() {
    let m = MethodSpec {
        params: &[FacadeParam::Double("r")],
        occt_class: "BRepPrimAPI_MakeRevol",
        ctor_args: "face, axis",
        setup_code: "gp_Ax1 axis;\nTopoDS_Face face;",
        ..base("revolve", MethodKind::SetupShape)
    };
    let out = emit_kernel(&[&m]);
    let expected = String::new()
        + "uint32_t OcctKernel::revolve(double r) {\n"
        + "    try {\n"
        + "        gp_Ax1 axis;\n"
        + "        TopoDS_Face face;\n"
        + "        BRepPrimAPI_MakeRevol maker(face, axis);\n"
        + "        return store(maker.Shape());\n"
        + "    } catch (const Standard_Failure& e) {\n";
    assert!(out.contains(&expected));
}

#[test]
fn evolution_helper_appears_only_when_needed() {
    let with = MethodSpec {
        return_type: ReturnType::EvolutionData,
        setup_code: "return buildEvolution(maker, id, shape, hashes, 1);",
        ..base("evolve", MethodKind::CustomBody)
    };
    let without = MethodSpec { setup_code: "return 1;", ..base("plain", MethodKind::CustomBody) };
    let out = emit_kernel(&[&with]);
    assert!(out.contains("// === helper functions ==="));
    assert!(out.contains("static EvolutionData buildEvolution(BRepBuilderAPI_MakeShape& maker, uint32_t resultId,"));
    assert!(!out.contains("unwrapSingletonSolid"));
    let out = emit_kernel(&[&without]);
    assert!(!out.contains("helper functions"));
    assert!(!out.contains("buildEvolution"));
}

#[test]
fn naming_the_unwrap_helper_pulls_it_in() {
    let m = MethodSpec {
        setup_code: "return store(unwrapSingletonSolid(get(id)));",
        ..base("unwrapIt", MethodKind::CustomBody)
    };
    let out = emit_kernel(&[&m]);
    assert!(out.contains("#include <TopExp_Explorer.hxx>\n#include <TopoDS_Shape.hxx>\n"));
    assert!(out.contains("    return count == 1 ? onlySolid : shape;\n}\n"));
}

#[test]
fn groups_keep_first_appearance_order() {
    let a = MethodSpec { setup_code: "return 1;", category: "zeta", ..base("a", MethodKind::CustomBody) };
    let b = MethodSpec { setup_code: "return 2;", category: "alpha", ..base("b", MethodKind::CustomBody) };
    let c = MethodSpec { setup_code: "return 3;", category: "zeta", ..base("c", MethodKind::CustomBody) };
    let out = emit_kernel(&[&a, &b, &c]);
    let zeta = out.find("// === zeta ===").unwrap();
    let alpha = out.find("// === alpha ===").unwrap();
    let pos_a = out.find("OcctKernel::a(").unwrap();
    let pos_b = out.find("OcctKernel::b(").unwrap();
    let pos_c = out.find("OcctKernel::c(").unwrap();
    assert!(zeta < pos_a && pos_a < pos_c && pos_c < alpha && alpha < pos_b);
    assert_eq!(out.matches("// === zeta ===").count(), 1);

    let bindings = emit_bindings(&[&a, &b, &c]);
    let expected = "        .constructor<>()\n\n        // zeta\n        .function(\"a\", &OcctKernel::a)\n        .function(\"c\", &OcctKernel::c)\n\n        // alpha\n        .function(\"b\", &OcctKernel::b);\n}\n";
    assert!(bindings.ends_with(expected));
}

#[test]
fn includes_listed_by_methods_are_merged_once() {
    let a = MethodSpec {
        setup_code: "x;",
        includes: &["gp_Pnt.hxx", "BRep_Tool.hxx", "gp_Pnt.hxx"],
        ..base("a", MethodKind::CustomBody)
    };
    let b = MethodSpec {
        occt_class: "BRep_Tool",
        ctor_args: "",
        ..base("b", MethodKind::SimpleShape)
    };
    let out = emit_kernel(&[&a, &b]);
    assert!(out.contains("#include \"occt_kernel.h\"\n\n#include <BRep_Tool.hxx>\n#include <Standard_Failure.hxx>\n#include <gp_Pnt.hxx>\n\n#include <algorithm>\n"));
}

#[test]
fn outputs_end_with_one_newline() {
    let m = make_box();
    for out in [emit_kernel(&[&m]), emit_kernel(&[]), emit_bindings(&[&m]), emit_bindings(&[])] {
        assert!(out.ends_with('\n'));
        assert!(!out.ends_with("\n\n"));
        assert!(!out.trim_end_matches('\n').ends_with(char::is_whitespace));
    }
}

#[test]
fn bindings_close_every_chain() {
    let out = emit_bindings(&[]);
    assert!(out.ends_with("    class_<OcctKernel>(\"OcctKernel\")\n        .constructor<>();\n}\n"));
    assert!(out.contains("        .property(\"shapeCount\", &MeshBatchData::shapeCount);\n"));
    assert!(out.contains("        .field(\"zmax\", &BBoxData::zmax);\n"));
    assert!(out.contains("        .property(\"edgeGroupCount\", &EdgeData::edgeGroupCount);\n\n    // ProjectionData\n"));
    assert!(out.contains("        .field(\"hiddenSharp\", &ProjectionData::hiddenSharp);\n"));
    assert!(out.contains("        .property(\"weights\", &NurbsCurveData::weights);\n"));
    assert!(out.contains("        .property(\"deleted\", &EvolutionData::deleted);\n"));
    assert!(out.contains("        .field(\"shapeId\", &XCAFLabelInfo::shapeId);\n"));
    assert!(out.contains("    register_vector<int>(\"VectorInt\")\n        .function(\"dataPtr\", +[](const std::vector<int>& v) {\n"));
}

#[test]
fn skipped_methods_leave_both_files_unchanged() {
    let skipped = MethodSpec { category: "ghost", ..base("skipped", MethodKind::Skip) };
    let m = make_box();
    assert_eq!(emit_kernel(&[&skipped, &m]), emit_kernel(&[&m]));
    assert_eq!(emit_bindings(&[&m, &skipped]), emit_bindings(&[&m]));
    assert!(!emit_bindings(&[&skipped]).contains("ghost"));
}

#[test]
fn skipped_method_asking_for_a_helper_still_pulls_it_in() {
    let skipped = MethodSpec {
        return_type: ReturnType::EvolutionData,
        ..base("skipped", MethodKind::Skip)
    };
    let m = make_box();
    let out = emit_kernel(&[&skipped, &m]);
    assert!(out.contains("buildEvolution"));
    assert!(!out.contains("skipped"));
}

#[test]
fn every_method_is_registered_and_implemented() {
    let methods = [
        make_box(),
        MethodSpec { setup_code: "return 0;", category: "q", ..base("count", MethodKind::CustomBody) },
        MethodSpec { setup_code: "return 0;", category: "q", ..base("size", MethodKind::CustomBodyRaw) },
    ];
    let refs: Vec<&MethodSpec> = methods.iter().collect();
    let bindings = emit_bindings(&refs);
    let kernel = emit_kernel(&refs);
    for m in &methods {
        let line = format!("        .function(\"{0}\", &OcctKernel::{0})", m.name);
        assert!(bindings.contains(&line));
        assert!(kernel.contains(&format!("OcctKernel::{}(", m.name)));
    }
}

#[test]
fn bindings_preamble_does_not_depend_on_methods() {
    let a = emit_bindings(&[]);
    let m = make_box();
    let b = emit_bindings(&[&m]);
    let cut_a = a.find(".constructor<>()").unwrap();
    let cut_b = b.find(".constructor<>()").unwrap();
    assert_eq!(&a[..cut_a], &b[..cut_b]);
    assert!(a[..cut_a].contains("class_<OcctKernel>(\"OcctKernel\")"));
}

//! C++ code emitter for the facade code generator.
//!
//! Emits `kernel.cpp` (method implementations) and `bindings.cpp` (Embind
//! registrations) from a slice of [`MethodSpec`] descriptors.
//!
//! Every emitter is specified by a function from the fragments written so far
//! to the fragments written after it; the text of a file is the flattening of
//! its fragments, with trailing whitespace replaced by one line terminator.

use vstd::prelude::*;
use crate::text::{
    blank_line, contains_seq, finish_text, frag, insert_sorted, join, lemma_join_push,
    lemma_sorted_unique, line, lines_of, indented, nl, str_contains, str_eq, strictly_sorted,
    strs, to_chars, trim_end, views, TextWriter,
};
use crate::types::{FacadeParam, MethodKind, MethodSpec, ReturnType};

verus! {

/// The specs behind a slice of references.
pub open spec fn values(ms: Seq<&MethodSpec>) -> Seq<MethodSpec> {
    ms.map_values(|m: &MethodSpec| *m)
}

// ---------------------------------------------------------------------------
// Parameters.
// ---------------------------------------------------------------------------

/// A parameter as a C++ formal parameter declaration.
pub open spec fn param_cpp(p: FacadeParam) -> Seq<char> {
    match p {
        FacadeParam::ShapeId(n) => "uint32_t "@ + n@,
        FacadeParam::Uint32(n) => "uint32_t "@ + n@,
        FacadeParam::Double(n) => "double "@ + n@,
        FacadeParam::VectorShapeIds(n) => "std::vector<uint32_t> "@ + n@,
        FacadeParam::Bool(n) => "bool "@ + n@,
        FacadeParam::Int(n) => "int "@ + n@,
        FacadeParam::String(n) => "const std::string& "@ + n@,
        FacadeParam::VectorDouble(n) => "std::vector<double> "@ + n@,
        FacadeParam::VectorInt(n) => "std::vector<int> "@ + n@,
    }
}

fn cat(a: &str, b: &str) -> (r: String)
    ensures
        r@ == a@ + b@,
{
    let mut s = a.to_owned();
    s.append(b);
    s
}

/// Formats a parameter as a C++ formal parameter declaration.
fn param_to_cpp(param: &FacadeParam) -> (r: String)
    ensures
        r@ == param_cpp(*param),
{
    match param {
        FacadeParam::ShapeId(name) => cat("uint32_t ", name),
        FacadeParam::Uint32(name) => cat("uint32_t ", name),
        FacadeParam::Double(name) => cat("double ", name),
        FacadeParam::VectorShapeIds(name) => cat("std::vector<uint32_t> ", name),
        FacadeParam::Bool(name) => cat("bool ", name),
        FacadeParam::Int(name) => cat("int ", name),
        FacadeParam::String(name) => cat("const std::string& ", name),
        FacadeParam::VectorDouble(name) => cat("std::vector<double> ", name),
        FacadeParam::VectorInt(name) => cat("std::vector<int> ", name),
    }
}

/// The C++ parameter list of a method signature.
pub open spec fn param_list_text(ps: Seq<FacadeParam>) -> Seq<char> {
    join(ps.map_values(|p: FacadeParam| param_cpp(p)), ", "@)
}

/// Builds the C++ parameter list of a method signature.
fn param_list(params: &[FacadeParam]) -> (r: String)
    ensures
        r@ == param_list_text(params@),
{
    let ghost parts = params@.map_values(|p: FacadeParam| param_cpp(p));
    let mut out = String::new();
    proof {
        assert(parts.take(0) =~= Seq::<Seq<char>>::empty());
    }
    for i in 0..params.len()
        invariant
            parts == params@.map_values(|p: FacadeParam| param_cpp(p)),
            out@ == join(parts.take(i as int), ", "@),
    {
        proof {
            assert(parts.take(i + 1) =~= parts.take(i as int).push(parts[i as int]));
            lemma_join_push(parts.take(i as int), parts[i as int], ", "@);
        }
        if i > 0 {
            out.append(", ");
        }
        let p = param_to_cpp(&params[i]);
        out.append(p.as_str());
        proof {
            if i == 0 {
                assert(out@ =~= Seq::<char>::empty() + p@);
            }
        }
    }
    proof {
        assert(parts.take(params@.len() as int) =~= parts);
    }
    out
}

/// The name of the first `VectorShapeIds` parameter, if any.
pub open spec fn first_vector_param(ps: Seq<FacadeParam>) -> Option<&'static str>
    decreases ps.len(),
{
    if ps.len() == 0 {
        None
    } else {
        match ps[0] {
            FacadeParam::VectorShapeIds(n) => Some(n),
            _ => first_vector_param(ps.drop_first()),
        }
    }
}

fn find_vector_param(params: &[FacadeParam]) -> (r: Option<&'static str>)
    ensures
        r == first_vector_param(params@),
{
    let mut i: usize = 0;
    proof {
        assert(params@.skip(0) =~= params@);
    }
    while i < params.len()
        invariant
            i <= params@.len(),
            first_vector_param(params@) == first_vector_param(params@.skip(i as int)),
        decreases params.len() - i,
    {
        if let FacadeParam::VectorShapeIds(n) = params[i] {
            return Some(n);
        }
        proof {
            assert(params@.skip(i as int).drop_first() =~= params@.skip(i + 1));
        }
        i = i + 1;
    }
    proof {
        assert(params@.skip(i as int).len() == 0);
    }
    None
}

/// The names of the `Double` and `Int` parameters, in order.
pub open spec fn scalar_names(ps: Seq<FacadeParam>) -> Seq<Seq<char>>
    decreases ps.len(),
{
    if ps.len() == 0 {
        Seq::empty()
    } else {
        let rest = scalar_names(ps.drop_last());
        match ps.last() {
            FacadeParam::Double(n) => rest.push(n@),
            FacadeParam::Int(n) => rest.push(n@),
            _ => rest,
        }
    }
}

/// The names of the `Double` and `Int` parameters, joined by `", "`.
fn scalar_arg_list(params: &[FacadeParam]) -> (r: String)
    ensures
        r@ == join(scalar_names(params@), ", "@),
{
    let mut out = String::new();
    let mut count: usize = 0;
    proof {
        assert(params@.take(0) =~= Seq::<FacadeParam>::empty());
    }
    for i in 0..params.len()
        invariant
            out@ == join(scalar_names(params@.take(i as int)), ", "@),
            count == scalar_names(params@.take(i as int)).len(),
            count <= i,
    {
        let ghost before = scalar_names(params@.take(i as int));
        proof {
            assert(params@.take(i + 1).drop_last() =~= params@.take(i as int));
        }
        match params[i] {
            FacadeParam::Double(n) | FacadeParam::Int(n) => {
                proof {
                    lemma_join_push(before, n@, ", "@);
                }
                if count > 0 {
                    out.append(", ");
                }
                out.append(n);
                count = count + 1;
                proof {
                    if before.len() == 0 {
                        assert(out@ =~= Seq::<char>::empty() + n@);
                    }
                }
            },
            _ => {},
        }
    }
    proof {
        assert(params@.take(params@.len() as int) =~= params@);
    }
    out
}

// ---------------------------------------------------------------------------
// Return types.
// ---------------------------------------------------------------------------

/// The C++ spelling of a return type.
pub open spec fn ret_cpp(ret: ReturnType) -> Seq<char> {
    match ret {
        ReturnType::ShapeId => "uint32_t"@,
        ReturnType::Uint32 => "uint32_t"@,
        ReturnType::Bool => "bool"@,
        ReturnType::Void => "void"@,
        ReturnType::VectorUint32 => "std::vector<uint32_t>"@,
        ReturnType::VectorDouble => "std::vector<double>"@,
        ReturnType::Double => "double"@,
        ReturnType::String => "std::string"@,
        ReturnType::Int => "int"@,
        ReturnType::VectorInt => "std::vector<int>"@,
        ReturnType::BBoxData => "BBoxData"@,
        ReturnType::NurbsCurveData => "NurbsCurveData"@,
        ReturnType::EvolutionData => "EvolutionData"@,
        ReturnType::MeshData => "MeshData"@,
        ReturnType::MeshBatchData => "MeshBatchData"@,
        ReturnType::EdgeData => "EdgeData"@,
        ReturnType::ProjectionData => "ProjectionData"@,
        ReturnType::XCAFLabelInfo => "XCAFLabelInfo"@,
    }
}

/// Maps a return type to its C++ spelling.
fn cpp_return_type(ret: ReturnType) -> (r: &'static str)
    ensures
        r@ == ret_cpp(ret),
{
    match ret {
        ReturnType::ShapeId | ReturnType::Uint32 => "uint32_t",
        ReturnType::Bool => "bool",
        ReturnType::Void => "void",
        ReturnType::VectorUint32 => "std::vector<uint32_t>",
        ReturnType::VectorDouble => "std::vector<double>",
        ReturnType::Double => "double",
        ReturnType::String => "std::string",
        ReturnType::Int => "int",
        ReturnType::VectorInt => "std::vector<int>",
        ReturnType::BBoxData => "BBoxData",
        ReturnType::NurbsCurveData => "NurbsCurveData",
        ReturnType::EvolutionData => "EvolutionData",
        ReturnType::MeshData => "MeshData",
        ReturnType::MeshBatchData => "MeshBatchData",
        ReturnType::EdgeData => "EdgeData",
        ReturnType::ProjectionData => "ProjectionData",
        ReturnType::XCAFLabelInfo => "XCAFLabelInfo",
    }
}

// ---------------------------------------------------------------------------
// Method bodies.
// ---------------------------------------------------------------------------

/// Text of a `SimpleShape` method: build the maker from `ctor_args` and store its shape.
pub open spec fn simple_shape_frags(f: Seq<Seq<char>>, m: MethodSpec) -> Seq<Seq<char>> {
    let f = frag(f, "uint32_t OcctKernel::"@);
    let f = frag(f, m.name@);
    let f = frag(f, "("@);
    let f = frag(f, param_list_text(m.params@));
    let f = line(f, ") {"@);
    let f = line(f, "    try {"@);
    let f = frag(f, "        "@);
    let f = frag(f, m.occt_class@);
    let f = frag(f, " maker("@);
    let f = frag(f, m.ctor_args@);
    let f = line(f, ");"@);
    let f = line(f, "        maker.Build();"@);
    let f = line(f, "        if (!maker.IsDone()) {"@);
    let f = frag(f, "            throw std::runtime_error(\""@);
    let f = frag(f, m.name@);
    let f = line(f, ": construction failed\");"@);
    let f = line(f, "        }"@);
    let f = line(f, "        return store(maker.Shape());"@);
    let f = line(f, "    } catch (const Standard_Failure& e) {"@);
    let f = frag(f, "        throw std::runtime_error(std::string(\""@);
    let f = frag(f, m.name@);
    let f = line(f, ": \") + e.what());"@);
    let f = line(f, "    }"@);
    let f = line(f, "}"@);
    f
}

fn emit_simple_shape(w: &mut TextWriter, m: &MethodSpec)
    requires
        old(w).wf(),
    ensures
        final(w).wf(),
        final(w).base() == old(w).base(),
        final(w).frags() == simple_shape_frags(old(w).frags(), *m),
{
    let pl = param_list(m.params);
    w.put("uint32_t OcctKernel::");
    w.put(m.name);
    w.put("(");
    w.put(pl.as_str());
    w.put_ln(") {");
    w.put_ln("    try {");
    w.put("        ");
    w.put(m.occt_class);
    w.put(" maker(");
    w.put(m.ctor_args);
    w.put_ln(");");
    w.put_ln("        maker.Build();");
    w.put_ln("        if (!maker.IsDone()) {");
    w.put("            throw std::runtime_error(\"");
    w.put(m.name);
    w.put_ln(": construction failed\");");
    w.put_ln("        }");
    w.put_ln("        return store(maker.Shape());");
    w.put_ln("    } catch (const Standard_Failure& e) {");
    w.put("        throw std::runtime_error(std::string(\"");
    w.put(m.name);
    w.put_ln(": \") + e.what());");
    w.put_ln("    }");
    w.put_ln("}");
}

/// Text of a `BooleanOp` method: `ctor_args` is the whole argument expression of the operation.
pub open spec fn boolean_op_frags(f: Seq<Seq<char>>, m: MethodSpec) -> Seq<Seq<char>> {
    let f = frag(f, "uint32_t OcctKernel::"@);
    let f = frag(f, m.name@);
    let f = frag(f, "("@);
    let f = frag(f, param_list_text(m.params@));
    let f = line(f, ") {"@);
    let f = line(f, "    try {"@);
    let f = frag(f, "        "@);
    let f = frag(f, m.occt_class@);
    let f = frag(f, " op("@);
    let f = frag(f, m.ctor_args@);
    let f = line(f, ");"@);
    let f = line(f, "        op.Build();"@);
    let f = line(f, "        if (!op.IsDone() || op.HasErrors()) {"@);
    let f = frag(f, "            throw std::runtime_error(\""@);
    let f = frag(f, m.name@);
    let f = line(f, ": boolean operation failed\");"@);
    let f = line(f, "        }"@);
    let f = line(f, "        return store(op.Shape());"@);
    let f = line(f, "    } catch (const Standard_Failure& e) {"@);
    let f = frag(f, "        throw std::runtime_error(std::string(\""@);
    let f = frag(f, m.name@);
    let f = line(f, ": \") + e.what());"@);
    let f = line(f, "    }"@);
    let f = line(f, "}"@);
    f
}

fn emit_boolean_op(w: &mut TextWriter, m: &MethodSpec)
    requires
        old(w).wf(),
    ensures
        final(w).wf(),
        final(w).base() == old(w).base(),
        final(w).frags() == boolean_op_frags(old(w).frags(), *m),
{
    let pl = param_list(m.params);
    w.put("uint32_t OcctKernel::");
    w.put(m.name);
    w.put("(");
    w.put(pl.as_str());
    w.put_ln(") {");
    w.put_ln("    try {");
    w.put("        ");
    w.put(m.occt_class);
    w.put(" op(");
    w.put(m.ctor_args);
    w.put_ln(");");
    w.put_ln("        op.Build();");
    w.put_ln("        if (!op.IsDone() || op.HasErrors()) {");
    w.put("            throw std::runtime_error(\"");
    w.put(m.name);
    w.put_ln(": boolean operation failed\");");
    w.put_ln("        }");
    w.put_ln("        return store(op.Shape());");
    w.put_ln("    } catch (const Standard_Failure& e) {");
    w.put("        throw std::runtime_error(std::string(\"");
    w.put(m.name);
    w.put_ln(": \") + e.what());");
    w.put_ln("    }");
    w.put_ln("}");
}

/// Text of a `FilletLike` method: every id of the first vector parameter is added as an edge, with the `Double`/`Int` parameters as the leading arguments.
pub open spec fn fillet_like_frags(f: Seq<Seq<char>>, m: MethodSpec) -> Seq<Seq<char>> {
    let f = frag(f, "uint32_t OcctKernel::"@);
    let f = frag(f, m.name@);
    let f = frag(f, "("@);
    let f = frag(f, param_list_text(m.params@));
    let f = line(f, ") {"@);
    let f = line(f, "    try {"@);
    let f = frag(f, "        "@);
    let f = frag(f, m.occt_class@);
    let f = frag(f, " maker("@);
    let f = frag(f, m.ctor_args@);
    let f = line(f, ");"@);
    let f = match first_vector_param(m.params@) {
        Some(vec_name) => {
            let f = frag(f, "        for (uint32_t eid : "@);
            let f = frag(f, vec_name@);
            let f = line(f, ") {"@);
            let f = frag(f, "            maker.Add("@);
            let f = frag(f, join(scalar_names(m.params@), ", "@));
            let f = line(f, ", TopoDS::Edge(get(eid)));"@);
            line(f, "        }"@)
        },
        None => f,
    };
    let f = line(f, "        maker.Build();"@);
    let f = line(f, "        if (!maker.IsDone()) {"@);
    let f = frag(f, "            throw std::runtime_error(\""@);
    let f = frag(f, m.name@);
    let f = line(f, ": operation failed\");"@);
    let f = line(f, "        }"@);
    let f = line(f, "        return store(unwrapSingletonSolid(maker.Shape()));"@);
    let f = line(f, "    } catch (const Standard_Failure& e) {"@);
    let f = frag(f, "        throw std::runtime_error(std::string(\""@);
    let f = frag(f, m.name@);
    let f = line(f, ": \") + e.what());"@);
    let f = line(f, "    }"@);
    let f = line(f, "}"@);
    f
}

fn emit_fillet_like(w: &mut TextWriter, m: &MethodSpec)
    requires
        old(w).wf(),
    ensures
        final(w).wf(),
        final(w).base() == old(w).base(),
        final(w).frags() == fillet_like_frags(old(w).frags(), *m),
{
    let pl = param_list(m.params);
    w.put("uint32_t OcctKernel::");
    w.put(m.name);
    w.put("(");
    w.put(pl.as_str());
    w.put_ln(") {");
    w.put_ln("    try {");
    w.put("        ");
    w.put(m.occt_class);
    w.put(" maker(");
    w.put(m.ctor_args);
    w.put_ln(");");
    let vec_param = find_vector_param(m.params);
    let scalar_args = scalar_arg_list(m.params);
    if let Some(vec_name) = vec_param {
        w.put("        for (uint32_t eid : ");
        w.put(vec_name);
        w.put_ln(") {");
        w.put("            maker.Add(");
        w.put(scalar_args.as_str());
        w.put_ln(", TopoDS::Edge(get(eid)));");
        w.put_ln("        }");
    }
    w.put_ln("        maker.Build();");
    w.put_ln("        if (!maker.IsDone()) {");
    w.put("            throw std::runtime_error(\"");
    w.put(m.name);
    w.put_ln(": operation failed\");");
    w.put_ln("        }");
    w.put_ln("        return store(unwrapSingletonSolid(maker.Shape()));");
    w.put_ln("    } catch (const Standard_Failure& e) {");
    w.put("        throw std::runtime_error(std::string(\"");
    w.put(m.name);
    w.put_ln(": \") + e.what());");
    w.put_ln("    }");
    w.put_ln("}");
}

/// Text of a `SetupShape` method: the lines of `setup_code`, then the maker, whose shape is stored without a build check.
pub open spec fn setup_shape_frags(f: Seq<Seq<char>>, m: MethodSpec) -> Seq<Seq<char>> {
    let f = frag(f, "uint32_t OcctKernel::"@);
    let f = frag(f, m.name@);
    let f = frag(f, "("@);
    let f = frag(f, param_list_text(m.params@));
    let f = line(f, ") {"@);
    let f = line(f, "    try {"@);
    let f = if m.setup_code@.len() > 0 {
        f + indented("        "@, lines_of(m.setup_code@))
    } else {
        f
    };
    let f = frag(f, "        "@);
    let f = frag(f, m.occt_class@);
    let f = frag(f, " maker("@);
    let f = frag(f, m.ctor_args@);
    let f = line(f, ");"@);
    let f = line(f, "        return store(maker.Shape());"@);
    let f = line(f, "    } catch (const Standard_Failure& e) {"@);
    let f = frag(f, "        throw std::runtime_error(std::string(\""@);
    let f = frag(f, m.name@);
    let f = line(f, ": \") + e.what());"@);
    let f = line(f, "    }"@);
    let f = line(f, "}"@);
    f
}

fn emit_setup_shape(w: &mut TextWriter, m: &MethodSpec)
    requires
        old(w).wf(),
    ensures
        final(w).wf(),
        final(w).base() == old(w).base(),
        final(w).frags() == setup_shape_frags(old(w).frags(), *m),
{
    let pl = param_list(m.params);
    w.put("uint32_t OcctKernel::");
    w.put(m.name);
    w.put("(");
    w.put(pl.as_str());
    w.put_ln(") {");
    w.put_ln("    try {");
    if !m.setup_code.is_empty() {
        w.put_indented_lines("        ", m.setup_code);
    }
    w.put("        ");
    w.put(m.occt_class);
    w.put(" maker(");
    w.put(m.ctor_args);
    w.put_ln(");");
    w.put_ln("        return store(maker.Shape());");
    w.put_ln("    } catch (const Standard_Failure& e) {");
    w.put("        throw std::runtime_error(std::string(\"");
    w.put(m.name);
    w.put_ln(": \") + e.what());");
    w.put_ln("    }");
    w.put_ln("}");
}

/// Text of a `CustomBody` method: the lines of `setup_code` inside a `Standard_Failure` handler.
pub open spec fn custom_body_frags(f: Seq<Seq<char>>, m: MethodSpec) -> Seq<Seq<char>> {
    let f = frag(f, ret_cpp(m.return_type));
    let f = frag(f, " OcctKernel::"@);
    let f = frag(f, m.name@);
    let f = frag(f, "("@);
    let f = frag(f, param_list_text(m.params@));
    let f = line(f, ") {"@);
    let f = line(f, "    try {"@);
    let f = f + indented("        "@, lines_of(m.setup_code@));
    let f = line(f, "    } catch (const Standard_Failure& e) {"@);
    let f = frag(f, "        throw std::runtime_error(std::string(\""@);
    let f = frag(f, m.name@);
    let f = line(f, ": \") + e.what());"@);
    let f = line(f, "    }"@);
    let f = line(f, "}"@);
    f
}

fn emit_custom_body(w: &mut TextWriter, m: &MethodSpec)
    requires
        old(w).wf(),
    ensures
        final(w).wf(),
        final(w).base() == old(w).base(),
        final(w).frags() == custom_body_frags(old(w).frags(), *m),
{
    let pl = param_list(m.params);
    let ret = cpp_return_type(m.return_type);
    w.put(ret);
    w.put(" OcctKernel::");
    w.put(m.name);
    w.put("(");
    w.put(pl.as_str());
    w.put_ln(") {");
    w.put_ln("    try {");
    w.put_indented_lines("        ", m.setup_code);
    w.put_ln("    } catch (const Standard_Failure& e) {");
    w.put("        throw std::runtime_error(std::string(\"");
    w.put(m.name);
    w.put_ln(": \") + e.what());");
    w.put_ln("    }");
    w.put_ln("}");
}

/// Text of a `CustomBodyRaw` method: the lines of `setup_code` with no handler around them.
pub open spec fn custom_body_raw_frags(f: Seq<Seq<char>>, m: MethodSpec) -> Seq<Seq<char>> {
    let f = frag(f, ret_cpp(m.return_type));
    let f = frag(f, " OcctKernel::"@);
    let f = frag(f, m.name@);
    let f = frag(f, "("@);
    let f = frag(f, param_list_text(m.params@));
    let f = line(f, ") {"@);
    let f = f + indented("    "@, lines_of(m.setup_code@));
    let f = line(f, "}"@);
    f
}

fn emit_custom_body_raw(w: &mut TextWriter, m: &MethodSpec)
    requires
        old(w).wf(),
    ensures
        final(w).wf(),
        final(w).base() == old(w).base(),
        final(w).frags() == custom_body_raw_frags(old(w).frags(), *m),
{
    let pl = param_list(m.params);
    let ret = cpp_return_type(m.return_type);
    w.put(ret);
    w.put(" OcctKernel::");
    w.put(m.name);
    w.put("(");
    w.put(pl.as_str());
    w.put_ln(") {");
    w.put_indented_lines("    ", m.setup_code);
    w.put_ln("}");
}

/// Text of any method; a skipped method produces none.
#[verifier::opaque]
pub open spec fn method_frags(f: Seq<Seq<char>>, m: MethodSpec) -> Seq<Seq<char>> {
    match m.kind {
        MethodKind::SimpleShape => simple_shape_frags(f, m),
        MethodKind::BooleanOp => boolean_op_frags(f, m),
        MethodKind::FilletLike => fillet_like_frags(f, m),
        MethodKind::SetupShape => setup_shape_frags(f, m),
        MethodKind::CustomBody => custom_body_frags(f, m),
        MethodKind::CustomBodyRaw => custom_body_raw_frags(f, m),
        MethodKind::Skip => f,
    }
}

fn emit_method(w: &mut TextWriter, m: &MethodSpec)
    requires
        old(w).wf(),
    ensures
        final(w).wf(),
        final(w).base() == old(w).base(),
        final(w).frags() == method_frags(old(w).frags(), *m),
{
    reveal(method_frags);
    match m.kind {
        MethodKind::SimpleShape => emit_simple_shape(w, m),
        MethodKind::BooleanOp => emit_boolean_op(w, m),
        MethodKind::FilletLike => emit_fillet_like(w, m),
        MethodKind::SetupShape => emit_setup_shape(w, m),
        MethodKind::CustomBody => emit_custom_body(w, m),
        MethodKind::CustomBodyRaw => emit_custom_body_raw(w, m),
        MethodKind::Skip => {},
    }
}

// ---------------------------------------------------------------------------
// Includes.
// ---------------------------------------------------------------------------

/// Derives the OCCT header of a class name (`BRepPrimAPI_MakeBox` becomes
/// `BRepPrimAPI_MakeBox.hxx`).
fn class_to_include(cls: &str) -> (r: String)
    ensures
        r@ == cls@ + ".hxx"@,
{
    cat(cls, ".hxx")
}

/// Some method is of the fillet/chamfer family or names `unwrapSingletonSolid`
/// in its body, so the kernel needs that helper.
pub open spec fn wants_unwrap_helper(ms: Seq<MethodSpec>) -> bool {
    exists|i: int|
        0 <= i < ms.len() && ((#[trigger] ms[i]).kind == MethodKind::FilletLike || contains_seq(
            ms[i].setup_code@,
            "unwrapSingletonSolid"@,
        ))
}

/// Some method returns `EvolutionData`, so the kernel needs `buildEvolution`.
pub open spec fn wants_evolution_helper(ms: Seq<MethodSpec>) -> bool {
    exists|i: int| 0 <= i < ms.len() && (#[trigger] ms[i]).return_type == ReturnType::EvolutionData
}

/// Whether any method needs the `unwrapSingletonSolid` helper.
fn needs_unwrap_singleton_solid(methods: &[&MethodSpec]) -> (r: bool)
    ensures
        r == wants_unwrap_helper(values(methods@)),
{
    let ghost ms = values(methods@);
    let mut i: usize = 0;
    while i < methods.len()
        invariant
            ms == values(methods@),
            i <= methods@.len(),
            forall|k: int|
                0 <= k < i ==> !((#[trigger] ms[k]).kind == MethodKind::FilletLike || contains_seq(
                    ms[k].setup_code@,
                    "unwrapSingletonSolid"@,
                )),
        decreases methods.len() - i,
    {
        let m = methods[i];
        if matches!(m.kind, MethodKind::FilletLike) || str_contains(
            m.setup_code,
            "unwrapSingletonSolid",
        ) {
            proof {
                assert(ms[i as int] == *m);
            }
            return true;
        }
        i = i + 1;
    }
    false
}

/// Whether any method returns `EvolutionData`.
fn needs_evolution(methods: &[&MethodSpec]) -> (r: bool)
    ensures
        r == wants_evolution_helper(values(methods@)),
{
    let ghost ms = values(methods@);
    let mut i: usize = 0;
    while i < methods.len()
        invariant
            ms == values(methods@),
            i <= methods@.len(),
            forall|k: int|
                0 <= k < i ==> (#[trigger] ms[k]).return_type != ReturnType::EvolutionData,
        decreases methods.len() - i,
    {
        if matches!(methods[i].return_type, ReturnType::EvolutionData) {
            proof {
                assert(ms[i as int] == *methods@[i as int]);
            }
            return true;
        }
        i = i + 1;
    }
    false
}

/// `x` is a header that method `m` needs: its class's header, one it lists,
/// or `TopoDS.hxx` for the fillet/chamfer family. Skipped methods need none.
pub open spec fn method_wants_include(m: MethodSpec, x: Seq<char>) -> bool {
    &&& m.kind != MethodKind::Skip
    &&& {
        ||| (m.occt_class@.len() > 0 && x == m.occt_class@ + ".hxx"@)
        ||| (exists|k: int| 0 <= k < m.includes@.len() && (#[trigger] m.includes@[k])@ == x)
        ||| (m.kind == MethodKind::FilletLike && x == "TopoDS.hxx"@)
    }
}

/// The headers that the kernel always needs, or needs for its helpers.
pub open spec fn base_include(ms: Seq<MethodSpec>, x: Seq<char>) -> bool {
    ||| x == "Standard_Failure.hxx"@
    ||| (wants_unwrap_helper(ms) && (x == "TopExp_Explorer.hxx"@ || x == "TopoDS_Shape.hxx"@))
}

/// Every header that the kernel includes.
pub open spec fn include_set(ms: Seq<MethodSpec>) -> Set<Seq<char>> {
    Set::new(
        |x: Seq<char>|
            base_include(ms, x) || exists|i: int|
                0 <= i < ms.len() && method_wants_include(#[trigger] ms[i], x),
    )
}

/// The members of `s` in strictly increasing order (the order in which a
/// sorted set of strings lists them).
pub open spec fn sorted_listing(s: Set<Seq<char>>) -> Seq<Seq<char>> {
    choose|l: Seq<Seq<char>>|
        strictly_sorted(l) && forall|x: Seq<char>| #[trigger] l.contains(x) <==> s.contains(x)
}

/// A strictly sorted listing of `s` is its sorted listing.
pub proof fn lemma_sorted_listing(l: Seq<Seq<char>>, s: Set<Seq<char>>)
    requires
        strictly_sorted(l),
        forall|x: Seq<char>| #[trigger] l.contains(x) <==> s.contains(x),
    ensures
        sorted_listing(s) == l,
{
    let c = sorted_listing(s);
    assert(strictly_sorted(c) && forall|x: Seq<char>| #[trigger] c.contains(x) <==> s.contains(x));
    lemma_sorted_unique(c, l);
}

/// Collects every header the kernel needs, sorted, each once.
fn collect_includes(methods: &[&MethodSpec]) -> (r: Vec<String>)
    ensures
        strictly_sorted(views(r@)),
        forall|x: Seq<char>| #[trigger] views(r@).contains(x) <==> include_set(values(methods@)).contains(x),
{
    let ghost ms = values(methods@);
    let mut includes: Vec<String> = Vec::new();
    proof {
        assert(views(includes@) =~= Seq::<Seq<char>>::empty());
    }
    insert_sorted(&mut includes, "Standard_Failure.hxx");
    let unwrap = needs_unwrap_singleton_solid(methods);
    if unwrap {
        insert_sorted(&mut includes, "TopExp_Explorer.hxx");
        insert_sorted(&mut includes, "TopoDS_Shape.hxx");
    }
    proof {
        assert forall|x: Seq<char>| #[trigger] views(includes@).contains(x) <==> base_include(ms, x) by {
        }
    }
    let mut i: usize = 0;
    while i < methods.len()
        invariant
            ms == values(methods@),
            i <= methods@.len(),
            strictly_sorted(views(includes@)),
            forall|x: Seq<char>| #[trigger]
                views(includes@).contains(x) <==> (base_include(ms, x) || exists|j: int|
                    0 <= j < i && method_wants_include(#[trigger] ms[j], x)),
        decreases methods.len() - i,
    {
        let m = methods[i];
        let ghost before = views(includes@);
        proof {
            assert(ms[i as int] == *m);
        }
        if !matches!(m.kind, MethodKind::Skip) {
            if !m.occt_class.is_empty() {
                let inc = class_to_include(m.occt_class);
                insert_sorted(&mut includes, inc.as_str());
            }
            let ghost mid = views(includes@);
            let mut k: usize = 0;
            while k < m.includes.len()
                invariant
                    k <= m.includes@.len(),
                    strictly_sorted(views(includes@)),
                    forall|x: Seq<char>| #[trigger]
                        views(includes@).contains(x) <==> (mid.contains(x) || exists|t: int|
                            0 <= t < k && (#[trigger] m.includes@[t])@ == x),
                decreases m.includes.len() - k,
            {
                insert_sorted(&mut includes, m.includes[k]);
                k = k + 1;
            }
            if matches!(m.kind, MethodKind::FilletLike) {
                insert_sorted(&mut includes, "TopoDS.hxx");
            }
        }
        proof {
            assert forall|x: Seq<char>| #[trigger]
                views(includes@).contains(x) <==> (base_include(ms, x) || exists|j: int|
                    0 <= j < i + 1 && method_wants_include(#[trigger] ms[j], x)) by {
                if views(includes@).contains(x) && !before.contains(x) {
                    assert(method_wants_include(ms[i as int], x));
                }
                if exists|j: int| 0 <= j < i + 1 && method_wants_include(#[trigger] ms[j], x) {
                    let j = choose|j: int| 0 <= j < i + 1 && method_wants_include(#[trigger] ms[j], x);
                    if j == i {
                        if m.includes@.len() > 0 && exists|t: int|
                            0 <= t < m.includes@.len() && (#[trigger] m.includes@[t])@ == x {
                        }
                    } else {
                        assert(before.contains(x));
                    }
                }
            }
        }
        i = i + 1;
    }
    proof {
        assert forall|x: Seq<char>| #[trigger] views(includes@).contains(x) <==> include_set(ms).contains(x) by {
        }
    }
    includes
}

/// Fragments of one `#include` line per header, in order.
pub open spec fn include_lines(f: Seq<Seq<char>>, incs: Seq<Seq<char>>) -> Seq<Seq<char>>
    decreases incs.len(),
{
    if incs.len() == 0 {
        f
    } else {
        let f = include_lines(f, incs.drop_last());
        let f = frag(f, "#include <"@);
        let f = frag(f, incs.last());
        line(f, ">"@)
    }
}

fn emit_include_lines(w: &mut TextWriter, incs: &Vec<String>)
    requires
        old(w).wf(),
    ensures
        final(w).wf(),
        final(w).base() == old(w).base(),
        final(w).frags() == include_lines(old(w).frags(), views(incs@)),
{
    let ghost f0 = w.frags();
    proof {
        assert(views(incs@).take(0) =~= Seq::<Seq<char>>::empty());
    }
    for i in 0..incs.len()
        invariant
            w.wf(),
            w.base() == old(w).base(),
            f0 == old(w).frags(),
            w.frags() == include_lines(f0, views(incs@).take(i as int)),
    {
        proof {
            assert(views(incs@).take(i + 1).drop_last() =~= views(incs@).take(i as int));
        }
        w.put("#include <");
        w.put(incs[i].as_str());
        w.put_ln(">");
    }
    proof {
        assert(views(incs@).take(incs@.len() as int) =~= views(incs@));
    }
}

// ---------------------------------------------------------------------------
// Grouping by category.
// ---------------------------------------------------------------------------

/// The categories of the methods that are not skipped, in order of first
/// appearance, each once.
pub open spec fn categories(ms: Seq<MethodSpec>) -> Seq<Seq<char>>
    decreases ms.len(),
{
    if ms.len() == 0 {
        Seq::empty()
    } else {
        let c = categories(ms.drop_last());
        let m = ms.last();
        if m.kind == MethodKind::Skip || c.contains(m.category@) {
            c
        } else {
            c.push(m.category@)
        }
    }
}

/// A method that is not skipped and belongs to category `c`.
pub open spec fn of_category(c: Seq<char>) -> spec_fn(MethodSpec) -> bool {
    |m: MethodSpec| m.kind != MethodKind::Skip && m.category@ == c
}

/// The methods of category `c` that are not skipped, in list order.
pub open spec fn in_category(ms: Seq<MethodSpec>, c: Seq<char>) -> Seq<MethodSpec> {
    ms.filter(of_category(c))
}

/// The group at index `k` of `gs` is the category `categories(ms)[k]` with its
/// methods.
pub open spec fn groups_match<'a>(
    gs: Seq<(&'a str, Vec<&'a MethodSpec>)>,
    ms: Seq<MethodSpec>,
) -> bool {
    &&& gs.len() == categories(ms).len()
    &&& forall|k: int|
        0 <= k < gs.len() ==> (#[trigger] gs[k]).0@ == categories(ms)[k] && values(gs[k].1@)
            == in_category(ms, categories(ms)[k])
}

/// Groups the methods that are not skipped by category, categories in order
/// of first appearance, methods in list order within each group.
fn group_by_category<'a>(methods: &[&'a MethodSpec]) -> (r: Vec<(&'a str, Vec<&'a MethodSpec>)>)
    ensures
        groups_match(r@, values(methods@)),
{
    let ghost ms = values(methods@);
    let mut groups: Vec<(&'a str, Vec<&'a MethodSpec>)> = Vec::new();
    proof {
        assert(ms.take(0) =~= Seq::<MethodSpec>::empty());
        assert(groups_match(groups@, ms.take(0)));
    }
    let mut i: usize = 0;
    while i < methods.len()
        invariant
            ms == values(methods@),
            i <= methods@.len(),
            groups_match(groups@, ms.take(i as int)),
        decreases methods.len() - i,
    {
        let m = methods[i];
        let ghost pre = ms.take(i as int);
        let ghost post = ms.take(i + 1);
        let ghost cats = categories(pre);
        let ghost old_groups = groups@;
        proof {
            assert(post =~= pre.push(*m));
            assert(post.drop_last() =~= pre);
            assert(ms[i as int] == *m);
            lemma_categories_distinct(pre);
        }
        if !matches!(m.kind, MethodKind::Skip) {
            let mut j: usize = 0;
            while j < groups.len()
                invariant
                    j <= groups@.len(),
                    forall|t: int| 0 <= t < j ==> (#[trigger] groups@[t]).0@ != m.category@,
                ensures
                    j <= groups@.len(),
                    forall|t: int| 0 <= t < j ==> (#[trigger] groups@[t]).0@ != m.category@,
                    j < groups@.len() ==> groups@[j as int].0@ == m.category@,
                decreases groups.len() - j,
            {
                if str_eq(groups[j].0, m.category) {
                    break;
                }
                j = j + 1;
            }
            if j < groups.len() {
                let (c, mut members) = groups.remove(j);
                let ghost old_members = members@;
                members.push(m);
                groups.insert(j, (c, members));
                proof {
                    assert(groups@ =~= old_groups.update(j as int, (c, members)));
                    assert(cats[j as int] == m.category@);
                    assert(cats.contains(m.category@));
                    assert(categories(post) == cats);
                    assert forall|k: int| 0 <= k < groups@.len() implies (#[trigger] groups@[k]).0@
                        == categories(post)[k] && values(groups@[k].1@) == in_category(
                        post,
                        categories(post)[k],
                    ) by {
                        pre.lemma_filter_push(*m, of_category(cats[k]));
                        if k == j {
                            assert(values(groups@[k].1@) =~= values(old_members).push(*m));
                        } else {
                            assert(cats[k] != cats[j as int]);
                        }
                    }
                }
            } else {
                let mut members: Vec<&'a MethodSpec> = Vec::new();
                members.push(m);
                groups.push((m.category, members));
                proof {
                    assert(!cats.contains(m.category@)) by {
                        if cats.contains(m.category@) {
                            let t = choose|t: int| 0 <= t < cats.len() && cats[t] == m.category@;
                            assert(old_groups[t].0@ == m.category@);
                        }
                    }
                    assert(categories(post) == cats.push(m.category@));
                    assert forall|k: int| 0 <= k < groups@.len() implies (#[trigger] groups@[k]).0@
                        == categories(post)[k] && values(groups@[k].1@) == in_category(
                        post,
                        categories(post)[k],
                    ) by {
                        let c = categories(post)[k];
                        pre.lemma_filter_push(*m, of_category(c));
                        if k == cats.len() {
                            lemma_filter_none(pre, m.category@);
                            assert(values(groups@[k].1@) =~= seq![*m]);
                            assert(in_category(post, c) =~= Seq::<MethodSpec>::empty().push(*m));
                        } else {
                            assert(groups@[k] == old_groups[k]);
                        }
                    }
                }
            }
        } else {
            proof {
                assert(categories(post) == categories(pre));
                assert forall|k: int| 0 <= k < groups@.len() implies values(
                    (#[trigger] groups@[k]).1@,
                ) == in_category(post, categories(post)[k]) by {
                    pre.lemma_filter_push(*m, of_category(categories(post)[k]));
                }
            }
        }
        i = i + 1;
    }
    proof {
        assert(ms.take(methods@.len() as int) =~= ms);
    }
    groups
}

/// No category is listed twice.
pub proof fn lemma_categories_distinct(ms: Seq<MethodSpec>)
    ensures
        forall|a: int, b: int|
            0 <= a < b < categories(ms).len() ==> categories(ms)[a] != categories(ms)[b],
    decreases ms.len(),
{
    if ms.len() > 0 {
        let c = categories(ms.drop_last());
        lemma_categories_distinct(ms.drop_last());
        let m = ms.last();
        if !(m.kind == MethodKind::Skip || c.contains(m.category@)) {
            let d = c.push(m.category@);
            assert forall|a: int, b: int| 0 <= a < b < d.len() implies d[a] != d[b] by {
                if b == c.len() && d[a] == d[b] {
                    assert(c[a] == m.category@);
                    assert(c.contains(m.category@));
                }
            }
        }
    }
}

/// A category that has not appeared yet has no methods so far.
proof fn lemma_filter_none(ms: Seq<MethodSpec>, c: Seq<char>)
    requires
        !categories(ms).contains(c),
    ensures
        in_category(ms, c) == Seq::<MethodSpec>::empty(),
    decreases ms.len(),
{
    let p = of_category(c);
    if ms.len() == 0 {
        reveal(Seq::filter);
        assert(ms.filter(p) =~= Seq::<MethodSpec>::empty());
    } else {
        let pre = ms.drop_last();
        let last = ms.last();
        assert(ms =~= pre.push(last));
        let cp = categories(pre);
        assert(!cp.contains(c)) by {
            if cp.contains(c) {
                let t = choose|t: int| 0 <= t < cp.len() && cp[t] == c;
                assert(categories(ms)[t] == c);
            }
        }
        lemma_filter_none(pre, c);
        pre.lemma_filter_push(last, p);
        if last.kind != MethodKind::Skip && last.category@ == c {
            assert(categories(ms)[cp.len() as int] == c);
            assert(false);
        }
    }
}

/// The `unwrapSingletonSolid` helper that the fillet/chamfer family relies on.
pub open spec fn unwrap_helper_frags(f: Seq<Seq<char>>) -> Seq<Seq<char>> {
    let f = line(f, "/// Unwrap a singleton compound: if `shape` is a Compound holding exactly one"@);
    let f = line(f, "/// Solid, return that Solid."@);
    let f = line(f, "///"@);
    let f = line(f, "/// `BRepFilletAPI_MakeFillet`/`MakeChamfer` wrap their result in a Compound even"@);
    let f = line(f, "/// for single-solid input. A later call that expects a Solid then fails in the"@);
    let f = line(f, "/// `TopoDS::Solid(...)` cast with Standard_TypeMismatch, which surfaces as a WASM"@);
    let f = line(f, "/// trap -- so chained fillet/chamfer breaks. Restoring the Solid type here makes"@);
    let f = line(f, "/// chaining behave as it does through OCP's direct pybind11 binding."@);
    let f = line(f, "static TopoDS_Shape unwrapSingletonSolid(const TopoDS_Shape& shape) {"@);
    let f = line(f, "    if (shape.IsNull() || shape.ShapeType() != TopAbs_COMPOUND) return shape;"@);
    let f = line(f, "    TopoDS_Shape onlySolid;"@);
    let f = line(f, "    int count = 0;"@);
    let f = line(f, "    for (TopExp_Explorer exp(shape, TopAbs_SOLID); exp.More(); exp.Next()) {"@);
    let f = line(f, "        onlySolid = exp.Current();"@);
    let f = line(f, "        if (++count > 1) return shape;  // multiple solids: keep the compound"@);
    let f = line(f, "    }"@);
    let f = line(f, "    return count == 1 ? onlySolid : shape;"@);
    let f = line(f, "}"@);
    f
}

fn emit_unwrap_helper(w: &mut TextWriter)
    requires
        old(w).wf(),
    ensures
        final(w).wf(),
        final(w).base() == old(w).base(),
        final(w).frags() == unwrap_helper_frags(old(w).frags()),
{
    w.put_ln("/// Unwrap a singleton compound: if `shape` is a Compound holding exactly one");
    w.put_ln("/// Solid, return that Solid.");
    w.put_ln("///");
    w.put_ln("/// `BRepFilletAPI_MakeFillet`/`MakeChamfer` wrap their result in a Compound even");
    w.put_ln("/// for single-solid input. A later call that expects a Solid then fails in the");
    w.put_ln("/// `TopoDS::Solid(...)` cast with Standard_TypeMismatch, which surfaces as a WASM");
    w.put_ln("/// trap -- so chained fillet/chamfer breaks. Restoring the Solid type here makes");
    w.put_ln("/// chaining behave as it does through OCP's direct pybind11 binding.");
    w.put_ln("static TopoDS_Shape unwrapSingletonSolid(const TopoDS_Shape& shape) {");
    w.put_ln("    if (shape.IsNull() || shape.ShapeType() != TopAbs_COMPOUND) return shape;");
    w.put_ln("    TopoDS_Shape onlySolid;");
    w.put_ln("    int count = 0;");
    w.put_ln("    for (TopExp_Explorer exp(shape, TopAbs_SOLID); exp.More(); exp.Next()) {");
    w.put_ln("        onlySolid = exp.Current();");
    w.put_ln("        if (++count > 1) return shape;  // multiple solids: keep the compound");
    w.put_ln("    }");
    w.put_ln("    return count == 1 ? onlySolid : shape;");
    w.put_ln("}");
}

/// The `buildEvolution` helper that methods returning `EvolutionData` rely on.
pub open spec fn evolution_helper_frags(f: Seq<Seq<char>>) -> Seq<Seq<char>> {
    let f = line(f, "/// Build evolution data by tracking Modified/Generated/Deleted faces."@);
    let f = line(f, "static EvolutionData buildEvolution(BRepBuilderAPI_MakeShape& maker, uint32_t resultId,"@);
    let f = line(f, "                                    const TopoDS_Shape& inputShape,"@);
    let f = line(f, "                                    const std::vector<int>& inputFaceHashes, int hashUpperBound) {"@);
    let f = line(f, "    EvolutionData evo;"@);
    let f = line(f, "    evo.resultId = resultId;"@);
    let f = blank_line(f);
    let f = line(f, "    auto hashShape = [&](const TopoDS_Shape& s) -> int {"@);
    let f = line(f, "        return static_cast<int>(TopTools_ShapeMapHasher{}(s) % static_cast<size_t>(hashUpperBound));"@);
    let f = line(f, "    };"@);
    let f = blank_line(f);
    let f = line(f, "    // For each input face, check if it was modified, generated, or deleted"@);
    let f = line(f, "    for (TopExp_Explorer ex(inputShape, TopAbs_FACE); ex.More(); ex.Next()) {"@);
    let f = line(f, "        const auto& face = ex.Current();"@);
    let f = line(f, "        int faceHash = hashShape(face);"@);
    let f = blank_line(f);
    let f = line(f, "        // Check if this face hash is in the input list"@);
    let f = line(f, "        bool tracked = false;"@);
    let f = line(f, "        for (int h : inputFaceHashes) {"@);
    let f = line(f, "            if (h == faceHash) {"@);
    let f = line(f, "                tracked = true;"@);
    let f = line(f, "                break;"@);
    let f = line(f, "            }"@);
    let f = line(f, "        }"@);
    let f = line(f, "        if (!tracked)"@);
    let f = line(f, "            continue;"@);
    let f = blank_line(f);
    let f = line(f, "        // Modified faces"@);
    let f = line(f, "        auto modifiedList = maker.Modified(face);"@);
    let f = line(f, "        if (!modifiedList.IsEmpty()) {"@);
    let f = line(f, "            evo.modified.push_back(faceHash);"@);
    let f = line(f, "            evo.modified.push_back(static_cast<int>(modifiedList.Size()));"@);
    let f = line(f, "            for (auto it = modifiedList.begin(); it != modifiedList.end(); ++it) {"@);
    let f = line(f, "                evo.modified.push_back(hashShape(*it));"@);
    let f = line(f, "            }"@);
    let f = line(f, "        }"@);
    let f = blank_line(f);
    let f = line(f, "        // Generated faces"@);
    let f = line(f, "        auto generatedList = maker.Generated(face);"@);
    let f = line(f, "        if (!generatedList.IsEmpty()) {"@);
    let f = line(f, "            evo.generated.push_back(faceHash);"@);
    let f = line(f, "            evo.generated.push_back(static_cast<int>(generatedList.Size()));"@);
    let f = line(f, "            for (auto it = generatedList.begin(); it != generatedList.end(); ++it) {"@);
    let f = line(f, "                evo.generated.push_back(hashShape(*it));"@);
    let f = line(f, "            }"@);
    let f = line(f, "        }"@);
    let f = blank_line(f);
    let f = line(f, "        // Deleted faces"@);
    let f = line(f, "        if (maker.IsDeleted(face)) {"@);
    let f = line(f, "            evo.deleted.push_back(faceHash);"@);
    let f = line(f, "        }"@);
    let f = line(f, "    }"@);
    let f = blank_line(f);
    let f = line(f, "    return evo;"@);
    let f = line(f, "}"@);
    let f = blank_line(f);
    f
}

fn emit_evolution_helper(w: &mut TextWriter)
    requires
        old(w).wf(),
    ensures
        final(w).wf(),
        final(w).base() == old(w).base(),
        final(w).frags() == evolution_helper_frags(old(w).frags()),
{
    w.put_ln("/// Build evolution data by tracking Modified/Generated/Deleted faces.");
    w.put_ln("static EvolutionData buildEvolution(BRepBuilderAPI_MakeShape& maker, uint32_t resultId,");
    w.put_ln("                                    const TopoDS_Shape& inputShape,");
    w.put_ln("                                    const std::vector<int>& inputFaceHashes, int hashUpperBound) {");
    w.put_ln("    EvolutionData evo;");
    w.put_ln("    evo.resultId = resultId;");
    w.blank();
    w.put_ln("    auto hashShape = [&](const TopoDS_Shape& s) -> int {");
    w.put_ln("        return static_cast<int>(TopTools_ShapeMapHasher{}(s) % static_cast<size_t>(hashUpperBound));");
    w.put_ln("    };");
    w.blank();
    w.put_ln("    // For each input face, check if it was modified, generated, or deleted");
    w.put_ln("    for (TopExp_Explorer ex(inputShape, TopAbs_FACE); ex.More(); ex.Next()) {");
    w.put_ln("        const auto& face = ex.Current();");
    w.put_ln("        int faceHash = hashShape(face);");
    w.blank();
    w.put_ln("        // Check if this face hash is in the input list");
    w.put_ln("        bool tracked = false;");
    w.put_ln("        for (int h : inputFaceHashes) {");
    w.put_ln("            if (h == faceHash) {");
    w.put_ln("                tracked = true;");
    w.put_ln("                break;");
    w.put_ln("            }");
    w.put_ln("        }");
    w.put_ln("        if (!tracked)");
    w.put_ln("            continue;");
    w.blank();
    w.put_ln("        // Modified faces");
    w.put_ln("        auto modifiedList = maker.Modified(face);");
    w.put_ln("        if (!modifiedList.IsEmpty()) {");
    w.put_ln("            evo.modified.push_back(faceHash);");
    w.put_ln("            evo.modified.push_back(static_cast<int>(modifiedList.Size()));");
    w.put_ln("            for (auto it = modifiedList.begin(); it != modifiedList.end(); ++it) {");
    w.put_ln("                evo.modified.push_back(hashShape(*it));");
    w.put_ln("            }");
    w.put_ln("        }");
    w.blank();
    w.put_ln("        // Generated faces");
    w.put_ln("        auto generatedList = maker.Generated(face);");
    w.put_ln("        if (!generatedList.IsEmpty()) {");
    w.put_ln("            evo.generated.push_back(faceHash);");
    w.put_ln("            evo.generated.push_back(static_cast<int>(generatedList.Size()));");
    w.put_ln("            for (auto it = generatedList.begin(); it != generatedList.end(); ++it) {");
    w.put_ln("                evo.generated.push_back(hashShape(*it));");
    w.put_ln("            }");
    w.put_ln("        }");
    w.blank();
    w.put_ln("        // Deleted faces");
    w.put_ln("        if (maker.IsDeleted(face)) {");
    w.put_ln("            evo.deleted.push_back(faceHash);");
    w.put_ln("        }");
    w.put_ln("    }");
    w.blank();
    w.put_ln("    return evo;");
    w.put_ln("}");
    w.blank();
}

/// The preamble of the bindings file, up to the opening of the Embind block.
pub open spec fn bindings_header_frags(f: Seq<Seq<char>>) -> Seq<Seq<char>> {
    let f = line(f, "// AUTO-GENERATED by cargo xtask codegen -- DO NOT EDIT"@);
    let f = blank_line(f);
    let f = line(f, "#include \"occt_kernel.h\""@);
    let f = line(f, "#include <cstdint>"@);
    let f = line(f, "#include <emscripten/bind.h>"@);
    let f = blank_line(f);
    let f = line(f, "using namespace emscripten;"@);
    let f = blank_line(f);
    let f = line(f, "EMSCRIPTEN_BINDINGS(occt_wasm) {"@);
    f
}

fn emit_bindings_header(w: &mut TextWriter)
    requires
        old(w).wf(),
    ensures
        final(w).wf(),
        final(w).base() == old(w).base(),
        final(w).frags() == bindings_header_frags(old(w).frags()),
{
    w.put_ln("// AUTO-GENERATED by cargo xtask codegen -- DO NOT EDIT");
    w.blank();
    w.put_ln("#include \"occt_kernel.h\"");
    w.put_ln("#include <cstdint>");
    w.put_ln("#include <emscripten/bind.h>");
    w.blank();
    w.put_ln("using namespace emscripten;");
    w.blank();
    w.put_ln("EMSCRIPTEN_BINDINGS(occt_wasm) {");
}

/// The registration of `MeshData`, followed by an empty line.
pub open spec fn mesh_data_binding_frags(f: Seq<Seq<char>>) -> Seq<Seq<char>> {
    let f = line(f, "    // MeshData"@);
    let f = line(f, "    class_<MeshData>(\"MeshData\")"@);
    let f = line(f, "        .function(\"getPositionsPtr\", &MeshData::getPositionsPtr)"@);
    let f = line(f, "        .function(\"getNormalsPtr\", &MeshData::getNormalsPtr)"@);
    let f = line(f, "        .function(\"getUvsPtr\", &MeshData::getUvsPtr)"@);
    let f = line(f, "        .function(\"getIndicesPtr\", &MeshData::getIndicesPtr)"@);
    let f = line(f, "        .property(\"positionCount\", &MeshData::positionCount)"@);
    let f = line(f, "        .property(\"uvCount\", &MeshData::uvCount)"@);
    let f = line(f, "        .property(\"normalCount\", &MeshData::normalCount)"@);
    let f = line(f, "        .property(\"indexCount\", &MeshData::indexCount)"@);
    let f = line(f, "        .function(\"getFaceGroupsPtr\", &MeshData::getFaceGroupsPtr)"@);
    let f = line(f, "        .property(\"faceGroupCount\", &MeshData::faceGroupCount);"@);
    let f = blank_line(f);
    f
}

fn emit_mesh_data_binding(w: &mut TextWriter)
    requires
        old(w).wf(),
    ensures
        final(w).wf(),
        final(w).base() == old(w).base(),
        final(w).frags() == mesh_data_binding_frags(old(w).frags()),
{
    w.put_ln("    // MeshData");
    w.put_ln("    class_<MeshData>(\"MeshData\")");
    w.put_ln("        .function(\"getPositionsPtr\", &MeshData::getPositionsPtr)");
    w.put_ln("        .function(\"getNormalsPtr\", &MeshData::getNormalsPtr)");
    w.put_ln("        .function(\"getUvsPtr\", &MeshData::getUvsPtr)");
    w.put_ln("        .function(\"getIndicesPtr\", &MeshData::getIndicesPtr)");
    w.put_ln("        .property(\"positionCount\", &MeshData::positionCount)");
    w.put_ln("        .property(\"uvCount\", &MeshData::uvCount)");
    w.put_ln("        .property(\"normalCount\", &MeshData::normalCount)");
    w.put_ln("        .property(\"indexCount\", &MeshData::indexCount)");
    w.put_ln("        .function(\"getFaceGroupsPtr\", &MeshData::getFaceGroupsPtr)");
    w.put_ln("        .property(\"faceGroupCount\", &MeshData::faceGroupCount);");
    w.blank();
}

/// The registration of `EdgeData`, followed by an empty line.
pub open spec fn edge_data_binding_frags(f: Seq<Seq<char>>) -> Seq<Seq<char>> {
    let f = line(f, "    // EdgeData"@);
    let f = line(f, "    class_<EdgeData>(\"EdgeData\")"@);
    let f = line(f, "        .function(\"getPointsPtr\", &EdgeData::getPointsPtr)"@);
    let f = line(f, "        .function(\"getEdgeGroupsPtr\", &EdgeData::getEdgeGroupsPtr)"@);
    let f = line(f, "        .property(\"pointCount\", &EdgeData::pointCount)"@);
    let f = line(f, "        .property(\"edgeGroupCount\", &EdgeData::edgeGroupCount);"@);
    let f = blank_line(f);
    f
}

fn emit_edge_data_binding(w: &mut TextWriter)
    requires
        old(w).wf(),
    ensures
        final(w).wf(),
        final(w).base() == old(w).base(),
        final(w).frags() == edge_data_binding_frags(old(w).frags()),
{
    w.put_ln("    // EdgeData");
    w.put_ln("    class_<EdgeData>(\"EdgeData\")");
    w.put_ln("        .function(\"getPointsPtr\", &EdgeData::getPointsPtr)");
    w.put_ln("        .function(\"getEdgeGroupsPtr\", &EdgeData::getEdgeGroupsPtr)");
    w.put_ln("        .property(\"pointCount\", &EdgeData::pointCount)");
    w.put_ln("        .property(\"edgeGroupCount\", &EdgeData::edgeGroupCount);");
    w.blank();
}

/// The preamble of the kernel file, before its OCCT includes.
pub open spec fn kernel_header_frags(f: Seq<Seq<char>>) -> Seq<Seq<char>> {
    let f = line(f, "// AUTO-GENERATED by cargo xtask codegen -- DO NOT EDIT"@);
    let f = blank_line(f);
    let f = line(f, "#include \"occt_kernel.h\""@);
    let f = blank_line(f);
    f
}

fn emit_kernel_header(w: &mut TextWriter)
    requires
        old(w).wf(),
    ensures
        final(w).wf(),
        final(w).base() == old(w).base(),
        final(w).frags() == kernel_header_frags(old(w).frags()),
{
    w.put_ln("// AUTO-GENERATED by cargo xtask codegen -- DO NOT EDIT");
    w.blank();
    w.put_ln("#include \"occt_kernel.h\"");
    w.blank();
}

/// The standard C++ includes of the kernel file, followed by an empty line.
pub open spec fn std_includes_frags(f: Seq<Seq<char>>) -> Seq<Seq<char>> {
    let f = line(f, "#include <algorithm>"@);
    let f = line(f, "#include <cmath>"@);
    let f = line(f, "#include <cstdio>"@);
    let f = line(f, "#include <cstdlib>"@);
    let f = line(f, "#include <fstream>"@);
    let f = line(f, "#include <iomanip>"@);
    let f = line(f, "#include <set>"@);
    let f = line(f, "#include <sstream>"@);
    let f = line(f, "#include <stdexcept>"@);
    let f = line(f, "#include <string>"@);
    let f = line(f, "#include <vector>"@);
    let f = blank_line(f);
    f
}

fn emit_std_includes(w: &mut TextWriter)
    requires
        old(w).wf(),
    ensures
        final(w).wf(),
        final(w).base() == old(w).base(),
        final(w).frags() == std_includes_frags(old(w).frags()),
{
    w.put_ln("#include <algorithm>");
    w.put_ln("#include <cmath>");
    w.put_ln("#include <cstdio>");
    w.put_ln("#include <cstdlib>");
    w.put_ln("#include <fstream>");
    w.put_ln("#include <iomanip>");
    w.put_ln("#include <set>");
    w.put_ln("#include <sstream>");
    w.put_ln("#include <stdexcept>");
    w.put_ln("#include <string>");
    w.put_ln("#include <vector>");
    w.blank();
}

// ---------------------------------------------------------------------------
// Helper functions.
// ---------------------------------------------------------------------------

/// The static helpers that the generated methods depend on.
pub open spec fn helper_functions_frags(f: Seq<Seq<char>>, ms: Seq<MethodSpec>) -> Seq<Seq<char>> {
    let ev = wants_evolution_helper(ms);
    let un = wants_unwrap_helper(ms);
    let f = if ev || un {
        blank_line(line(f, "// === helper functions ==="@))
    } else {
        f
    };
    let f = if un {
        blank_line(unwrap_helper_frags(f))
    } else {
        f
    };
    if ev {
        evolution_helper_frags(f)
    } else {
        f
    }
}

/// Emits `unwrapSingletonSolid` for the fillet/chamfer family and
/// `buildEvolution` if any method returns `EvolutionData`.
fn emit_helper_functions(w: &mut TextWriter, methods: &[&MethodSpec])
    requires
        old(w).wf(),
    ensures
        final(w).wf(),
        final(w).base() == old(w).base(),
        final(w).frags() == helper_functions_frags(old(w).frags(), values(methods@)),
{
    let needs_evo = needs_evolution(methods);
    let needs_unwrap = needs_unwrap_singleton_solid(methods);
    if needs_evo || needs_unwrap {
        w.put_ln("// === helper functions ===");
        w.blank();
    }
    if needs_unwrap {
        emit_unwrap_helper(w);
        w.blank();
    }
    if needs_evo {
        emit_evolution_helper(w);
    }
}

// ---------------------------------------------------------------------------
// kernel.cpp
// ---------------------------------------------------------------------------

/// The methods of one group, each followed by an empty line.
pub open spec fn members_frags(f: Seq<Seq<char>>, members: Seq<MethodSpec>) -> Seq<Seq<char>>
    decreases members.len(),
{
    if members.len() == 0 {
        f
    } else {
        blank_line(method_frags(members_frags(f, members.drop_last()), members.last()))
    }
}

/// One section per category: a heading, an empty line, then its methods.
pub open spec fn sections_frags(
    f: Seq<Seq<char>>,
    ms: Seq<MethodSpec>,
    cats: Seq<Seq<char>>,
) -> Seq<Seq<char>>
    decreases cats.len(),
{
    if cats.len() == 0 {
        f
    } else {
        let f = sections_frags(f, ms, cats.drop_last());
        let f = frag(f, "// === "@);
        let f = frag(f, cats.last());
        let f = line(f, " ==="@);
        let f = blank_line(f);
        members_frags(f, in_category(ms, cats.last()))
    }
}

/// The fragments of `kernel.cpp`.
pub open spec fn kernel_frags(ms: Seq<MethodSpec>) -> Seq<Seq<char>> {
    let f = kernel_header_frags(Seq::empty());
    let f = include_lines(f, sorted_listing(include_set(ms)));
    let f = blank_line(f);
    let f = std_includes_frags(f);
    let f = helper_functions_frags(f, ms);
    sections_frags(f, ms, categories(ms))
}

/// The text of `kernel.cpp`: its fragments, trailing whitespace replaced by
/// one line terminator.
pub open spec fn kernel_text(ms: Seq<MethodSpec>) -> Seq<char> {
    trim_end(kernel_frags(ms).flatten()) + nl()
}

fn emit_members(w: &mut TextWriter, members: &Vec<&MethodSpec>)
    requires
        old(w).wf(),
    ensures
        final(w).wf(),
        final(w).base() == old(w).base(),
        final(w).frags() == members_frags(old(w).frags(), values(members@)),
{
    let ghost f0 = w.frags();
    let ghost vs = values(members@);
    proof {
        assert(vs.take(0) =~= Seq::<MethodSpec>::empty());
    }
    for i in 0..members.len()
        invariant
            vs == values(members@),
            w.wf(),
            w.base() == old(w).base(),
            f0 == old(w).frags(),
            w.frags() == members_frags(f0, vs.take(i as int)),
    {
        proof {
            assert(vs.take(i + 1).drop_last() =~= vs.take(i as int));
            assert(vs[i as int] == *members@[i as int]);
        }
        emit_method(w, members[i]);
        w.blank();
    }
    proof {
        assert(vs.take(members@.len() as int) =~= vs);
    }
}

/// Generates the contents of `facade/generated/kernel.cpp`.
pub fn emit_kernel(methods: &[&MethodSpec]) -> (r: String)
    ensures
        r@ == kernel_text(values(methods@)),
        strictly_sorted(sorted_listing(include_set(values(methods@)))),
        forall|x: Seq<char>| #[trigger]
            sorted_listing(include_set(values(methods@))).contains(x) <==> include_set(
                values(methods@),
            ).contains(x),
{
    let ghost ms = values(methods@);
    let mut w = TextWriter::new(String::new());
    emit_kernel_header(&mut w);

    let includes = collect_includes(methods);
    proof {
        lemma_sorted_listing(views(includes@), include_set(ms));
    }
    emit_include_lines(&mut w, &includes);
    w.blank();

    emit_std_includes(&mut w);
    emit_helper_functions(&mut w, methods);

    let groups = group_by_category(methods);
    let ghost cats = categories(ms);
    let ghost f0 = w.frags();
    proof {
        assert(cats.take(0) =~= Seq::<Seq<char>>::empty());
    }
    for g in 0..groups.len()
        invariant
            groups_match(groups@, ms),
            cats == categories(ms),
            w.wf(),
            w.base() == Seq::<char>::empty(),
            w.frags() == sections_frags(f0, ms, cats.take(g as int)),
    {
        proof {
            assert(cats.take(g + 1).drop_last() =~= cats.take(g as int));
            assert(cats.take(g + 1).last() == cats[g as int]);
        }
        let category = groups[g].0;
        let specs = &groups[g].1;
        w.put("// === ");
        w.put(category);
        w.put_ln(" ===");
        w.blank();
        emit_members(&mut w, specs);
    }
    proof {
        assert(cats.take(cats.len() as int) =~= cats);
    }
    let text = w.finish();
    proof {
        assert(text@ =~= kernel_frags(ms).flatten());
    }
    finish_text(text)
}

// ---------------------------------------------------------------------------
// bindings.cpp
// ---------------------------------------------------------------------------

/// `s` with a final `")\n"` turned into `");\n"`, which closes an Embind
/// chain; any other text is left alone.
pub open spec fn close_chain(s: Seq<char>) -> Seq<char> {
    if s.len() >= 2 && s[s.len() - 2] == ')' && s[s.len() - 1] == '\n' {
        s.take(s.len() - 2) + ");\n"@
    } else {
        s
    }
}

/// Closes an Embind chain: replaces the trailing `)\n` with `);\n`.
fn close_embind_chain(buf: &mut String)
    ensures
        final(buf)@ == close_chain(old(buf)@),
{
    let v = to_chars(buf.as_str());
    let n = v.len();
    if n >= 2 && v[n - 2] == ')' && v[n - 1] == '\n' {
        let kept = buf.as_str().substring_char(0, n - 2);
        let mut s = kept.to_owned();
        s.append(");\n");
        proof {
            assert(kept@ =~= old(buf)@.take(n - 2));
        }
        *buf = s;
    }
}

/// Lines `open name mid name close`, one per name.
pub open spec fn member_lines(
    f: Seq<Seq<char>>,
    open: Seq<char>,
    names: Seq<Seq<char>>,
    mid: Seq<char>,
    close: Seq<char>,
) -> Seq<Seq<char>>
    decreases names.len(),
{
    if names.len() == 0 {
        f
    } else {
        let f = member_lines(f, open, names.drop_last(), mid, close);
        let f = frag(f, open);
        let f = frag(f, names.last());
        let f = frag(f, mid);
        let f = frag(f, names.last());
        line(f, close)
    }
}

fn emit_member_lines(w: &mut TextWriter, open: &str, names: &[&str], mid: &str, close: &str)
    requires
        old(w).wf(),
    ensures
        final(w).wf(),
        final(w).base() == old(w).base(),
        final(w).frags() == member_lines(old(w).frags(), open@, strs(names@), mid@, close@),
{
    let ghost f0 = w.frags();
    let ghost ns = strs(names@);
    proof {
        assert(ns.take(0) =~= Seq::<Seq<char>>::empty());
    }
    for i in 0..names.len()
        invariant
            ns == strs(names@),
            w.wf(),
            w.base() == old(w).base(),
            f0 == old(w).frags(),
            w.frags() == member_lines(f0, open@, ns.take(i as int), mid@, close@),
    {
        proof {
            assert(ns.take(i + 1).drop_last() =~= ns.take(i as int));
            assert(ns.take(i + 1).last() == names@[i as int]@);
        }
        w.put(open);
        w.put(names[i]);
        w.put(mid);
        w.put(names[i]);
        w.put_ln(close);
    }
    proof {
        assert(ns.take(names@.len() as int) =~= ns);
    }
}

/// The registration of `std::vector<ty>` as the JS type `js`, with a
/// `dataPtr()` returning the address of its contiguous storage.
pub open spec fn vector_type_frags(f: Seq<Seq<char>>, ty: Seq<char>, js: Seq<char>) -> Seq<Seq<char>> {
    let f = frag(f, "    register_vector<"@);
    let f = frag(f, ty);
    let f = frag(f, ">(\""@);
    let f = frag(f, js);
    let f = line(f, "\")"@);
    let f = frag(f, "        .function(\"dataPtr\", +[](const std::vector<"@);
    let f = frag(f, ty);
    let f = line(f, ">& v) {"@);
    let f = line(f, "            return static_cast<unsigned int>(reinterpret_cast<uintptr_t>(v.data()));"@);
    line(f, "        });"@)
}

fn emit_vector_type(w: &mut TextWriter, ty: &str, js: &str)
    requires
        old(w).wf(),
    ensures
        final(w).wf(),
        final(w).base() == old(w).base(),
        final(w).frags() == vector_type_frags(old(w).frags(), ty@, js@),
{
    w.put("    register_vector<");
    w.put(ty);
    w.put(">(\"");
    w.put(js);
    w.put_ln("\")");
    w.put("        .function(\"dataPtr\", +[](const std::vector<");
    w.put(ty);
    w.put_ln(">& v) {");
    w.put_ln("            return static_cast<unsigned int>(reinterpret_cast<uintptr_t>(v.data()));");
    w.put_ln("        });");
}

/// Everything up to the end of the `MeshBatchData` chain.
pub open spec fn bindings_intro_frags(f: Seq<Seq<char>>) -> Seq<Seq<char>> {
    let f = bindings_header_frags(f);
    let f = line(f, "    // Vector types"@);
    let f = vector_type_frags(f, "uint32_t"@, "VectorUint32"@);
    let f = vector_type_frags(f, "double"@, "VectorDouble"@);
    let f = vector_type_frags(f, "int"@, "VectorInt"@);
    let f = blank_line(f);
    let f = mesh_data_binding_frags(f);
    let f = line(f, "    // MeshBatchData"@);
    let f = line(f, "    class_<MeshBatchData>(\"MeshBatchData\")"@);
    let f = member_lines(
        f,
        "        .function(\""@,
        seq!["getPositionsPtr"@, "getNormalsPtr"@, "getIndicesPtr"@, "getShapeOffsetsPtr"@],
        "\", &MeshBatchData::"@,
        ")"@,
    );
    member_lines(
        f,
        "        .property(\""@,
        seq!["positionCount"@, "normalCount"@, "indexCount"@, "shapeCount"@],
        "\", &MeshBatchData::"@,
        ")"@,
    )
}

/// A comment naming a struct, the opening of its chain, and one line per
/// member.
pub open spec fn struct_chain_frags(
    f: Seq<Seq<char>>,
    comment: Seq<char>,
    opening: Seq<char>,
    open: Seq<char>,
    names: Seq<Seq<char>>,
    mid: Seq<char>,
) -> Seq<Seq<char>> {
    let f = line(f, comment);
    let f = line(f, opening);
    member_lines(f, open, names, mid, ")"@)
}

fn emit_struct_chain(
    w: &mut TextWriter,
    comment: &str,
    opening: &str,
    open: &str,
    names: &[&str],
    mid: &str,
)
    requires
        old(w).wf(),
    ensures
        final(w).wf(),
        final(w).base() == old(w).base(),
        final(w).frags() == struct_chain_frags(
            old(w).frags(),
            comment@,
            opening@,
            open@,
            strs(names@),
            mid@,
        ),
{
    w.put_ln(comment);
    w.put_ln(opening);
    emit_member_lines(w, open, names, mid, ")");
}

pub open spec fn bbox_frags(f: Seq<Seq<char>>) -> Seq<Seq<char>> {
    struct_chain_frags(
        f,
        "    // BBoxData"@,
        "    value_object<BBoxData>(\"BBoxData\")"@,
        "        .field(\""@,
        seq!["xmin"@, "ymin"@, "zmin"@, "xmax"@, "ymax"@, "zmax"@],
        "\", &BBoxData::"@,
    )
}

pub open spec fn projection_frags(f: Seq<Seq<char>>) -> Seq<Seq<char>> {
    struct_chain_frags(
        f,
        "    // ProjectionData"@,
        "    value_object<ProjectionData>(\"ProjectionData\")"@,
        "        .field(\""@,
        seq![
            "visibleOutline"@,
            "visibleSmooth"@,
            "visibleSharp"@,
            "hiddenOutline"@,
            "hiddenSmooth"@,
            "hiddenSharp"@,
        ],
        "\", &ProjectionData::"@,
    )
}

pub open spec fn nurbs_frags(f: Seq<Seq<char>>) -> Seq<Seq<char>> {
    struct_chain_frags(
        f,
        "    // NurbsCurveData"@,
        "    class_<NurbsCurveData>(\"NurbsCurveData\")"@,
        "        .property(\""@,
        seq![
            "degree"@,
            "rational"@,
            "periodic"@,
            "knots"@,
            "multiplicities"@,
            "poles"@,
            "weights"@,
        ],
        "\", &NurbsCurveData::"@,
    )
}

pub open spec fn evolution_data_frags(f: Seq<Seq<char>>) -> Seq<Seq<char>> {
    struct_chain_frags(
        f,
        "    // EvolutionData"@,
        "    class_<EvolutionData>(\"EvolutionData\")"@,
        "        .property(\""@,
        seq!["resultId"@, "modified"@, "generated"@, "deleted"@],
        "\", &EvolutionData::"@,
    )
}

pub open spec fn xcaf_frags(f: Seq<Seq<char>>) -> Seq<Seq<char>> {
    struct_chain_frags(
        f,
        "    // XCAFLabelInfo"@,
        "    value_object<XCAFLabelInfo>(\"XCAFLabelInfo\")"@,
        "        .field(\""@,
        seq![
            "labelId"@,
            "name"@,
            "hasColor"@,
            "r"@,
            "g"@,
            "b"@,
            "isAssembly"@,
            "isComponent"@,
            "shapeId"@,
        ],
        "\", &XCAFLabelInfo::"@,
    )
}

/// The `.function` registration of every method of every group, each group
/// after an empty line and a comment naming its category.
pub open spec fn kernel_bindings_frags(
    f: Seq<Seq<char>>,
    ms: Seq<MethodSpec>,
    cats: Seq<Seq<char>>,
) -> Seq<Seq<char>>
    decreases cats.len(),
{
    if cats.len() == 0 {
        f
    } else {
        let f = kernel_bindings_frags(f, ms, cats.drop_last());
        let f = blank_line(f);
        let f = frag(f, "        // "@);
        let f = line(f, cats.last());
        member_lines(
            f,
            "        .function(\""@,
            in_category(ms, cats.last()).map_values(|m: MethodSpec| m.name@),
            "\", &OcctKernel::"@,
            ")"@,
        )
    }
}

/// The `OcctKernel` class chain.
pub open spec fn occt_kernel_frags(f: Seq<Seq<char>>, ms: Seq<MethodSpec>) -> Seq<Seq<char>> {
    let f = blank_line(f);
    let f = line(f, "    // OcctKernel"@);
    let f = line(f, "    class_<OcctKernel>(\"OcctKernel\")"@);
    let f = line(f, "        .constructor<>()"@);
    kernel_bindings_frags(f, ms, categories(ms))
}

/// The part of `bindings.cpp` that does not depend on the methods: the
/// preamble and the value types, each chain closed right after it is written.
pub open spec fn bindings_structs() -> Seq<char> {
    let e = Seq::<Seq<char>>::empty();
    let t = close_chain(bindings_intro_frags(e).flatten());
    let t = close_chain(t + bbox_frags(blank_line(e)).flatten());
    let t = t + edge_data_binding_frags(blank_line(e)).flatten();
    let t = close_chain(t + projection_frags(e).flatten());
    let t = close_chain(t + nurbs_frags(blank_line(e)).flatten());
    let t = close_chain(t + evolution_data_frags(blank_line(e)).flatten());
    close_chain(t + xcaf_frags(blank_line(e)).flatten())
}

/// The text of `bindings.cpp` before its trailing whitespace is trimmed: the
/// value types, the closed `OcctKernel` chain, and `}` ending the Embind block.
pub open spec fn bindings_body(ms: Seq<MethodSpec>) -> Seq<char> {
    close_chain(bindings_structs() + occt_kernel_frags(Seq::empty(), ms).flatten()) + "}"@ + nl()
}

/// The text of `bindings.cpp`: its body, trailing whitespace replaced by one
/// line terminator.
pub open spec fn bindings_text(ms: Seq<MethodSpec>) -> Seq<char> {
    trim_end(bindings_body(ms)) + nl()
}

/// Ends the current chain: closes it and continues writing after it.
fn close_chain_and_continue(w: TextWriter) -> (r: TextWriter)
    requires
        w.wf(),
    ensures
        r.wf(),
        r.base() == close_chain(w.base() + w.frags().flatten()),
        r.frags() == Seq::<Seq<char>>::empty(),
{
    let mut s = w.finish();
    close_embind_chain(&mut s);
    TextWriter::new(s)
}

fn emit_group_bindings(w: &mut TextWriter, category: &str, specs: &Vec<&MethodSpec>)
    requires
        old(w).wf(),
    ensures
        final(w).wf(),
        final(w).base() == old(w).base(),
        final(w).frags() == member_lines(
            line(frag(blank_line(old(w).frags()), "        // "@), category@),
            "        .function(\""@,
            values(specs@).map_values(|m: MethodSpec| m.name@),
            "\", &OcctKernel::"@,
            ")"@,
        ),
{
    w.blank();
    w.put("        // ");
    w.put_ln(category);
    let ghost f0 = w.frags();
    let ghost ns = values(specs@).map_values(|m: MethodSpec| m.name@);
    proof {
        assert(ns.take(0) =~= Seq::<Seq<char>>::empty());
    }
    for i in 0..specs.len()
        invariant
            ns == values(specs@).map_values(|m: MethodSpec| m.name@),
            w.wf(),
            w.base() == old(w).base(),
            w.frags() == member_lines(
                f0,
                "        .function(\""@,
                ns.take(i as int),
                "\", &OcctKernel::"@,
                ")"@,
            ),
    {
        proof {
            assert(ns.take(i + 1).drop_last() =~= ns.take(i as int));
            assert(ns.take(i + 1).last() == specs@[i as int].name@);
        }
        let name = specs[i].name;
        w.put("        .function(\"");
        w.put(name);
        w.put("\", &OcctKernel::");
        w.put(name);
        w.put_ln(")");
    }
    proof {
        assert(ns.take(specs@.len() as int) =~= ns);
    }
}

/// Generates the contents of `facade/generated/bindings.cpp`, which registers
/// every generated method, and the value types they use, with Embind.
pub fn emit_bindings(methods: &[&MethodSpec]) -> (r: String)
    ensures
        r@ == bindings_text(values(methods@)),
{
    let ghost ms = values(methods@);
    let ghost e = Seq::<Seq<char>>::empty();
    let mut w = TextWriter::new(String::new());
    emit_bindings_header(&mut w);
    w.put_ln("    // Vector types");
    emit_vector_type(&mut w, "uint32_t", "VectorUint32");
    emit_vector_type(&mut w, "double", "VectorDouble");
    emit_vector_type(&mut w, "int", "VectorInt");
    w.blank();
    emit_mesh_data_binding(&mut w);
    w.put_ln("    // MeshBatchData");
    w.put_ln("    class_<MeshBatchData>(\"MeshBatchData\")");
    let batch_functions: &[&str] = &[
        "getPositionsPtr",
        "getNormalsPtr",
        "getIndicesPtr",
        "getShapeOffsetsPtr",
    ];
    let batch_properties: &[&str] = &["positionCount", "normalCount", "indexCount", "shapeCount"];
    emit_member_lines(&mut w, "        .function(\"", batch_functions, "\", &MeshBatchData::", ")");
    emit_member_lines(
        &mut w,
        "        .property(\"",
        batch_properties,
        "\", &MeshBatchData::",
        ")",
    );
    proof {
        assert(strs(batch_functions@) =~= seq![
            "getPositionsPtr"@,
            "getNormalsPtr"@,
            "getIndicesPtr"@,
            "getShapeOffsetsPtr"@,
        ]);
        assert(strs(batch_properties@) =~= seq![
            "positionCount"@,
            "normalCount"@,
            "indexCount"@,
            "shapeCount"@,
        ]);
        assert(w.frags() == bindings_intro_frags(e));
        assert(w.base() + w.frags().flatten() =~= bindings_intro_frags(e).flatten());
    }
    let mut w = close_chain_and_continue(w);
    let ghost t1 = close_chain(bindings_intro_frags(e).flatten());
    assert(w.base() == t1);

    let bbox_fields: &[&str] = &["xmin", "ymin", "zmin", "xmax", "ymax", "zmax"];
    w.blank();
    emit_struct_chain(
        &mut w,
        "    // BBoxData",
        "    value_object<BBoxData>(\"BBoxData\")",
        "        .field(\"",
        bbox_fields,
        "\", &BBoxData::",
    );
    proof {
        assert(strs(bbox_fields@) =~= seq!["xmin"@, "ymin"@, "zmin"@, "xmax"@, "ymax"@, "zmax"@]);
        assert(w.frags() == bbox_frags(blank_line(e)));
    }
    let mut w = close_chain_and_continue(w);
    let ghost t2 = close_chain(t1 + bbox_frags(blank_line(e)).flatten());
    assert(w.base() == t2);

    w.blank();
    emit_edge_data_binding(&mut w);
    assert(w.frags() == edge_data_binding_frags(blank_line(e)));
    let ghost t3 = t2 + edge_data_binding_frags(blank_line(e)).flatten();

    let projection_fields: &[&str] = &[
        "visibleOutline",
        "visibleSmooth",
        "visibleSharp",
        "hiddenOutline",
        "hiddenSmooth",
        "hiddenSharp",
    ];
    let mut w = TextWriter::new(w.finish());
    assert(w.base() == t3);
    emit_struct_chain(
        &mut w,
        "    // ProjectionData",
        "    value_object<ProjectionData>(\"ProjectionData\")",
        "        .field(\"",
        projection_fields,
        "\", &ProjectionData::",
    );
    proof {
        assert(strs(projection_fields@) =~= seq![
            "visibleOutline"@,
            "visibleSmooth"@,
            "visibleSharp"@,
            "hiddenOutline"@,
            "hiddenSmooth"@,
            "hiddenSharp"@,
        ]);
    }
    let mut w = close_chain_and_continue(w);
    let ghost t4 = close_chain(t3 + projection_frags(e).flatten());
    assert(w.base() == t4);

    let nurbs_properties: &[&str] = &[
        "degree",
        "rational",
        "periodic",
        "knots",
        "multiplicities",
        "poles",
        "weights",
    ];
    w.blank();
    emit_struct_chain(
        &mut w,
        "    // NurbsCurveData",
        "    class_<NurbsCurveData>(\"NurbsCurveData\")",
        "        .property(\"",
        nurbs_properties,
        "\", &NurbsCurveData::",
    );
    proof {
        assert(strs(nurbs_properties@) =~= seq![
            "degree"@,
            "rational"@,
            "periodic"@,
            "knots"@,
            "multiplicities"@,
            "poles"@,
            "weights"@,
        ]);
    }
    let mut w = close_chain_and_continue(w);
    let ghost t5 = close_chain(t4 + nurbs_frags(blank_line(e)).flatten());
    assert(w.base() == t5);

    let evolution_properties: &[&str] = &["resultId", "modified", "generated", "deleted"];
    w.blank();
    emit_struct_chain(
        &mut w,
        "    // EvolutionData",
        "    class_<EvolutionData>(\"EvolutionData\")",
        "        .property(\"",
        evolution_properties,
        "\", &EvolutionData::",
    );
    proof {
        assert(strs(evolution_properties@) =~= seq![
            "resultId"@,
            "modified"@,
            "generated"@,
            "deleted"@,
        ]);
    }
    let mut w = close_chain_and_continue(w);
    let ghost t6 = close_chain(t5 + evolution_data_frags(blank_line(e)).flatten());
    assert(w.base() == t6);

    let xcaf_fields: &[&str] = &[
        "labelId",
        "name",
        "hasColor",
        "r",
        "g",
        "b",
        "isAssembly",
        "isComponent",
        "shapeId",
    ];
    w.blank();
    emit_struct_chain(
        &mut w,
        "    // XCAFLabelInfo",
        "    value_object<XCAFLabelInfo>(\"XCAFLabelInfo\")",
        "        .field(\"",
        xcaf_fields,
        "\", &XCAFLabelInfo::",
    );
    proof {
        assert(strs(xcaf_fields@) =~= seq![
            "labelId"@,
            "name"@,
            "hasColor"@,
            "r"@,
            "g"@,
            "b"@,
            "isAssembly"@,
            "isComponent"@,
            "shapeId"@,
        ]);
    }
    let mut w = close_chain_and_continue(w);
    let ghost t7 = close_chain(t6 + xcaf_frags(blank_line(e)).flatten());
    assert(w.base() == t7);
    assert(t7 == bindings_structs());

    // OcctKernel method bindings, one group per category.
    w.blank();
    w.put_ln("    // OcctKernel");
    w.put_ln("    class_<OcctKernel>(\"OcctKernel\")");
    w.put_ln("        .constructor<>()");
    let groups = group_by_category(methods);
    let ghost cats = categories(ms);
    let ghost f0 = w.frags();
    proof {
        assert(cats.take(0) =~= Seq::<Seq<char>>::empty());
    }
    for g in 0..groups.len()
        invariant
            groups_match(groups@, ms),
            cats == categories(ms),
            w.wf(),
            w.base() == t7,
            f0 == line(line(line(blank_line(e), "    // OcctKernel"@), "    class_<OcctKernel>(\"OcctKernel\")"@), "        .constructor<>()"@),
            w.frags() == kernel_bindings_frags(f0, ms, cats.take(g as int)),
    {
        proof {
            assert(cats.take(g + 1).drop_last() =~= cats.take(g as int));
            assert(cats.take(g + 1).last() == cats[g as int]);
        }
        let category = groups[g].0;
        let specs = &groups[g].1;
        emit_group_bindings(&mut w, category, specs);
        proof {
            assert(values(specs@).map_values(|m: MethodSpec| m.name@) =~= in_category(
                ms,
                cats[g as int],
            ).map_values(|m: MethodSpec| m.name@));
        }
    }
    proof {
        assert(cats.take(cats.len() as int) =~= cats);
    }
    let mut s = w.finish();
    close_embind_chain(&mut s);
    assert(w.frags() == occt_kernel_frags(e, ms));
    let ghost t8 = close_chain(t7 + occt_kernel_frags(e, ms).flatten());
    assert(s@ == t8);
    s.append("}");
    s.append("\n");
    finish_text(s)
}


} // verus!

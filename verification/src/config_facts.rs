//! Why the bundled method list passes validation.
//!
//! Validation accepts a list exactly when the method names are pairwise
//! distinct and each method is well formed on its own (see
//! [`lemma_validate_accepts_iff`]). Each method is checked on its own, part
//! by part. The names are told apart by sorting them: [`sorted_names`] lists
//! them in strictly increasing order, [`name_rank`] gives the position of each
//! method's name in that list, and [`by_name`] undoes [`name_rank`].

use vstd::prelude::*;
use crate::config::{
    bundled_specs, bundled_part_00, bundled_part_01, bundled_part_02, bundled_part_03,
    bundled_part_04, bundled_part_05, bundled_part_06, bundled_part_07, bundled_part_08,
    bundled_part_09, bundled_part_10, bundled_part_11, bundled_part_12, bundled_part_13,
    bundled_part_14, bundled_part_15, bundled_part_16, bundled_part_17, bundled_part_18,
    bundled_part_19, bundled_part_20,
};
use crate::text::{
    contains_seq, join, occurs_at, lemma_chain_strictly_sorted, lemma_lex_irreflexive, lemma_pairwise_ordered_distinct, lex_lt,
    pairwise_ordered,
};
use crate::types::{FacadeParam, MethodKind, MethodSpec};
use crate::validation::{
    has_ascii_upper, kind_error, lemma_validate_accepts_iff, method_well_formed,
    validation_result,
};

verus! {

/// The parameter names of `m`, in order.
pub open spec fn param_names(m: MethodSpec) -> Seq<Seq<char>> {
    m.params@.map_values(|p: FacadeParam| p.spec_name())
}

/// Every method of `ms` is well formed on its own.
pub open spec fn all_well_formed(ms: Seq<MethodSpec>) -> bool {
    forall|i: int| 0 <= i < ms.len() ==> method_well_formed(#[trigger] ms[i])
}

proof fn lemma_well_formed(m: MethodSpec)
    requires
        !has_ascii_upper(m.category@),
        kind_error(m) is None,
        forall|k: int| 0 <= k < m.params@.len() ==> (#[trigger] m.params@[k]).spec_name().len() > 0,
        pairwise_ordered(param_names(m)),
    ensures
        method_well_formed(m),
{
    lemma_pairwise_ordered_distinct(param_names(m));
    assert forall|j: int, k: int| 0 <= j < k < m.params@.len() implies (
    #[trigger] m.params@[j]).spec_name() != (#[trigger] m.params@[k]).spec_name() by {
        assert(param_names(m)[j] == m.params@[j].spec_name());
        assert(param_names(m)[k] == m.params@[k].spec_name());
    }
}

proof fn lemma_all_well_formed_concat(a: Seq<MethodSpec>, b: Seq<MethodSpec>)
    requires
        all_well_formed(a),
        all_well_formed(b),
    ensures
        all_well_formed(a + b),
{
    assert forall|i: int| 0 <= i < (a + b).len() implies method_well_formed(#[trigger] (a + b)[i]) by {
        if i < a.len() {
            assert((a + b)[i] == a[i]);
        } else {
            assert((a + b)[i] == b[i - a.len()]);
        }
    }
}

/// The methods of [`bundled_part_00`] are well formed, checked against the
/// characters of the literals they hold.
proof fn lemma_part_00_well_formed()
    ensures
        all_well_formed(bundled_part_00()),
{
    reveal_strlit("primitives");
    reveal_strlit("BRepPrimAPI_MakeBox");
    reveal_strlit("dx");
    reveal_strlit("dy");
    reveal_strlit("dz");
    reveal_strlit("x1");
    reveal_strlit("y1");
    reveal_strlit("z1");
    reveal_strlit("x2");
    reveal_strlit("y2");
    reveal_strlit("z2");
    reveal_strlit("BRepPrimAPI_MakeCylinder");
    reveal_strlit("radius");
    reveal_strlit("height");
    reveal_strlit("BRepPrimAPI_MakeSphere");
    reveal_strlit("BRepPrimAPI_MakeCone");
    reveal_strlit("r1");
    reveal_strlit("r2");
    reveal_strlit("BRepPrimAPI_MakeTorus");
    reveal_strlit("majorRadius");
    reveal_strlit("minorRadius");
    reveal_strlit("\
double maxR = std::max({rx, ry, rz});
BRepPrimAPI_MakeSphere sphereMaker(maxR);
sphereMaker.Build();
if (!sphereMaker.IsDone()) {
    throw std::runtime_error(\"makeEllipsoid: sphere construction failed\");
}
gp_GTrsf gt;
gt.SetValue(1, 1, rx / maxR);
gt.SetValue(2, 2, ry / maxR);
gt.SetValue(3, 3, rz / maxR);
BRepBuilderAPI_GTransform xform(sphereMaker.Shape(), gt, true);
if (!xform.IsDone()) {
    throw std::runtime_error(\"makeEllipsoid: transform failed\");
}
return store(xform.Shape());");
    reveal_strlit("rx");
    reveal_strlit("ry");
    reveal_strlit("rz");
    reveal_strlit("\
gp_Pnt origin(ox, oy, oz);
gp_Dir normal(nx, ny, nz);
gp_Pln plane(origin, normal);
TopoDS_Face face = BRepBuilderAPI_MakeFace(plane).Face();
gp_Pnt refPnt = origin.Translated(gp_Vec(normal));
BRepPrimAPI_MakeHalfSpace maker(face, refPnt);
if (!maker.IsDone()) {
    throw std::runtime_error(\"halfSpace: construction failed\");
}
return store(maker.Solid());");
    reveal_strlit("ox");
    reveal_strlit("oy");
    reveal_strlit("oz");
    reveal_strlit("nx");
    reveal_strlit("ny");
    reveal_strlit("nz");
    reveal_strlit("\
gp_Pnt p0(0, 0, 0), p1(width, 0, 0), p2(width, height, 0), p3(0, height, 0);
BRepBuilderAPI_MakeWire wireMaker;
wireMaker.Add(BRepBuilderAPI_MakeEdge(p0, p1).Edge());
wireMaker.Add(BRepBuilderAPI_MakeEdge(p1, p2).Edge());
wireMaker.Add(BRepBuilderAPI_MakeEdge(p2, p3).Edge());
wireMaker.Add(BRepBuilderAPI_MakeEdge(p3, p0).Edge());
if (!wireMaker.IsDone()) {
    throw std::runtime_error(\"makeRectangle: wire construction failed\");
}
BRepBuilderAPI_MakeFace faceMaker(wireMaker.Wire());
if (!faceMaker.IsDone()) {
    throw std::runtime_error(\"makeRectangle: face construction failed\");
}
return store(faceMaker.Shape());");
    reveal_strlit("width");
    reveal_strlit("booleans");
    reveal_strlit("BRepAlgoAPI_Fuse");
    reveal_strlit("a");
    reveal_strlit("b");
    reveal_with_fuel(lex_lt, 3);
    let ms = bundled_part_00();
    lemma_well_formed(ms[0]);
    lemma_well_formed(ms[1]);
    lemma_well_formed(ms[2]);
    lemma_well_formed(ms[3]);
    lemma_well_formed(ms[4]);
    lemma_well_formed(ms[5]);
    lemma_well_formed(ms[6]);
    lemma_well_formed(ms[7]);
    lemma_well_formed(ms[8]);
    lemma_well_formed(ms[9]);
}

/// The methods of [`bundled_part_01`] are well formed, checked against the
/// characters of the literals they hold.
proof fn lemma_part_01_well_formed()
    ensures
        all_well_formed(bundled_part_01()),
{
    reveal_strlit("booleans");
    reveal_strlit("BRepAlgoAPI_Cut");
    reveal_strlit("a");
    reveal_strlit("b");
    reveal_strlit("BRepAlgoAPI_Common");
    reveal_strlit("BRepAlgoAPI_Section");
    reveal_strlit("return common(a, b);");
    reveal_strlit("\
if (shapeIds.empty()) {
    throw std::runtime_error(\"fuseAll: no shapes provided\");
}
if (shapeIds.size() == 1) {
    return store(get(shapeIds[0]));
}
NCollection_List<TopoDS_Shape> args;
for (uint32_t sid : shapeIds) {
    args.Append(get(sid));
}
BRepAlgoAPI_BuilderAlgo builder;
builder.SetArguments(args);
builder.SetRunParallel(true);
builder.SetUseOBB(true);
builder.Build();
if (!builder.IsDone() || builder.HasErrors()) {
    throw std::runtime_error(\"fuseAll: operation failed\");
}
return store(builder.Shape());");
    reveal_strlit("shapeIds");
    reveal_strlit("\
if (shapeIds.size() < 2) {
    throw std::runtime_error(\"intersectionCells: need at least 2 shapes\");
}
std::vector<TopoDS_Shape> shapes;
NCollection_List<TopoDS_Shape> args;
for (uint32_t sid : shapeIds) {
    const auto& s = get(sid);
    shapes.push_back(s);
    args.Append(s);
}
BOPAlgo_CellsBuilder builder;
builder.SetArguments(args);
builder.Perform();
if (builder.HasErrors()) {
    throw std::runtime_error(\"intersectionCells: build failed\");
}
builder.RemoveAllFromResult();
for (size_t i = 0; i < shapes.size(); ++i) {
    for (size_t j = i + 1; j < shapes.size(); ++j) {
        NCollection_List<TopoDS_Shape> take;
        take.Append(shapes[i]);
        take.Append(shapes[j]);
        NCollection_List<TopoDS_Shape> avoid;
        builder.AddToResult(take, avoid, 1, false);
    }
}
builder.RemoveInternalBoundaries();
return store(builder.Shape());");
    reveal_strlit("\
if (toolIds.empty()) {
    return store(get(shapeId));
}
NCollection_List<TopoDS_Shape> args;
args.Append(get(shapeId));
NCollection_List<TopoDS_Shape> tools;
for (uint32_t tid : toolIds) {
    tools.Append(get(tid));
}
BRepAlgoAPI_Cut cutter;
cutter.SetArguments(args);
cutter.SetTools(tools);
cutter.SetRunParallel(true);
cutter.SetUseOBB(true);
cutter.Build();
if (!cutter.IsDone() || cutter.HasErrors()) {
    throw std::runtime_error(\"cutAll: operation failed\");
}
return store(cutter.Shape());");
    reveal_strlit("shapeId");
    reveal_strlit("toolIds");
    reveal_strlit("\
if (opCodes.size() != toolIds.size()) {
    throw std::runtime_error(\"booleanPipeline: opCodes and toolIds must have same length\");
}
TopoDS_Shape current = get(baseId);
for (size_t i = 0; i < opCodes.size(); i++) {
    const auto& tool = get(toolIds[i]);
    bool isLast = (i == opCodes.size() - 1);
    Message_ProgressRange progress;
    switch (opCodes[i]) {
    case 0: { BRepAlgoAPI_Fuse op(current, tool, progress); if (!op.IsDone() || op.HasErrors()) throw std::runtime_error(\"booleanPipeline: fuse step failed\"); current = op.Shape(); break; }
    case 1: { BRepAlgoAPI_Cut op(current, tool, progress); if (!op.IsDone() || op.HasErrors()) throw std::runtime_error(\"booleanPipeline: cut step failed\"); current = op.Shape(); break; }
    case 2: { BRepAlgoAPI_Common op(current, tool, progress); if (!op.IsDone() || op.HasErrors()) throw std::runtime_error(\"booleanPipeline: intersect step failed\"); current = op.Shape(); break; }
    default: throw std::runtime_error(\"booleanPipeline: unknown opCode\");
    }
    if (isLast) {
        ShapeUpgrade_UnifySameDomain upgrader(current, Standard_True, Standard_True, Standard_False);
        upgrader.Build();
        current = upgrader.Shape();
    }
}
return store(current);");
    reveal_strlit("baseId");
    reveal_strlit("opCodes");
    reveal_strlit("\
NCollection_List<TopoDS_Shape> args;
args.Append(get(shapeId));
NCollection_List<TopoDS_Shape> tools;
for (uint32_t tid : toolIds) {
    tools.Append(get(tid));
}
BRepAlgoAPI_Splitter splitter;
splitter.SetArguments(args);
splitter.SetTools(tools);
splitter.Build();
if (!splitter.IsDone() || splitter.HasErrors()) {
    throw std::runtime_error(\"split: operation failed\");
}
return store(splitter.Shape());");
    reveal_strlit("modeling");
    reveal_strlit("\
BRepPrimAPI_MakePrism maker(get(shapeId), gp_Vec(dx, dy, dz));
maker.Build();
if (!maker.IsDone()) {
    throw std::runtime_error(\"extrude: construction failed\");
}
return store(normalizeSolidOrientation(maker.Shape()));");
    reveal_strlit("dx");
    reveal_strlit("dy");
    reveal_strlit("dz");
    reveal_with_fuel(lex_lt, 3);
    let ms = bundled_part_01();
    lemma_well_formed(ms[0]);
    lemma_well_formed(ms[1]);
    lemma_well_formed(ms[2]);
    lemma_well_formed(ms[3]);
    lemma_well_formed(ms[4]);
    lemma_well_formed(ms[5]);
    lemma_well_formed(ms[6]);
    lemma_well_formed(ms[7]);
    lemma_well_formed(ms[8]);
    lemma_well_formed(ms[9]);
}

/// The methods of [`bundled_part_02`] are well formed, checked against the
/// characters of the literals they hold.
proof fn lemma_part_02_well_formed()
    ensures
        all_well_formed(bundled_part_02()),
{
    reveal_strlit("modeling");
    reveal_strlit("\
BRepPrimAPI_MakeRevol maker(get(shapeId), gp_Ax1(gp_Pnt(px, py, pz), gp_Dir(dx, dy, dz)), angleRad);
maker.Build();
if (!maker.IsDone()) {
    throw std::runtime_error(\"revolve: construction failed\");
}
// A profile face whose normal opposes the axis of revolution yields the same
// inside-out solid as extrude; normalize so downstream booleans accept it.
return store(normalizeSolidOrientation(maker.Shape()));");
    reveal_strlit("shapeId");
    reveal_strlit("px");
    reveal_strlit("py");
    reveal_strlit("pz");
    reveal_strlit("dx");
    reveal_strlit("dy");
    reveal_strlit("dz");
    reveal_strlit("angleRad");
    reveal_strlit("BRepFilletAPI_MakeFillet");
    reveal_strlit("solidId");
    reveal_strlit("edgeIds");
    reveal_strlit("radius");
    reveal_strlit("BRepFilletAPI_MakeChamfer");
    reveal_strlit("distance");
    reveal_strlit("\
double angleRad = angleDeg * M_PI / 180.0;
const auto& solid = get(solidId);
BRepFilletAPI_MakeChamfer maker(TopoDS::Solid(solid));
for (uint32_t eid : edgeIds) {
    const TopoDS_Edge& edge = TopoDS::Edge(get(eid));
    TopoDS_Face adjFace;
    for (TopExp_Explorer ex(solid, TopAbs_FACE); ex.More(); ex.Next()) {
        const TopoDS_Face& f = TopoDS::Face(ex.Current());
        for (TopExp_Explorer ex2(f, TopAbs_EDGE); ex2.More(); ex2.Next()) {
            if (ex2.Current().IsSame(edge)) { adjFace = f; break; }
        }
        if (!adjFace.IsNull()) break;
    }
    if (adjFace.IsNull()) {
        throw std::runtime_error(\"chamferDistAngle: no adjacent face found for edge\");
    }
    maker.AddDA(distance, angleRad, edge, adjFace);
}
maker.Build();
if (!maker.IsDone()) {
    throw std::runtime_error(\"chamferDistAngle: operation failed\");
}
return store(unwrapSingletonSolid(maker.Shape()));");
    reveal_strlit("angleDeg");
    reveal_strlit("\
const TopoDS_Wire wire = TopoDS::Wire(get(wireId));
BRepBuilderAPI_MakeFace mkFace(wire);
if (!mkFace.IsDone()) {
    throw std::runtime_error(\"fillet2D: cannot build face from wire\");
}
TopoDS_Face face = mkFace.Face();
BRepFilletAPI_MakeFillet2d maker(face);
std::vector<gp_Pnt> seen;
const double eps = 1e-7;
for (TopExp_Explorer exp(face, TopAbs_VERTEX); exp.More(); exp.Next()) {
    const TopoDS_Vertex& v = TopoDS::Vertex(exp.Current());
    gp_Pnt p = BRep_Tool::Pnt(v);
    bool dup = false;
    for (const auto& q : seen) {
        if (std::abs(p.X() - q.X()) < eps && std::abs(p.Y() - q.Y()) < eps
            && std::abs(p.Z() - q.Z()) < eps) {
            dup = true;
            break;
        }
    }
    if (dup) continue;
    seen.push_back(p);
    try {
        maker.AddFillet(v, radius);
    } catch (const Standard_Failure&) {
        // Skip vertices where the fillet is geometrically impossible.
    }
}
maker.Build();
if (!maker.IsDone()) {
    throw std::runtime_error(\"fillet2D: operation failed\");
}
TopoDS_Face result = TopoDS::Face(maker.Shape());
return store(BRepTools::OuterWire(result));");
    reveal_strlit("wireId");
    reveal_strlit("\
NCollection_List<TopoDS_Shape> facesToRemove;
for (uint32_t fid : faceIds) {
    facesToRemove.Append(get(fid));
}
BRepOffsetAPI_MakeThickSolid maker;
maker.MakeThickSolidByJoin(get(solidId), facesToRemove, -thickness, tolerance);
maker.Build();
if (!maker.IsDone()) {
    throw std::runtime_error(\"shell: operation failed\");
}
return store(maker.Shape());");
    reveal_strlit("faceIds");
    reveal_strlit("thickness");
    reveal_strlit("tolerance");
    reveal_strlit("\
BRepOffsetAPI_MakeOffsetShape maker;
maker.PerformByJoin(get(solidId), distance, tolerance);
maker.Build();
if (!maker.IsDone()) {
    throw std::runtime_error(\"offset: operation failed\");
}
return store(maker.Shape());");
    reveal_strlit("\
gp_Dir pullDir(dx, dy, dz);
BRepOffsetAPI_DraftAngle maker(get(shapeId));
maker.Add(TopoDS::Face(get(faceId)), pullDir, angleRad, gp_Pln());
maker.Build();
if (!maker.IsDone()) {
    throw std::runtime_error(\"draft: operation failed\");
}
return store(maker.Shape());");
    reveal_strlit("faceId");
    reveal_strlit("\
const auto& shape = get(shapeId);
if (shape.ShapeType() == TopAbs_FACE || shape.ShapeType() == TopAbs_SHELL) {
    BRepOffset_MakeOffset offsetMaker;
    offsetMaker.Initialize(shape, thickness, tolerance, BRepOffset_Skin, false, false, GeomAbs_Arc, true);
    offsetMaker.MakeOffsetShape();
    if (!offsetMaker.IsDone()) {
        throw std::runtime_error(\"thicken: offset operation failed\");
    }
    return store(offsetMaker.Shape());
}
NCollection_List<TopoDS_Shape> emptyList;
BRepOffsetAPI_MakeThickSolid maker;
maker.MakeThickSolidByJoin(shape, emptyList, thickness, tolerance);
maker.Build();
if (!maker.IsDone()) {
    throw std::runtime_error(\"thicken: operation failed\");
}
return store(maker.Shape());");
    reveal_strlit("\
NCollection_List<TopoDS_Shape> facesToRemove;
for (uint32_t fid : faceIds) {
    facesToRemove.Append(get(fid));
}
BRepAlgoAPI_Defeaturing maker;
maker.SetShape(get(shapeId));
maker.AddFacesToRemove(facesToRemove);
if (tolerance > 0.0) {
    maker.SetFuzzyValue(tolerance);
}
maker.Build();
if (!maker.IsDone() || maker.HasErrors()) {
    throw std::runtime_error(\"defeature: operation failed\");
}
return store(maker.Shape());");
    reveal_with_fuel(lex_lt, 3);
    let ms = bundled_part_02();
    lemma_well_formed(ms[0]);
    lemma_well_formed(ms[1]);
    lemma_well_formed(ms[2]);
    lemma_well_formed(ms[3]);
    lemma_well_formed(ms[4]);
    lemma_well_formed(ms[5]);
    lemma_well_formed(ms[6]);
    lemma_well_formed(ms[7]);
    lemma_well_formed(ms[8]);
    lemma_well_formed(ms[9]);
}

/// The methods of [`bundled_part_03`] are well formed, checked against the
/// characters of the literals they hold.
proof fn lemma_part_03_well_formed()
    ensures
        all_well_formed(bundled_part_03()),
{
    reveal_strlit("modeling");
    reveal_strlit("return store(get(id).Reversed());");
    reveal_strlit("id");
    reveal_strlit("return unifySameDomain(id);");
    reveal_strlit("\
BRepFilletAPI_MakeFillet maker(TopoDS::Solid(get(solidId)));
maker.Add(startRadius, endRadius, TopoDS::Edge(get(edgeId)));
maker.Build();
if (!maker.IsDone()) {
    throw std::runtime_error(\"filletVariable: operation failed\");
}
return store(unwrapSingletonSolid(maker.Shape()));");
    reveal_strlit("solidId");
    reveal_strlit("edgeId");
    reveal_strlit("startRadius");
    reveal_strlit("endRadius");
    reveal_strlit("\
if (solidIds.size() != edgeCounts.size() || solidIds.size() != radii.size()) {
    throw std::runtime_error(\"filletBatch: solidIds, edgeCounts, and radii must have same length\");
}
size_t edgeOffset = 0;
size_t totalEdges = 0;
for (size_t i = 0; i < edgeCounts.size(); i++) totalEdges += static_cast<size_t>(edgeCounts[i]);
if (flatEdgeIds.size() != totalEdges) {
    throw std::runtime_error(\"filletBatch: flatEdgeIds length must equal sum of edgeCounts\");
}
std::vector<uint32_t> results;
results.reserve(solidIds.size());
for (size_t i = 0; i < solidIds.size(); i++) {
    BRepFilletAPI_MakeFillet maker(TopoDS::Solid(get(solidIds[i])));
    for (int j = 0; j < edgeCounts[i]; j++) {
        maker.Add(radii[i], TopoDS::Edge(get(flatEdgeIds[edgeOffset + j])));
    }
    maker.Build();
    if (!maker.IsDone()) throw std::runtime_error(\"filletBatch: fillet failed on solid \" + std::to_string(i));
    results.push_back(store(unwrapSingletonSolid(maker.Shape())));
    edgeOffset += static_cast<size_t>(edgeCounts[i]);
}
return results;");
    reveal_strlit("solidIds");
    reveal_strlit("edgeCounts");
    reveal_strlit("flatEdgeIds");
    reveal_strlit("radii");
    reveal_strlit("\
GeomAbs_JoinType jt;
switch (joinType) {
case 1: jt = GeomAbs_Intersection; break;
case 2: jt = GeomAbs_Tangent; break;
default: jt = GeomAbs_Arc; break;
}
BRepOffsetAPI_MakeOffset maker(TopoDS::Wire(get(wireId)), jt);
maker.Perform(offset);
if (!maker.IsDone()) {
    throw std::runtime_error(\"offsetWire2D: operation failed\");
}
return store(maker.Shape());");
    reveal_strlit("wireId");
    reveal_strlit("offset");
    reveal_strlit("joinType");
    reveal_strlit("transforms");
    reveal_strlit("BRepBuilderAPI_Transform");
    reveal_strlit("dx");
    reveal_strlit("dy");
    reveal_strlit("dz");
    reveal_strlit("px");
    reveal_strlit("py");
    reveal_strlit("pz");
    reveal_strlit("angleRad");
    reveal_strlit("factor");
    reveal_strlit("nx");
    reveal_strlit("ny");
    reveal_strlit("nz");
    reveal_strlit("BRepBuilderAPI_Copy");
    reveal_with_fuel(lex_lt, 3);
    let ms = bundled_part_03();
    lemma_well_formed(ms[0]);
    lemma_well_formed(ms[1]);
    lemma_well_formed(ms[2]);
    lemma_well_formed(ms[3]);
    lemma_well_formed(ms[4]);
    lemma_well_formed(ms[5]);
    lemma_well_formed(ms[6]);
    lemma_well_formed(ms[7]);
    lemma_well_formed(ms[8]);
    lemma_well_formed(ms[9]);
}

/// The methods of [`bundled_part_04`] are well formed, checked against the
/// characters of the literals they hold.
proof fn lemma_part_04_well_formed()
    ensures
        all_well_formed(bundled_part_04()),
{
    reveal_strlit("transforms");
    reveal_strlit("\
TopoDS_Compound compound;
TopoDS_Builder builder;
builder.MakeCompound(compound);
const auto& original = get(id);
builder.Add(compound, original);
gp_Vec step(dx, dy, dz);
step.Normalize();
step.Multiply(spacing);
for (int i = 1; i < count; i++) {
    gp_Trsf trsf;
    gp_Vec offset = step.Multiplied(static_cast<double>(i));
    trsf.SetTranslation(offset);
    BRepBuilderAPI_Transform xform(original, trsf, true);
    builder.Add(compound, xform.Shape());
}
return store(compound);");
    reveal_strlit("id");
    reveal_strlit("dx");
    reveal_strlit("dy");
    reveal_strlit("dz");
    reveal_strlit("spacing");
    reveal_strlit("count");
    reveal_strlit("\
TopoDS_Compound compound;
TopoDS_Builder builder;
builder.MakeCompound(compound);
const auto& original = get(id);
builder.Add(compound, original);
gp_Ax1 axis(gp_Pnt(cx, cy, cz), gp_Dir(ax, ay, az));
double stepAngle = angle / static_cast<double>(count);
for (int i = 1; i < count; i++) {
    gp_Trsf trsf;
    trsf.SetRotation(axis, stepAngle * static_cast<double>(i));
    BRepBuilderAPI_Transform xform(original, trsf, true);
    builder.Add(compound, xform.Shape());
}
return store(compound);");
    reveal_strlit("cx");
    reveal_strlit("cy");
    reveal_strlit("cz");
    reveal_strlit("ax");
    reveal_strlit("ay");
    reveal_strlit("az");
    reveal_strlit("angle");
    reveal_strlit("\
if (matrix.size() != 12) {
    throw std::runtime_error(\"transform: matrix must have 12 elements (3x4)\");
}
gp_Trsf trsf;
trsf.SetValues(matrix[0], matrix[1], matrix[2], matrix[3], matrix[4], matrix[5], matrix[6],
               matrix[7], matrix[8], matrix[9], matrix[10], matrix[11]);
BRepBuilderAPI_Transform maker(get(id), trsf, true);
return store(maker.Shape());");
    reveal_strlit("matrix");
    reveal_strlit("\
gp_Ax3 fromAx(gp_Pnt(fox, foy, foz), gp_Dir(fnx, fny, fnz), gp_Dir(fxx, fxy, fxz));
gp_Ax3 toAx(gp_Pnt(tox, toy, toz), gp_Dir(tnx, tny, tnz), gp_Dir(txx, txy, txz));
gp_Trsf trsf;
trsf.SetTransformation(toAx, fromAx);
BRepBuilderAPI_Transform maker(get(shapeId), trsf, true);
return store(maker.Shape());");
    reveal_strlit("shapeId");
    reveal_strlit("fox");
    reveal_strlit("foy");
    reveal_strlit("foz");
    reveal_strlit("fnx");
    reveal_strlit("fny");
    reveal_strlit("fnz");
    reveal_strlit("fxx");
    reveal_strlit("fxy");
    reveal_strlit("fxz");
    reveal_strlit("tox");
    reveal_strlit("toy");
    reveal_strlit("toz");
    reveal_strlit("tnx");
    reveal_strlit("tny");
    reveal_strlit("tnz");
    reveal_strlit("txx");
    reveal_strlit("txy");
    reveal_strlit("txz");
    reveal_strlit("\
if (matrix.size() != 12) {
    throw std::runtime_error(\"located: matrix must have 12 elements (3x4)\");
}
gp_Trsf trsf;
trsf.SetValues(matrix[0], matrix[1], matrix[2], matrix[3], matrix[4], matrix[5], matrix[6],
               matrix[7], matrix[8], matrix[9], matrix[10], matrix[11]);
TopLoc_Location loc(trsf);
return store(get(id).Moved(loc));");
    reveal_strlit("\
if (matrix.size() != 12) {
    throw std::runtime_error(\"generalTransform: matrix must have 12 elements (3x4)\");
}
gp_GTrsf gt;
gt.SetValue(1, 1, matrix[0]); gt.SetValue(1, 2, matrix[1]); gt.SetValue(1, 3, matrix[2]); gt.SetValue(1, 4, matrix[3]);
gt.SetValue(2, 1, matrix[4]); gt.SetValue(2, 2, matrix[5]); gt.SetValue(2, 3, matrix[6]); gt.SetValue(2, 4, matrix[7]);
gt.SetValue(3, 1, matrix[8]); gt.SetValue(3, 2, matrix[9]); gt.SetValue(3, 3, matrix[10]); gt.SetValue(3, 4, matrix[11]);
BRepBuilderAPI_GTransform maker(get(id), gt, true);
if (!maker.IsDone()) {
    throw std::runtime_error(\"generalTransform: transform failed\");
}
return store(maker.Shape());");
    reveal_strlit("\
if (offsets.size() != ids.size() * 3) {
    throw std::runtime_error(\"translateBatch: offsets must have 3 * ids.size() elements\");
}
std::vector<uint32_t> results;
results.reserve(ids.size());
for (size_t i = 0; i < ids.size(); i++) {
    gp_Trsf trsf;
    trsf.SetTranslation(gp_Vec(offsets[i * 3], offsets[i * 3 + 1], offsets[i * 3 + 2]));
    BRepBuilderAPI_Transform maker(get(ids[i]), trsf, true);
    results.push_back(store(maker.Shape()));
}
return results;");
    reveal_strlit("ids");
    reveal_strlit("offsets");
    reveal_strlit("\
if (m1.size() != 12 || m2.size() != 12) {
    throw std::runtime_error(\"composeTransform: each matrix must have 12 elements\");
}
gp_Trsf t1, t2;
t1.SetValues(m1[0], m1[1], m1[2], m1[3], m1[4], m1[5], m1[6], m1[7], m1[8], m1[9], m1[10], m1[11]);
t2.SetValues(m2[0], m2[1], m2[2], m2[3], m2[4], m2[5], m2[6], m2[7], m2[8], m2[9], m2[10], m2[11]);
gp_Trsf result = t1.Multiplied(t2);
return {result.Value(1, 1), result.Value(1, 2), result.Value(1, 3), result.Value(1, 4),
        result.Value(2, 1), result.Value(2, 2), result.Value(2, 3), result.Value(2, 4),
        result.Value(3, 1), result.Value(3, 2), result.Value(3, 3), result.Value(3, 4)};");
    reveal_strlit("m1");
    reveal_strlit("m2");
    reveal_strlit("\
if (matrices.size() != ids.size() * 12) {
    throw std::runtime_error(\"transformBatch: matrices must have 12 * ids.size() elements\");
}
std::vector<uint32_t> results;
results.reserve(ids.size());
for (size_t i = 0; i < ids.size(); i++) {
    size_t o = i * 12;
    gp_Trsf trsf;
    trsf.SetValues(matrices[o], matrices[o+1], matrices[o+2], matrices[o+3],
                   matrices[o+4], matrices[o+5], matrices[o+6], matrices[o+7],
                   matrices[o+8], matrices[o+9], matrices[o+10], matrices[o+11]);
    BRepBuilderAPI_Transform maker(get(ids[i]), trsf, true);
    if (!maker.IsDone()) throw std::runtime_error(\"transformBatch: failed on shape \" + std::to_string(i));
    results.push_back(store(maker.Shape()));
}
return results;");
    reveal_strlit("matrices");
    reveal_strlit("\
if (params.size() != ids.size() * 7) {
    throw std::runtime_error(\"rotateBatch: params must have 7 * ids.size() elements (px,py,pz,dx,dy,dz,angle)\");
}
std::vector<uint32_t> results;
results.reserve(ids.size());
for (size_t i = 0; i < ids.size(); i++) {
    size_t o = i * 7;
    gp_Trsf trsf;
    trsf.SetRotation(gp_Ax1(gp_Pnt(params[o], params[o+1], params[o+2]),
                             gp_Dir(params[o+3], params[o+4], params[o+5])), params[o+6]);
    BRepBuilderAPI_Transform maker(get(ids[i]), trsf, true);
    results.push_back(store(maker.Shape()));
}
return results;");
    reveal_strlit("params");
    reveal_with_fuel(lex_lt, 4);
    let ms = bundled_part_04();
    lemma_well_formed(ms[0]);
    lemma_well_formed(ms[1]);
    lemma_well_formed(ms[2]);
    lemma_well_formed(ms[3]);
    lemma_well_formed(ms[4]);
    lemma_well_formed(ms[5]);
    lemma_well_formed(ms[6]);
    lemma_well_formed(ms[7]);
    lemma_well_formed(ms[8]);
    lemma_well_formed(ms[9]);
}

/// The methods of [`bundled_part_05`] are well formed, checked against the
/// characters of the literals they hold.
proof fn lemma_part_05_well_formed()
    ensures
        all_well_formed(bundled_part_05()),
{
    reveal_strlit("transforms");
    reveal_strlit("\
if (params.size() != ids.size() * 4) {
    throw std::runtime_error(\"scaleBatch: params must have 4 * ids.size() elements (px,py,pz,factor)\");
}
std::vector<uint32_t> results;
results.reserve(ids.size());
for (size_t i = 0; i < ids.size(); i++) {
    size_t o = i * 4;
    gp_Trsf trsf;
    trsf.SetScale(gp_Pnt(params[o], params[o+1], params[o+2]), params[o+3]);
    BRepBuilderAPI_Transform maker(get(ids[i]), trsf, true);
    results.push_back(store(maker.Shape()));
}
return results;");
    reveal_strlit("ids");
    reveal_strlit("params");
    reveal_strlit("\
if (params.size() != ids.size() * 6) {
    throw std::runtime_error(\"mirrorBatch: params must have 6 * ids.size() elements (px,py,pz,nx,ny,nz)\");
}
std::vector<uint32_t> results;
results.reserve(ids.size());
for (size_t i = 0; i < ids.size(); i++) {
    size_t o = i * 6;
    gp_Trsf trsf;
    trsf.SetMirror(gp_Ax2(gp_Pnt(params[o], params[o+1], params[o+2]),
                           gp_Dir(params[o+3], params[o+4], params[o+5])));
    BRepBuilderAPI_Transform maker(get(ids[i]), trsf, true);
    results.push_back(store(maker.Shape()));
}
return results;");
    reveal_strlit("construction");
    reveal_strlit("\
BRepBuilderAPI_MakeVertex maker(gp_Pnt(x, y, z));
return store(maker.Shape());");
    reveal_strlit("x");
    reveal_strlit("y");
    reveal_strlit("z");
    reveal_strlit("\
BRepBuilderAPI_MakeEdge maker(TopoDS::Vertex(get(v1)), TopoDS::Vertex(get(v2)));
if (!maker.IsDone()) {
    throw std::runtime_error(\"makeEdge: construction failed\");
}
return store(maker.Shape());");
    reveal_strlit("v1");
    reveal_strlit("v2");
    reveal_strlit("\
BRepBuilderAPI_MakeWire maker;
for (uint32_t eid : edgeIds) {
    maker.Add(TopoDS::Edge(get(eid)));
    // If Add fails partway, try continuing — the wire may still be usable
}
if (maker.IsDone()) {
    return store(maker.Shape());
}
// Fallback: try with increased tolerance via ShapeFix_Wire
// Build a wire from edges directly and let ShapeFix close gaps
BRep_Builder builder;
TopoDS_Wire rawWire;
builder.MakeWire(rawWire);
for (uint32_t eid : edgeIds) {
    builder.Add(rawWire, TopoDS::Edge(get(eid)));
}
ShapeFix_Wire fixer(rawWire, TopoDS_Face(), 1e-3);
fixer.FixConnected();
fixer.FixReorder();
if (fixer.Wire().IsNull()) {
    throw std::runtime_error(\"makeWire: construction failed (even with ShapeFix)\");
}
return store(fixer.Wire());");
    reveal_strlit("edgeIds");
    reveal_strlit("\
BRepBuilderAPI_MakeFace maker(TopoDS::Wire(get(wireId)));
if (!maker.IsDone()) {
    throw std::runtime_error(\"makeFace: construction failed\");
}
return store(maker.Shape());");
    reveal_strlit("wireId");
    reveal_strlit("\
// Extract surface from existing face, build new face with wire on that surface
Handle(Geom_Surface) surface = BRep_Tool::Surface(TopoDS::Face(get(faceId)));
BRepBuilderAPI_MakeFace maker(surface, TopoDS::Wire(get(wireId)), true);
if (!maker.IsDone()) {
    throw std::runtime_error(\"makeFaceOnSurface: construction failed\");
}
return store(maker.Shape());");
    reveal_strlit("faceId");
    reveal_strlit("\
const auto& shape = get(shellId);
// If already a solid, return as-is
if (shape.ShapeType() == TopAbs_SOLID) {
    return store(shape);
}
// If a compound, try to find a shell inside
if (shape.ShapeType() == TopAbs_COMPOUND) {
    for (TopExp_Explorer ex(shape, TopAbs_SHELL); ex.More(); ex.Next()) {
        BRepBuilderAPI_MakeSolid maker(TopoDS::Shell(ex.Current()));
        if (maker.IsDone()) {
            return store(maker.Shape());
        }
    }
    throw std::runtime_error(\"makeSolid: compound has no valid shell\");
}
BRepBuilderAPI_MakeSolid maker(TopoDS::Shell(shape));
if (!maker.IsDone()) {
    throw std::runtime_error(\"makeSolid: construction failed\");
}
return store(maker.Shape());");
    reveal_strlit("shellId");
    reveal_strlit("\
BRepBuilderAPI_Sewing sewer(tolerance);
for (uint32_t sid : shapeIds) {
    sewer.Add(get(sid));
}
sewer.Perform();
return store(sewer.SewedShape());");
    reveal_strlit("shapeIds");
    reveal_strlit("tolerance");
    reveal_strlit("\
TopoDS_Compound compound;
TopoDS_Builder builder;
builder.MakeCompound(compound);
for (uint32_t sid : shapeIds) {
    builder.Add(compound, get(sid));
}
return store(compound);");
    reveal_with_fuel(lex_lt, 3);
    let ms = bundled_part_05();
    lemma_well_formed(ms[0]);
    lemma_well_formed(ms[1]);
    lemma_well_formed(ms[2]);
    lemma_well_formed(ms[3]);
    lemma_well_formed(ms[4]);
    lemma_well_formed(ms[5]);
    lemma_well_formed(ms[6]);
    lemma_well_formed(ms[7]);
    lemma_well_formed(ms[8]);
    lemma_well_formed(ms[9]);
}

/// The methods of [`bundled_part_06`] are well formed, checked against the
/// characters of the literals they hold.
proof fn lemma_part_06_well_formed()
    ensures
        all_well_formed(bundled_part_06()),
{
    reveal_strlit("construction");
    reveal_strlit("\
BRepBuilderAPI_MakeEdge maker(gp_Pnt(x1, y1, z1), gp_Pnt(x2, y2, z2));
if (!maker.IsDone()) {
    throw std::runtime_error(\"makeLineEdge: construction failed\");
}
return store(maker.Shape());");
    reveal_strlit("x1");
    reveal_strlit("y1");
    reveal_strlit("z1");
    reveal_strlit("x2");
    reveal_strlit("y2");
    reveal_strlit("z2");
    reveal_strlit("\
gp_Ax2 axis(gp_Pnt(cx, cy, cz), gp_Dir(nx, ny, nz));
gp_Circ circle(axis, radius);
BRepBuilderAPI_MakeEdge maker(circle);
if (!maker.IsDone()) {
    throw std::runtime_error(\"makeCircleEdge: construction failed\");
}
return store(maker.Shape());");
    reveal_strlit("cx");
    reveal_strlit("cy");
    reveal_strlit("cz");
    reveal_strlit("nx");
    reveal_strlit("ny");
    reveal_strlit("nz");
    reveal_strlit("radius");
    reveal_strlit("\
gp_Ax2 axis(gp_Pnt(cx, cy, cz), gp_Dir(nx, ny, nz));
gp_Circ circle(axis, radius);
Handle(Geom_TrimmedCurve) arc =
    new Geom_TrimmedCurve(new Geom_Circle(circle), startAngle, endAngle);
BRepBuilderAPI_MakeEdge maker(arc);
if (!maker.IsDone()) {
    throw std::runtime_error(\"makeCircleArc: construction failed\");
}
return store(maker.Shape());");
    reveal_strlit("startAngle");
    reveal_strlit("endAngle");
    reveal_strlit("\
GC_MakeArcOfCircle arc(gp_Pnt(x1, y1, z1), gp_Pnt(x2, y2, z2), gp_Pnt(x3, y3, z3));
if (!arc.IsDone()) {
    throw std::runtime_error(\"makeArcEdge: construction failed\");
}
BRepBuilderAPI_MakeEdge maker(arc.Value());
if (!maker.IsDone()) {
    throw std::runtime_error(\"makeArcEdge: edge construction failed\");
}
return store(maker.Shape());");
    reveal_strlit("x3");
    reveal_strlit("y3");
    reveal_strlit("z3");
    reveal_strlit("\
gp_Ax2 axis(gp_Pnt(cx, cy, cz), gp_Dir(nx, ny, nz));
gp_Elips ellipse(axis, majorRadius, minorRadius);
BRepBuilderAPI_MakeEdge maker(ellipse);
if (!maker.IsDone()) {
    throw std::runtime_error(\"makeEllipseEdge: construction failed\");
}
return store(maker.Shape());");
    reveal_strlit("majorRadius");
    reveal_strlit("minorRadius");
    reveal_strlit("\
int nPts = static_cast<int>(flatPoints.size()) / 3;
if (nPts < 2) {
    throw std::runtime_error(\"makeBezierEdge: need at least 2 points\");
}
NCollection_Array1<gp_Pnt> poles(1, nPts);
for (int i = 0; i < nPts; i++) {
    poles.SetValue(i + 1,
                   gp_Pnt(flatPoints[i * 3], flatPoints[i * 3 + 1], flatPoints[i * 3 + 2]));
}
Handle(Geom_BezierCurve) curve = new Geom_BezierCurve(poles);
BRepBuilderAPI_MakeEdge maker(curve);
if (!maker.IsDone()) {
    throw std::runtime_error(\"makeBezierEdge: construction failed\");
}
return store(maker.Shape());");
    reveal_strlit("flatPoints");
    reveal_strlit("\
int nPoles = static_cast<int>(poles.size()) / 3;
if (nPoles < 2) {
    throw std::runtime_error(\"makeBSplineEdge: need at least 2 poles\");
}
int nKnots = static_cast<int>(knots.size());
if (nKnots < 2 || static_cast<int>(multiplicities.size()) != nKnots) {
    throw std::runtime_error(\"makeBSplineEdge: knots and multiplicities must be the same non-trivial length\");
}
if (!weights.empty() && static_cast<int>(weights.size()) != nPoles) {
    throw std::runtime_error(\"makeBSplineEdge: weights length must match pole count\");
}
NCollection_Array1<gp_Pnt> polesArr(1, nPoles);
for (int i = 0; i < nPoles; i++) {
    polesArr.SetValue(i + 1, gp_Pnt(poles[i * 3], poles[i * 3 + 1], poles[i * 3 + 2]));
}
NCollection_Array1<double> knotsArr(1, nKnots);
NCollection_Array1<int> multsArr(1, nKnots);
for (int i = 0; i < nKnots; i++) {
    knotsArr.SetValue(i + 1, knots[i]);
    multsArr.SetValue(i + 1, multiplicities[i]);
}
bool rational = false;
for (double w : weights) {
    if (std::abs(w - 1.0) > Precision::Confusion()) {
        rational = true;
        break;
    }
}
Handle(Geom_BSplineCurve) curve;
if (rational) {
    NCollection_Array1<double> weightsArr(1, nPoles);
    for (int i = 0; i < nPoles; i++) {
        weightsArr.SetValue(i + 1, weights[i]);
    }
    curve = new Geom_BSplineCurve(polesArr, weightsArr, knotsArr, multsArr, degree, periodic);
} else {
    curve = new Geom_BSplineCurve(polesArr, knotsArr, multsArr, degree, periodic);
}
BRepBuilderAPI_MakeEdge maker(curve);
if (!maker.IsDone()) {
    throw std::runtime_error(\"makeBSplineEdge: edge construction failed\");
}
return store(maker.Shape());");
    reveal_strlit("poles");
    reveal_strlit("weights");
    reveal_strlit("knots");
    reveal_strlit("multiplicities");
    reveal_strlit("degree");
    reveal_strlit("periodic");
    reveal_strlit("\
gp_Ax2 axis(gp_Pnt(cx, cy, cz), gp_Dir(nx, ny, nz));
gp_Elips ellipse(axis, majorRadius, minorRadius);
Handle(Geom_TrimmedCurve) arc =
    new Geom_TrimmedCurve(new Geom_Ellipse(ellipse), startAngle, endAngle);
BRepBuilderAPI_MakeEdge maker(arc);
if (!maker.IsDone()) {
    throw std::runtime_error(\"makeEllipseArc: construction failed\");
}
return store(maker.Shape());");
    reveal_strlit("\
gp_Ax3 ax3(gp_Pnt(px, py, pz), gp_Dir(dx, dy, dz));
Handle(Geom_CylindricalSurface) cylinder = new Geom_CylindricalSurface(ax3, radius);

// A helix on a cylindrical surface is a 2D line: u = t, v = pitch/(2*pi) * t
double slope = pitch / (2.0 * M_PI);
double nTurns = height / pitch;
// gp_Dir2d normalizes (1, slope) to unit length, so advancing the edge
// parameter by t moves only t / sqrt(1 + slope^2) along u (the angle). Scale
// the parameter range by that length so the edge actually sweeps nTurns full
// turns and the full height instead of falling short.
double dirLen = std::sqrt(1.0 + slope * slope);
double uMax = nTurns * 2.0 * M_PI * dirLen;

Handle(Geom2d_Line) line2d = new Geom2d_Line(gp_Pnt2d(0, 0), gp_Dir2d(1, slope));

BRepBuilderAPI_MakeEdge edgeMaker(line2d, cylinder, 0.0, uMax);
if (!edgeMaker.IsDone()) {
    throw std::runtime_error(\"makeHelixWire: edge construction failed\");
}
BRepBuilderAPI_MakeWire wireMaker(edgeMaker.Edge());
if (!wireMaker.IsDone()) {
    throw std::runtime_error(\"makeHelixWire: wire construction failed\");
}
// The edge carries only the pcurve on the cylinder. Algorithms that read the
// 3D curve — sweeps above all — fail outright without this, and MaxSegment
// has to clear 30 for the approximation of a multi-turn helix to converge.
TopoDS_Shape wire = wireMaker.Shape();
if (!BRepLib::BuildCurves3d(wire, 1.0e-6, GeomAbs_C1, 14, 2000)) {
    throw std::runtime_error(\"makeHelixWire: 3D curve approximation failed\");
}
return store(wire);");
    reveal_strlit("px");
    reveal_strlit("py");
    reveal_strlit("pz");
    reveal_strlit("dx");
    reveal_strlit("dy");
    reveal_strlit("dz");
    reveal_strlit("pitch");
    reveal_strlit("height");
    reveal_strlit("\
gp_Ax3 ax3(gp_Pnt(px, py, pz), gp_Dir(dx, dy, dz));
Handle(Geom_CylindricalSurface) cylinder = new Geom_CylindricalSurface(ax3, radius);

// A helix on a cylindrical surface is a 2D line: u = t, v = pitch/(2*pi) * t
double slope = pitch / (2.0 * M_PI);
double nTurns = height / pitch;
// gp_Dir2d normalizes (+/-1, slope) to unit length, so advancing the edge
// parameter by t moves only t / sqrt(1 + slope^2) along u (the angle). Scale
// the parameter range by that length so the edge actually sweeps nTurns full
// turns and the full height instead of falling short.
double dirLen = std::sqrt(1.0 + slope * slope);
double uMax = nTurns * 2.0 * M_PI * dirLen;

Handle(Geom2d_Line) line2d =
    new Geom2d_Line(gp_Pnt2d(0, 0), gp_Dir2d(leftHanded ? -1.0 : 1.0, slope));

BRepBuilderAPI_MakeEdge edgeMaker(line2d, cylinder, 0.0, uMax);
if (!edgeMaker.IsDone()) {
    throw std::runtime_error(\"makeHelixWireHanded: edge construction failed\");
}
BRepBuilderAPI_MakeWire wireMaker(edgeMaker.Edge());
if (!wireMaker.IsDone()) {
    throw std::runtime_error(\"makeHelixWireHanded: wire construction failed\");
}
TopoDS_Shape wire = wireMaker.Shape();
if (!BRepLib::BuildCurves3d(wire, 1.0e-6, GeomAbs_C1, 14, 2000)) {
    throw std::runtime_error(\"makeHelixWireHanded: 3D curve approximation failed\");
}
return store(wire);");
    reveal_strlit("leftHanded");
    reveal_with_fuel(lex_lt, 3);
    let ms = bundled_part_06();
    lemma_well_formed(ms[0]);
    lemma_well_formed(ms[1]);
    lemma_well_formed(ms[2]);
    lemma_well_formed(ms[3]);
    lemma_well_formed(ms[4]);
    lemma_well_formed(ms[5]);
    lemma_well_formed(ms[6]);
    lemma_well_formed(ms[7]);
    lemma_well_formed(ms[8]);
    lemma_well_formed(ms[9]);
}

/// The methods of [`bundled_part_07`] are well formed, checked against the
/// characters of the literals they hold.
proof fn lemma_part_07_well_formed()
    ensures
        all_well_formed(bundled_part_07()),
{
    reveal_strlit("construction");
    reveal_strlit("\
BRepOffsetAPI_MakeFilling filler;
for (TopExp_Explorer ex(get(wireId), TopAbs_EDGE); ex.More(); ex.Next()) {
    filler.Add(TopoDS::Edge(ex.Current()), GeomAbs_C0);
}
filler.Build();
if (!filler.IsDone()) {
    throw std::runtime_error(\"makeNonPlanarFace: construction failed\");
}
return store(filler.Shape());");
    reveal_strlit("wireId");
    reveal_strlit("\
TopoDS_Face face = TopoDS::Face(get(faceId));
BRepBuilderAPI_MakeFace maker(face);
for (uint32_t wid : holeWireIds) {
    maker.Add(TopoDS::Wire(get(wid)));
}
if (!maker.IsDone()) {
    throw std::runtime_error(\"addHolesInFace: construction failed\");
}
// Add holes as-is, then let ShapeFix_Face classify the outer boundary by
// area and orient each inner wire opposite to it. The old unconditional
// hole.Reverse() produced a mis-oriented (invalid) face whenever a hole did
// not arrive same-wound as the outer -- exactly the case for font glyph
// counters (8, O, A) -- leaving the extruded solid invalid so a fuse/cut
// (e.g. embossed text) failed.
ShapeFix_Face fixer(TopoDS::Face(maker.Shape()));
fixer.FixOrientation();
fixer.Perform();
return store(fixer.Face());");
    reveal_strlit("faceId");
    reveal_strlit("holeWireIds");
    reveal_strlit("\
TopoDS_Face face = TopoDS::Face(get(faceId));
// Collect inner wires (all wires except the outer wire)
TopoDS_Wire outer = ShapeAnalysis::OuterWire(face);
std::vector<TopoDS_Wire> innerWires;
for (TopExp_Explorer ex(face, TopAbs_WIRE); ex.More(); ex.Next()) {
    TopoDS_Wire w = TopoDS::Wire(ex.Current());
    if (!w.IsSame(outer)) {
        innerWires.push_back(w);
    }
}
// Build set of indices to remove
std::set<int> removeSet(holeIndices.begin(), holeIndices.end());
// Rebuild face: start from outer wire on the same surface
Handle(Geom_Surface) geomSurf = BRep_Tool::Surface(face);
BRepBuilderAPI_MakeFace maker(geomSurf, outer, true);
for (int i = 0; i < static_cast<int>(innerWires.size()); i++) {
    if (removeSet.find(i) == removeSet.end()) {
        maker.Add(innerWires[i]);
    }
}
if (!maker.IsDone()) {
    throw std::runtime_error(\"removeHolesFromFace: construction failed\");
}
return store(maker.Shape());");
    reveal_strlit("holeIndices");
    reveal_strlit("return makeSolid(shellId);");
    reveal_strlit("shellId");
    reveal_strlit("return sewAndSolidify(faceIds, tolerance);");
    reveal_strlit("faceIds");
    reveal_strlit("tolerance");
    reveal_strlit("\
BRepBuilderAPI_Sewing sewer(tolerance);
for (uint32_t fid : faceIds) {
    sewer.Add(get(fid));
}
sewer.Perform();
TopoDS_Shape sewn = sewer.SewedShape();
// Try to make a solid from the sewn shell
if (sewn.ShapeType() == TopAbs_SHELL) {
    BRepBuilderAPI_MakeSolid maker(TopoDS::Shell(sewn));
    if (maker.IsDone()) {
        return store(maker.Shape());
    }
}
return store(sewn);");
    reveal_strlit("\
gp_Pnt pa(ax, ay, az), pb(bx, by, bz), pc(cx2, cy2, cz2);
BRepBuilderAPI_MakeWire wireMaker;
wireMaker.Add(BRepBuilderAPI_MakeEdge(pa, pb).Edge());
wireMaker.Add(BRepBuilderAPI_MakeEdge(pb, pc).Edge());
wireMaker.Add(BRepBuilderAPI_MakeEdge(pc, pa).Edge());
if (!wireMaker.IsDone()) {
    throw std::runtime_error(\"buildTriFace: wire construction failed\");
}
BRepBuilderAPI_MakeFace faceMaker(wireMaker.Wire());
if (!faceMaker.IsDone()) {
    throw std::runtime_error(\"buildTriFace: face construction failed\");
}
return store(faceMaker.Shape());");
    reveal_strlit("ax");
    reveal_strlit("ay");
    reveal_strlit("az");
    reveal_strlit("bx");
    reveal_strlit("by");
    reveal_strlit("bz");
    reveal_strlit("cx2");
    reveal_strlit("cy2");
    reveal_strlit("cz2");
    reveal_strlit("\
gp_Pnt startPt(x1, y1, z1);
gp_Vec tangent(tx, ty, tz);
gp_Pnt endPt(x2, y2, z2);

GC_MakeArcOfCircle arcMaker(startPt, tangent, endPt);
if (!arcMaker.IsDone()) {
    throw std::runtime_error(\"makeTangentArc: arc construction failed\");
}

BRepBuilderAPI_MakeEdge edgeMaker(arcMaker.Value());
if (!edgeMaker.IsDone()) {
    throw std::runtime_error(\"makeTangentArc: edge construction failed\");
}
return store(edgeMaker.Shape());");
    reveal_strlit("x1");
    reveal_strlit("y1");
    reveal_strlit("z1");
    reveal_strlit("tx");
    reveal_strlit("ty");
    reveal_strlit("tz");
    reveal_strlit("x2");
    reveal_strlit("y2");
    reveal_strlit("z2");
    reveal_strlit("\
if (rows < 2 || cols < 2) {
    throw std::runtime_error(\"bsplineSurface: need at least 2x2 grid\");
}
int nPts = static_cast<int>(flatPoints.size()) / 3;
if (nPts != rows * cols) {
    throw std::runtime_error(\"bsplineSurface: point count mismatch\");
}

// Build a 2D array of gp_Pnt (1-based indexing)
NCollection_Array2<gp_Pnt> points(1, rows, 1, cols);
for (int r = 0; r < rows; r++) {
    for (int c = 0; c < cols; c++) {
        int idx = (r * cols + c) * 3;
        points.SetValue(r + 1, c + 1,
                        gp_Pnt(flatPoints[idx], flatPoints[idx + 1], flatPoints[idx + 2]));
    }
}

GeomAPI_PointsToBSplineSurface approx(points, 3, 8, GeomAbs_C2, 1e-3);
if (!approx.IsDone()) {
    throw std::runtime_error(\"bsplineSurface: approximation failed\");
}

BRepBuilderAPI_MakeFace faceMaker(approx.Surface(), 1e-3);
if (!faceMaker.IsDone()) {
    throw std::runtime_error(\"bsplineSurface: face construction failed\");
}
return store(faceMaker.Shape());");
    reveal_strlit("flatPoints");
    reveal_strlit("rows");
    reveal_strlit("cols");
    reveal_strlit("topology");
    reveal_strlit("\
switch (get(id).ShapeType()) {
case TopAbs_VERTEX: return \"vertex\";
case TopAbs_EDGE: return \"edge\";
case TopAbs_WIRE: return \"wire\";
case TopAbs_FACE: return \"face\";
case TopAbs_SHELL: return \"shell\";
case TopAbs_SOLID: return \"solid\";
case TopAbs_COMPSOLID: return \"compsolid\";
case TopAbs_COMPOUND: return \"compound\";
default: return \"shape\";
}");
    reveal_strlit("id");
    reveal_with_fuel(lex_lt, 3);
    let ms = bundled_part_07();
    lemma_well_formed(ms[0]);
    lemma_well_formed(ms[1]);
    lemma_well_formed(ms[2]);
    lemma_well_formed(ms[3]);
    lemma_well_formed(ms[4]);
    lemma_well_formed(ms[5]);
    lemma_well_formed(ms[6]);
    lemma_well_formed(ms[7]);
    lemma_well_formed(ms[8]);
    lemma_well_formed(ms[9]);
}

/// The methods of [`bundled_part_08`] are well formed, checked against the
/// characters of the literals they hold.
proof fn lemma_part_08_well_formed()
    ensures
        all_well_formed(bundled_part_08()),
{
    reveal_strlit("topology");
    reveal_strlit("\
auto parseType = [](const std::string& t) -> TopAbs_ShapeEnum {
    if (t == \"vertex\") return TopAbs_VERTEX;
    if (t == \"edge\") return TopAbs_EDGE;
    if (t == \"wire\") return TopAbs_WIRE;
    if (t == \"face\") return TopAbs_FACE;
    if (t == \"shell\") return TopAbs_SHELL;
    if (t == \"solid\") return TopAbs_SOLID;
    if (t == \"compsolid\") return TopAbs_COMPSOLID;
    if (t == \"compound\") return TopAbs_COMPOUND;
    throw std::runtime_error(\"Unknown shape type: \" + t);
};
TopAbs_ShapeEnum toExplore = parseType(shapeType);
std::vector<uint32_t> result;
NCollection_IndexedMap<TopoDS_Shape, TopTools_ShapeMapHasher> map;
TopExp::MapShapes(get(id), toExplore, map);
for (int i = 1; i <= map.Extent(); i++) {
    result.push_back(store(map.FindKey(i)));
}
return result;");
    reveal_strlit("id");
    reveal_strlit("shapeType");
    reveal_strlit("\
auto parseType = [](const std::string& t) -> TopAbs_ShapeEnum {
    if (t == \"vertex\") return TopAbs_VERTEX;
    if (t == \"edge\") return TopAbs_EDGE;
    if (t == \"wire\") return TopAbs_WIRE;
    if (t == \"face\") return TopAbs_FACE;
    if (t == \"shell\") return TopAbs_SHELL;
    if (t == \"solid\") return TopAbs_SOLID;
    if (t == \"compsolid\") return TopAbs_COMPSOLID;
    if (t == \"compound\") return TopAbs_COMPOUND;
    throw std::runtime_error(\"Unknown shape type: \" + t);
};
NCollection_IndexedMap<TopoDS_Shape, TopTools_ShapeMapHasher> map;
TopExp::MapShapes(get(id), parseType(shapeType), map);
return map.Extent();");
    reveal_strlit("\
auto parseType = [](const std::string& t) -> TopAbs_ShapeEnum {
    if (t == \"vertex\") return TopAbs_VERTEX;
    if (t == \"edge\") return TopAbs_EDGE;
    if (t == \"wire\") return TopAbs_WIRE;
    if (t == \"face\") return TopAbs_FACE;
    if (t == \"shell\") return TopAbs_SHELL;
    if (t == \"solid\") return TopAbs_SOLID;
    if (t == \"compsolid\") return TopAbs_COMPSOLID;
    if (t == \"compound\") return TopAbs_COMPOUND;
    throw std::runtime_error(\"Unknown shape type: \" + t);
};
NCollection_IndexedMap<TopoDS_Shape, TopTools_ShapeMapHasher> map;
TopExp::MapShapes(get(id), parseType(shapeType), map);
std::vector<int> result;
result.reserve(map.Extent());
for (int i = 1; i <= map.Extent(); i++) {
    result.push_back(static_cast<int>(TopTools_ShapeMapHasher{}(map.FindKey(i)) %
                                      static_cast<size_t>(hashUpperBound)));
}
return result;");
    reveal_strlit("hashUpperBound");
    reveal_strlit("\
BRepExtrema_DistShapeShape dist(get(a), get(b));
if (!dist.IsDone()) {
    throw std::runtime_error(\"distanceBetween: computation failed\");
}
return dist.Value();");
    reveal_strlit("a");
    reveal_strlit("b");
    reveal_strlit("return get(a).IsSame(get(b));");
    reveal_strlit("return get(a).IsEqual(get(b));");
    reveal_strlit("return get(id).IsNull();");
    reveal_strlit("return static_cast<int>(TopTools_ShapeMapHasher{}(get(id)) % static_cast<size_t>(upperBound));");
    reveal_strlit("upperBound");
    reveal_strlit("\
switch (get(id).Orientation()) {
case TopAbs_FORWARD:
    return \"forward\";
case TopAbs_REVERSED:
    return \"reversed\";
case TopAbs_INTERNAL:
    return \"internal\";
case TopAbs_EXTERNAL:
    return \"external\";
default:
    return \"unknown\";
}");
    reveal_strlit("\
std::vector<uint32_t> result;
for (TopoDS_Iterator it(get(id)); it.More(); it.Next()) {
    result.push_back(store(it.Value()));
}
return result;");
    reveal_with_fuel(lex_lt, 2);
    let ms = bundled_part_08();
    lemma_well_formed(ms[0]);
    lemma_well_formed(ms[1]);
    lemma_well_formed(ms[2]);
    lemma_well_formed(ms[3]);
    lemma_well_formed(ms[4]);
    lemma_well_formed(ms[5]);
    lemma_well_formed(ms[6]);
    lemma_well_formed(ms[7]);
    lemma_well_formed(ms[8]);
    lemma_well_formed(ms[9]);
}

/// The methods of [`bundled_part_09`] are well formed, checked against the
/// characters of the literals they hold.
proof fn lemma_part_09_well_formed()
    ensures
        all_well_formed(bundled_part_09()),
{
    reveal_strlit("topology");
    reveal_strlit("\
const auto& shape = get(id);
std::vector<int> result;
auto hashShape = [&](const TopoDS_Shape& s) -> int {
    return static_cast<int>(TopTools_ShapeMapHasher{}(s) %
                            static_cast<size_t>(hashUpperBound));
};
for (TopExp_Explorer exE(shape, TopAbs_EDGE); exE.More(); exE.Next()) {
    int edgeHash = hashShape(exE.Current());
    std::vector<int> faceHashes;
    for (TopExp_Explorer exF(shape, TopAbs_FACE); exF.More(); exF.Next()) {
        for (TopExp_Explorer exFE(exF.Current(), TopAbs_EDGE); exFE.More(); exFE.Next()) {
            if (exFE.Current().IsSame(exE.Current())) {
                faceHashes.push_back(hashShape(exF.Current()));
                break;
            }
        }
    }
    if (!faceHashes.empty()) {
        result.push_back(edgeHash);
        result.push_back(static_cast<int>(faceHashes.size()));
        result.insert(result.end(), faceHashes.begin(), faceHashes.end());
    }
}
return result;");
    reveal_strlit("id");
    reveal_strlit("hashUpperBound");
    reveal_strlit("\
const auto& shape = get(id);
auto parseType = [](const std::string& t) -> TopAbs_ShapeEnum {
    if (t == \"vertex\") return TopAbs_VERTEX;
    if (t == \"edge\") return TopAbs_EDGE;
    if (t == \"wire\") return TopAbs_WIRE;
    if (t == \"face\") return TopAbs_FACE;
    if (t == \"shell\") return TopAbs_SHELL;
    if (t == \"solid\") return TopAbs_SOLID;
    if (t == \"compsolid\") return TopAbs_COMPSOLID;
    if (t == \"compound\") return TopAbs_COMPOUND;
    throw std::runtime_error(\"Unknown shape type: \" + t);
};
TopAbs_ShapeEnum target = parseType(targetType);
if (shape.ShapeType() != target) {
    throw std::runtime_error(\"downcast: shape type mismatch\");
}
// The shape is already the requested type, so the cast is a pure identity.
// Return the existing id instead of storing a duplicate handle, sparing
// callers the post-downcast release() bookkeeping (see issue #205).
return id;");
    reveal_strlit("targetType");
    reveal_strlit("\
const auto& shape = get(shapeId);
const auto& targetFace = get(faceId);
std::vector<uint32_t> result;

// Find faces that share an edge with targetFace
for (TopExp_Explorer exF(shape, TopAbs_FACE); exF.More(); exF.Next()) {
    if (exF.Current().IsSame(targetFace))
        continue;
    bool adjacent = false;
    for (TopExp_Explorer exE1(targetFace, TopAbs_EDGE); exE1.More() && !adjacent;
         exE1.Next()) {
        for (TopExp_Explorer exE2(exF.Current(), TopAbs_EDGE); exE2.More(); exE2.Next()) {
            if (exE1.Current().IsSame(exE2.Current())) {
                adjacent = true;
                break;
            }
        }
    }
    if (adjacent) {
        result.push_back(store(exF.Current()));
    }
}
return result;");
    reveal_strlit("shapeId");
    reveal_strlit("faceId");
    reveal_strlit("\
const auto& fa = get(faceA);
const auto& fb = get(faceB);
std::vector<uint32_t> result;
for (TopExp_Explorer exA(fa, TopAbs_EDGE); exA.More(); exA.Next()) {
    for (TopExp_Explorer exB(fb, TopAbs_EDGE); exB.More(); exB.Next()) {
        if (exA.Current().IsSame(exB.Current())) {
            result.push_back(store(exA.Current()));
            break;
        }
    }
}
return result;");
    reveal_strlit("faceA");
    reveal_strlit("faceB");
    reveal_strlit("query");
    reveal_strlit("\
const auto& shape = get(id);
Bnd_Box box;
BRepBndLib::AddOptimal(shape, box, useTriangulation, false);
if (box.IsVoid()) {
    throw std::runtime_error(\"getBoundingBox: shape has no geometry\");
}
BBoxData result{};
box.Get(result.xmin, result.ymin, result.zmin, result.xmax, result.ymax, result.zmax);
return result;");
    reveal_strlit("useTriangulation");
    reveal_strlit("\
const auto& shape = get(id);
Bnd_Box box;
BRepBndLib::Add(shape, box);
if (box.IsVoid()) {
    throw std::runtime_error(\"getBoundingBoxFast: shape has no geometry\");
}
BBoxData result{};
box.Get(result.xmin, result.ymin, result.zmin, result.xmax, result.ymax, result.zmax);
return result;");
    reveal_strlit("\
const auto& shape = get(id);
GProp_GProps props;
BRepGProp::VolumeProperties(shape, props);
return props.Mass();");
    reveal_strlit("\
const auto& shape = get(id);
GProp_GProps props;
BRepGProp::SurfaceProperties(shape, props);
return props.Mass();");
    reveal_strlit("\
const auto& shape = get(id);
GProp_GProps props;
BRepGProp::LinearProperties(shape, props);
return props.Mass();");
    reveal_strlit("\
const auto& shape = get(id);
GProp_GProps props;
BRepGProp::VolumeProperties(shape, props);
gp_Pnt com = props.CentreOfMass();
return {com.X(), com.Y(), com.Z()};");
    reveal_with_fuel(lex_lt, 6);
    let ms = bundled_part_09();
    lemma_well_formed(ms[0]);
    lemma_well_formed(ms[1]);
    lemma_well_formed(ms[2]);
    lemma_well_formed(ms[3]);
    lemma_well_formed(ms[4]);
    lemma_well_formed(ms[5]);
    lemma_well_formed(ms[6]);
    lemma_well_formed(ms[7]);
    lemma_well_formed(ms[8]);
    lemma_well_formed(ms[9]);
}

/// The methods of [`bundled_part_10`] are well formed, checked against the
/// characters of the literals they hold.
proof fn lemma_part_10_well_formed()
    ensures
        all_well_formed(bundled_part_10()),
{
    reveal_strlit("query");
    reveal_strlit("\
const auto& shape = get(id);
GProp_GProps props;
BRepGProp::VolumeProperties(shape, props);
gp_Mat m = props.MatrixOfInertia();
return {m(1, 1), m(1, 2), m(1, 3),
        m(2, 1), m(2, 2), m(2, 3),
        m(3, 1), m(3, 2), m(3, 3)};");
    reveal_strlit("id");
    reveal_strlit("\
const auto& shape = get(id);
BRepClass3d_SolidClassifier classifier(shape);
classifier.Perform(gp_Pnt(x, y, z), tolerance);
TopAbs_State state = classifier.State();
return state == TopAbs_IN || state == TopAbs_ON;");
    reveal_strlit("x");
    reveal_strlit("y");
    reveal_strlit("z");
    reveal_strlit("tolerance");
    reveal_strlit("\
const auto& face = get(faceId);
GProp_GProps props;
BRepGProp::SurfaceProperties(face, props);
gp_Pnt com = props.CentreOfMass();
return {com.X(), com.Y(), com.Z()};");
    reveal_strlit("faceId");
    reveal_strlit("\
gp_Pnt p = BRep_Tool::Pnt(TopoDS::Vertex(get(vertexId)));
return {p.X(), p.Y(), p.Z()};");
    reveal_strlit("vertexId");
    reveal_strlit("\
BRepAdaptor_Surface surf(TopoDS::Face(get(faceId)));
switch (surf.GetType()) {
case GeomAbs_Plane:
    return \"plane\";
case GeomAbs_Cylinder:
    return \"cylinder\";
case GeomAbs_Cone:
    return \"cone\";
case GeomAbs_Sphere:
    return \"sphere\";
case GeomAbs_Torus:
    return \"torus\";
case GeomAbs_BezierSurface:
    return \"bezier\";
case GeomAbs_BSplineSurface:
    return \"bspline\";
case GeomAbs_SurfaceOfRevolution:
    return \"revolution\";
case GeomAbs_SurfaceOfExtrusion:
    return \"extrusion\";
case GeomAbs_OffsetSurface:
    return \"offset\";
default:
    return \"other\";
}");
    reveal_strlit("\
TopoDS_Face face = TopoDS::Face(get(faceId));
BRepAdaptor_Surface surf(face);
gp_Pnt pt;
gp_Vec d1u, d1v;
surf.D1(u, v, pt, d1u, d1v);
gp_Vec normal = d1u.Crossed(d1v);
if (normal.Magnitude() > 1e-10) {
    normal.Normalize();
}
// Flip normal for reversed faces (matches OCCT convention)
if (face.Orientation() == TopAbs_REVERSED) {
    normal.Reverse();
}
return {normal.X(), normal.Y(), normal.Z()};");
    reveal_strlit("u");
    reveal_strlit("v");
    reveal_strlit("\
BRepAdaptor_Surface surf(TopoDS::Face(get(faceId)));
gp_Pnt pt = surf.Value(u, v);
return {pt.X(), pt.Y(), pt.Z()};");
    reveal_strlit("\
TopoDS_Wire wire = ShapeAnalysis::OuterWire(TopoDS::Face(get(faceId)));
if (wire.IsNull()) {
    throw std::runtime_error(\"outerWire: face has no outer wire\");
}
return store(wire);");
    reveal_strlit("\
const auto& shape = get(id);
GProp_GProps props;
BRepGProp::LinearProperties(shape, props);
gp_Pnt com = props.CentreOfMass();
return {com.X(), com.Y(), com.Z()};");
    reveal_strlit("\
BRepAdaptor_Surface surf(TopoDS::Face(get(faceId)));
BRepLProp_SLProps props(surf, u, v, 2, 1e-6);
if (!props.IsCurvatureDefined()) {
    throw std::runtime_error(\"surfaceCurvature: curvature not defined at point\");
}
double mean = props.MeanCurvature();
double gaussian = props.GaussianCurvature();
double maxK = props.MaxCurvature();
double minK = props.MinCurvature();
return {mean, gaussian, maxK, minK};");
    reveal_with_fuel(lex_lt, 2);
    let ms = bundled_part_10();
    lemma_well_formed(ms[0]);
    lemma_well_formed(ms[1]);
    lemma_well_formed(ms[2]);
    lemma_well_formed(ms[3]);
    lemma_well_formed(ms[4]);
    lemma_well_formed(ms[5]);
    lemma_well_formed(ms[6]);
    lemma_well_formed(ms[7]);
    lemma_well_formed(ms[8]);
    lemma_well_formed(ms[9]);
}

/// The methods of [`bundled_part_11`] are well formed, checked against the
/// characters of the literals they hold.
proof fn lemma_part_11_well_formed()
    ensures
        all_well_formed(bundled_part_11()),
{
    reveal_strlit("query");
    reveal_strlit("\
BRepAdaptor_Surface surf(TopoDS::Face(get(faceId)));
return {surf.FirstUParameter(), surf.LastUParameter(), surf.FirstVParameter(),
        surf.LastVParameter()};");
    reveal_strlit("faceId");
    reveal_strlit("\
BRepAdaptor_Surface surf(TopoDS::Face(get(faceId)));
if (surf.GetType() != GeomAbs_Cylinder) {
    return {};
}
gp_Cylinder cyl = surf.Cylinder();
return {cyl.Radius(), cyl.Direct() ? 1.0 : 0.0};");
    reveal_strlit("modeling");
    reveal_strlit("\
TopoDS_Face face = TopoDS::Face(get(faceId));
Handle(Geom_Surface) surf = BRep_Tool::Surface(face);
if (surf.IsNull()) {
    throw std::runtime_error(\"reverseSurfaceU: face has no geometric surface\");
}
Standard_Real u1, u2, v1, v2;
BRepTools::UVBounds(face, u1, u2, v1, v2);
Standard_Real ru1 = surf->UReversedParameter(u2);
Standard_Real ru2 = surf->UReversedParameter(u1);
Handle(Geom_Surface) reversed = Handle(Geom_Surface)::DownCast(surf->Copy());
reversed->UReverse();
BRepBuilderAPI_MakeFace mkFace(reversed, ru1, ru2, v1, v2, Precision::Confusion());
if (!mkFace.IsDone()) {
    throw std::runtime_error(\"reverseSurfaceU: face construction failed\");
}
return store(mkFace.Face());");
    reveal_strlit("\
TopoDS_Face face = TopoDS::Face(get(faceId));
Handle(Geom_Surface) geomSurf = BRep_Tool::Surface(face);
ShapeAnalysis_Surface sas(geomSurf);
gp_Pnt2d uv = sas.ValueOfUV(gp_Pnt(x, y, z), 1e-6);
return {uv.X(), uv.Y()};");
    reveal_strlit("x");
    reveal_strlit("y");
    reveal_strlit("z");
    reveal_strlit("\
TopoDS_Face face = TopoDS::Face(get(faceId));
Handle(Geom_Surface) geomSurf = BRep_Tool::Surface(face);
GeomAPI_ProjectPointOnSurf proj(gp_Pnt(x, y, z), geomSurf);
if (proj.NbPoints() == 0) {
    throw std::runtime_error(\"projectPointOnFace: no projection found\");
}
gp_Pnt nearest = proj.NearestPoint();
double u, v;
proj.LowerDistanceParameters(u, v);
return {nearest.X(), nearest.Y(), nearest.Z(), u, v, proj.LowerDistance()};");
    reveal_strlit("\
TopoDS_Face face = TopoDS::Face(get(faceId));
BRepClass_FaceClassifier classifier(face, gp_Pnt2d(u, v), 1e-6);
switch (classifier.State()) {
case TopAbs_IN:
    return \"in\";
case TopAbs_OUT:
    return \"out\";
case TopAbs_ON:
    return \"on\";
default:
    return \"unknown\";
}");
    reveal_strlit("u");
    reveal_strlit("v");
    reveal_strlit("curve");
    reveal_strlit("\
const auto& shape = get(id);
GeomAbs_CurveType ctype;
if (shape.ShapeType() == TopAbs_WIRE) {
    BRepAdaptor_CompCurve comp(TopoDS::Wire(shape));
    ctype = comp.GetType();
} else {
    BRepAdaptor_Curve curve(TopoDS::Edge(shape));
    ctype = curve.GetType();
}
switch (ctype) {
case GeomAbs_Line:
    return \"line\";
case GeomAbs_Circle:
    return \"circle\";
case GeomAbs_Ellipse:
    return \"ellipse\";
case GeomAbs_Hyperbola:
    return \"hyperbola\";
case GeomAbs_Parabola:
    return \"parabola\";
case GeomAbs_BezierCurve:
    return \"bezier\";
case GeomAbs_BSplineCurve:
    return \"bspline\";
case GeomAbs_OffsetCurve:
    return \"offset\";
default:
    return \"other\";
}");
    reveal_strlit("id");
    reveal_strlit("\
const auto& shape = get(id);
gp_Pnt pt;
if (shape.ShapeType() == TopAbs_WIRE) {
    BRepAdaptor_CompCurve comp(TopoDS::Wire(shape));
    pt = comp.Value(param);
} else {
    BRepAdaptor_Curve curve(TopoDS::Edge(shape));
    pt = curve.Value(param);
}
return {pt.X(), pt.Y(), pt.Z()};");
    reveal_strlit("param");
    reveal_strlit("\
const auto& shape = get(id);
gp_Pnt pt;
gp_Vec tangent;
if (shape.ShapeType() == TopAbs_WIRE) {
    BRepAdaptor_CompCurve comp(TopoDS::Wire(shape));
    comp.D1(param, pt, tangent);
} else {
    BRepAdaptor_Curve curve(TopoDS::Edge(shape));
    curve.D1(param, pt, tangent);
}
if (tangent.Magnitude() > 1e-10) {
    tangent.Normalize();
}
return {tangent.X(), tangent.Y(), tangent.Z()};");
    reveal_strlit("\
BRepAdaptor_CompCurve adaptor(TopoDS::Wire(get(wireId)));
const Standard_Real t0 = adaptor.FirstParameter();
gp_Pnt p;
gp_Vec v;
adaptor.D1(t0, p, v);
if (v.Magnitude() < 1e-12) {
    throw std::runtime_error(\"wireFirstPointTangent: zero tangent\");
}
v.Normalize();
return {p.X(), p.Y(), p.Z(), v.X(), v.Y(), v.Z()};");
    reveal_strlit("wireId");
    reveal_with_fuel(lex_lt, 2);
    let ms = bundled_part_11();
    lemma_well_formed(ms[0]);
    lemma_well_formed(ms[1]);
    lemma_well_formed(ms[2]);
    lemma_well_formed(ms[3]);
    lemma_well_formed(ms[4]);
    lemma_well_formed(ms[5]);
    lemma_well_formed(ms[6]);
    lemma_well_formed(ms[7]);
    lemma_well_formed(ms[8]);
    lemma_well_formed(ms[9]);
}

/// The methods of [`bundled_part_12`] are well formed, checked against the
/// characters of the literals they hold.
proof fn lemma_part_12_well_formed()
    ensures
        all_well_formed(bundled_part_12()),
{
    reveal_strlit("curve");
    reveal_strlit("\
const auto& shape = get(id);
if (shape.ShapeType() == TopAbs_WIRE) {
    BRepAdaptor_CompCurve comp(TopoDS::Wire(shape));
    return {comp.FirstParameter(), comp.LastParameter()};
}
BRepAdaptor_Curve curve(TopoDS::Edge(shape));
return {curve.FirstParameter(), curve.LastParameter()};");
    reveal_strlit("id");
    reveal_strlit("\
const auto& shape = get(id);
if (shape.ShapeType() == TopAbs_WIRE) {
    return BRep_Tool::IsClosed(shape);
}
BRepAdaptor_Curve curve(TopoDS::Edge(shape));
return curve.IsClosed();");
    reveal_strlit("\
const auto& shape = get(id);
if (shape.ShapeType() == TopAbs_WIRE) {
    BRepAdaptor_CompCurve comp(TopoDS::Wire(shape));
    return GCPnts_AbscissaPoint::Length(comp);
}
BRepAdaptor_Curve curve(TopoDS::Edge(shape));
return GCPnts_AbscissaPoint::Length(curve);");
    reveal_strlit("\
int nPts = static_cast<int>(flatPoints.size()) / 3;
if (nPts < 2) {
    throw std::runtime_error(\"interpolatePoints: need at least 2 points\");
}

Handle(NCollection_HArray1<gp_Pnt>) pts = new NCollection_HArray1<gp_Pnt>(1, nPts);
for (int i = 0; i < nPts; i++) {
    pts->SetValue(i + 1,
                  gp_Pnt(flatPoints[i * 3], flatPoints[i * 3 + 1], flatPoints[i * 3 + 2]));
}

GeomAPI_Interpolate interp(pts, periodic, 1e-6);
interp.Perform();
if (!interp.IsDone()) {
    throw std::runtime_error(\"interpolatePoints: interpolation failed\");
}

BRepBuilderAPI_MakeEdge edgeMaker(interp.Curve());
if (!edgeMaker.IsDone()) {
    throw std::runtime_error(\"interpolatePoints: edge construction failed\");
}
return store(edgeMaker.Shape());");
    reveal_strlit("flatPoints");
    reveal_strlit("periodic");
    reveal_strlit("\
int nPts = static_cast<int>(flatPoints.size()) / 3;
if (nPts < 2) {
    throw std::runtime_error(\"interpolatePointsWithTangents: need at least 2 points\");
}
Handle(NCollection_HArray1<gp_Pnt>) pts = new NCollection_HArray1<gp_Pnt>(1, nPts);
for (int i = 0; i < nPts; i++) {
    pts->SetValue(i + 1,
                  gp_Pnt(flatPoints[i * 3], flatPoints[i * 3 + 1], flatPoints[i * 3 + 2]));
}
GeomAPI_Interpolate interp(pts, false, 1e-6);
gp_Vec startTan(startTanX, startTanY, startTanZ);
gp_Vec endTan(endTanX, endTanY, endTanZ);
interp.Load(startTan, endTan, Standard_True);
interp.Perform();
if (!interp.IsDone()) {
    throw std::runtime_error(\"interpolatePointsWithTangents: interpolation failed\");
}
BRepBuilderAPI_MakeEdge edgeMaker(interp.Curve());
if (!edgeMaker.IsDone()) {
    throw std::runtime_error(\"interpolatePointsWithTangents: edge construction failed\");
}
return store(edgeMaker.Shape());");
    reveal_strlit("startTanX");
    reveal_strlit("startTanY");
    reveal_strlit("startTanZ");
    reveal_strlit("endTanX");
    reveal_strlit("endTanY");
    reveal_strlit("endTanZ");
    reveal_strlit("\
TopoDS_Edge edge = TopoDS::Edge(get(edgeId));
double first, last;
Handle(Geom_Curve) curve = BRep_Tool::Curve(edge, first, last);
if (curve.IsNull()) {
    throw std::runtime_error(\"projectPointOnEdge: edge has no 3D curve\");
}
GeomAPI_ProjectPointOnCurve proj(gp_Pnt(x, y, z), curve, first, last);
if (proj.NbPoints() < 1) {
    throw std::runtime_error(\"projectPointOnEdge: no projection found\");
}
double param = proj.LowerDistanceParameter();
gp_Pnt cp;
gp_Vec tan;
curve->D1(param, cp, tan);
return {cp.X(), cp.Y(), cp.Z(), tan.X(), tan.Y(), tan.Z(), param};");
    reveal_strlit("edgeId");
    reveal_strlit("x");
    reveal_strlit("y");
    reveal_strlit("z");
    reveal_strlit("\
const auto& shape = get(id);
if (shape.ShapeType() == TopAbs_WIRE) {
    BRepAdaptor_CompCurve comp(TopoDS::Wire(shape));
    return comp.IsPeriodic();
}
BRepAdaptor_Curve curve(TopoDS::Edge(shape));
return curve.IsPeriodic();");
    reveal_strlit("\
int nPts = static_cast<int>(flatPoints.size()) / 3;
if (nPts < 2) {
    throw std::runtime_error(\"approximatePoints: need at least 2 points\");
}

NCollection_Array1<gp_Pnt> pts(1, nPts);
for (int i = 0; i < nPts; i++) {
    pts.SetValue(i + 1,
                 gp_Pnt(flatPoints[i * 3], flatPoints[i * 3 + 1], flatPoints[i * 3 + 2]));
}

GeomAPI_PointsToBSpline approx(pts, 3, 8, GeomAbs_C2, tolerance);
if (!approx.IsDone()) {
    throw std::runtime_error(\"approximatePoints: approximation failed\");
}

BRepBuilderAPI_MakeEdge edgeMaker(approx.Curve());
if (!edgeMaker.IsDone()) {
    throw std::runtime_error(\"approximatePoints: edge construction failed\");
}
return store(edgeMaker.Shape());");
    reveal_strlit("tolerance");
    reveal_strlit("\
int nPts = static_cast<int>(flatPoints2d.size()) / 2;
if (nPts < 2) {
    throw std::runtime_error(\"liftCurve2dToPlane: need at least 2 points\");
}

// Build the plane from origin + Z-axis + X-axis
gp_Pnt origin(planeOx, planeOy, planeOz);
gp_Dir zDir(planeZx, planeZy, planeZz);
gp_Dir xDir(planeXx, planeXy, planeXz);
gp_Ax3 ax3(origin, zDir, xDir);
gp_Pln plane(ax3);

// Create 2D points array
Handle(NCollection_HArray1<gp_Pnt2d>) pts2d = new NCollection_HArray1<gp_Pnt2d>(1, nPts);
for (int i = 0; i < nPts; i++) {
    pts2d->SetValue(i + 1, gp_Pnt2d(flatPoints2d[i * 2], flatPoints2d[i * 2 + 1]));
}

// Interpolate through the 2D points
Geom2dAPI_Interpolate interp(pts2d, false, 1e-6);
interp.Perform();
if (!interp.IsDone()) {
    throw std::runtime_error(\"liftCurve2dToPlane: 2D interpolation failed\");
}

// Build 3D edge from 2D curve on plane
Handle(Geom_Surface) surface = new Geom_Plane(plane);
BRepBuilderAPI_MakeEdge edgeMaker(interp.Curve(), surface);
if (!edgeMaker.IsDone()) {
    throw std::runtime_error(\"liftCurve2dToPlane: edge construction failed\");
}
return store(edgeMaker.Shape());");
    reveal_strlit("flatPoints2d");
    reveal_strlit("planeOx");
    reveal_strlit("planeOy");
    reveal_strlit("planeOz");
    reveal_strlit("planeZx");
    reveal_strlit("planeZy");
    reveal_strlit("planeZz");
    reveal_strlit("planeXx");
    reveal_strlit("planeXy");
    reveal_strlit("planeXz");
    reveal_strlit("\
BRepAdaptor_Curve adaptor(TopoDS::Edge(get(edgeId)));
Handle(Geom_BSplineCurve) bspline;
if (adaptor.GetType() == GeomAbs_BSplineCurve) {
    bspline = adaptor.BSpline();
} else if (adaptor.GetType() == GeomAbs_BezierCurve) {
    bspline = GeomConvert::CurveToBSplineCurve(adaptor.Bezier());
} else {
    throw std::runtime_error(\"getNurbsCurveData: edge is not a BSpline or Bezier curve\");
}
NurbsCurveData result{};
result.degree = bspline->Degree();
result.rational = bspline->IsRational();
result.periodic = bspline->IsPeriodic();

// Knots and multiplicities
int nKnots = bspline->NbKnots();
result.knots.resize(nKnots);
result.multiplicities.resize(nKnots);
for (int i = 1; i <= nKnots; i++) {
    result.knots[i - 1] = bspline->Knot(i);
    result.multiplicities[i - 1] = bspline->Multiplicity(i);
}

// Poles (control points)
int nPoles = bspline->NbPoles();
result.poles.resize(nPoles * 3);
for (int i = 1; i <= nPoles; i++) {
    gp_Pnt p = bspline->Pole(i);
    result.poles[(i - 1) * 3] = p.X();
    result.poles[(i - 1) * 3 + 1] = p.Y();
    result.poles[(i - 1) * 3 + 2] = p.Z();
}

// Weights (only if rational)
if (bspline->IsRational()) {
    result.weights.resize(nPoles);
    for (int i = 1; i <= nPoles; i++) {
        result.weights[i - 1] = bspline->Weight(i);
    }
}

return result;");
    reveal_with_fuel(lex_lt, 10);
    let ms = bundled_part_12();
    lemma_well_formed(ms[0]);
    lemma_well_formed(ms[1]);
    lemma_well_formed(ms[2]);
    lemma_well_formed(ms[3]);
    lemma_well_formed(ms[4]);
    lemma_well_formed(ms[5]);
    lemma_well_formed(ms[6]);
    lemma_well_formed(ms[7]);
    lemma_well_formed(ms[8]);
    lemma_well_formed(ms[9]);
}

/// The methods of [`bundled_part_13`] are well formed, checked against the
/// characters of the literals they hold.
proof fn lemma_part_13_well_formed()
    ensures
        all_well_formed(bundled_part_13()),
{
    reveal_strlit("curve");
    reveal_strlit("\
BRepAdaptor_Curve adaptor(TopoDS::Edge(get(edgeId)));
Handle(Geom_BSplineCurve) bspline;
if (adaptor.GetType() == GeomAbs_BSplineCurve) {
    bspline = Handle(Geom_BSplineCurve)::DownCast(adaptor.BSpline()->Copy());
} else if (adaptor.GetType() == GeomAbs_BezierCurve) {
    bspline = GeomConvert::CurveToBSplineCurve(adaptor.Bezier());
} else {
    throw std::runtime_error(\"curveDegreeElevate: edge is not a BSpline or Bezier curve\");
}
bspline->IncreaseDegree(bspline->Degree() + elevateBy);
BRepBuilderAPI_MakeEdge maker(bspline);
if (!maker.IsDone()) {
    throw std::runtime_error(\"curveDegreeElevate: edge construction failed\");
}
return store(maker.Shape());");
    reveal_strlit("edgeId");
    reveal_strlit("elevateBy");
    reveal_strlit("\
BRepAdaptor_Curve adaptor(TopoDS::Edge(get(edgeId)));
Handle(Geom_BSplineCurve) bspline;
if (adaptor.GetType() == GeomAbs_BSplineCurve) {
    bspline = Handle(Geom_BSplineCurve)::DownCast(adaptor.BSpline()->Copy());
} else if (adaptor.GetType() == GeomAbs_BezierCurve) {
    bspline = GeomConvert::CurveToBSplineCurve(adaptor.Bezier());
} else {
    throw std::runtime_error(\"curveKnotInsert: edge is not a BSpline or Bezier curve\");
}
bspline->InsertKnot(knot, times, Precision::Confusion());
BRepBuilderAPI_MakeEdge maker(bspline);
if (!maker.IsDone()) {
    throw std::runtime_error(\"curveKnotInsert: edge construction failed\");
}
return store(maker.Shape());");
    reveal_strlit("knot");
    reveal_strlit("times");
    reveal_strlit("\
BRepAdaptor_Curve adaptor(TopoDS::Edge(get(edgeId)));
Handle(Geom_BSplineCurve) bspline;
if (adaptor.GetType() == GeomAbs_BSplineCurve) {
    bspline = Handle(Geom_BSplineCurve)::DownCast(adaptor.BSpline()->Copy());
} else if (adaptor.GetType() == GeomAbs_BezierCurve) {
    bspline = GeomConvert::CurveToBSplineCurve(adaptor.Bezier());
} else {
    throw std::runtime_error(\"curveKnotRemove: edge is not a BSpline or Bezier curve\");
}
int index = 0;
for (int i = 1; i <= bspline->NbKnots(); i++) {
    if (std::abs(bspline->Knot(i) - knot) <= tolerance) {
        index = i;
        break;
    }
}
if (index == 0) {
    throw std::runtime_error(\"curveKnotRemove: knot value not found\");
}
int mult = bspline->Multiplicity(index);
if (!bspline->RemoveKnot(index, mult - 1, tolerance)) {
    throw std::runtime_error(\"curveKnotRemove: knot cannot be removed within tolerance\");
}
BRepBuilderAPI_MakeEdge maker(bspline);
if (!maker.IsDone()) {
    throw std::runtime_error(\"curveKnotRemove: edge construction failed\");
}
return store(maker.Shape());");
    reveal_strlit("tolerance");
    reveal_strlit("\
BRepAdaptor_Curve adaptor(TopoDS::Edge(get(edgeId)));
Handle(Geom_BSplineCurve) base;
if (adaptor.GetType() == GeomAbs_BSplineCurve) {
    base = adaptor.BSpline();
} else if (adaptor.GetType() == GeomAbs_BezierCurve) {
    base = GeomConvert::CurveToBSplineCurve(adaptor.Bezier());
} else {
    throw std::runtime_error(\"curveSplit: edge is not a BSpline or Bezier curve\");
}
double first = base->FirstParameter();
double last = base->LastParameter();
if (param <= first || param >= last) {
    throw std::runtime_error(\"curveSplit: parameter out of range\");
}
Handle(Geom_BSplineCurve) left = Handle(Geom_BSplineCurve)::DownCast(base->Copy());
Handle(Geom_BSplineCurve) right = Handle(Geom_BSplineCurve)::DownCast(base->Copy());
left->Segment(first, param);
right->Segment(param, last);
BRepBuilderAPI_MakeEdge leftMaker(left);
BRepBuilderAPI_MakeEdge rightMaker(right);
if (!leftMaker.IsDone() || !rightMaker.IsDone()) {
    throw std::runtime_error(\"curveSplit: edge construction failed\");
}
std::vector<uint32_t> result;
result.push_back(store(leftMaker.Shape()));
result.push_back(store(rightMaker.Shape()));
return result;");
    reveal_strlit("param");
    reveal_strlit("query");
    reveal_strlit("\
for (TopExp_Explorer ex(get(id), TopAbs_FACE); ex.More(); ex.Next()) {
    TopLoc_Location loc;
    auto tri = BRep_Tool::Triangulation(TopoDS::Face(ex.Current()), loc);
    if (!tri.IsNull())
        return true;
}
return false;");
    reveal_strlit("id");
    reveal_strlit("\
std::vector<double> result;
result.reserve(ids.size() * 14);
for (size_t i = 0; i < ids.size(); i++) {
    const auto& shape = get(ids[i]);
    { GProp_GProps props; BRepGProp::VolumeProperties(shape, props); result.push_back(props.Mass()); }
    { GProp_GProps props; BRepGProp::SurfaceProperties(shape, props); result.push_back(props.Mass()); }
    { Bnd_Box box; BRepBndLib::Add(shape, box);
      if (box.IsVoid()) { for (int j = 0; j < 6; j++) result.push_back(0.0); }
      else { double xmin,ymin,zmin,xmax,ymax,zmax; box.Get(xmin,ymin,zmin,xmax,ymax,zmax);
             result.push_back(xmin); result.push_back(ymin); result.push_back(zmin);
             result.push_back(xmax); result.push_back(ymax); result.push_back(zmax); } }
    { GProp_GProps props; BRepGProp::VolumeProperties(shape, props);
      gp_Pnt com = props.CentreOfMass();
      result.push_back(com.X()); result.push_back(com.Y()); result.push_back(com.Z()); }
    result.push_back(static_cast<double>(shape.ShapeType()));
    { BRepCheck_Analyzer checker(shape); result.push_back(checker.IsValid() ? 1.0 : 0.0); }
    result.push_back(0.0);
}
return result;");
    reveal_strlit("ids");
    reveal_strlit("sweep");
    reveal_strlit("\
BRepOffsetAPI_MakePipe maker(TopoDS::Wire(get(spineId)), get(profileId));
maker.Build();
if (!maker.IsDone()) {
    throw std::runtime_error(\"pipe: operation failed\");
}
return store(maker.Shape());");
    reveal_strlit("profileId");
    reveal_strlit("spineId");
    reveal_strlit("return pipe(profileId, spineId);");
    reveal_strlit("return revolve(shapeId, cx, cy, cz, dx, dy, dz, angle);");
    reveal_strlit("shapeId");
    reveal_strlit("cx");
    reveal_strlit("cy");
    reveal_strlit("cz");
    reveal_strlit("dx");
    reveal_strlit("dy");
    reveal_strlit("dz");
    reveal_strlit("angle");
    reveal_strlit("\
BRepOffsetAPI_ThruSections maker(isSolid, ruled);
for (uint32_t wid : wireIds) {
    maker.AddWire(TopoDS::Wire(get(wid)));
}
maker.Build();
if (!maker.IsDone()) {
    throw std::runtime_error(\"loft: operation failed\");
}
return store(maker.Shape());");
    reveal_strlit("wireIds");
    reveal_strlit("isSolid");
    reveal_strlit("ruled");
    reveal_with_fuel(lex_lt, 3);
    let ms = bundled_part_13();
    lemma_well_formed(ms[0]);
    lemma_well_formed(ms[1]);
    lemma_well_formed(ms[2]);
    lemma_well_formed(ms[3]);
    lemma_well_formed(ms[4]);
    lemma_well_formed(ms[5]);
    lemma_well_formed(ms[6]);
    lemma_well_formed(ms[7]);
    lemma_well_formed(ms[8]);
    lemma_well_formed(ms[9]);
}

/// The methods of [`bundled_part_14`] are well formed, checked against the
/// characters of the literals they hold.
proof fn lemma_part_14_well_formed()
    ensures
        all_well_formed(bundled_part_14()),
{
    reveal_strlit("sweep");
    reveal_strlit("\
BRepOffsetAPI_ThruSections maker(isSolid, ruled);
if (startVertexId != 0) {
    maker.AddVertex(TopoDS::Vertex(get(startVertexId)));
}
for (uint32_t wid : wireIds) {
    maker.AddWire(TopoDS::Wire(get(wid)));
}
if (endVertexId != 0) {
    maker.AddVertex(TopoDS::Vertex(get(endVertexId)));
}
maker.Build();
if (!maker.IsDone()) {
    throw std::runtime_error(\"loftWithVertices: operation failed\");
}
return store(maker.Shape());");
    reveal_strlit("wireIds");
    reveal_strlit("isSolid");
    reveal_strlit("ruled");
    reveal_strlit("startVertexId");
    reveal_strlit("endVertexId");
    reveal_strlit("\
BRepOffsetAPI_MakePipeShell maker(TopoDS::Wire(get(spineId)));
maker.SetTransitionMode(static_cast<BRepBuilderAPI_TransitionMode>(transitionMode));
maker.Add(get(wireId));
maker.Build();
if (!maker.IsDone()) {
    throw std::runtime_error(\"sweep: operation failed\");
}
maker.MakeSolid();
return store(maker.Shape());");
    reveal_strlit("wireId");
    reveal_strlit("spineId");
    reveal_strlit("transitionMode");
    reveal_strlit("\
BRepOffsetAPI_MakePipeShell maker(TopoDS::Wire(get(spineId)));
if (freenet) {
    maker.SetMode(true);
}
if (smooth) {
    maker.SetTransitionMode(BRepBuilderAPI_RoundCorner);
}
maker.Add(get(profileId));
maker.Build();
if (!maker.IsDone()) {
    throw std::runtime_error(\"sweepPipeShell: operation failed\");
}
maker.MakeSolid();
return store(maker.Shape());");
    reveal_strlit("profileId");
    reveal_strlit("freenet");
    reveal_strlit("smooth");
    reveal_strlit("\
BRepOffsetAPI_MakePipeShell maker(TopoDS::Wire(get(spineId)));
switch (mode) {
    case 0:
        maker.SetMode(Standard_False);
        break;
    case 1:
        maker.SetMode(Standard_True);
        break;
    case 2: {
        gp_Dir up(upX, upY, upZ);
        maker.SetMode(up);
        break;
    }
    case 3: {
        BRepFill_TypeOfContact contact;
        switch (contactMode) {
            case 0:
                contact = BRepFill_NoContact;
                break;
            case 1:
                contact = BRepFill_Contact;
                break;
            case 2:
                contact = BRepFill_ContactOnBorder;
                break;
            default:
                throw std::runtime_error(\"sweepOriented: invalid contact mode\");
        }
        maker.SetMode(TopoDS::Wire(get(auxSpineId)), curvilinearEquivalence, contact);
        break;
    }
    default:
        throw std::runtime_error(\"sweepOriented: invalid mode\");
}
if (tol3d > 0.0 || boundTol > 0.0 || tolAngular > 0.0) {
    maker.SetTolerance(tol3d > 0.0 ? tol3d : 1.0e-4,
                       boundTol > 0.0 ? boundTol : 1.0e-4,
                       tolAngular > 0.0 ? tolAngular : 1.0e-2);
}
maker.Add(get(profileId));
maker.Build();
if (!maker.IsDone()) {
    switch (maker.GetStatus()) {
        case BRepBuilderAPI_PlaneNotIntersectGuide:
            throw std::runtime_error(
                \"sweepOriented: a section plane does not intersect the guide wire. The guide \"
                \"must span the whole spine and stay close enough to meet every section.\");
        case BRepBuilderAPI_ImpossibleContact:
            throw std::runtime_error(
                \"sweepOriented: cannot keep the section in contact with the guide wire. The \"
                \"guide must be close enough to the spine to intersect every section.\");
        default:
            throw std::runtime_error(\"sweepOriented: operation failed\");
    }
}
maker.MakeSolid();
return store(maker.Shape());");
    reveal_strlit("mode");
    reveal_strlit("upX");
    reveal_strlit("upY");
    reveal_strlit("upZ");
    reveal_strlit("auxSpineId");
    reveal_strlit("curvilinearEquivalence");
    reveal_strlit("contactMode");
    reveal_strlit("tol3d");
    reveal_strlit("boundTol");
    reveal_strlit("tolAngular");
    reveal_strlit("\
BRepOffsetAPI_MakePipeShell maker(TopoDS::Wire(get(spineId)));
switch (mode) {
    case 0:
        maker.SetMode(Standard_False);
        break;
    case 1:
        maker.SetMode(Standard_True);
        break;
    case 2: {
        gp_Dir up(upX, upY, upZ);
        maker.SetMode(up);
        break;
    }
    case 3: {
        BRepFill_TypeOfContact contact;
        switch (guideContact) {
            case 0:
                contact = BRepFill_NoContact;
                break;
            case 1:
                contact = BRepFill_Contact;
                break;
            case 2:
                contact = BRepFill_ContactOnBorder;
                break;
            default:
                throw std::runtime_error(\"sweepAdvanced: invalid contact mode\");
        }
        maker.SetMode(TopoDS::Wire(get(auxSpineId)), curvilinearEquivalence, contact);
        break;
    }
    default:
        throw std::runtime_error(\"sweepAdvanced: invalid mode\");
}
if (transitionMode < 0 || transitionMode > 2) {
    throw std::runtime_error(\"sweepAdvanced: invalid transition mode\");
}
maker.SetTransitionMode(static_cast<BRepBuilderAPI_TransitionMode>(transitionMode));
if (tol3d > 0.0 || boundTol > 0.0 || tolAngular > 0.0) {
    maker.SetTolerance(tol3d > 0.0 ? tol3d : 1.0e-4,
                       boundTol > 0.0 ? boundTol : 1.0e-4,
                       tolAngular > 0.0 ? tolAngular : 1.0e-2);
}
maker.Add(get(profileId), withContact, withCorrection);
maker.Build();
if (!maker.IsDone()) {
    switch (maker.GetStatus()) {
        case BRepBuilderAPI_PlaneNotIntersectGuide:
            throw std::runtime_error(
                \"sweepAdvanced: a section plane does not intersect the guide wire. The guide \"
                \"must span the whole spine and stay close enough to meet every section.\");
        case BRepBuilderAPI_ImpossibleContact:
            throw std::runtime_error(
                \"sweepAdvanced: cannot keep the section in contact with the guide wire. The \"
                \"guide must be close enough to the spine to intersect every section.\");
        default:
            throw std::runtime_error(\"sweepAdvanced: operation failed\");
    }
}
maker.MakeSolid();
return store(maker.Shape());");
    reveal_strlit("guideContact");
    reveal_strlit("withContact");
    reveal_strlit("withCorrection");
    reveal_strlit("\
BRepOffsetAPI_MakePipeShell maker(TopoDS::Wire(get(spineId)));
if (supportId != 0) {
    if (!maker.SetMode(get(supportId))) {
        throw std::runtime_error(
            \"sweepFull: the support shape is not a valid spine support. It must contain the \"
            \"spine and supply the surface the sweep follows.\");
    }
} else {
    switch (mode) {
        case 0:
            maker.SetMode(Standard_False);
            break;
        case 1:
            maker.SetMode(Standard_True);
            break;
        case 2: {
            gp_Dir up(upX, upY, upZ);
            maker.SetMode(up);
            break;
        }
        case 3: {
            BRepFill_TypeOfContact contact;
            switch (guideContact) {
                case 0:
                    contact = BRepFill_NoContact;
                    break;
                case 1:
                    contact = BRepFill_Contact;
                    break;
                case 2:
                    contact = BRepFill_ContactOnBorder;
                    break;
                default:
                    throw std::runtime_error(\"sweepFull: invalid contact mode\");
            }
            maker.SetMode(TopoDS::Wire(get(auxSpineId)), curvilinearEquivalence, contact);
            break;
        }
        default:
            throw std::runtime_error(\"sweepFull: invalid mode\");
    }
}
if (transitionMode < 0 || transitionMode > 2) {
    throw std::runtime_error(\"sweepFull: invalid transition mode\");
}
maker.SetTransitionMode(static_cast<BRepBuilderAPI_TransitionMode>(transitionMode));
if (tol3d > 0.0 || boundTol > 0.0 || tolAngular > 0.0) {
    maker.SetTolerance(tol3d > 0.0 ? tol3d : 1.0e-4,
                       boundTol > 0.0 ? boundTol : 1.0e-4,
                       tolAngular > 0.0 ? tolAngular : 1.0e-2);
}
if (maxDegree > 0) {
    maker.SetMaxDegree(maxDegree);
}
if (maxSegments > 0) {
    maker.SetMaxSegments(maxSegments);
}
if (lawKind == 0) {
    maker.Add(get(profileId), withContact, withCorrection);
} else if (lawKind == 1) {
    Handle(Law_Linear) law = new Law_Linear();
    law->Set(0.0, 1.0, lawLength, lawEndFactor);
    maker.SetLaw(get(profileId), law, withContact, withCorrection);
} else if (lawKind == 2) {
    Handle(Law_S) law = new Law_S();
    law->Set(0.0, 1.0, lawLength, lawEndFactor);
    maker.SetLaw(get(profileId), law, withContact, withCorrection);
} else {
    throw std::runtime_error(\"sweepFull: invalid law kind\");
}
maker.Build();
if (!maker.IsDone()) {
    switch (maker.GetStatus()) {
        case BRepBuilderAPI_PlaneNotIntersectGuide:
            throw std::runtime_error(
                \"sweepFull: a section plane does not intersect the guide wire. The guide must \"
                \"span the whole spine and stay close enough to meet every section.\");
        case BRepBuilderAPI_ImpossibleContact:
            throw std::runtime_error(
                \"sweepFull: cannot keep the section in contact with the guide wire. The guide \"
                \"must be close enough to the spine to intersect every section.\");
        default:
            throw std::runtime_error(\"sweepFull: operation failed\");
    }
}
maker.MakeSolid();
return store(maker.Shape());");
    reveal_strlit("supportId");
    reveal_strlit("maxDegree");
    reveal_strlit("maxSegments");
    reveal_strlit("lawKind");
    reveal_strlit("lawLength");
    reveal_strlit("lawEndFactor");
    reveal_strlit("modeling");
    reveal_strlit("\
// Step 1: Straight extrude
gp_Vec extrudeDir(dx, dy, dz);
BRepPrimAPI_MakePrism prism(get(shapeId), extrudeDir);
prism.Build();
if (!prism.IsDone()) {
    throw std::runtime_error(\"draftPrism: extrusion failed\");
}

double angleRad = angleDeg * M_PI / 180.0;
if (std::abs(angleRad) < 1e-10) {
    // No taper requested — return straight extrusion
    return store(prism.Shape());
}

// Neutral plane: base of the input shape, perpendicular to extrude direction.
// Compute centroid of input shape bounding box as a point on the base plane.
Bnd_Box bbox;
BRepBndLib::Add(get(shapeId), bbox);
double xmin, ymin, zmin, xmax, ymax, zmax;
bbox.Get(xmin, ymin, zmin, xmax, ymax, zmax);
gp_Pnt center((xmin + xmax) / 2.0, (ymin + ymax) / 2.0, (zmin + zmax) / 2.0);
gp_Dir pullDir(dx, dy, dz);
gp_Pln neutralPlane(center, pullDir);

// Step 2: Apply draft angle to lateral faces generated by the extrusion
BRepOffsetAPI_DraftAngle drafter(prism.Shape());

// Iterate edges of the input shape; for each edge, MakePrism generates a lateral face
for (TopExp_Explorer ex(get(shapeId), TopAbs_EDGE); ex.More(); ex.Next()) {
    const auto& genList = prism.Generated(ex.Current());
    for (auto it = genList.begin(); it != genList.end(); ++it) {
        if ((*it).ShapeType() == TopAbs_FACE) {
            drafter.Add(TopoDS::Face(*it), pullDir, angleRad, neutralPlane);
        }
    }
}

drafter.Build();
if (!drafter.IsDone()) {
    throw std::runtime_error(\"draftPrism: draft angle application failed\");
}
return store(drafter.Shape());");
    reveal_strlit("shapeId");
    reveal_strlit("dx");
    reveal_strlit("dy");
    reveal_strlit("dz");
    reveal_strlit("angleDeg");
    reveal_strlit("healing");
    reveal_strlit("\
ShapeFix_Shape fixer(get(id));
fixer.Perform();
return store(fixer.Shape());");
    reveal_strlit("id");
    reveal_strlit("\
ShapeUpgrade_UnifySameDomain upgrader(get(id), true, true, false);
upgrader.Build();
return store(upgrader.Shape());");
    reveal_strlit("\
BRepCheck_Analyzer checker(get(id));
return checker.IsValid();");
    reveal_with_fuel(lex_lt, 8);
    let ms = bundled_part_14();
    lemma_well_formed(ms[0]);
    lemma_well_formed(ms[1]);
    lemma_well_formed(ms[2]);
    lemma_well_formed(ms[3]);
    lemma_well_formed(ms[4]);
    lemma_well_formed(ms[5]);
    lemma_well_formed(ms[6]);
    lemma_well_formed(ms[7]);
    lemma_well_formed(ms[8]);
    lemma_well_formed(ms[9]);
}

/// The methods of [`bundled_part_15`] are well formed, checked against the
/// characters of the literals they hold.
proof fn lemma_part_15_well_formed()
    ensures
        all_well_formed(bundled_part_15()),
{
    reveal_strlit("healing");
    reveal_strlit("\
Handle(ShapeFix_Solid) fixer = new ShapeFix_Solid(TopoDS::Solid(get(id)));
fixer->SetPrecision(tolerance);
fixer->Perform();
return store(fixer->Shape());");
    reveal_strlit("id");
    reveal_strlit("tolerance");
    reveal_strlit("\
ShapeFix_Face fixer(TopoDS::Face(get(id)));
fixer.SetPrecision(tolerance);
fixer.Perform();
return store(fixer.Face());");
    reveal_strlit("\
ShapeFix_Wire fixer;
fixer.Load(TopoDS::Wire(get(id)));
fixer.SetPrecision(tolerance);
fixer.Perform();
return store(fixer.Wire());");
    reveal_strlit("\
ShapeFix_Shape fixer(get(id));
fixer.Perform();
return store(fixer.Shape());");
    reveal_strlit("BRepLib::BuildCurves3d(get(wireId));");
    reveal_strlit("wireId");
    reveal_strlit("\
ShapeFix_Wire fixer(TopoDS::Wire(get(wireId)), TopoDS::Face(get(faceId)), tolerance);
fixer.FixEdgeCurves();
return store(fixer.Wire());");
    reveal_strlit("faceId");
    reveal_strlit("io");
    reveal_strlit("\
STEPControl_Reader reader;

// Write data to Emscripten's virtual filesystem
// STEPControl_Reader needs a file path — write to virtual FS
{
    FILE* f = fopen(\"/tmp/import.step\", \"w\");
    if (!f) {
        throw std::runtime_error(\"importStep: cannot create temp file\");
    }
    fwrite(data.c_str(), 1, data.size(), f);
    fclose(f);
}

IFSelect_ReturnStatus status = reader.ReadFile(\"/tmp/import.step\");
if (status != IFSelect_RetDone) {
    throw std::runtime_error(\"importStep: failed to read STEP data\");
}

reader.TransferRoots();
if (reader.NbShapes() == 0) {
    throw std::runtime_error(\"importStep: no shapes found in STEP data\");
}

return store(reader.OneShape());");
    reveal_strlit("data");
    reveal_strlit("\
const auto& shape = get(id);

STEPControl_Writer writer;
// The STEP write actor only fixes non-conformant elementary surfaces (e.g. a
// cone whose stored ConicalSurface has a negative semi-angle) when the
// DirectFaces shape-processing op runs. That op lives on the shared OCCT \"STEP\"
// controller actor, whose flags any prior XCAF/STEPCAF export silently clears --
// after which writer.Transfer() runs no processing and drops conical faces. Set
// the flags explicitly so single-shape STEP export is independent of that state.
ShapeProcess::OperationsFlags spFlags;
spFlags.set(ShapeProcess::Operation::DirectFaces);
spFlags.set(ShapeProcess::Operation::SplitCommonVertex);
writer.SetShapeProcessFlags(spFlags);
IFSelect_ReturnStatus status = writer.Transfer(shape, STEPControl_AsIs);
if (status != IFSelect_RetDone) {
    throw std::runtime_error(\"exportStep: transfer failed\");
}

// Write to temp file then read back
const char* tmpPath = \"/tmp/export.step\";
status = writer.Write(tmpPath);
if (status != IFSelect_RetDone) {
    throw std::runtime_error(\"exportStep: write failed\");
}

// Read file content
FILE* f = fopen(tmpPath, \"r\");
if (!f) {
    throw std::runtime_error(\"exportStep: cannot read temp file\");
}
fseek(f, 0, SEEK_END);
long size = ftell(f);
fseek(f, 0, SEEK_SET);
std::string result(size, '\\0');
fread(&result[0], 1, size, f);
fclose(f);

return result;");
    reveal_strlit("\
const auto& shape = get(id);

// Mesh the shape first
BRepMesh_IncrementalMesh mesher(shape, linearDeflection, false, 0.5, false);

StlAPI_Writer writer;
writer.ASCIIMode() = ascii;

const char* tmpPath = \"/tmp/export.stl\";
if (!writer.Write(shape, tmpPath)) {
    throw std::runtime_error(\"exportStl: write failed\");
}

FILE* f = fopen(tmpPath, \"rb\");
if (!f) {
    throw std::runtime_error(\"exportStl: cannot read temp file\");
}
fseek(f, 0, SEEK_END);
long size = ftell(f);
fseek(f, 0, SEEK_SET);
std::string result(size, '\\0');
fread(&result[0], 1, size, f);
fclose(f);

return result;");
    reveal_strlit("linearDeflection");
    reveal_strlit("ascii");
    reveal_with_fuel(lex_lt, 2);
    let ms = bundled_part_15();
    lemma_well_formed(ms[0]);
    lemma_well_formed(ms[1]);
    lemma_well_formed(ms[2]);
    lemma_well_formed(ms[3]);
    lemma_well_formed(ms[4]);
    lemma_well_formed(ms[5]);
    lemma_well_formed(ms[6]);
    lemma_well_formed(ms[7]);
    lemma_well_formed(ms[8]);
    lemma_well_formed(ms[9]);
}

/// The methods of [`bundled_part_16`] are well formed, checked against the
/// characters of the literals they hold.
proof fn lemma_part_16_well_formed()
    ensures
        all_well_formed(bundled_part_16()),
{
    reveal_strlit("io");
    reveal_strlit("\
// If data is non-empty, write it to the virtual FS.
// If empty, assume the caller already wrote to /tmp/import.stl via FS API.
if (!data.empty()) {
    FILE* f = fopen(\"/tmp/import.stl\", \"wb\");
    if (!f) {
        throw std::runtime_error(\"importStl: cannot create temp file\");
    }
    fwrite(data.c_str(), 1, data.size(), f);
    fclose(f);
}

TopoDS_Shape shape;
StlAPI_Reader reader;
if (!reader.Read(shape, \"/tmp/import.stl\")) {
    throw std::runtime_error(\"importStl: failed to read STL data\");
}

if (shape.IsNull()) {
    throw std::runtime_error(\"importStl: no shape produced from STL data\");
}

return store(shape);");
    reveal_strlit("data");
    reveal_strlit("\
std::ostringstream oss(std::ios::binary);
oss << std::setprecision(17);
BRepTools::Write(get(id), oss);
return oss.str();");
    reveal_strlit("id");
    reveal_strlit("\
std::istringstream iss(data, std::ios::binary);
TopoDS_Shape shape;
BRep_Builder builder;
Message_ProgressRange progress;
BRepTools::Read(shape, iss, builder, progress);
if (shape.IsNull()) {
    throw std::runtime_error(\"fromBREP: failed to read shape\");
}
return store(shape);");
    reveal_strlit("\
std::string path = \"/tmp/export.brep.bin\";
BinTools::Write(get(id), path.c_str());
return path;");
    reveal_strlit("\
TopoDS_Shape shape;
BinTools::Read(shape, path.c_str());
if (shape.IsNull()) {
    throw std::runtime_error(\"importBrepBinary: failed to read shape\");
}
return store(shape);");
    reveal_strlit("path");
    reveal_strlit("evolution");
    reveal_strlit("\
const auto& shape = get(id);
gp_Trsf trsf;
trsf.SetTranslation(gp_Vec(dx, dy, dz));
BRepBuilderAPI_Transform maker(shape, trsf, true);
uint32_t resultId = store(maker.Shape());
return buildEvolution(maker, resultId, shape, inputFaceHashes, hashUpperBound);");
    reveal_strlit("dx");
    reveal_strlit("dy");
    reveal_strlit("dz");
    reveal_strlit("inputFaceHashes");
    reveal_strlit("hashUpperBound");
    reveal_strlit("\
const auto& shapeA = get(a);
const auto& shapeB = get(b);
BRepAlgoAPI_Fuse op(shapeA, shapeB);
op.Build();
if (!op.IsDone() || op.HasErrors()) {
    throw std::runtime_error(\"fuseWithHistory: operation failed\");
}
uint32_t resultId = store(op.Shape());

// Build evolution from both input shapes
EvolutionData evo = buildEvolution(op, resultId, shapeA, inputFaceHashes, hashUpperBound);
// Also check shapeB
EvolutionData evoB = buildEvolution(op, resultId, shapeB, inputFaceHashes, hashUpperBound);
// Merge B into A
evo.modified.insert(evo.modified.end(), evoB.modified.begin(), evoB.modified.end());
evo.generated.insert(evo.generated.end(), evoB.generated.begin(), evoB.generated.end());
evo.deleted.insert(evo.deleted.end(), evoB.deleted.begin(), evoB.deleted.end());
return evo;");
    reveal_strlit("a");
    reveal_strlit("b");
    reveal_strlit("\
const auto& shapeA = get(a);
const auto& shapeB = get(b);
BRepAlgoAPI_Cut op(shapeA, shapeB);
op.Build();
if (!op.IsDone() || op.HasErrors()) {
    throw std::runtime_error(\"cutWithHistory: operation failed\");
}
uint32_t resultId = store(op.Shape());

EvolutionData evo = buildEvolution(op, resultId, shapeA, inputFaceHashes, hashUpperBound);
EvolutionData evoB = buildEvolution(op, resultId, shapeB, inputFaceHashes, hashUpperBound);
evo.modified.insert(evo.modified.end(), evoB.modified.begin(), evoB.modified.end());
evo.generated.insert(evo.generated.end(), evoB.generated.begin(), evoB.generated.end());
evo.deleted.insert(evo.deleted.end(), evoB.deleted.begin(), evoB.deleted.end());
return evo;");
    reveal_strlit("\
const auto& solid = get(solidId);
BRepFilletAPI_MakeFillet maker(solid);
for (uint32_t eid : edgeIds) {
    maker.Add(radius, TopoDS::Edge(get(eid)));
}
maker.Build();
if (!maker.IsDone()) {
    throw std::runtime_error(\"filletWithHistory: operation failed\");
}
uint32_t resultId = store(unwrapSingletonSolid(maker.Shape()));
return buildEvolution(maker, resultId, solid, inputFaceHashes, hashUpperBound);");
    reveal_strlit("solidId");
    reveal_strlit("edgeIds");
    reveal_strlit("radius");
    reveal_strlit("\
const auto& shape = get(id);
gp_Trsf trsf;
trsf.SetRotation(gp_Ax1(gp_Pnt(px, py, pz), gp_Dir(dx, dy, dz)), angle);
BRepBuilderAPI_Transform maker(shape, trsf, true);
uint32_t resultId = store(maker.Shape());
return buildEvolution(maker, resultId, shape, inputFaceHashes, hashUpperBound);");
    reveal_strlit("px");
    reveal_strlit("py");
    reveal_strlit("pz");
    reveal_strlit("angle");
    reveal_with_fuel(lex_lt, 3);
    let ms = bundled_part_16();
    lemma_well_formed(ms[0]);
    lemma_well_formed(ms[1]);
    lemma_well_formed(ms[2]);
    lemma_well_formed(ms[3]);
    lemma_well_formed(ms[4]);
    lemma_well_formed(ms[5]);
    lemma_well_formed(ms[6]);
    lemma_well_formed(ms[7]);
    lemma_well_formed(ms[8]);
    lemma_well_formed(ms[9]);
}

/// The methods of [`bundled_part_17`] are well formed, checked against the
/// characters of the literals they hold.
proof fn lemma_part_17_well_formed()
    ensures
        all_well_formed(bundled_part_17()),
{
    reveal_strlit("evolution");
    reveal_strlit("\
const auto& shape = get(id);
gp_Trsf trsf;
trsf.SetMirror(gp_Ax2(gp_Pnt(px, py, pz), gp_Dir(nx, ny, nz)));
BRepBuilderAPI_Transform maker(shape, trsf, true);
uint32_t resultId = store(maker.Shape());
return buildEvolution(maker, resultId, shape, inputFaceHashes, hashUpperBound);");
    reveal_strlit("id");
    reveal_strlit("px");
    reveal_strlit("py");
    reveal_strlit("pz");
    reveal_strlit("nx");
    reveal_strlit("ny");
    reveal_strlit("nz");
    reveal_strlit("inputFaceHashes");
    reveal_strlit("hashUpperBound");
    reveal_strlit("\
const auto& shape = get(id);
gp_Trsf trsf;
trsf.SetScale(gp_Pnt(cx, cy, cz), factor);
BRepBuilderAPI_Transform maker(shape, trsf, true);
uint32_t resultId = store(maker.Shape());
return buildEvolution(maker, resultId, shape, inputFaceHashes, hashUpperBound);");
    reveal_strlit("cx");
    reveal_strlit("cy");
    reveal_strlit("cz");
    reveal_strlit("factor");
    reveal_strlit("\
const auto& shapeA = get(a);
const auto& shapeB = get(b);
BRepAlgoAPI_Common op(shapeA, shapeB);
op.Build();
if (!op.IsDone() || op.HasErrors()) {
    throw std::runtime_error(\"intersectWithHistory: operation failed\");
}
uint32_t resultId = store(op.Shape());
EvolutionData evo = buildEvolution(op, resultId, shapeA, inputFaceHashes, hashUpperBound);
EvolutionData evoB = buildEvolution(op, resultId, shapeB, inputFaceHashes, hashUpperBound);
evo.modified.insert(evo.modified.end(), evoB.modified.begin(), evoB.modified.end());
evo.generated.insert(evo.generated.end(), evoB.generated.begin(), evoB.generated.end());
evo.deleted.insert(evo.deleted.end(), evoB.deleted.begin(), evoB.deleted.end());
return evo;");
    reveal_strlit("a");
    reveal_strlit("b");
    reveal_strlit("\
const auto& solid = get(solidId);
BRepFilletAPI_MakeChamfer maker(solid);
for (uint32_t eid : edgeIds) {
    maker.Add(distance, TopoDS::Edge(get(eid)));
}
maker.Build();
if (!maker.IsDone()) {
    throw std::runtime_error(\"chamferWithHistory: operation failed\");
}
uint32_t resultId = store(unwrapSingletonSolid(maker.Shape()));
return buildEvolution(maker, resultId, solid, inputFaceHashes, hashUpperBound);");
    reveal_strlit("solidId");
    reveal_strlit("edgeIds");
    reveal_strlit("distance");
    reveal_strlit("\
const auto& solid = get(solidId);
NCollection_List<TopoDS_Shape> facesToRemove;
for (uint32_t fid : faceIds) {
    facesToRemove.Append(get(fid));
}
BRepOffsetAPI_MakeThickSolid maker;
maker.MakeThickSolidByJoin(solid, facesToRemove, -thickness, tolerance);
maker.Build();
if (!maker.IsDone()) {
    throw std::runtime_error(\"shellWithHistory: operation failed\");
}
uint32_t resultId = store(maker.Shape());
return buildEvolution(maker, resultId, solid, inputFaceHashes, hashUpperBound);");
    reveal_strlit("faceIds");
    reveal_strlit("thickness");
    reveal_strlit("tolerance");
    reveal_strlit("\
const auto& solid = get(solidId);
BRepOffsetAPI_MakeOffsetShape maker;
maker.PerformByJoin(solid, distance, tolerance);
maker.Build();
if (!maker.IsDone()) {
    throw std::runtime_error(\"offsetWithHistory: operation failed\");
}
uint32_t resultId = store(maker.Shape());
return buildEvolution(maker, resultId, solid, inputFaceHashes, hashUpperBound);");
    reveal_strlit("\
const auto& shape = get(shapeId);

// For faces/shells: use BRepOffset_MakeOffset (MakeThickSolid only works for solid
// hollowing)
if (shape.ShapeType() == TopAbs_FACE || shape.ShapeType() == TopAbs_SHELL) {
    BRepOffset_MakeOffset offsetMaker;
    offsetMaker.Initialize(shape, thickness, tolerance, BRepOffset_Skin, false, false,
                           GeomAbs_Arc, true);
    offsetMaker.MakeOffsetShape();
    if (!offsetMaker.IsDone()) {
        throw std::runtime_error(\"thickenWithHistory: offset operation failed\");
    }
    uint32_t resultId = store(offsetMaker.Shape());
    // No evolution tracking for BRepOffset_MakeOffset (different API)
    EvolutionData result{};
    result.resultId = resultId;
    return result;
}

NCollection_List<TopoDS_Shape> emptyList;
BRepOffsetAPI_MakeThickSolid maker;
maker.MakeThickSolidByJoin(shape, emptyList, thickness, tolerance);
maker.Build();
if (!maker.IsDone()) {
    throw std::runtime_error(\"thickenWithHistory: operation failed\");
}
uint32_t resultId = store(maker.Shape());
return buildEvolution(maker, resultId, shape, inputFaceHashes, hashUpperBound);");
    reveal_strlit("shapeId");
    reveal_strlit("tessellate");
    reveal_strlit("return buildMeshData(get(id), linearDeflection, angularDeflection, false);");
    reveal_strlit("linearDeflection");
    reveal_strlit("angularDeflection");
    reveal_strlit("return buildMeshData(get(id), linearDeflection, angularDeflection, true);");
    reveal_strlit("return tessellate(id, linearDeflection, angularDeflection);");
    reveal_with_fuel(lex_lt, 3);
    let ms = bundled_part_17();
    lemma_well_formed(ms[0]);
    lemma_well_formed(ms[1]);
    lemma_well_formed(ms[2]);
    lemma_well_formed(ms[3]);
    lemma_well_formed(ms[4]);
    lemma_well_formed(ms[5]);
    lemma_well_formed(ms[6]);
    lemma_well_formed(ms[7]);
    lemma_well_formed(ms[8]);
    lemma_well_formed(ms[9]);
}

/// The methods of [`bundled_part_18`] are well formed, checked against the
/// characters of the literals they hold.
proof fn lemma_part_18_well_formed()
    ensures
        all_well_formed(bundled_part_18()),
{
    reveal_strlit("tessellate");
    reveal_strlit("\
// Cache entry: triangulation handle + metadata from first pass
struct FaceCache {
    Handle(Poly_Triangulation) tri;
    gp_Trsf trsf;
    TopoDS_Face face;
    size_t shapeIdx;
};

struct ShapeMesh {
    int posStart, posCount, idxStart, idxCount;
};
std::vector<ShapeMesh> shapeMeshes;
shapeMeshes.reserve(ids.size());
std::vector<FaceCache> faceCache;

int totalNodes = 0;
int totalTris = 0;

// First pass: mesh all shapes, cache face data, count totals
for (size_t si = 0; si < ids.size(); si++) {
    const auto& shape = get(ids[si]);
    BRepMesh_IncrementalMesh mesher(shape, linearDeflection, false, angularDeflection,
                                    false);

    int shapeNodes = 0;
    int shapeTris = 0;
    for (TopExp_Explorer ex(shape, TopAbs_FACE); ex.More(); ex.Next()) {
        const auto& face = TopoDS::Face(ex.Current());
        TopLoc_Location loc;
        auto tri = BRep_Tool::Triangulation(face, loc);
        if (tri.IsNull())
            continue;
        shapeNodes += tri->NbNodes();
        shapeTris += tri->NbTriangles();
        faceCache.push_back({tri, loc.Transformation(), face, si});
    }
    shapeMeshes.push_back({totalNodes * 3, shapeNodes * 3, totalTris * 3, shapeTris * 3});
    totalNodes += shapeNodes;
    totalTris += shapeTris;
}

// Allocate
MeshBatchData result;
result.positionCount = totalNodes * 3;
result.normalCount = totalNodes * 3;
result.indexCount = totalTris * 3;
result.shapeCount = static_cast<int>(ids.size());

result.positions = static_cast<float*>(std::malloc(result.positionCount * sizeof(float)));
result.normals = static_cast<float*>(std::malloc(result.normalCount * sizeof(float)));
result.indices = static_cast<uint32_t*>(std::malloc(result.indexCount * sizeof(uint32_t)));
result.shapeOffsets =
    static_cast<int32_t*>(std::malloc(result.shapeCount * 4 * sizeof(int32_t)));

if ((!result.positions && result.positionCount > 0) ||
    (!result.normals && result.normalCount > 0) ||
    (!result.indices && result.indexCount > 0) ||
    (!result.shapeOffsets && result.shapeCount > 0)) {
    throw std::runtime_error(\"meshBatch: memory allocation failed\");
}

// Second pass: extract geometry from cached face data
int vertexOffset = 0;
int triOffset = 0;

for (const auto& fc : faceCache) {
    const auto& tri = fc.tri;
    const auto& trsf = fc.trsf;
    bool identityTrsf = (trsf.Form() == gp_Identity);
    int nbNodes = tri->NbNodes();
    int nbTri = tri->NbTriangles();

    if (identityTrsf) {
        for (int i = 1; i <= nbNodes; i++) {
            const gp_Pnt& p = tri->Node(i);
            int base = (vertexOffset + i - 1) * 3;
            result.positions[base + 0] = static_cast<float>(p.X());
            result.positions[base + 1] = static_cast<float>(p.Y());
            result.positions[base + 2] = static_cast<float>(p.Z());
        }
    } else {
        for (int i = 1; i <= nbNodes; i++) {
            gp_Pnt p = tri->Node(i).Transformed(trsf);
            int base = (vertexOffset + i - 1) * 3;
            result.positions[base + 0] = static_cast<float>(p.X());
            result.positions[base + 1] = static_cast<float>(p.Y());
            result.positions[base + 2] = static_cast<float>(p.Z());
        }
    }

    if (!tri->HasNormals()) {
        BRepLib_ToolTriangulatedShape::ComputeNormals(fc.face, tri);
    }
    bool hasNormals = tri->HasNormals();
    for (int i = 1; i <= nbNodes; i++) {
        gp_Dir d(0, 0, 1);
        if (hasNormals) {
            NCollection_Vec3<float> nv;
            tri->Normal(i, nv);
            if (nv.x() != 0.0f || nv.y() != 0.0f || nv.z() != 0.0f) {
                d = gp_Dir(nv.x(), nv.y(), nv.z());
            }
        }
        if (!identityTrsf) {
            d = d.Transformed(trsf);
        }
        int base = (vertexOffset + i - 1) * 3;
        result.normals[base + 0] = static_cast<float>(d.X());
        result.normals[base + 1] = static_cast<float>(d.Y());
        result.normals[base + 2] = static_cast<float>(d.Z());
    }

    bool isReversed = (fc.face.Orientation() != TopAbs_FORWARD);
    for (int t = 1; t <= nbTri; t++) {
        const auto& triangle = tri->Triangle(t);
        int n1 = triangle.Value(1);
        int n2 = triangle.Value(2);
        int n3 = triangle.Value(3);
        if (isReversed)
            std::swap(n1, n2);
        result.indices[triOffset + 0] = static_cast<uint32_t>(n1 - 1 + vertexOffset);
        result.indices[triOffset + 1] = static_cast<uint32_t>(n2 - 1 + vertexOffset);
        result.indices[triOffset + 2] = static_cast<uint32_t>(n3 - 1 + vertexOffset);
        triOffset += 3;
    }

    vertexOffset += nbNodes;
}

// Write per-shape offsets
for (size_t si = 0; si < ids.size(); si++) {
    int oi = static_cast<int>(si) * 4;
    result.shapeOffsets[oi + 0] = shapeMeshes[si].posStart;
    result.shapeOffsets[oi + 1] = shapeMeshes[si].posCount;
    result.shapeOffsets[oi + 2] = shapeMeshes[si].idxStart;
    result.shapeOffsets[oi + 3] = shapeMeshes[si].idxCount;
}

return result;");
    reveal_strlit("ids");
    reveal_strlit("linearDeflection");
    reveal_strlit("angularDeflection");
    reveal_strlit("\
const auto& shape = get(id);

struct EdgeSample {
    std::vector<gp_Pnt> pts;
    int hash;
};
std::vector<EdgeSample> edgeSamples;
int totalPoints = 0;

// Use IndexedMap to avoid duplicate edges (shared between faces)
NCollection_IndexedMap<TopoDS_Shape, TopTools_ShapeMapHasher> edgeMap;
TopExp::MapShapes(shape, TopAbs_EDGE, edgeMap);
for (int ei = 1; ei <= edgeMap.Extent(); ei++) {
    BRepAdaptor_Curve curve(TopoDS::Edge(edgeMap.FindKey(ei)));
    // GCPnts_TangentialDeflection takes (curve, angular, curvature): the
    // caller's deflection is the chord error, capped at 0.5 rad per step.
    GCPnts_TangentialDeflection sampler(curve, 0.5, deflection);
    EdgeSample es;
    for (int i = 1; i <= sampler.NbPoints(); i++) {
        es.pts.push_back(sampler.Value(i));
    }
    es.hash = static_cast<int>(TopTools_ShapeMapHasher{}(edgeMap.FindKey(ei)) % 2147483647);
    totalPoints += static_cast<int>(es.pts.size());
    edgeSamples.push_back(std::move(es));
}

EdgeData result;
result.pointCount = totalPoints * 3;
result.points = static_cast<float*>(std::malloc(result.pointCount * sizeof(float)));
int numEdges = static_cast<int>(edgeSamples.size());
result.edgeGroupCount = numEdges * 3;
result.edgeGroups =
    static_cast<int32_t*>(std::malloc(result.edgeGroupCount * sizeof(int32_t)));
if (!result.points && result.pointCount > 0) {
    throw std::runtime_error(\"wireframe: allocation failed\");
}

int offset = 0;
int edgeIdx = 0;
for (const auto& es : edgeSamples) {
    int edgeStart = offset;
    for (const auto& p : es.pts) {
        result.points[offset + 0] = static_cast<float>(p.X());
        result.points[offset + 1] = static_cast<float>(p.Y());
        result.points[offset + 2] = static_cast<float>(p.Z());
        offset += 3;
    }
    if (result.edgeGroups) {
        result.edgeGroups[edgeIdx * 3] = edgeStart;
        result.edgeGroups[edgeIdx * 3 + 1] = offset - edgeStart;
        result.edgeGroups[edgeIdx * 3 + 2] = es.hash;
    }
    edgeIdx++;
}

return result;");
    reveal_strlit("id");
    reveal_strlit("deflection");
    reveal_strlit("projection");
    reveal_strlit("\
const auto& shape = get(shapeId);

Handle(HLRBRep_Algo) hlr = new HLRBRep_Algo();
hlr->Add(shape, 0);

gp_Pnt origin(ox, oy, oz);
gp_Dir dir(dx, dy, dz);

gp_Ax2 ax2 = hasXAxis ? gp_Ax2(origin, dir, gp_Dir(xx, xy, xz)) : gp_Ax2(origin, dir);

HLRAlgo_Projector projector(ax2);
hlr->Projector(projector);
hlr->Update();
hlr->Hide();

HLRBRep_HLRToShape hlrShapes(hlr);

ProjectionData result{};

auto storeIfNotNull = [this](const TopoDS_Shape& s) -> uint32_t {
    if (s.IsNull())
        return 0;
    BRepLib::BuildCurves3d(s);
    return store(s);
};

result.visibleOutline = storeIfNotNull(hlrShapes.OutLineVCompound());
result.visibleSmooth = storeIfNotNull(hlrShapes.Rg1LineVCompound());
result.visibleSharp = storeIfNotNull(hlrShapes.VCompound());
result.hiddenOutline = storeIfNotNull(hlrShapes.OutLineHCompound());
result.hiddenSmooth = storeIfNotNull(hlrShapes.Rg1LineHCompound());
result.hiddenSharp = storeIfNotNull(hlrShapes.HCompound());

return result;");
    reveal_strlit("shapeId");
    reveal_strlit("ox");
    reveal_strlit("oy");
    reveal_strlit("oz");
    reveal_strlit("dx");
    reveal_strlit("dy");
    reveal_strlit("dz");
    reveal_strlit("xx");
    reveal_strlit("xy");
    reveal_strlit("xz");
    reveal_strlit("hasXAxis");
    reveal_strlit("kernel");
    reveal_strlit("arena_.erase(id);");
    reveal_strlit("\
arena_.clear();
nextId_ = 1;");
    reveal_strlit("return nextId_;");
    reveal_strlit("\
for (auto it = arena_.begin(); it != arena_.end();) {
    if (it->first >= mark) {
        it = arena_.erase(it);
    } else {
        ++it;
    }
}");
    reveal_strlit("mark");
    reveal_strlit("return static_cast<uint32_t>(arena_.size());");
    reveal_strlit("return store(TopoDS_Shape());");
    reveal_strlit("xcaf");
    reveal_strlit("\
Handle(TDocStd_Application) app = getXCAFApp();
Handle(TDocStd_Document) doc;
app->NewDocument(\"BinXCAF\", doc);
uint32_t id = ++nextXcafId_; // pre-increment; default init may be 0 in WASM
xcafDocs_[id] = XCAFDocRecord{doc, {}, 1};
return id;");
    reveal_with_fuel(lex_lt, 3);
    let ms = bundled_part_18();
    lemma_well_formed(ms[0]);
    lemma_well_formed(ms[1]);
    lemma_well_formed(ms[2]);
    lemma_well_formed(ms[3]);
    lemma_well_formed(ms[4]);
    lemma_well_formed(ms[5]);
    lemma_well_formed(ms[6]);
    lemma_well_formed(ms[7]);
    lemma_well_formed(ms[8]);
    lemma_well_formed(ms[9]);
}

/// The methods of [`bundled_part_19`] are well formed, checked against the
/// characters of the literals they hold.
proof fn lemma_part_19_well_formed()
    ensures
        all_well_formed(bundled_part_19()),
{
    reveal_strlit("xcaf");
    reveal_strlit("\
auto it = xcafDocs_.find(docId);
if (it == xcafDocs_.end()) {
    throw std::runtime_error(\"xcafClose: invalid document ID\");
}
try {
    Handle(TDocStd_Application) app = getXCAFApp();
    app->Close(it->second.doc);
} catch (...) {
    // Close can fail if doc is already closed — ignore
}
xcafDocs_.erase(it);");
    reveal_strlit("docId");
    reveal_strlit("\
auto it = xcafDocs_.find(docId);
if (it == xcafDocs_.end())
    throw std::runtime_error(\"xcafAddShape: invalid document ID\");

Handle(XCAFDoc_ShapeTool) shapeTool =
    XCAFDoc_DocumentTool::ShapeTool(it->second.doc->Main());
// makeAssembly=false: add the shape as a single part. With the default (true),
// a COMPOUND -- e.g. the single-solid compound a boolean cut/fuse returns -- is
// auto-decomposed into an assembly, so a color set on this (assembly) label is
// never emitted as a STYLED_ITEM for the underlying solid. Treating a root shape
// as one part keeps per-label colors attached to its geometry.
TDF_Label label = shapeTool->AddShape(get(shapeId), Standard_False);

int facadeId = it->second.nextLabelId++;
it->second.labelRegistry[facadeId] = label;
return facadeId;");
    reveal_strlit("shapeId");
    reveal_strlit("\
auto it = xcafDocs_.find(docId);
if (it == xcafDocs_.end())
    throw std::runtime_error(\"xcafAddComponent: invalid document ID\");

Handle(XCAFDoc_ShapeTool) shapeTool =
    XCAFDoc_DocumentTool::ShapeTool(it->second.doc->Main());

TDF_Label parentLabel = lookupLabel(it->second.labelRegistry, parentLabelId);

// Build location transform (Euler angles in radians)
gp_Trsf trsf;
if (std::abs(rx) > 1e-12 || std::abs(ry) > 1e-12 || std::abs(rz) > 1e-12) {
    gp_Trsf rotX, rotY, rotZ;
    rotX.SetRotation(gp_Ax1(gp_Pnt(0, 0, 0), gp_Dir(1, 0, 0)), rx);
    rotY.SetRotation(gp_Ax1(gp_Pnt(0, 0, 0), gp_Dir(0, 1, 0)), ry);
    rotZ.SetRotation(gp_Ax1(gp_Pnt(0, 0, 0), gp_Dir(0, 0, 1)), rz);
    trsf = rotZ * rotY * rotX;
}
trsf.SetTranslationPart(gp_Vec(tx, ty, tz));
TopLoc_Location loc(trsf);

// First add the shape as a standalone label, then add as component with location
TDF_Label shapeLabel = shapeTool->AddShape(get(shapeId));
TDF_Label compLabel = shapeTool->AddComponent(parentLabel, shapeLabel, loc);

int facadeId = it->second.nextLabelId++;
it->second.labelRegistry[facadeId] = compLabel;
return facadeId;");
    reveal_strlit("parentLabelId");
    reveal_strlit("tx");
    reveal_strlit("ty");
    reveal_strlit("tz");
    reveal_strlit("rx");
    reveal_strlit("ry");
    reveal_strlit("rz");
    reveal_strlit("\
auto it = xcafDocs_.find(docId);
if (it == xcafDocs_.end())
    throw std::runtime_error(\"xcafSetColor: invalid document ID\");

Handle(XCAFDoc_ColorTool) colorTool =
    XCAFDoc_DocumentTool::ColorTool(it->second.doc->Main());
TDF_Label label = lookupLabel(it->second.labelRegistry, labelId);

Quantity_Color color(r, g, b, Quantity_TOC_RGB);
colorTool->SetColor(label, color, XCAFDoc_ColorGen);");
    reveal_strlit("labelId");
    reveal_strlit("r");
    reveal_strlit("g");
    reveal_strlit("b");
    reveal_strlit("\
auto it = xcafDocs_.find(docId);
if (it == xcafDocs_.end())
    throw std::runtime_error(\"xcafSetName: invalid document ID\");

TDF_Label label = lookupLabel(it->second.labelRegistry, labelId);
TDataStd_Name::Set(label, TCollection_ExtendedString(name.c_str()));");
    reveal_strlit("name");
    reveal_strlit("\
auto it = xcafDocs_.find(docId);
if (it == xcafDocs_.end())
    throw std::runtime_error(\"xcafGetLabelInfo: invalid document ID\");

TDF_Label label = lookupLabel(it->second.labelRegistry, labelId);

XCAFLabelInfo info;
info.labelId = labelId;

Handle(XCAFDoc_ShapeTool) shapeTool =
    XCAFDoc_DocumentTool::ShapeTool(it->second.doc->Main());
Handle(XCAFDoc_ColorTool) colorTool =
    XCAFDoc_DocumentTool::ColorTool(it->second.doc->Main());

// Name
Handle(TDataStd_Name) nameAttr;
if (label.FindAttribute(TDataStd_Name::GetID(), nameAttr)) {
    TCollection_ExtendedString ext = nameAttr->Get();
    info.name = TCollection_AsciiString(ext).ToCString();
}

// Color
Quantity_Color color;
if (colorTool->GetColor(label, XCAFDoc_ColorGen, color)) {
    info.hasColor = true;
    info.r = color.Red();
    info.g = color.Green();
    info.b = color.Blue();
}

// Assembly/component flags
info.isAssembly = shapeTool->IsAssembly(label);
info.isComponent = shapeTool->IsComponent(label);

// Shape
TopoDS_Shape shape;
if (shapeTool->GetShape(label, shape) && !shape.IsNull()) {
    info.shapeId = store(shape);
}

return info;");
    reveal_strlit("\
auto it = xcafDocs_.find(docId);
if (it == xcafDocs_.end())
    throw std::runtime_error(\"xcafGetChildLabels: invalid document ID\");

Handle(XCAFDoc_ShapeTool) shapeTool =
    XCAFDoc_DocumentTool::ShapeTool(it->second.doc->Main());
TDF_Label parentLabel = lookupLabel(it->second.labelRegistry, parentLabelId);

NCollection_Sequence<TDF_Label> children;
shapeTool->GetComponents(parentLabel, children);

std::vector<int> ids;
for (int i = 1; i <= children.Length(); ++i) {
    int facadeId = it->second.nextLabelId++;
    it->second.labelRegistry[facadeId] = children.Value(i);
    ids.push_back(facadeId);
}
return ids;");
    reveal_strlit("\
auto it = xcafDocs_.find(docId);
if (it == xcafDocs_.end())
    throw std::runtime_error(\"xcafGetRootLabels: invalid document ID\");

Handle(XCAFDoc_ShapeTool) shapeTool =
    XCAFDoc_DocumentTool::ShapeTool(it->second.doc->Main());

NCollection_Sequence<TDF_Label> roots;
shapeTool->GetFreeShapes(roots);

std::vector<int> ids;
for (int i = 1; i <= roots.Length(); ++i) {
    int facadeId = it->second.nextLabelId++;
    it->second.labelRegistry[facadeId] = roots.Value(i);
    ids.push_back(facadeId);
}
return ids;");
    reveal_strlit("\
auto it = xcafDocs_.find(docId);
if (it == xcafDocs_.end())
    throw std::runtime_error(\"xcafExportSTEP: invalid document ID\");

STEPCAFControl_Writer writer;
writer.SetColorMode(Standard_True);
writer.SetNameMode(Standard_True);
// STEPCAFControl_Writer does not seed the write actor's shape-processing flags,
// so non-conformant elementary surfaces (notably cones, whose stored
// ConicalSurface carries a negative semi-angle) are never fixed and their
// lateral faces are dropped from the output. Enable DirectFaces explicitly to
// match the plain exportStep path. (This also re-seeds the shared controller
// actor, leaving subsequent exportStep calls in a healthy state.)
ShapeProcess::OperationsFlags spFlags;
spFlags.set(ShapeProcess::Operation::DirectFaces);
spFlags.set(ShapeProcess::Operation::SplitCommonVertex);
writer.SetShapeProcessFlags(spFlags);

if (!writer.Transfer(it->second.doc, STEPControl_AsIs)) {
    throw std::runtime_error(\"xcafExportSTEP: transfer failed\");
}

std::string tmpPath = \"/tmp/xcaf_export.step\";
if (writer.Write(tmpPath.c_str()) != IFSelect_RetDone) {
    throw std::runtime_error(\"xcafExportSTEP: write failed\");
}

std::ifstream ifs(tmpPath);
std::string content((std::istreambuf_iterator<char>(ifs)),
                    std::istreambuf_iterator<char>());
std::remove(tmpPath.c_str());
return content;");
    reveal_strlit("\
std::string tmpPath = \"/tmp/xcaf_import.step\";
{
    std::ofstream ofs(tmpPath);
    ofs << stepData;
}

Handle(TDocStd_Application) app = getXCAFApp();
Handle(TDocStd_Document) doc;
app->NewDocument(\"BinXCAF\", doc);

STEPCAFControl_Reader reader;
reader.SetColorMode(Standard_True);
reader.SetNameMode(Standard_True);
reader.SetLayerMode(Standard_True);

if (reader.ReadFile(tmpPath.c_str()) != IFSelect_RetDone) {
    std::remove(tmpPath.c_str());
    getXCAFApp()->Close(doc);
    throw std::runtime_error(\"xcafImportSTEP: read failed\");
}
std::remove(tmpPath.c_str());

if (!reader.Transfer(doc)) {
    getXCAFApp()->Close(doc);
    throw std::runtime_error(\"xcafImportSTEP: transfer failed\");
}

uint32_t id = ++nextXcafId_;
xcafDocs_[id] = XCAFDocRecord{doc, {}, 1};
return id;");
    reveal_strlit("stepData");
    reveal_with_fuel(lex_lt, 3);
    let ms = bundled_part_19();
    lemma_well_formed(ms[0]);
    lemma_well_formed(ms[1]);
    lemma_well_formed(ms[2]);
    lemma_well_formed(ms[3]);
    lemma_well_formed(ms[4]);
    lemma_well_formed(ms[5]);
    lemma_well_formed(ms[6]);
    lemma_well_formed(ms[7]);
    lemma_well_formed(ms[8]);
    lemma_well_formed(ms[9]);
}

/// The methods of [`bundled_part_20`] are well formed, checked against the
/// characters of the literals they hold.
proof fn lemma_part_20_well_formed()
    ensures
        all_well_formed(bundled_part_20()),
{
    reveal_strlit("xcaf");
    reveal_strlit("\
auto it = xcafDocs_.find(docId);
if (it == xcafDocs_.end())
    throw std::runtime_error(\"xcafExportGLTF: invalid document ID\");

// Tessellate all shapes in the document
Handle(XCAFDoc_ShapeTool) shapeTool =
    XCAFDoc_DocumentTool::ShapeTool(it->second.doc->Main());
NCollection_Sequence<TDF_Label> labels;
shapeTool->GetFreeShapes(labels);
for (int i = 1; i <= labels.Length(); ++i) {
    TopoDS_Shape shape;
    if (shapeTool->GetShape(labels.Value(i), shape)) {
        BRepMesh_IncrementalMesh mesh(shape, linDeflection, Standard_False, angDeflection,
                                      Standard_True);
    }
}

// Write glTF binary (.glb) via Handle-allocated writer
std::string tmpPath = \"/tmp/xcaf_export.glb\";
NCollection_IndexedDataMap<TCollection_AsciiString, TCollection_AsciiString> fileInfo;

Handle(RWGltf_CafWriter) writer =
    new RWGltf_CafWriter(TCollection_AsciiString(tmpPath.c_str()), Standard_True);
writer->SetTransformationFormat(RWGltf_WriterTrsfFormat_Compact);
if (!writer->Perform(it->second.doc, fileInfo, Message_ProgressRange())) {
    throw std::runtime_error(\"xcafExportGLTF: write failed\");
}

// Return file path — JS reads binary via Module.FS.readFile()
return tmpPath;");
    reveal_strlit("docId");
    reveal_strlit("linDeflection");
    reveal_strlit("angDeflection");
    reveal_strlit("marshal");
    reveal_strlit("byteCount");
    reveal_strlit("ptr");
    reveal_strlit("count");
    reveal_with_fuel(lex_lt, 2);
    let ms = bundled_part_20();
    lemma_well_formed(ms[0]);
    lemma_well_formed(ms[1]);
    lemma_well_formed(ms[2]);
    lemma_well_formed(ms[3]);
    lemma_well_formed(ms[4]);
    lemma_well_formed(ms[5]);
}

/// How a method built from a template hands its parameters to OCCT: a
/// primitive made straight from its parameters (no `(` in its constructor
/// arguments) passes them in declaration order, separated by `, `; a boolean
/// operation takes two shapes and passes them, in order, as `get(..)`.
pub open spec fn ctor_args_follow_params(m: MethodSpec) -> bool {
    &&& m.kind == MethodKind::SimpleShape && !contains_seq(m.ctor_args@, "("@) ==> m.ctor_args@
        == join(param_names(m), ", "@)
    &&& m.kind == MethodKind::BooleanOp ==> m.params@.len() == 2 && m.ctor_args@ == "get("@
        + param_names(m)[0] + "), get("@ + param_names(m)[1] + ")"@
}

/// Every method of `ms` hands its parameters to OCCT as
/// [`ctor_args_follow_params`] says.
pub open spec fn all_ctor_args_follow_params(ms: Seq<MethodSpec>) -> bool {
    forall|i: int| 0 <= i < ms.len() ==> ctor_args_follow_params(#[trigger] ms[i])
}

proof fn lemma_ctor_args_concat(a: Seq<MethodSpec>, b: Seq<MethodSpec>)
    requires
        all_ctor_args_follow_params(a),
        all_ctor_args_follow_params(b),
    ensures
        all_ctor_args_follow_params(a + b),
{
    assert forall|i: int| 0 <= i < (a + b).len() implies ctor_args_follow_params(#[trigger] (a + b)[i]) by {
        if i < a.len() {
            assert((a + b)[i] == a[i]);
        } else {
            assert((a + b)[i] == b[i - a.len()]);
        }
    }
}

/// The methods of [`bundled_part_00`] hand their parameters to OCCT as
/// [`ctor_args_follow_params`] says.
proof fn lemma_part_00_ctor_args()
    ensures
        all_ctor_args_follow_params(bundled_part_00()),
{
    let ms = bundled_part_00();
    reveal_strlit("dx, dy, dz");
    reveal_strlit(", ");
    reveal_strlit("dx");
    reveal_strlit("dy");
    reveal_strlit("dz");
    reveal_strlit("gp_Pnt(x1, y1, z1), gp_Pnt(x2, y2, z2)");
    reveal_strlit("(");
    reveal_strlit("radius, height");
    reveal_strlit("radius");
    reveal_strlit("height");
    reveal_strlit("r1, r2, height");
    reveal_strlit("r1");
    reveal_strlit("r2");
    reveal_strlit("majorRadius, minorRadius");
    reveal_strlit("majorRadius");
    reveal_strlit("minorRadius");
    reveal_strlit("get(a), get(b)");
    reveal_strlit("get(");
    reveal_strlit("), get(");
    reveal_strlit(")");
    reveal_strlit("a");
    reveal_strlit("b");
    reveal_with_fuel(join, 4);
    assert(param_names(ms[0]) =~= seq!["dx"@, "dy"@, "dz"@]);
    assert(ms[0].ctor_args@ =~= join(seq!["dx"@, "dy"@, "dz"@], ", "@));
    assert(ms[1].ctor_args@.subrange(6, 7) =~= "("@);
    assert(occurs_at(ms[1].ctor_args@, "("@, 6));
    assert(param_names(ms[2]) =~= seq!["radius"@, "height"@]);
    assert(ms[2].ctor_args@ =~= join(seq!["radius"@, "height"@], ", "@));
    assert(param_names(ms[3]) =~= seq!["radius"@]);
    assert(ms[3].ctor_args@ =~= join(seq!["radius"@], ", "@));
    assert(param_names(ms[4]) =~= seq!["r1"@, "r2"@, "height"@]);
    assert(ms[4].ctor_args@ =~= join(seq!["r1"@, "r2"@, "height"@], ", "@));
    assert(param_names(ms[5]) =~= seq!["majorRadius"@, "minorRadius"@]);
    assert(ms[5].ctor_args@ =~= join(seq!["majorRadius"@, "minorRadius"@], ", "@));
    assert(param_names(ms[9]) =~= seq!["a"@, "b"@]);
    assert(ms[9].ctor_args@ =~= "get("@ + "a"@ + "), get("@ + "b"@ + ")"@);
}

/// The methods of [`bundled_part_01`] hand their parameters to OCCT as
/// [`ctor_args_follow_params`] says.
proof fn lemma_part_01_ctor_args()
    ensures
        all_ctor_args_follow_params(bundled_part_01()),
{
    let ms = bundled_part_01();
    reveal_strlit("get(a), get(b)");
    reveal_strlit("get(");
    reveal_strlit("), get(");
    reveal_strlit(")");
    reveal_strlit("a");
    reveal_strlit("b");
    assert(param_names(ms[0]) =~= seq!["a"@, "b"@]);
    assert(ms[0].ctor_args@ =~= "get("@ + "a"@ + "), get("@ + "b"@ + ")"@);
    assert(param_names(ms[1]) =~= seq!["a"@, "b"@]);
    assert(ms[1].ctor_args@ =~= "get("@ + "a"@ + "), get("@ + "b"@ + ")"@);
    assert(param_names(ms[2]) =~= seq!["a"@, "b"@]);
    assert(ms[2].ctor_args@ =~= "get("@ + "a"@ + "), get("@ + "b"@ + ")"@);
}

/// The methods of [`bundled_part_02`] hand their parameters to OCCT as
/// [`ctor_args_follow_params`] says.
proof fn lemma_part_02_ctor_args()
    ensures
        all_ctor_args_follow_params(bundled_part_02()),
{
    let ms = bundled_part_02();
}

/// The methods of [`bundled_part_03`] hand their parameters to OCCT as
/// [`ctor_args_follow_params`] says.
proof fn lemma_part_03_ctor_args()
    ensures
        all_ctor_args_follow_params(bundled_part_03()),
{
    let ms = bundled_part_03();
}

/// The methods of [`bundled_part_04`] hand their parameters to OCCT as
/// [`ctor_args_follow_params`] says.
proof fn lemma_part_04_ctor_args()
    ensures
        all_ctor_args_follow_params(bundled_part_04()),
{
    let ms = bundled_part_04();
}

/// The methods of [`bundled_part_05`] hand their parameters to OCCT as
/// [`ctor_args_follow_params`] says.
proof fn lemma_part_05_ctor_args()
    ensures
        all_ctor_args_follow_params(bundled_part_05()),
{
    let ms = bundled_part_05();
}

/// The methods of [`bundled_part_06`] hand their parameters to OCCT as
/// [`ctor_args_follow_params`] says.
proof fn lemma_part_06_ctor_args()
    ensures
        all_ctor_args_follow_params(bundled_part_06()),
{
    let ms = bundled_part_06();
}

/// The methods of [`bundled_part_07`] hand their parameters to OCCT as
/// [`ctor_args_follow_params`] says.
proof fn lemma_part_07_ctor_args()
    ensures
        all_ctor_args_follow_params(bundled_part_07()),
{
    let ms = bundled_part_07();
}

/// The methods of [`bundled_part_08`] hand their parameters to OCCT as
/// [`ctor_args_follow_params`] says.
proof fn lemma_part_08_ctor_args()
    ensures
        all_ctor_args_follow_params(bundled_part_08()),
{
    let ms = bundled_part_08();
}

/// The methods of [`bundled_part_09`] hand their parameters to OCCT as
/// [`ctor_args_follow_params`] says.
proof fn lemma_part_09_ctor_args()
    ensures
        all_ctor_args_follow_params(bundled_part_09()),
{
    let ms = bundled_part_09();
}

/// The methods of [`bundled_part_10`] hand their parameters to OCCT as
/// [`ctor_args_follow_params`] says.
proof fn lemma_part_10_ctor_args()
    ensures
        all_ctor_args_follow_params(bundled_part_10()),
{
    let ms = bundled_part_10();
}

/// The methods of [`bundled_part_11`] hand their parameters to OCCT as
/// [`ctor_args_follow_params`] says.
proof fn lemma_part_11_ctor_args()
    ensures
        all_ctor_args_follow_params(bundled_part_11()),
{
    let ms = bundled_part_11();
}

/// The methods of [`bundled_part_12`] hand their parameters to OCCT as
/// [`ctor_args_follow_params`] says.
proof fn lemma_part_12_ctor_args()
    ensures
        all_ctor_args_follow_params(bundled_part_12()),
{
    let ms = bundled_part_12();
}

/// The methods of [`bundled_part_13`] hand their parameters to OCCT as
/// [`ctor_args_follow_params`] says.
proof fn lemma_part_13_ctor_args()
    ensures
        all_ctor_args_follow_params(bundled_part_13()),
{
    let ms = bundled_part_13();
}

/// The methods of [`bundled_part_14`] hand their parameters to OCCT as
/// [`ctor_args_follow_params`] says.
proof fn lemma_part_14_ctor_args()
    ensures
        all_ctor_args_follow_params(bundled_part_14()),
{
    let ms = bundled_part_14();
}

/// The methods of [`bundled_part_15`] hand their parameters to OCCT as
/// [`ctor_args_follow_params`] says.
proof fn lemma_part_15_ctor_args()
    ensures
        all_ctor_args_follow_params(bundled_part_15()),
{
    let ms = bundled_part_15();
}

/// The methods of [`bundled_part_16`] hand their parameters to OCCT as
/// [`ctor_args_follow_params`] says.
proof fn lemma_part_16_ctor_args()
    ensures
        all_ctor_args_follow_params(bundled_part_16()),
{
    let ms = bundled_part_16();
}

/// The methods of [`bundled_part_17`] hand their parameters to OCCT as
/// [`ctor_args_follow_params`] says.
proof fn lemma_part_17_ctor_args()
    ensures
        all_ctor_args_follow_params(bundled_part_17()),
{
    let ms = bundled_part_17();
}

/// The methods of [`bundled_part_18`] hand their parameters to OCCT as
/// [`ctor_args_follow_params`] says.
proof fn lemma_part_18_ctor_args()
    ensures
        all_ctor_args_follow_params(bundled_part_18()),
{
    let ms = bundled_part_18();
}

/// The methods of [`bundled_part_19`] hand their parameters to OCCT as
/// [`ctor_args_follow_params`] says.
proof fn lemma_part_19_ctor_args()
    ensures
        all_ctor_args_follow_params(bundled_part_19()),
{
    let ms = bundled_part_19();
}

/// The methods of [`bundled_part_20`] hand their parameters to OCCT as
/// [`ctor_args_follow_params`] says.
proof fn lemma_part_20_ctor_args()
    ensures
        all_ctor_args_follow_params(bundled_part_20()),
{
    let ms = bundled_part_20();
}

/// Every bundled primitive made straight from its parameters passes them to
/// its OCCT maker in declaration order, and every bundled boolean operation
/// passes the shapes of its two parameters, in order.
#[verifier::rlimit(50)]
pub proof fn lemma_bundled_ctor_args_follow_params()
    ensures
        all_ctor_args_follow_params(bundled_specs()),
{
    lemma_part_00_ctor_args();
    lemma_part_01_ctor_args();
    lemma_part_02_ctor_args();
    lemma_part_03_ctor_args();
    lemma_part_04_ctor_args();
    lemma_part_05_ctor_args();
    lemma_part_06_ctor_args();
    lemma_part_07_ctor_args();
    lemma_part_08_ctor_args();
    lemma_part_09_ctor_args();
    lemma_part_10_ctor_args();
    lemma_part_11_ctor_args();
    lemma_part_12_ctor_args();
    lemma_part_13_ctor_args();
    lemma_part_14_ctor_args();
    lemma_part_15_ctor_args();
    lemma_part_16_ctor_args();
    lemma_part_17_ctor_args();
    lemma_part_18_ctor_args();
    lemma_part_19_ctor_args();
    lemma_part_20_ctor_args();
    let s = bundled_part_00();
    lemma_ctor_args_concat(s, bundled_part_01());
    let s = s + bundled_part_01();
    lemma_ctor_args_concat(s, bundled_part_02());
    let s = s + bundled_part_02();
    lemma_ctor_args_concat(s, bundled_part_03());
    let s = s + bundled_part_03();
    lemma_ctor_args_concat(s, bundled_part_04());
    let s = s + bundled_part_04();
    lemma_ctor_args_concat(s, bundled_part_05());
    let s = s + bundled_part_05();
    lemma_ctor_args_concat(s, bundled_part_06());
    let s = s + bundled_part_06();
    lemma_ctor_args_concat(s, bundled_part_07());
    let s = s + bundled_part_07();
    lemma_ctor_args_concat(s, bundled_part_08());
    let s = s + bundled_part_08();
    lemma_ctor_args_concat(s, bundled_part_09());
    let s = s + bundled_part_09();
    lemma_ctor_args_concat(s, bundled_part_10());
    let s = s + bundled_part_10();
    lemma_ctor_args_concat(s, bundled_part_11());
    let s = s + bundled_part_11();
    lemma_ctor_args_concat(s, bundled_part_12());
    let s = s + bundled_part_12();
    lemma_ctor_args_concat(s, bundled_part_13());
    let s = s + bundled_part_13();
    lemma_ctor_args_concat(s, bundled_part_14());
    let s = s + bundled_part_14();
    lemma_ctor_args_concat(s, bundled_part_15());
    let s = s + bundled_part_15();
    lemma_ctor_args_concat(s, bundled_part_16());
    let s = s + bundled_part_16();
    lemma_ctor_args_concat(s, bundled_part_17());
    let s = s + bundled_part_17();
    lemma_ctor_args_concat(s, bundled_part_18());
    let s = s + bundled_part_18();
    lemma_ctor_args_concat(s, bundled_part_19());
    let s = s + bundled_part_19();
    lemma_ctor_args_concat(s, bundled_part_20());
    let s = s + bundled_part_20();
}

/// Every bundled method is well formed on its own.
#[verifier::rlimit(50)]
proof fn lemma_all_methods_well_formed()
    ensures
        all_well_formed(bundled_specs()),
{
    lemma_part_00_well_formed();
    lemma_part_01_well_formed();
    lemma_part_02_well_formed();
    lemma_part_03_well_formed();
    lemma_part_04_well_formed();
    lemma_part_05_well_formed();
    lemma_part_06_well_formed();
    lemma_part_07_well_formed();
    lemma_part_08_well_formed();
    lemma_part_09_well_formed();
    lemma_part_10_well_formed();
    lemma_part_11_well_formed();
    lemma_part_12_well_formed();
    lemma_part_13_well_formed();
    lemma_part_14_well_formed();
    lemma_part_15_well_formed();
    lemma_part_16_well_formed();
    lemma_part_17_well_formed();
    lemma_part_18_well_formed();
    lemma_part_19_well_formed();
    lemma_part_20_well_formed();
    let s = bundled_part_00();
    lemma_all_well_formed_concat(s, bundled_part_01());
    let s = s + bundled_part_01();
    lemma_all_well_formed_concat(s, bundled_part_02());
    let s = s + bundled_part_02();
    lemma_all_well_formed_concat(s, bundled_part_03());
    let s = s + bundled_part_03();
    lemma_all_well_formed_concat(s, bundled_part_04());
    let s = s + bundled_part_04();
    lemma_all_well_formed_concat(s, bundled_part_05());
    let s = s + bundled_part_05();
    lemma_all_well_formed_concat(s, bundled_part_06());
    let s = s + bundled_part_06();
    lemma_all_well_formed_concat(s, bundled_part_07());
    let s = s + bundled_part_07();
    lemma_all_well_formed_concat(s, bundled_part_08());
    let s = s + bundled_part_08();
    lemma_all_well_formed_concat(s, bundled_part_09());
    let s = s + bundled_part_09();
    lemma_all_well_formed_concat(s, bundled_part_10());
    let s = s + bundled_part_10();
    lemma_all_well_formed_concat(s, bundled_part_11());
    let s = s + bundled_part_11();
    lemma_all_well_formed_concat(s, bundled_part_12());
    let s = s + bundled_part_12();
    lemma_all_well_formed_concat(s, bundled_part_13());
    let s = s + bundled_part_13();
    lemma_all_well_formed_concat(s, bundled_part_14());
    let s = s + bundled_part_14();
    lemma_all_well_formed_concat(s, bundled_part_15());
    let s = s + bundled_part_15();
    lemma_all_well_formed_concat(s, bundled_part_16());
    let s = s + bundled_part_16();
    lemma_all_well_formed_concat(s, bundled_part_17());
    let s = s + bundled_part_17();
    lemma_all_well_formed_concat(s, bundled_part_18());
    let s = s + bundled_part_18();
    lemma_all_well_formed_concat(s, bundled_part_19());
    let s = s + bundled_part_19();
    lemma_all_well_formed_concat(s, bundled_part_20());
    let s = s + bundled_part_20();
}

/// The names of the bundled methods, in strictly increasing order.
pub open spec fn sorted_names() -> Seq<Seq<char>> {
    sorted_names_00()
        + sorted_names_01()
        + sorted_names_02()
        + sorted_names_03()
        + sorted_names_04()
        + sorted_names_05()
        + sorted_names_06()
        + sorted_names_07()
        + sorted_names_08()
        + sorted_names_09()
        + sorted_names_10()
}

/// Entries 0 to 19 of [`sorted_names`].
pub open spec fn sorted_names_00() -> Seq<Seq<char>> {
    seq![
        "addHolesInFace"@,
        "adjacentFaces"@,
        "allocBytes"@,
        "approximatePoints"@,
        "booleanPipeline"@,
        "bsplineSurface"@,
        "buildCurves3d"@,
        "buildSolidFromFaces"@,
        "buildTriFace"@,
        "chamfer"@,
        "chamferDistAngle"@,
        "chamferWithHistory"@,
        "checkpoint"@,
        "circularPattern"@,
        "classifyPointOnFace"@,
        "common"@,
        "composeTransform"@,
        "containsPoint"@,
        "copy"@,
        "curveDegreeElevate"@,
    ]
}

/// Entries 20 to 39 of [`sorted_names`].
pub open spec fn sorted_names_01() -> Seq<Seq<char>> {
    seq![
        "curveIsClosed"@,
        "curveIsPeriodic"@,
        "curveKnotInsert"@,
        "curveKnotRemove"@,
        "curveLength"@,
        "curveParameters"@,
        "curvePointAtParam"@,
        "curveSplit"@,
        "curveTangent"@,
        "curveType"@,
        "cut"@,
        "cutAll"@,
        "cutWithHistory"@,
        "defeature"@,
        "distanceBetween"@,
        "downcast"@,
        "draft"@,
        "draftPrism"@,
        "edgeToFaceMap"@,
        "exportBrepBinary"@,
    ]
}

/// Entries 40 to 59 of [`sorted_names`].
pub open spec fn sorted_names_02() -> Seq<Seq<char>> {
    seq![
        "exportStep"@,
        "exportStl"@,
        "extrude"@,
        "fillet"@,
        "fillet2D"@,
        "filletBatch"@,
        "filletVariable"@,
        "filletWithHistory"@,
        "fixFaceOrientations"@,
        "fixShape"@,
        "fixWireOnFace"@,
        "freeBytes"@,
        "fromBREP"@,
        "fuse"@,
        "fuseAll"@,
        "fuseWithHistory"@,
        "generalTransform"@,
        "getBoundingBox"@,
        "getBoundingBoxFast"@,
        "getCenterOfMass"@,
    ]
}

/// Entries 60 to 79 of [`sorted_names`].
pub open spec fn sorted_names_03() -> Seq<Seq<char>> {
    seq![
        "getFaceCylinderData"@,
        "getInertia"@,
        "getLength"@,
        "getLinearCenterOfMass"@,
        "getNurbsCurveData"@,
        "getShapeCount"@,
        "getShapeType"@,
        "getSubShapes"@,
        "getSurfaceArea"@,
        "getSurfaceCenterOfMass"@,
        "getVolume"@,
        "halfSpace"@,
        "hasTriangulation"@,
        "hashCode"@,
        "healFace"@,
        "healSolid"@,
        "healWire"@,
        "importBrepBinary"@,
        "importStep"@,
        "importStl"@,
    ]
}

/// Entries 80 to 99 of [`sorted_names`].
pub open spec fn sorted_names_04() -> Seq<Seq<char>> {
    seq![
        "interpolatePoints"@,
        "interpolatePointsWithTangents"@,
        "intersect"@,
        "intersectWithHistory"@,
        "intersectionCells"@,
        "isEqual"@,
        "isNull"@,
        "isSame"@,
        "isValid"@,
        "iterShapes"@,
        "liftCurve2dToPlane"@,
        "linearPattern"@,
        "located"@,
        "loft"@,
        "loftWithVertices"@,
        "makeArcEdge"@,
        "makeBSplineEdge"@,
        "makeBezierEdge"@,
        "makeBox"@,
        "makeBoxFromCorners"@,
    ]
}

/// Entries 100 to 119 of [`sorted_names`].
pub open spec fn sorted_names_05() -> Seq<Seq<char>> {
    seq![
        "makeCircleArc"@,
        "makeCircleEdge"@,
        "makeCompound"@,
        "makeCone"@,
        "makeCylinder"@,
        "makeEdge"@,
        "makeEllipseArc"@,
        "makeEllipseEdge"@,
        "makeEllipsoid"@,
        "makeFace"@,
        "makeFaceOnSurface"@,
        "makeHelixWire"@,
        "makeHelixWireHanded"@,
        "makeLineEdge"@,
        "makeNonPlanarFace"@,
        "makeNullShape"@,
        "makeRectangle"@,
        "makeSolid"@,
        "makeSphere"@,
        "makeTangentArc"@,
    ]
}

/// Entries 120 to 139 of [`sorted_names`].
pub open spec fn sorted_names_06() -> Seq<Seq<char>> {
    seq![
        "makeTorus"@,
        "makeVertex"@,
        "makeWire"@,
        "meshBatch"@,
        "meshShape"@,
        "mirror"@,
        "mirrorBatch"@,
        "mirrorWithHistory"@,
        "offset"@,
        "offsetWire2D"@,
        "offsetWithHistory"@,
        "outerWire"@,
        "pipe"@,
        "pointOnSurface"@,
        "projectEdges"@,
        "projectPointOnEdge"@,
        "projectPointOnFace"@,
        "queryBatch"@,
        "release"@,
        "releaseAll"@,
    ]
}

/// Entries 140 to 159 of [`sorted_names`].
pub open spec fn sorted_names_07() -> Seq<Seq<char>> {
    seq![
        "releaseSince"@,
        "removeDegenerateEdges"@,
        "removeHolesFromFace"@,
        "reverseShape"@,
        "reverseSurfaceU"@,
        "revolve"@,
        "revolveVec"@,
        "rotate"@,
        "rotateBatch"@,
        "rotateWithHistory"@,
        "scale"@,
        "scaleBatch"@,
        "scaleWithHistory"@,
        "section"@,
        "sew"@,
        "sewAndSolidify"@,
        "shapeOrientation"@,
        "sharedEdges"@,
        "shell"@,
        "shellWithHistory"@,
    ]
}

/// Entries 160 to 179 of [`sorted_names`].
pub open spec fn sorted_names_08() -> Seq<Seq<char>> {
    seq![
        "simplePipe"@,
        "simplify"@,
        "solidFromShell"@,
        "split"@,
        "subShapeCount"@,
        "subShapeHashes"@,
        "surfaceCurvature"@,
        "surfaceNormal"@,
        "surfaceType"@,
        "sweep"@,
        "sweepAdvanced"@,
        "sweepFull"@,
        "sweepOriented"@,
        "sweepPipeShell"@,
        "tessellate"@,
        "tessellateRelative"@,
        "thicken"@,
        "thickenWithHistory"@,
        "toBREP"@,
        "transform"@,
    ]
}

/// Entries 180 to 199 of [`sorted_names`].
pub open spec fn sorted_names_09() -> Seq<Seq<char>> {
    seq![
        "transformBatch"@,
        "transformShapeAx3"@,
        "translate"@,
        "translateBatch"@,
        "translateWithHistory"@,
        "unifySameDomain"@,
        "uvBounds"@,
        "uvFromPoint"@,
        "vectorF64FromHeap"@,
        "vectorI32FromHeap"@,
        "vectorU32FromHeap"@,
        "vertexPosition"@,
        "wireFirstPointTangent"@,
        "wireframe"@,
        "xcafAddComponent"@,
        "xcafAddShape"@,
        "xcafClose"@,
        "xcafExportGLTF"@,
        "xcafExportSTEP"@,
        "xcafGetChildLabels"@,
    ]
}

/// Entries 200 to 205 of [`sorted_names`].
pub open spec fn sorted_names_10() -> Seq<Seq<char>> {
    seq![
        "xcafGetLabelInfo"@,
        "xcafGetRootLabels"@,
        "xcafImportSTEP"@,
        "xcafNewDocument"@,
        "xcafSetColor"@,
        "xcafSetName"@,
    ]
}

/// The indices of the bundled methods, in increasing order of name.
pub open spec fn by_name() -> Seq<int> {
    seq![71, 92, 201, 127, 17, 78, 154, 74, 76, 22, 23, 173, 185, 41, 115, 11, 47, 101, 39, 130]
        + seq![121, 126, 131, 132, 122, 120, 117, 133, 118, 116, 10, 16, 167, 29, 83, 91, 27, 146, 90, 163]
        + seq![158, 159, 19, 21, 24, 33, 32, 168, 153, 147, 155, 202, 162, 9, 14, 166, 45, 94, 95, 99]
        + seq![111, 100, 98, 108, 129, 187, 79, 80, 97, 102, 96, 7, 134, 87, 151, 150, 152, 164, 157, 160]
        + seq![123, 124, 13, 172, 15, 85, 86, 84, 149, 89, 128, 40, 44, 139, 140, 63, 66, 65, 0, 1]
        + seq![62, 61, 59, 4, 2, 53, 67, 64, 6, 55, 56, 68, 69, 60, 70, 188, 8, 57, 3, 77]
        + seq![5, 52, 54, 180, 179, 38, 51, 170, 26, 34, 175, 107, 136, 106, 182, 125, 114, 135, 183, 184]
        + seq![186, 156, 72, 30, 112, 20, 138, 36, 49, 169, 37, 50, 171, 12, 58, 75, 88, 93, 25, 174]
        + seq![137, 31, 73, 18, 81, 82, 109, 105, 104, 141, 144, 145, 143, 142, 177, 178, 28, 176, 161, 42]
        + seq![48, 43, 35, 46, 165, 148, 110, 113, 203, 205, 204, 103, 119, 181, 192, 191, 190, 200, 198, 196]
        + seq![195, 197, 199, 189, 193, 194]
}

/// The position of each bundled method's name in [`sorted_names`].
pub open spec fn name_rank() -> Seq<int> {
    name_rank_00()
        + name_rank_01()
        + name_rank_02()
        + name_rank_03()
        + name_rank_04()
        + name_rank_05()
        + name_rank_06()
        + name_rank_07()
        + name_rank_08()
        + name_rank_09()
        + name_rank_10()
        + name_rank_11()
        + name_rank_12()
        + name_rank_13()
        + name_rank_14()
        + name_rank_15()
        + name_rank_16()
        + name_rank_17()
        + name_rank_18()
        + name_rank_19()
        + name_rank_20()
}

/// Entries 0 to 9 of [`name_rank`].
pub open spec fn name_rank_00() -> Seq<int> {
    seq![98, 99, 104, 118, 103, 120, 108, 71, 116, 53]
}

/// Entries 10 to 19 of [`name_rank`].
pub open spec fn name_rank_01() -> Seq<int> {
    seq![30, 15, 153, 82, 54, 84, 31, 4, 163, 42]
}

/// Entries 20 to 29 of [`name_rank`].
pub open spec fn name_rank_02() -> Seq<int> {
    seq![145, 43, 9, 10, 44, 158, 128, 36, 176, 33]
}

/// Entries 30 to 39 of [`name_rank`].
pub open spec fn name_rank_03() -> Seq<int> {
    seq![143, 161, 46, 45, 129, 182, 147, 150, 125, 18]
}

/// Entries 40 to 49 of [`name_rank`].
pub open spec fn name_rank_04() -> Seq<int> {
    seq![91, 13, 179, 181, 92, 56, 183, 16, 180, 148]
}

/// Entries 50 to 59 of [`name_rank`].
pub open spec fn name_rank_05() -> Seq<int> {
    seq![151, 126, 121, 105, 122, 109, 110, 117, 154, 102]
}

/// Entries 60 to 69 of [`name_rank`].
pub open spec fn name_rank_06() -> Seq<int> {
    seq![113, 101, 100, 95, 107, 97, 96, 106, 111, 112]
}

/// Entries 70 to 79 of [`name_rank`].
pub open spec fn name_rank_07() -> Seq<int> {
    seq![114, 0, 142, 162, 7, 155, 8, 119, 5, 66]
}

/// Entries 80 to 89 of [`name_rank`].
pub open spec fn name_rank_08() -> Seq<int> {
    seq![67, 164, 165, 34, 87, 85, 86, 73, 156, 89]
}

/// Entries 90 to 99 of [`name_rank`].
pub open spec fn name_rank_09() -> Seq<int> {
    seq![38, 35, 1, 157, 57, 58, 70, 68, 62, 59]
}

/// Entries 100 to 109 of [`name_rank`].
pub open spec fn name_rank_10() -> Seq<int> {
    seq![61, 17, 69, 191, 168, 167, 133, 131, 63, 166]
}

/// Entries 110 to 119 of [`name_rank`].
pub open spec fn name_rank_11() -> Seq<int> {
    seq![186, 60, 144, 187, 136, 14, 29, 26, 28, 192]
}

/// Entries 120 to 129 of [`name_rank`].
pub open spec fn name_rank_12() -> Seq<int> {
    seq![25, 20, 24, 80, 81, 135, 21, 3, 90, 64]
}

/// Entries 130 to 139 of [`name_rank`].
pub open spec fn name_rank_13() -> Seq<int> {
    seq![19, 22, 23, 27, 72, 137, 132, 160, 146, 93]
}

/// Entries 140 to 149 of [`name_rank`].
pub open spec fn name_rank_14() -> Seq<int> {
    seq![94, 169, 173, 172, 170, 171, 37, 49, 185, 88]
}

/// Entries 150 to 159 of [`name_rank`].
pub open spec fn name_rank_15() -> Seq<int> {
    seq![75, 74, 76, 48, 6, 50, 141, 78, 40, 41]
}

/// Entries 160 to 169 of [`name_rank`].
pub open spec fn name_rank_16() -> Seq<int> {
    seq![79, 178, 52, 39, 77, 184, 55, 32, 47, 149]
}

/// Entries 170 to 179 of [`name_rank`].
pub open spec fn name_rank_17() -> Seq<int> {
    seq![127, 152, 83, 11, 159, 130, 177, 174, 175, 124]
}

/// Entries 180 to 189 of [`name_rank`].
pub open spec fn name_rank_18() -> Seq<int> {
    seq![123, 193, 134, 138, 139, 12, 140, 65, 115, 203]
}

/// Entries 190 to 199 of [`name_rank`].
pub open spec fn name_rank_19() -> Seq<int> {
    seq![196, 195, 194, 204, 205, 200, 199, 201, 198, 202]
}

/// Entries 200 to 205 of [`name_rank`].
pub open spec fn name_rank_20() -> Seq<int> {
    seq![197, 2, 51, 188, 190, 189]
}

/// Each element sorts strictly before the next.
pub open spec fn ascending(s: Seq<Seq<char>>) -> bool {
    forall|k: int| 0 <= k < s.len() - 1 ==> lex_lt(#[trigger] s[k], s[k + 1])
}

proof fn lemma_ascending_concat(a: Seq<Seq<char>>, b: Seq<Seq<char>>)
    requires
        ascending(a),
        ascending(b),
        a.len() > 0,
        b.len() > 0,
        lex_lt(a[a.len() - 1], b[0]),
    ensures
        ascending(a + b),
{
    assert forall|k: int| 0 <= k < (a + b).len() - 1 implies lex_lt(#[trigger] (a + b)[k], (a + b)[k + 1]) by {
        if k < a.len() - 1 {
            assert((a + b)[k] == a[k] && (a + b)[k + 1] == a[k + 1]);
        } else if k == a.len() - 1 {
            assert((a + b)[k] == a[k] && (a + b)[k + 1] == b[0]);
        } else {
            assert((a + b)[k] == b[k - a.len()] && (a + b)[k + 1] == b[k + 1 - a.len()]);
        }
    }
}

/// The names of [`sorted_names_00`] ascend, and lead into the next part.
proof fn lemma_sorted_names_00()
    ensures
        ascending(sorted_names_00()),
        lex_lt(sorted_names_00()[19], sorted_names_01()[0]),
{
    reveal_strlit("addHolesInFace");
    reveal_strlit("adjacentFaces");
    reveal_strlit("allocBytes");
    reveal_strlit("approximatePoints");
    reveal_strlit("booleanPipeline");
    reveal_strlit("bsplineSurface");
    reveal_strlit("buildCurves3d");
    reveal_strlit("buildSolidFromFaces");
    reveal_strlit("buildTriFace");
    reveal_strlit("chamfer");
    reveal_strlit("chamferDistAngle");
    reveal_strlit("chamferWithHistory");
    reveal_strlit("checkpoint");
    reveal_strlit("circularPattern");
    reveal_strlit("classifyPointOnFace");
    reveal_strlit("common");
    reveal_strlit("composeTransform");
    reveal_strlit("containsPoint");
    reveal_strlit("copy");
    reveal_strlit("curveDegreeElevate");
    reveal_strlit("curveIsClosed");
    reveal_with_fuel(lex_lt, 9);
    let s = sorted_names_00();
    assert(lex_lt(s[0], s[1]));
    assert(lex_lt(s[1], s[2]));
    assert(lex_lt(s[2], s[3]));
    assert(lex_lt(s[3], s[4]));
    assert(lex_lt(s[4], s[5]));
    assert(lex_lt(s[5], s[6]));
    assert(lex_lt(s[6], s[7]));
    assert(lex_lt(s[7], s[8]));
    assert(lex_lt(s[8], s[9]));
    assert(lex_lt(s[9], s[10]));
    assert(lex_lt(s[10], s[11]));
    assert(lex_lt(s[11], s[12]));
    assert(lex_lt(s[12], s[13]));
    assert(lex_lt(s[13], s[14]));
    assert(lex_lt(s[14], s[15]));
    assert(lex_lt(s[15], s[16]));
    assert(lex_lt(s[16], s[17]));
    assert(lex_lt(s[17], s[18]));
    assert(lex_lt(s[18], s[19]));
    assert(lex_lt(s[19], sorted_names_01()[0]));
}

/// The names of [`sorted_names_01`] ascend, and lead into the next part.
proof fn lemma_sorted_names_01()
    ensures
        ascending(sorted_names_01()),
        lex_lt(sorted_names_01()[19], sorted_names_02()[0]),
{
    reveal_strlit("curveIsClosed");
    reveal_strlit("curveIsPeriodic");
    reveal_strlit("curveKnotInsert");
    reveal_strlit("curveKnotRemove");
    reveal_strlit("curveLength");
    reveal_strlit("curveParameters");
    reveal_strlit("curvePointAtParam");
    reveal_strlit("curveSplit");
    reveal_strlit("curveTangent");
    reveal_strlit("curveType");
    reveal_strlit("cut");
    reveal_strlit("cutAll");
    reveal_strlit("cutWithHistory");
    reveal_strlit("defeature");
    reveal_strlit("distanceBetween");
    reveal_strlit("downcast");
    reveal_strlit("draft");
    reveal_strlit("draftPrism");
    reveal_strlit("edgeToFaceMap");
    reveal_strlit("exportBrepBinary");
    reveal_strlit("exportStep");
    reveal_with_fuel(lex_lt, 11);
    let s = sorted_names_01();
    assert(lex_lt(s[0], s[1]));
    assert(lex_lt(s[1], s[2]));
    assert(lex_lt(s[2], s[3]));
    assert(lex_lt(s[3], s[4]));
    assert(lex_lt(s[4], s[5]));
    assert(lex_lt(s[5], s[6]));
    assert(lex_lt(s[6], s[7]));
    assert(lex_lt(s[7], s[8]));
    assert(lex_lt(s[8], s[9]));
    assert(lex_lt(s[9], s[10]));
    assert(lex_lt(s[10], s[11]));
    assert(lex_lt(s[11], s[12]));
    assert(lex_lt(s[12], s[13]));
    assert(lex_lt(s[13], s[14]));
    assert(lex_lt(s[14], s[15]));
    assert(lex_lt(s[15], s[16]));
    assert(lex_lt(s[16], s[17]));
    assert(lex_lt(s[17], s[18]));
    assert(lex_lt(s[18], s[19]));
    assert(lex_lt(s[19], sorted_names_02()[0]));
}

/// The names of [`sorted_names_02`] ascend, and lead into the next part.
proof fn lemma_sorted_names_02()
    ensures
        ascending(sorted_names_02()),
        lex_lt(sorted_names_02()[19], sorted_names_03()[0]),
{
    reveal_strlit("exportStep");
    reveal_strlit("exportStl");
    reveal_strlit("extrude");
    reveal_strlit("fillet");
    reveal_strlit("fillet2D");
    reveal_strlit("filletBatch");
    reveal_strlit("filletVariable");
    reveal_strlit("filletWithHistory");
    reveal_strlit("fixFaceOrientations");
    reveal_strlit("fixShape");
    reveal_strlit("fixWireOnFace");
    reveal_strlit("freeBytes");
    reveal_strlit("fromBREP");
    reveal_strlit("fuse");
    reveal_strlit("fuseAll");
    reveal_strlit("fuseWithHistory");
    reveal_strlit("generalTransform");
    reveal_strlit("getBoundingBox");
    reveal_strlit("getBoundingBoxFast");
    reveal_strlit("getCenterOfMass");
    reveal_strlit("getFaceCylinderData");
    reveal_with_fuel(lex_lt, 16);
    let s = sorted_names_02();
    assert(lex_lt(s[0], s[1]));
    assert(lex_lt(s[1], s[2]));
    assert(lex_lt(s[2], s[3]));
    assert(lex_lt(s[3], s[4]));
    assert(lex_lt(s[4], s[5]));
    assert(lex_lt(s[5], s[6]));
    assert(lex_lt(s[6], s[7]));
    assert(lex_lt(s[7], s[8]));
    assert(lex_lt(s[8], s[9]));
    assert(lex_lt(s[9], s[10]));
    assert(lex_lt(s[10], s[11]));
    assert(lex_lt(s[11], s[12]));
    assert(lex_lt(s[12], s[13]));
    assert(lex_lt(s[13], s[14]));
    assert(lex_lt(s[14], s[15]));
    assert(lex_lt(s[15], s[16]));
    assert(lex_lt(s[16], s[17]));
    assert(lex_lt(s[17], s[18]));
    assert(lex_lt(s[18], s[19]));
    assert(lex_lt(s[19], sorted_names_03()[0]));
}

/// The names of [`sorted_names_03`] ascend, and lead into the next part.
proof fn lemma_sorted_names_03()
    ensures
        ascending(sorted_names_03()),
        lex_lt(sorted_names_03()[19], sorted_names_04()[0]),
{
    reveal_strlit("getFaceCylinderData");
    reveal_strlit("getInertia");
    reveal_strlit("getLength");
    reveal_strlit("getLinearCenterOfMass");
    reveal_strlit("getNurbsCurveData");
    reveal_strlit("getShapeCount");
    reveal_strlit("getShapeType");
    reveal_strlit("getSubShapes");
    reveal_strlit("getSurfaceArea");
    reveal_strlit("getSurfaceCenterOfMass");
    reveal_strlit("getVolume");
    reveal_strlit("halfSpace");
    reveal_strlit("hasTriangulation");
    reveal_strlit("hashCode");
    reveal_strlit("healFace");
    reveal_strlit("healSolid");
    reveal_strlit("healWire");
    reveal_strlit("importBrepBinary");
    reveal_strlit("importStep");
    reveal_strlit("importStl");
    reveal_strlit("interpolatePoints");
    reveal_with_fuel(lex_lt, 12);
    let s = sorted_names_03();
    assert(lex_lt(s[0], s[1]));
    assert(lex_lt(s[1], s[2]));
    assert(lex_lt(s[2], s[3]));
    assert(lex_lt(s[3], s[4]));
    assert(lex_lt(s[4], s[5]));
    assert(lex_lt(s[5], s[6]));
    assert(lex_lt(s[6], s[7]));
    assert(lex_lt(s[7], s[8]));
    assert(lex_lt(s[8], s[9]));
    assert(lex_lt(s[9], s[10]));
    assert(lex_lt(s[10], s[11]));
    assert(lex_lt(s[11], s[12]));
    assert(lex_lt(s[12], s[13]));
    assert(lex_lt(s[13], s[14]));
    assert(lex_lt(s[14], s[15]));
    assert(lex_lt(s[15], s[16]));
    assert(lex_lt(s[16], s[17]));
    assert(lex_lt(s[17], s[18]));
    assert(lex_lt(s[18], s[19]));
    assert(lex_lt(s[19], sorted_names_04()[0]));
}

/// The names of [`sorted_names_04`] ascend, and lead into the next part.
proof fn lemma_sorted_names_04()
    ensures
        ascending(sorted_names_04()),
        lex_lt(sorted_names_04()[19], sorted_names_05()[0]),
{
    reveal_strlit("interpolatePoints");
    reveal_strlit("interpolatePointsWithTangents");
    reveal_strlit("intersect");
    reveal_strlit("intersectWithHistory");
    reveal_strlit("intersectionCells");
    reveal_strlit("isEqual");
    reveal_strlit("isNull");
    reveal_strlit("isSame");
    reveal_strlit("isValid");
    reveal_strlit("iterShapes");
    reveal_strlit("liftCurve2dToPlane");
    reveal_strlit("linearPattern");
    reveal_strlit("located");
    reveal_strlit("loft");
    reveal_strlit("loftWithVertices");
    reveal_strlit("makeArcEdge");
    reveal_strlit("makeBSplineEdge");
    reveal_strlit("makeBezierEdge");
    reveal_strlit("makeBox");
    reveal_strlit("makeBoxFromCorners");
    reveal_strlit("makeCircleArc");
    reveal_with_fuel(lex_lt, 19);
    let s = sorted_names_04();
    assert(lex_lt(s[0], s[1]));
    assert(lex_lt(s[1], s[2]));
    assert(lex_lt(s[2], s[3]));
    assert(lex_lt(s[3], s[4]));
    assert(lex_lt(s[4], s[5]));
    assert(lex_lt(s[5], s[6]));
    assert(lex_lt(s[6], s[7]));
    assert(lex_lt(s[7], s[8]));
    assert(lex_lt(s[8], s[9]));
    assert(lex_lt(s[9], s[10]));
    assert(lex_lt(s[10], s[11]));
    assert(lex_lt(s[11], s[12]));
    assert(lex_lt(s[12], s[13]));
    assert(lex_lt(s[13], s[14]));
    assert(lex_lt(s[14], s[15]));
    assert(lex_lt(s[15], s[16]));
    assert(lex_lt(s[16], s[17]));
    assert(lex_lt(s[17], s[18]));
    assert(lex_lt(s[18], s[19]));
    assert(lex_lt(s[19], sorted_names_05()[0]));
}

/// The names of [`sorted_names_05`] ascend, and lead into the next part.
proof fn lemma_sorted_names_05()
    ensures
        ascending(sorted_names_05()),
        lex_lt(sorted_names_05()[19], sorted_names_06()[0]),
{
    reveal_strlit("makeCircleArc");
    reveal_strlit("makeCircleEdge");
    reveal_strlit("makeCompound");
    reveal_strlit("makeCone");
    reveal_strlit("makeCylinder");
    reveal_strlit("makeEdge");
    reveal_strlit("makeEllipseArc");
    reveal_strlit("makeEllipseEdge");
    reveal_strlit("makeEllipsoid");
    reveal_strlit("makeFace");
    reveal_strlit("makeFaceOnSurface");
    reveal_strlit("makeHelixWire");
    reveal_strlit("makeHelixWireHanded");
    reveal_strlit("makeLineEdge");
    reveal_strlit("makeNonPlanarFace");
    reveal_strlit("makeNullShape");
    reveal_strlit("makeRectangle");
    reveal_strlit("makeSolid");
    reveal_strlit("makeSphere");
    reveal_strlit("makeTangentArc");
    reveal_strlit("makeTorus");
    reveal_with_fuel(lex_lt, 15);
    let s = sorted_names_05();
    assert(lex_lt(s[0], s[1]));
    assert(lex_lt(s[1], s[2]));
    assert(lex_lt(s[2], s[3]));
    assert(lex_lt(s[3], s[4]));
    assert(lex_lt(s[4], s[5]));
    assert(lex_lt(s[5], s[6]));
    assert(lex_lt(s[6], s[7]));
    assert(lex_lt(s[7], s[8]));
    assert(lex_lt(s[8], s[9]));
    assert(lex_lt(s[9], s[10]));
    assert(lex_lt(s[10], s[11]));
    assert(lex_lt(s[11], s[12]));
    assert(lex_lt(s[12], s[13]));
    assert(lex_lt(s[13], s[14]));
    assert(lex_lt(s[14], s[15]));
    assert(lex_lt(s[15], s[16]));
    assert(lex_lt(s[16], s[17]));
    assert(lex_lt(s[17], s[18]));
    assert(lex_lt(s[18], s[19]));
    assert(lex_lt(s[19], sorted_names_06()[0]));
}

/// The names of [`sorted_names_06`] ascend, and lead into the next part.
proof fn lemma_sorted_names_06()
    ensures
        ascending(sorted_names_06()),
        lex_lt(sorted_names_06()[19], sorted_names_07()[0]),
{
    reveal_strlit("makeTorus");
    reveal_strlit("makeVertex");
    reveal_strlit("makeWire");
    reveal_strlit("meshBatch");
    reveal_strlit("meshShape");
    reveal_strlit("mirror");
    reveal_strlit("mirrorBatch");
    reveal_strlit("mirrorWithHistory");
    reveal_strlit("offset");
    reveal_strlit("offsetWire2D");
    reveal_strlit("offsetWithHistory");
    reveal_strlit("outerWire");
    reveal_strlit("pipe");
    reveal_strlit("pointOnSurface");
    reveal_strlit("projectEdges");
    reveal_strlit("projectPointOnEdge");
    reveal_strlit("projectPointOnFace");
    reveal_strlit("queryBatch");
    reveal_strlit("release");
    reveal_strlit("releaseAll");
    reveal_strlit("releaseSince");
    reveal_with_fuel(lex_lt, 16);
    let s = sorted_names_06();
    assert(lex_lt(s[0], s[1]));
    assert(lex_lt(s[1], s[2]));
    assert(lex_lt(s[2], s[3]));
    assert(lex_lt(s[3], s[4]));
    assert(lex_lt(s[4], s[5]));
    assert(lex_lt(s[5], s[6]));
    assert(lex_lt(s[6], s[7]));
    assert(lex_lt(s[7], s[8]));
    assert(lex_lt(s[8], s[9]));
    assert(lex_lt(s[9], s[10]));
    assert(lex_lt(s[10], s[11]));
    assert(lex_lt(s[11], s[12]));
    assert(lex_lt(s[12], s[13]));
    assert(lex_lt(s[13], s[14]));
    assert(lex_lt(s[14], s[15]));
    assert(lex_lt(s[15], s[16]));
    assert(lex_lt(s[16], s[17]));
    assert(lex_lt(s[17], s[18]));
    assert(lex_lt(s[18], s[19]));
    assert(lex_lt(s[19], sorted_names_07()[0]));
}

/// The names of [`sorted_names_07`] ascend, and lead into the next part.
proof fn lemma_sorted_names_07()
    ensures
        ascending(sorted_names_07()),
        lex_lt(sorted_names_07()[19], sorted_names_08()[0]),
{
    reveal_strlit("releaseSince");
    reveal_strlit("removeDegenerateEdges");
    reveal_strlit("removeHolesFromFace");
    reveal_strlit("reverseShape");
    reveal_strlit("reverseSurfaceU");
    reveal_strlit("revolve");
    reveal_strlit("revolveVec");
    reveal_strlit("rotate");
    reveal_strlit("rotateBatch");
    reveal_strlit("rotateWithHistory");
    reveal_strlit("scale");
    reveal_strlit("scaleBatch");
    reveal_strlit("scaleWithHistory");
    reveal_strlit("section");
    reveal_strlit("sew");
    reveal_strlit("sewAndSolidify");
    reveal_strlit("shapeOrientation");
    reveal_strlit("sharedEdges");
    reveal_strlit("shell");
    reveal_strlit("shellWithHistory");
    reveal_strlit("simplePipe");
    reveal_with_fuel(lex_lt, 10);
    let s = sorted_names_07();
    assert(lex_lt(s[0], s[1]));
    assert(lex_lt(s[1], s[2]));
    assert(lex_lt(s[2], s[3]));
    assert(lex_lt(s[3], s[4]));
    assert(lex_lt(s[4], s[5]));
    assert(lex_lt(s[5], s[6]));
    assert(lex_lt(s[6], s[7]));
    assert(lex_lt(s[7], s[8]));
    assert(lex_lt(s[8], s[9]));
    assert(lex_lt(s[9], s[10]));
    assert(lex_lt(s[10], s[11]));
    assert(lex_lt(s[11], s[12]));
    assert(lex_lt(s[12], s[13]));
    assert(lex_lt(s[13], s[14]));
    assert(lex_lt(s[14], s[15]));
    assert(lex_lt(s[15], s[16]));
    assert(lex_lt(s[16], s[17]));
    assert(lex_lt(s[17], s[18]));
    assert(lex_lt(s[18], s[19]));
    assert(lex_lt(s[19], sorted_names_08()[0]));
}

/// The names of [`sorted_names_08`] ascend, and lead into the next part.
proof fn lemma_sorted_names_08()
    ensures
        ascending(sorted_names_08()),
        lex_lt(sorted_names_08()[19], sorted_names_09()[0]),
{
    reveal_strlit("simplePipe");
    reveal_strlit("simplify");
    reveal_strlit("solidFromShell");
    reveal_strlit("split");
    reveal_strlit("subShapeCount");
    reveal_strlit("subShapeHashes");
    reveal_strlit("surfaceCurvature");
    reveal_strlit("surfaceNormal");
    reveal_strlit("surfaceType");
    reveal_strlit("sweep");
    reveal_strlit("sweepAdvanced");
    reveal_strlit("sweepFull");
    reveal_strlit("sweepOriented");
    reveal_strlit("sweepPipeShell");
    reveal_strlit("tessellate");
    reveal_strlit("tessellateRelative");
    reveal_strlit("thicken");
    reveal_strlit("thickenWithHistory");
    reveal_strlit("toBREP");
    reveal_strlit("transform");
    reveal_strlit("transformBatch");
    reveal_with_fuel(lex_lt, 12);
    let s = sorted_names_08();
    assert(lex_lt(s[0], s[1]));
    assert(lex_lt(s[1], s[2]));
    assert(lex_lt(s[2], s[3]));
    assert(lex_lt(s[3], s[4]));
    assert(lex_lt(s[4], s[5]));
    assert(lex_lt(s[5], s[6]));
    assert(lex_lt(s[6], s[7]));
    assert(lex_lt(s[7], s[8]));
    assert(lex_lt(s[8], s[9]));
    assert(lex_lt(s[9], s[10]));
    assert(lex_lt(s[10], s[11]));
    assert(lex_lt(s[11], s[12]));
    assert(lex_lt(s[12], s[13]));
    assert(lex_lt(s[13], s[14]));
    assert(lex_lt(s[14], s[15]));
    assert(lex_lt(s[15], s[16]));
    assert(lex_lt(s[16], s[17]));
    assert(lex_lt(s[17], s[18]));
    assert(lex_lt(s[18], s[19]));
    assert(lex_lt(s[19], sorted_names_09()[0]));
}

/// The names of [`sorted_names_09`] ascend, and lead into the next part.
proof fn lemma_sorted_names_09()
    ensures
        ascending(sorted_names_09()),
        lex_lt(sorted_names_09()[19], sorted_names_10()[0]),
{
    reveal_strlit("transformBatch");
    reveal_strlit("transformShapeAx3");
    reveal_strlit("translate");
    reveal_strlit("translateBatch");
    reveal_strlit("translateWithHistory");
    reveal_strlit("unifySameDomain");
    reveal_strlit("uvBounds");
    reveal_strlit("uvFromPoint");
    reveal_strlit("vectorF64FromHeap");
    reveal_strlit("vectorI32FromHeap");
    reveal_strlit("vectorU32FromHeap");
    reveal_strlit("vertexPosition");
    reveal_strlit("wireFirstPointTangent");
    reveal_strlit("wireframe");
    reveal_strlit("xcafAddComponent");
    reveal_strlit("xcafAddShape");
    reveal_strlit("xcafClose");
    reveal_strlit("xcafExportGLTF");
    reveal_strlit("xcafExportSTEP");
    reveal_strlit("xcafGetChildLabels");
    reveal_strlit("xcafGetLabelInfo");
    reveal_with_fuel(lex_lt, 12);
    let s = sorted_names_09();
    assert(lex_lt(s[0], s[1]));
    assert(lex_lt(s[1], s[2]));
    assert(lex_lt(s[2], s[3]));
    assert(lex_lt(s[3], s[4]));
    assert(lex_lt(s[4], s[5]));
    assert(lex_lt(s[5], s[6]));
    assert(lex_lt(s[6], s[7]));
    assert(lex_lt(s[7], s[8]));
    assert(lex_lt(s[8], s[9]));
    assert(lex_lt(s[9], s[10]));
    assert(lex_lt(s[10], s[11]));
    assert(lex_lt(s[11], s[12]));
    assert(lex_lt(s[12], s[13]));
    assert(lex_lt(s[13], s[14]));
    assert(lex_lt(s[14], s[15]));
    assert(lex_lt(s[15], s[16]));
    assert(lex_lt(s[16], s[17]));
    assert(lex_lt(s[17], s[18]));
    assert(lex_lt(s[18], s[19]));
    assert(lex_lt(s[19], sorted_names_10()[0]));
}

/// The names of [`sorted_names_10`] ascend.
proof fn lemma_sorted_names_10()
    ensures
        ascending(sorted_names_10()),
{
    reveal_strlit("xcafGetLabelInfo");
    reveal_strlit("xcafGetRootLabels");
    reveal_strlit("xcafImportSTEP");
    reveal_strlit("xcafNewDocument");
    reveal_strlit("xcafSetColor");
    reveal_strlit("xcafSetName");
    reveal_with_fuel(lex_lt, 9);
    let s = sorted_names_10();
    assert(lex_lt(s[0], s[1]));
    assert(lex_lt(s[1], s[2]));
    assert(lex_lt(s[2], s[3]));
    assert(lex_lt(s[3], s[4]));
    assert(lex_lt(s[4], s[5]));
}

/// Method `off + k` of the bundled list is `ms[k]`: its name stands at
/// position `ranks[k]` of [`sorted_names`], and [`by_name`] maps that position
/// back to it.
#[verifier::opaque]
pub open spec fn ranked(ms: Seq<MethodSpec>, ranks: Seq<int>, off: int) -> bool {
    &&& ms.len() == ranks.len()
    &&& forall|k: int|
        0 <= k < ms.len() ==> 0 <= #[trigger] ranks[k] < sorted_names().len()
            && ms[k].name@ == sorted_names()[ranks[k]] && by_name()[ranks[k]] == off + k
}

proof fn lemma_ranked_at(ms: Seq<MethodSpec>, ranks: Seq<int>, off: int, k: int)
    requires
        ranked(ms, ranks, off),
        0 <= k < ms.len(),
    ensures
        0 <= ranks[k] < sorted_names().len(),
        ms[k].name@ == sorted_names()[ranks[k]],
        by_name()[ranks[k]] == off + k,
{
    reveal(ranked);
}

proof fn lemma_ranked_concat(
    a: Seq<MethodSpec>,
    ra: Seq<int>,
    b: Seq<MethodSpec>,
    rb: Seq<int>,
    off: int,
)
    requires
        ranked(a, ra, off),
        ranked(b, rb, off + a.len()),
    ensures
        ranked(a + b, ra + rb, off),
{
    reveal(ranked);
    assert forall|k: int| 0 <= k < (a + b).len() implies 0 <= #[trigger] (ra + rb)[k]
        < sorted_names().len() && (a + b)[k].name@ == sorted_names()[(ra + rb)[k]] && by_name()[(
    ra + rb)[k]] == off + k by {
        if k < a.len() {
            assert((a + b)[k] == a[k] && (ra + rb)[k] == ra[k]);
        } else {
            assert((a + b)[k] == b[k - a.len()] && (ra + rb)[k] == rb[k - a.len()]);
        }
    }
}

/// The methods of [`bundled_part_00`] are ranked by [`name_rank_00`].
proof fn lemma_part_00_ranked()
    ensures
        ranked(bundled_part_00(), name_rank_00(), 0),
{
    reveal(ranked);
    let ms = bundled_part_00();
    let ranks = name_rank_00();
    let s = sorted_names();
    assert(ms[0].name@ == s[ranks[0]]);
    assert(ms[1].name@ == s[ranks[1]]);
    assert(ms[2].name@ == s[ranks[2]]);
    assert(ms[3].name@ == s[ranks[3]]);
    assert(ms[4].name@ == s[ranks[4]]);
    assert(ms[5].name@ == s[ranks[5]]);
    assert(ms[6].name@ == s[ranks[6]]);
    assert(ms[7].name@ == s[ranks[7]]);
    assert(ms[8].name@ == s[ranks[8]]);
    assert(ms[9].name@ == s[ranks[9]]);
}

/// The methods of [`bundled_part_01`] are ranked by [`name_rank_01`].
proof fn lemma_part_01_ranked()
    ensures
        ranked(bundled_part_01(), name_rank_01(), 10),
{
    reveal(ranked);
    let ms = bundled_part_01();
    let ranks = name_rank_01();
    let s = sorted_names();
    assert(ms[0].name@ == s[ranks[0]]);
    assert(ms[1].name@ == s[ranks[1]]);
    assert(ms[2].name@ == s[ranks[2]]);
    assert(ms[3].name@ == s[ranks[3]]);
    assert(ms[4].name@ == s[ranks[4]]);
    assert(ms[5].name@ == s[ranks[5]]);
    assert(ms[6].name@ == s[ranks[6]]);
    assert(ms[7].name@ == s[ranks[7]]);
    assert(ms[8].name@ == s[ranks[8]]);
    assert(ms[9].name@ == s[ranks[9]]);
}

/// The methods of [`bundled_part_02`] are ranked by [`name_rank_02`].
proof fn lemma_part_02_ranked()
    ensures
        ranked(bundled_part_02(), name_rank_02(), 20),
{
    reveal(ranked);
    let ms = bundled_part_02();
    let ranks = name_rank_02();
    let s = sorted_names();
    assert(ms[0].name@ == s[ranks[0]]);
    assert(ms[1].name@ == s[ranks[1]]);
    assert(ms[2].name@ == s[ranks[2]]);
    assert(ms[3].name@ == s[ranks[3]]);
    assert(ms[4].name@ == s[ranks[4]]);
    assert(ms[5].name@ == s[ranks[5]]);
    assert(ms[6].name@ == s[ranks[6]]);
    assert(ms[7].name@ == s[ranks[7]]);
    assert(ms[8].name@ == s[ranks[8]]);
    assert(ms[9].name@ == s[ranks[9]]);
}

/// The methods of [`bundled_part_03`] are ranked by [`name_rank_03`].
proof fn lemma_part_03_ranked()
    ensures
        ranked(bundled_part_03(), name_rank_03(), 30),
{
    reveal(ranked);
    let ms = bundled_part_03();
    let ranks = name_rank_03();
    let s = sorted_names();
    assert(ms[0].name@ == s[ranks[0]]);
    assert(ms[1].name@ == s[ranks[1]]);
    assert(ms[2].name@ == s[ranks[2]]);
    assert(ms[3].name@ == s[ranks[3]]);
    assert(ms[4].name@ == s[ranks[4]]);
    assert(ms[5].name@ == s[ranks[5]]);
    assert(ms[6].name@ == s[ranks[6]]);
    assert(ms[7].name@ == s[ranks[7]]);
    assert(ms[8].name@ == s[ranks[8]]);
    assert(ms[9].name@ == s[ranks[9]]);
}

/// The methods of [`bundled_part_04`] are ranked by [`name_rank_04`].
proof fn lemma_part_04_ranked()
    ensures
        ranked(bundled_part_04(), name_rank_04(), 40),
{
    reveal(ranked);
    let ms = bundled_part_04();
    let ranks = name_rank_04();
    let s = sorted_names();
    assert(ms[0].name@ == s[ranks[0]]);
    assert(ms[1].name@ == s[ranks[1]]);
    assert(ms[2].name@ == s[ranks[2]]);
    assert(ms[3].name@ == s[ranks[3]]);
    assert(ms[4].name@ == s[ranks[4]]);
    assert(ms[5].name@ == s[ranks[5]]);
    assert(ms[6].name@ == s[ranks[6]]);
    assert(ms[7].name@ == s[ranks[7]]);
    assert(ms[8].name@ == s[ranks[8]]);
    assert(ms[9].name@ == s[ranks[9]]);
}

/// The methods of [`bundled_part_05`] are ranked by [`name_rank_05`].
proof fn lemma_part_05_ranked()
    ensures
        ranked(bundled_part_05(), name_rank_05(), 50),
{
    reveal(ranked);
    let ms = bundled_part_05();
    let ranks = name_rank_05();
    let s = sorted_names();
    assert(ms[0].name@ == s[ranks[0]]);
    assert(ms[1].name@ == s[ranks[1]]);
    assert(ms[2].name@ == s[ranks[2]]);
    assert(ms[3].name@ == s[ranks[3]]);
    assert(ms[4].name@ == s[ranks[4]]);
    assert(ms[5].name@ == s[ranks[5]]);
    assert(ms[6].name@ == s[ranks[6]]);
    assert(ms[7].name@ == s[ranks[7]]);
    assert(ms[8].name@ == s[ranks[8]]);
    assert(ms[9].name@ == s[ranks[9]]);
}

/// The methods of [`bundled_part_06`] are ranked by [`name_rank_06`].
proof fn lemma_part_06_ranked()
    ensures
        ranked(bundled_part_06(), name_rank_06(), 60),
{
    reveal(ranked);
    let ms = bundled_part_06();
    let ranks = name_rank_06();
    let s = sorted_names();
    assert(ms[0].name@ == s[ranks[0]]);
    assert(ms[1].name@ == s[ranks[1]]);
    assert(ms[2].name@ == s[ranks[2]]);
    assert(ms[3].name@ == s[ranks[3]]);
    assert(ms[4].name@ == s[ranks[4]]);
    assert(ms[5].name@ == s[ranks[5]]);
    assert(ms[6].name@ == s[ranks[6]]);
    assert(ms[7].name@ == s[ranks[7]]);
    assert(ms[8].name@ == s[ranks[8]]);
    assert(ms[9].name@ == s[ranks[9]]);
}

/// The methods of [`bundled_part_07`] are ranked by [`name_rank_07`].
proof fn lemma_part_07_ranked()
    ensures
        ranked(bundled_part_07(), name_rank_07(), 70),
{
    reveal(ranked);
    let ms = bundled_part_07();
    let ranks = name_rank_07();
    let s = sorted_names();
    assert(ms[0].name@ == s[ranks[0]]);
    assert(ms[1].name@ == s[ranks[1]]);
    assert(ms[2].name@ == s[ranks[2]]);
    assert(ms[3].name@ == s[ranks[3]]);
    assert(ms[4].name@ == s[ranks[4]]);
    assert(ms[5].name@ == s[ranks[5]]);
    assert(ms[6].name@ == s[ranks[6]]);
    assert(ms[7].name@ == s[ranks[7]]);
    assert(ms[8].name@ == s[ranks[8]]);
    assert(ms[9].name@ == s[ranks[9]]);
}

/// The methods of [`bundled_part_08`] are ranked by [`name_rank_08`].
proof fn lemma_part_08_ranked()
    ensures
        ranked(bundled_part_08(), name_rank_08(), 80),
{
    reveal(ranked);
    let ms = bundled_part_08();
    let ranks = name_rank_08();
    let s = sorted_names();
    assert(ms[0].name@ == s[ranks[0]]);
    assert(ms[1].name@ == s[ranks[1]]);
    assert(ms[2].name@ == s[ranks[2]]);
    assert(ms[3].name@ == s[ranks[3]]);
    assert(ms[4].name@ == s[ranks[4]]);
    assert(ms[5].name@ == s[ranks[5]]);
    assert(ms[6].name@ == s[ranks[6]]);
    assert(ms[7].name@ == s[ranks[7]]);
    assert(ms[8].name@ == s[ranks[8]]);
    assert(ms[9].name@ == s[ranks[9]]);
}

/// The methods of [`bundled_part_09`] are ranked by [`name_rank_09`].
proof fn lemma_part_09_ranked()
    ensures
        ranked(bundled_part_09(), name_rank_09(), 90),
{
    reveal(ranked);
    let ms = bundled_part_09();
    let ranks = name_rank_09();
    let s = sorted_names();
    assert(ms[0].name@ == s[ranks[0]]);
    assert(ms[1].name@ == s[ranks[1]]);
    assert(ms[2].name@ == s[ranks[2]]);
    assert(ms[3].name@ == s[ranks[3]]);
    assert(ms[4].name@ == s[ranks[4]]);
    assert(ms[5].name@ == s[ranks[5]]);
    assert(ms[6].name@ == s[ranks[6]]);
    assert(ms[7].name@ == s[ranks[7]]);
    assert(ms[8].name@ == s[ranks[8]]);
    assert(ms[9].name@ == s[ranks[9]]);
}

/// The methods of [`bundled_part_10`] are ranked by [`name_rank_10`].
proof fn lemma_part_10_ranked()
    ensures
        ranked(bundled_part_10(), name_rank_10(), 100),
{
    reveal(ranked);
    let ms = bundled_part_10();
    let ranks = name_rank_10();
    let s = sorted_names();
    assert(ms[0].name@ == s[ranks[0]]);
    assert(ms[1].name@ == s[ranks[1]]);
    assert(ms[2].name@ == s[ranks[2]]);
    assert(ms[3].name@ == s[ranks[3]]);
    assert(ms[4].name@ == s[ranks[4]]);
    assert(ms[5].name@ == s[ranks[5]]);
    assert(ms[6].name@ == s[ranks[6]]);
    assert(ms[7].name@ == s[ranks[7]]);
    assert(ms[8].name@ == s[ranks[8]]);
    assert(ms[9].name@ == s[ranks[9]]);
}

/// The methods of [`bundled_part_11`] are ranked by [`name_rank_11`].
proof fn lemma_part_11_ranked()
    ensures
        ranked(bundled_part_11(), name_rank_11(), 110),
{
    reveal(ranked);
    let ms = bundled_part_11();
    let ranks = name_rank_11();
    let s = sorted_names();
    assert(ms[0].name@ == s[ranks[0]]);
    assert(ms[1].name@ == s[ranks[1]]);
    assert(ms[2].name@ == s[ranks[2]]);
    assert(ms[3].name@ == s[ranks[3]]);
    assert(ms[4].name@ == s[ranks[4]]);
    assert(ms[5].name@ == s[ranks[5]]);
    assert(ms[6].name@ == s[ranks[6]]);
    assert(ms[7].name@ == s[ranks[7]]);
    assert(ms[8].name@ == s[ranks[8]]);
    assert(ms[9].name@ == s[ranks[9]]);
}

/// The methods of [`bundled_part_12`] are ranked by [`name_rank_12`].
proof fn lemma_part_12_ranked()
    ensures
        ranked(bundled_part_12(), name_rank_12(), 120),
{
    reveal(ranked);
    let ms = bundled_part_12();
    let ranks = name_rank_12();
    let s = sorted_names();
    assert(ms[0].name@ == s[ranks[0]]);
    assert(ms[1].name@ == s[ranks[1]]);
    assert(ms[2].name@ == s[ranks[2]]);
    assert(ms[3].name@ == s[ranks[3]]);
    assert(ms[4].name@ == s[ranks[4]]);
    assert(ms[5].name@ == s[ranks[5]]);
    assert(ms[6].name@ == s[ranks[6]]);
    assert(ms[7].name@ == s[ranks[7]]);
    assert(ms[8].name@ == s[ranks[8]]);
    assert(ms[9].name@ == s[ranks[9]]);
}

/// The methods of [`bundled_part_13`] are ranked by [`name_rank_13`].
proof fn lemma_part_13_ranked()
    ensures
        ranked(bundled_part_13(), name_rank_13(), 130),
{
    reveal(ranked);
    let ms = bundled_part_13();
    let ranks = name_rank_13();
    let s = sorted_names();
    assert(ms[0].name@ == s[ranks[0]]);
    assert(ms[1].name@ == s[ranks[1]]);
    assert(ms[2].name@ == s[ranks[2]]);
    assert(ms[3].name@ == s[ranks[3]]);
    assert(ms[4].name@ == s[ranks[4]]);
    assert(ms[5].name@ == s[ranks[5]]);
    assert(ms[6].name@ == s[ranks[6]]);
    assert(ms[7].name@ == s[ranks[7]]);
    assert(ms[8].name@ == s[ranks[8]]);
    assert(ms[9].name@ == s[ranks[9]]);
}

/// The methods of [`bundled_part_14`] are ranked by [`name_rank_14`].
proof fn lemma_part_14_ranked()
    ensures
        ranked(bundled_part_14(), name_rank_14(), 140),
{
    reveal(ranked);
    let ms = bundled_part_14();
    let ranks = name_rank_14();
    let s = sorted_names();
    assert(ms[0].name@ == s[ranks[0]]);
    assert(ms[1].name@ == s[ranks[1]]);
    assert(ms[2].name@ == s[ranks[2]]);
    assert(ms[3].name@ == s[ranks[3]]);
    assert(ms[4].name@ == s[ranks[4]]);
    assert(ms[5].name@ == s[ranks[5]]);
    assert(ms[6].name@ == s[ranks[6]]);
    assert(ms[7].name@ == s[ranks[7]]);
    assert(ms[8].name@ == s[ranks[8]]);
    assert(ms[9].name@ == s[ranks[9]]);
}

/// The methods of [`bundled_part_15`] are ranked by [`name_rank_15`].
proof fn lemma_part_15_ranked()
    ensures
        ranked(bundled_part_15(), name_rank_15(), 150),
{
    reveal(ranked);
    let ms = bundled_part_15();
    let ranks = name_rank_15();
    let s = sorted_names();
    assert(ms[0].name@ == s[ranks[0]]);
    assert(ms[1].name@ == s[ranks[1]]);
    assert(ms[2].name@ == s[ranks[2]]);
    assert(ms[3].name@ == s[ranks[3]]);
    assert(ms[4].name@ == s[ranks[4]]);
    assert(ms[5].name@ == s[ranks[5]]);
    assert(ms[6].name@ == s[ranks[6]]);
    assert(ms[7].name@ == s[ranks[7]]);
    assert(ms[8].name@ == s[ranks[8]]);
    assert(ms[9].name@ == s[ranks[9]]);
}

/// The methods of [`bundled_part_16`] are ranked by [`name_rank_16`].
proof fn lemma_part_16_ranked()
    ensures
        ranked(bundled_part_16(), name_rank_16(), 160),
{
    reveal(ranked);
    let ms = bundled_part_16();
    let ranks = name_rank_16();
    let s = sorted_names();
    assert(ms[0].name@ == s[ranks[0]]);
    assert(ms[1].name@ == s[ranks[1]]);
    assert(ms[2].name@ == s[ranks[2]]);
    assert(ms[3].name@ == s[ranks[3]]);
    assert(ms[4].name@ == s[ranks[4]]);
    assert(ms[5].name@ == s[ranks[5]]);
    assert(ms[6].name@ == s[ranks[6]]);
    assert(ms[7].name@ == s[ranks[7]]);
    assert(ms[8].name@ == s[ranks[8]]);
    assert(ms[9].name@ == s[ranks[9]]);
}

/// The methods of [`bundled_part_17`] are ranked by [`name_rank_17`].
proof fn lemma_part_17_ranked()
    ensures
        ranked(bundled_part_17(), name_rank_17(), 170),
{
    reveal(ranked);
    let ms = bundled_part_17();
    let ranks = name_rank_17();
    let s = sorted_names();
    assert(ms[0].name@ == s[ranks[0]]);
    assert(ms[1].name@ == s[ranks[1]]);
    assert(ms[2].name@ == s[ranks[2]]);
    assert(ms[3].name@ == s[ranks[3]]);
    assert(ms[4].name@ == s[ranks[4]]);
    assert(ms[5].name@ == s[ranks[5]]);
    assert(ms[6].name@ == s[ranks[6]]);
    assert(ms[7].name@ == s[ranks[7]]);
    assert(ms[8].name@ == s[ranks[8]]);
    assert(ms[9].name@ == s[ranks[9]]);
}

/// The methods of [`bundled_part_18`] are ranked by [`name_rank_18`].
proof fn lemma_part_18_ranked()
    ensures
        ranked(bundled_part_18(), name_rank_18(), 180),
{
    reveal(ranked);
    let ms = bundled_part_18();
    let ranks = name_rank_18();
    let s = sorted_names();
    assert(ms[0].name@ == s[ranks[0]]);
    assert(ms[1].name@ == s[ranks[1]]);
    assert(ms[2].name@ == s[ranks[2]]);
    assert(ms[3].name@ == s[ranks[3]]);
    assert(ms[4].name@ == s[ranks[4]]);
    assert(ms[5].name@ == s[ranks[5]]);
    assert(ms[6].name@ == s[ranks[6]]);
    assert(ms[7].name@ == s[ranks[7]]);
    assert(ms[8].name@ == s[ranks[8]]);
    assert(ms[9].name@ == s[ranks[9]]);
}

/// The methods of [`bundled_part_19`] are ranked by [`name_rank_19`].
proof fn lemma_part_19_ranked()
    ensures
        ranked(bundled_part_19(), name_rank_19(), 190),
{
    reveal(ranked);
    let ms = bundled_part_19();
    let ranks = name_rank_19();
    let s = sorted_names();
    assert(ms[0].name@ == s[ranks[0]]);
    assert(ms[1].name@ == s[ranks[1]]);
    assert(ms[2].name@ == s[ranks[2]]);
    assert(ms[3].name@ == s[ranks[3]]);
    assert(ms[4].name@ == s[ranks[4]]);
    assert(ms[5].name@ == s[ranks[5]]);
    assert(ms[6].name@ == s[ranks[6]]);
    assert(ms[7].name@ == s[ranks[7]]);
    assert(ms[8].name@ == s[ranks[8]]);
    assert(ms[9].name@ == s[ranks[9]]);
}

/// The methods of [`bundled_part_20`] are ranked by [`name_rank_20`].
proof fn lemma_part_20_ranked()
    ensures
        ranked(bundled_part_20(), name_rank_20(), 200),
{
    reveal(ranked);
    let ms = bundled_part_20();
    let ranks = name_rank_20();
    let s = sorted_names();
    assert(ms[0].name@ == s[ranks[0]]);
    assert(ms[1].name@ == s[ranks[1]]);
    assert(ms[2].name@ == s[ranks[2]]);
    assert(ms[3].name@ == s[ranks[3]]);
    assert(ms[4].name@ == s[ranks[4]]);
    assert(ms[5].name@ == s[ranks[5]]);
}

/// The names in [`sorted_names`] ascend.
#[verifier::rlimit(50)]
proof fn lemma_sorted_names_ascend()
    ensures
        ascending(sorted_names()),
{
    lemma_sorted_names_00();
    lemma_sorted_names_01();
    lemma_sorted_names_02();
    lemma_sorted_names_03();
    lemma_sorted_names_04();
    lemma_sorted_names_05();
    lemma_sorted_names_06();
    lemma_sorted_names_07();
    lemma_sorted_names_08();
    lemma_sorted_names_09();
    lemma_sorted_names_10();
    let t = sorted_names_00();
    lemma_ascending_concat(t, sorted_names_01());
    let t = t + sorted_names_01();
    lemma_ascending_concat(t, sorted_names_02());
    let t = t + sorted_names_02();
    lemma_ascending_concat(t, sorted_names_03());
    let t = t + sorted_names_03();
    lemma_ascending_concat(t, sorted_names_04());
    let t = t + sorted_names_04();
    lemma_ascending_concat(t, sorted_names_05());
    let t = t + sorted_names_05();
    lemma_ascending_concat(t, sorted_names_06());
    let t = t + sorted_names_06();
    lemma_ascending_concat(t, sorted_names_07());
    let t = t + sorted_names_07();
    lemma_ascending_concat(t, sorted_names_08());
    let t = t + sorted_names_08();
    lemma_ascending_concat(t, sorted_names_09());
    let t = t + sorted_names_09();
    lemma_ascending_concat(t, sorted_names_10());
    let t = t + sorted_names_10();
}

/// Every bundled method's name stands in [`sorted_names`] at its rank.
#[verifier::rlimit(50)]
proof fn lemma_all_ranked()
    ensures
        ranked(bundled_specs(), name_rank(), 0),
{
    lemma_part_00_ranked();
    lemma_part_01_ranked();
    lemma_part_02_ranked();
    lemma_part_03_ranked();
    lemma_part_04_ranked();
    lemma_part_05_ranked();
    lemma_part_06_ranked();
    lemma_part_07_ranked();
    lemma_part_08_ranked();
    lemma_part_09_ranked();
    lemma_part_10_ranked();
    lemma_part_11_ranked();
    lemma_part_12_ranked();
    lemma_part_13_ranked();
    lemma_part_14_ranked();
    lemma_part_15_ranked();
    lemma_part_16_ranked();
    lemma_part_17_ranked();
    lemma_part_18_ranked();
    lemma_part_19_ranked();
    lemma_part_20_ranked();
    let ms = bundled_part_00();
    let rs = name_rank_00();
    lemma_ranked_concat(ms, rs, bundled_part_01(), name_rank_01(), 0);
    let ms = ms + bundled_part_01();
    let rs = rs + name_rank_01();
    lemma_ranked_concat(ms, rs, bundled_part_02(), name_rank_02(), 0);
    let ms = ms + bundled_part_02();
    let rs = rs + name_rank_02();
    lemma_ranked_concat(ms, rs, bundled_part_03(), name_rank_03(), 0);
    let ms = ms + bundled_part_03();
    let rs = rs + name_rank_03();
    lemma_ranked_concat(ms, rs, bundled_part_04(), name_rank_04(), 0);
    let ms = ms + bundled_part_04();
    let rs = rs + name_rank_04();
    lemma_ranked_concat(ms, rs, bundled_part_05(), name_rank_05(), 0);
    let ms = ms + bundled_part_05();
    let rs = rs + name_rank_05();
    lemma_ranked_concat(ms, rs, bundled_part_06(), name_rank_06(), 0);
    let ms = ms + bundled_part_06();
    let rs = rs + name_rank_06();
    lemma_ranked_concat(ms, rs, bundled_part_07(), name_rank_07(), 0);
    let ms = ms + bundled_part_07();
    let rs = rs + name_rank_07();
    lemma_ranked_concat(ms, rs, bundled_part_08(), name_rank_08(), 0);
    let ms = ms + bundled_part_08();
    let rs = rs + name_rank_08();
    lemma_ranked_concat(ms, rs, bundled_part_09(), name_rank_09(), 0);
    let ms = ms + bundled_part_09();
    let rs = rs + name_rank_09();
    lemma_ranked_concat(ms, rs, bundled_part_10(), name_rank_10(), 0);
    let ms = ms + bundled_part_10();
    let rs = rs + name_rank_10();
    lemma_ranked_concat(ms, rs, bundled_part_11(), name_rank_11(), 0);
    let ms = ms + bundled_part_11();
    let rs = rs + name_rank_11();
    lemma_ranked_concat(ms, rs, bundled_part_12(), name_rank_12(), 0);
    let ms = ms + bundled_part_12();
    let rs = rs + name_rank_12();
    lemma_ranked_concat(ms, rs, bundled_part_13(), name_rank_13(), 0);
    let ms = ms + bundled_part_13();
    let rs = rs + name_rank_13();
    lemma_ranked_concat(ms, rs, bundled_part_14(), name_rank_14(), 0);
    let ms = ms + bundled_part_14();
    let rs = rs + name_rank_14();
    lemma_ranked_concat(ms, rs, bundled_part_15(), name_rank_15(), 0);
    let ms = ms + bundled_part_15();
    let rs = rs + name_rank_15();
    lemma_ranked_concat(ms, rs, bundled_part_16(), name_rank_16(), 0);
    let ms = ms + bundled_part_16();
    let rs = rs + name_rank_16();
    lemma_ranked_concat(ms, rs, bundled_part_17(), name_rank_17(), 0);
    let ms = ms + bundled_part_17();
    let rs = rs + name_rank_17();
    lemma_ranked_concat(ms, rs, bundled_part_18(), name_rank_18(), 0);
    let ms = ms + bundled_part_18();
    let rs = rs + name_rank_18();
    lemma_ranked_concat(ms, rs, bundled_part_19(), name_rank_19(), 0);
    let ms = ms + bundled_part_19();
    let rs = rs + name_rank_19();
    lemma_ranked_concat(ms, rs, bundled_part_20(), name_rank_20(), 0);
    let ms = ms + bundled_part_20();
    let rs = rs + name_rank_20();
}

/// No two bundled methods share a name.
proof fn lemma_names_distinct()
    ensures
        forall|i: int, j: int|
            0 <= i < j < bundled_specs().len() ==> (#[trigger] bundled_specs()[i]).name@
                != (#[trigger] bundled_specs()[j]).name@,
{
    lemma_sorted_names_ascend();
    lemma_chain_strictly_sorted(sorted_names());
    lemma_all_ranked();
    let ms = bundled_specs();
    let rs = name_rank();
    let t = sorted_names();
    assert forall|i: int, j: int| 0 <= i < j < ms.len() implies (#[trigger] ms[i]).name@
        != (#[trigger] ms[j]).name@ by {
        lemma_ranked_at(ms, rs, 0, i);
        lemma_ranked_at(ms, rs, 0, j);
        let a = rs[i];
        let b = rs[j];
        assert(ms[i].name@ == t[a] && by_name()[a] == i);
        assert(ms[j].name@ == t[b] && by_name()[b] == j);
        if a < b {
            lemma_lex_irreflexive(t[a]);
        } else if b < a {
            lemma_lex_irreflexive(t[b]);
        }
    }
}

/// The bundled method list passes validation.
pub proof fn lemma_bundled_specs_valid()
    ensures
        validation_result(bundled_specs()) is Ok,
{
    lemma_names_distinct();
    lemma_all_methods_well_formed();
    lemma_validate_accepts_iff(bundled_specs());
}

} // verus!

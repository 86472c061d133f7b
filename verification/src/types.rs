//! Declarative descriptions of the facade methods that the code generator
//! turns into C++.

use vstd::prelude::*;

verus! {

/// One formal parameter of a facade method: its C++ shape and its name.
#[derive(Debug, Clone, Copy, PartialEq, Eq)]
pub enum FacadeParam {
    ShapeId(&'static str),
    Uint32(&'static str),
    Double(&'static str),
    VectorShapeIds(&'static str),
    Bool(&'static str),
    Int(&'static str),
    String(&'static str),
    VectorDouble(&'static str),
    VectorInt(&'static str),
}

impl FacadeParam {
    /// The parameter's name, whatever its kind.
    pub open spec fn name_str(self) -> &'static str {
        match self {
            FacadeParam::ShapeId(n) => n,
            FacadeParam::Uint32(n) => n,
            FacadeParam::Double(n) => n,
            FacadeParam::VectorShapeIds(n) => n,
            FacadeParam::Bool(n) => n,
            FacadeParam::Int(n) => n,
            FacadeParam::String(n) => n,
            FacadeParam::VectorDouble(n) => n,
            FacadeParam::VectorInt(n) => n,
        }
    }

    /// The characters of the parameter's name.
    pub open spec fn spec_name(self) -> Seq<char> {
        self.name_str()@
    }

    /// Returns the parameter's name.
    pub fn name(&self) -> (r: &'static str)
        ensures
            r == self.name_str(),
    {
        match self {
            FacadeParam::ShapeId(n) => n,
            FacadeParam::Uint32(n) => n,
            FacadeParam::Double(n) => n,
            FacadeParam::VectorShapeIds(n) => n,
            FacadeParam::Bool(n) => n,
            FacadeParam::Int(n) => n,
            FacadeParam::String(n) => n,
            FacadeParam::VectorDouble(n) => n,
            FacadeParam::VectorInt(n) => n,
        }
    }
}

/// How the body of a facade method is produced.
#[derive(Debug, Clone, Copy, PartialEq, Eq, Structural)]
pub enum MethodKind {
    /// Construct an OCCT maker from `ctor_args`, build it and store its shape.
    SimpleShape,
    /// Run an OCCT boolean operation on `ctor_args` and store its shape.
    BooleanOp,
    /// Fillet/chamfer family: add every edge of the vector parameter.
    FilletLike,
    /// Run `setup_code`, then construct the maker and store its shape.
    SetupShape,
    /// `setup_code` is the whole body, wrapped in a `Standard_Failure` handler.
    CustomBody,
    /// `setup_code` is the whole body, emitted without any handler.
    CustomBodyRaw,
    /// Listed for completeness; produces no code.
    Skip,
}

/// The C++ return type of a facade method.
#[derive(Debug, Clone, Copy, PartialEq, Eq, Structural)]
pub enum ReturnType {
    ShapeId,
    Uint32,
    Bool,
    Void,
    VectorUint32,
    VectorDouble,
    Double,
    String,
    Int,
    VectorInt,
    BBoxData,
    NurbsCurveData,
    EvolutionData,
    MeshData,
    MeshBatchData,
    EdgeData,
    ProjectionData,
    XCAFLabelInfo,
}

/// Everything the generator needs to know about one `OcctKernel` method.
#[derive(Debug, Clone, Copy)]
pub struct MethodSpec {
    pub name: &'static str,
    pub kind: MethodKind,
    pub params: &'static [FacadeParam],
    pub return_type: ReturnType,
    pub occt_class: &'static str,
    pub ctor_args: &'static str,
    pub setup_code: &'static str,
    pub includes: &'static [&'static str],
    pub category: &'static str,
}

} // verus!

//! The contract document as the engine reads it: a tree of paths, each
//! holding operations keyed by method token; operations holding parameters,
//! an optional request body and a response set; and a shared components
//! section that operation-level references point into.
//!
//! Schemas inside the tree stay opaque JSON values: the engine routes them
//! to the structural schema compiler and never looks inside. The shared
//! components section exists twice, deliberately: once structured, for
//! operation-level reference resolution, and once as the raw JSON document
//! that the schema compiler's registry resolves schema-internal references
//! against. The two reference kinds never share a code path.

use vstd::prelude::*;

verus! {

/// An entry that is either given inline or points, by a reference string,
/// at a named definition in the shared components section.
pub enum RefOr<T> {
    Inline(T),
    Reference(String),
}

/// Where a parameter is carried.
#[derive(Clone, Copy, Debug, PartialEq, Eq, Structural)]
pub enum ParameterLocation {
    Path,
    Query,
    Header,
    /// Explicitly unsupported: dropped at compile time.
    Cookie,
}

/// How a parameter's shape is given: as a schema, or as a content map —
/// content-based parameters are not supported and fail the build.
pub enum ParameterFormat {
    Schema(serde_json::Value),
    Content,
}

/// One declared parameter.
pub struct ParameterModel {
    pub name: String,
    pub location: ParameterLocation,
    pub required: bool,
    pub format: ParameterFormat,
}

/// One media type's declaration: its schema, if any.
pub struct MediaTypeModel {
    pub schema: Option<serde_json::Value>,
}

/// A request body: a content map keyed by media type, and a required flag.
/// Only `application/json` content is ever consulted.
pub struct RequestBodyModel {
    pub content: Vec<(String, MediaTypeModel)>,
    pub required: bool,
}

/// A response: a content map keyed by media type.
pub struct ResponseModel {
    pub content: Vec<(String, MediaTypeModel)>,
}

/// A response key: an exact status code, or a code range — ranges are
/// skipped at compile time.
#[derive(Clone, Copy, Debug, PartialEq, Eq, Structural)]
pub enum StatusCodeModel {
    Code(u16),
    Range(u16),
}

/// One operation's response set: responses keyed by status code, plus an
/// optional default.
pub struct ResponsesModel {
    pub responses: Vec<(StatusCodeModel, RefOr<ResponseModel>)>,
    pub default: Option<RefOr<ResponseModel>>,
}

/// One operation.
pub struct OperationModel {
    pub parameters: Vec<RefOr<ParameterModel>>,
    pub request_body: Option<RefOr<RequestBodyModel>>,
    pub responses: ResponsesModel,
}

/// One path's operations, keyed by method token.
pub struct PathItemModel {
    pub operations: Vec<(String, OperationModel)>,
}

/// The shared components section, structured, for operation-level
/// reference resolution.
pub struct ComponentsModel {
    pub parameters: Vec<(String, RefOr<ParameterModel>)>,
    pub request_bodies: Vec<(String, RefOr<RequestBodyModel>)>,
    pub responses: Vec<(String, RefOr<ResponseModel>)>,
}

/// A whole contract document.
pub struct ContractDoc {
    /// The paths, in document order. A path entry that is itself a
    /// reference is unsupported and fails the build.
    pub paths: Vec<(String, RefOr<PathItemModel>)>,
    /// The shared components section, structured.
    pub components: Option<ComponentsModel>,
    /// The raw JSON of the same components section, handed to the schema
    /// compiler's registry so that schema-internal references resolve.
    pub components_json: Option<serde_json::Value>,
}

} // verus!

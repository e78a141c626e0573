//! The inbound record shapes the broker delivers: recipes with their typed
//! parameters, the result-state tag of a vision result, and the error
//! reports of the dedicated error topic. Decoded values are immutable once
//! built and owned by whichever observer asked for them.

use vstd::prelude::*;

verus! {

/// Whether a recipe parameter carries one value or an array of them.
#[derive(Debug, Clone, Copy, PartialEq, Eq, Structural)]
pub enum ValueType {
    ScalarValue,
    ArrayValue,
}

/// The element type of a recipe parameter.
#[derive(Debug, Clone, Copy, PartialEq, Eq, Structural)]
pub enum DataType {
    Bool,
    Int8,
    UInt8,
    Int16,
    UInt16,
    Int32,
    UInt32,
    Int64,
    UInt64,
    Float,
    Double,
    String,
    Variant,
}

/// The completion state of a vision result.
#[derive(Debug, Clone, Copy, PartialEq, Eq, Structural)]
pub enum ResultState {
    Completed,
    Processing,
    Aborted,
    Failed,
}

/// One named input or output slot of a recipe.
#[derive(Debug)]
pub struct RecipeParam {
    pub name: String,
    pub description: String,
    pub value_type: ValueType,
    pub data_type: DataType,
}

/// A job template of the controlled vision system.
#[derive(Debug)]
pub struct Recipe {
    pub id: String,
    pub description: String,
    pub inputs: Vec<RecipeParam>,
    pub outputs: Vec<RecipeParam>,
}

/// How severe a reported error is.
#[derive(Debug, Clone, Copy, PartialEq, Eq, Structural)]
pub enum Severity {
    Info,
    Warning,
    Error,
    Critical,
}

/// An error report arriving on the dedicated error topic.
#[derive(Debug)]
pub struct ErrorReport {
    pub code: u32,
    pub severity: Severity,
    pub brief: String,
    pub message: String,
    pub cause: Option<String>,
}

} // verus!

//! The prompt-lab records that the desktop commands exchange with the
//! prompt-lab service: their enumerations, filters and stored items.
//!
//! JSON values (result schemas, results) are held as their JSON text. The
//! sampling temperature is a floating-point number and is carried as its bit
//! pattern (`f64::to_bits`), untouched.
use vstd::prelude::*;

verus! {

/// The level a checklist item applies to.
#[derive(Debug, Clone, Copy, PartialEq, Eq, Structural)]
pub enum TargetLevel {
    Step,
    Sop,
}

/// The status of a checklist item.
#[derive(Debug, Clone, Copy, PartialEq, Eq, Structural)]
pub enum ChecklistStatus {
    Active,
    Inactive,
    Draft,
}

/// Where a check result comes from.
#[derive(Debug, Clone, Copy, PartialEq, Eq, Structural)]
pub enum SourceType {
    Ai,
    Manual,
}

/// The status of an AI execution.
#[derive(Debug, Clone, Copy, PartialEq, Eq, Structural)]
pub enum ExecStatus {
    Pending,
    Success,
    ApiError,
    ParseFailed,
}

/// Which checklist items a listing returns.
#[derive(Debug, Clone, Copy, PartialEq, Eq, Structural)]
pub struct ChecklistFilter {
    pub status: Option<ChecklistStatus>,
    pub target_level: Option<TargetLevel>,
}

/// A request to put a checklist item in a golden set.
#[derive(Debug, Clone, Copy, PartialEq, Eq, Structural)]
pub struct BindGoldenSetItemInput {
    pub golden_set_id: i64,
    pub checklist_item_id: i64,
    pub sort_order: i64,
}

/// Which check results a listing returns.
#[derive(Debug, Clone)]
pub struct CheckResultFilter {
    pub context_type: Option<String>,
    pub context_id: Option<i64>,
    pub check_item_id: Option<i64>,
}

/// Which AI execution logs a listing returns.
#[derive(Debug, Clone)]
pub struct AiExecutionLogFilter {
    pub context_type: Option<String>,
    pub context_id: Option<i64>,
    pub check_item_id: Option<i64>,
}

/// A checklist item in a golden set.
#[derive(Debug, Clone)]
pub struct GoldenSetItem {
    pub golden_set_id: i64,
    pub checklist_item_id: i64,
    pub sort_order: i64,
    pub created_at: String,
}

/// The kinds of error the prompt-lab service reports.
#[derive(Debug, Clone, Copy, PartialEq, Eq, Structural)]
pub enum PromptLabErrorKind {
    Database,
    Migration,
    Json,
    Io,
    InvalidEnum,
    InvalidInput,
    NotFound,
}

/// A request to create a checklist item.
#[derive(Debug, Clone)]
pub struct CreateChecklistItemInput {
    pub name: String,
    pub prompt: String,
    pub target_level: TargetLevel,
    pub result_schema: Option<String>,
    pub version: Option<i64>,
    pub status: ChecklistStatus,
    pub created_by: Option<i64>,
}

/// A request to change a checklist item; each given field replaces the stored one.
#[derive(Debug, Clone)]
pub struct UpdateChecklistItemInput {
    pub id: i64,
    pub name: Option<String>,
    pub prompt: Option<String>,
    pub target_level: Option<TargetLevel>,
    pub result_schema: Option<String>,
    pub version: Option<i64>,
    pub status: Option<ChecklistStatus>,
    pub updated_by: Option<i64>,
}

/// A request to record a check result, or replace the one with the given id.
#[derive(Debug, Clone)]
pub struct UpsertCheckResultInput {
    pub id: Option<i64>,
    pub context_type: String,
    pub context_id: i64,
    pub check_item_id: i64,
    pub source_type: SourceType,
    pub operator_id: Option<String>,
    pub result: Option<String>,
    pub is_pass: bool,
}

/// A request to record one AI execution.
#[derive(Debug, Clone)]
pub struct AppendAiExecutionLogInput {
    pub check_result_id: Option<i64>,
    pub context_type: String,
    pub context_id: i64,
    pub check_item_id: i64,
    pub model_provider: Option<String>,
    pub model_version: String,
    pub temperature_bits: Option<u64>,
    pub prompt_snapshot: Option<String>,
    pub raw_output: Option<String>,
    pub input_tokens: Option<i64>,
    pub output_tokens: Option<i64>,
    pub exec_status: ExecStatus,
    pub error_message: Option<String>,
    pub latency_ms: Option<i64>,
}

/// A stored checklist item.
#[derive(Debug, Clone)]
pub struct ChecklistItem {
    pub id: i64,
    pub name: String,
    pub prompt: String,
    pub target_level: TargetLevel,
    pub result_schema: Option<String>,
    pub version: i64,
    pub status: ChecklistStatus,
    pub created_at: String,
    pub updated_at: String,
    pub created_by: Option<i64>,
    pub updated_by: Option<i64>,
    pub deleted_at: Option<String>,
}

/// A stored check result.
#[derive(Debug, Clone)]
pub struct CheckResult {
    pub id: i64,
    pub context_type: String,
    pub context_id: i64,
    pub check_item_id: i64,
    pub source_type: SourceType,
    pub operator_id: Option<String>,
    pub result: Option<String>,
    pub is_pass: bool,
    pub created_at: String,
}

/// A stored record of one AI execution.
#[derive(Debug, Clone)]
pub struct AiExecutionLog {
    pub id: i64,
    pub check_result_id: Option<i64>,
    pub context_type: String,
    pub context_id: i64,
    pub check_item_id: i64,
    pub model_provider: Option<String>,
    pub model_version: String,
    pub temperature_bits: Option<u64>,
    pub prompt_snapshot: Option<String>,
    pub raw_output: Option<String>,
    pub input_tokens: i64,
    pub output_tokens: i64,
    pub exec_status: ExecStatus,
    pub error_message: Option<String>,
    pub latency_ms: i64,
    pub created_at: String,
}

} // verus!

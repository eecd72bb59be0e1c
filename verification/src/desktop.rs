//! The records of the desktop application's commands, and how they convert to
//! and from the prompt-lab records.
use vstd::prelude::*;
use vstd::std_specs::convert::FromSpecImpl;
use vstd::string::StringExecFns;

use crate::dup::opt_view;
use crate::prompt_lab;
use crate::prompt_lab::PromptLabErrorKind;

verus! {

/// An error as the desktop commands report it: a stable code and a message.
#[derive(Debug, Clone)]
pub struct ApiError {
    pub code: String,
    pub message: String,
}

/// The code reported for each kind of prompt-lab error.
pub open spec fn error_code(kind: PromptLabErrorKind) -> Seq<char> {
    match kind {
        PromptLabErrorKind::Database => "DATABASE_ERROR"@,
        PromptLabErrorKind::Migration => "MIGRATION_ERROR"@,
        PromptLabErrorKind::Json => "JSON_ERROR"@,
        PromptLabErrorKind::Io => "IO_ERROR"@,
        PromptLabErrorKind::InvalidEnum => "INVALID_ENUM"@,
        PromptLabErrorKind::InvalidInput => "INVALID_INPUT"@,
        PromptLabErrorKind::NotFound => "NOT_FOUND"@,
    }
}

impl ApiError {
    /// The error reported for a prompt-lab error of kind `kind` whose text is `message`.
    pub fn from_error(kind: PromptLabErrorKind, message: String) -> (r: ApiError)
        ensures
            r.code@ == error_code(kind),
            r.message@ == message@,
    {
        let code = match kind {
            PromptLabErrorKind::Database => "DATABASE_ERROR",
            PromptLabErrorKind::Migration => "MIGRATION_ERROR",
            PromptLabErrorKind::Json => "JSON_ERROR",
            PromptLabErrorKind::Io => "IO_ERROR",
            PromptLabErrorKind::InvalidEnum => "INVALID_ENUM",
            PromptLabErrorKind::InvalidInput => "INVALID_INPUT",
            PromptLabErrorKind::NotFound => "NOT_FOUND",
        };
        ApiError { code: code.to_string(), message }
    }
}

/// The level a checklist item applies to, as the desktop commands write it.
#[derive(Debug, Clone, Copy, PartialEq, Eq, Structural)]
pub enum TargetLevelInput {
    Step,
    Sop,
}

/// The prompt-lab value of a desktop value.
pub open spec fn target_level_of(v: TargetLevelInput) -> prompt_lab::TargetLevel {
    match v {
        TargetLevelInput::Step => prompt_lab::TargetLevel::Step,
        TargetLevelInput::Sop => prompt_lab::TargetLevel::Sop,
    }
}

/// The desktop value of a prompt-lab value.
pub open spec fn target_level_input_of(v: prompt_lab::TargetLevel) -> TargetLevelInput {
    match v {
        prompt_lab::TargetLevel::Step => TargetLevelInput::Step,
        prompt_lab::TargetLevel::Sop => TargetLevelInput::Sop,
    }
}

impl From<TargetLevelInput> for prompt_lab::TargetLevel {
    fn from(v: TargetLevelInput) -> (r: prompt_lab::TargetLevel)
        ensures
            r == target_level_of(v),
    {
        match v {
            TargetLevelInput::Step => prompt_lab::TargetLevel::Step,
            TargetLevelInput::Sop => prompt_lab::TargetLevel::Sop,
        }
    }
}

impl FromSpecImpl<TargetLevelInput> for prompt_lab::TargetLevel {
    open spec fn obeys_from_spec() -> bool {
        true
    }

    open spec fn from_spec(v: TargetLevelInput) -> prompt_lab::TargetLevel {
        target_level_of(v)
    }
}

impl From<prompt_lab::TargetLevel> for TargetLevelInput {
    fn from(v: prompt_lab::TargetLevel) -> (r: TargetLevelInput)
        ensures
            r == target_level_input_of(v),
    {
        match v {
            prompt_lab::TargetLevel::Step => TargetLevelInput::Step,
            prompt_lab::TargetLevel::Sop => TargetLevelInput::Sop,
        }
    }
}

impl FromSpecImpl<prompt_lab::TargetLevel> for TargetLevelInput {
    open spec fn obeys_from_spec() -> bool {
        true
    }

    open spec fn from_spec(v: prompt_lab::TargetLevel) -> TargetLevelInput {
        target_level_input_of(v)
    }
}

/// The status of a checklist item, as the desktop commands write it.
#[derive(Debug, Clone, Copy, PartialEq, Eq, Structural)]
pub enum ChecklistStatusInput {
    Active,
    Inactive,
    Draft,
}

/// The prompt-lab value of a desktop value.
pub open spec fn checklist_status_of(v: ChecklistStatusInput) -> prompt_lab::ChecklistStatus {
    match v {
        ChecklistStatusInput::Active => prompt_lab::ChecklistStatus::Active,
        ChecklistStatusInput::Inactive => prompt_lab::ChecklistStatus::Inactive,
        ChecklistStatusInput::Draft => prompt_lab::ChecklistStatus::Draft,
    }
}

/// The desktop value of a prompt-lab value.
pub open spec fn checklist_status_input_of(v: prompt_lab::ChecklistStatus) -> ChecklistStatusInput {
    match v {
        prompt_lab::ChecklistStatus::Active => ChecklistStatusInput::Active,
        prompt_lab::ChecklistStatus::Inactive => ChecklistStatusInput::Inactive,
        prompt_lab::ChecklistStatus::Draft => ChecklistStatusInput::Draft,
    }
}

impl From<ChecklistStatusInput> for prompt_lab::ChecklistStatus {
    fn from(v: ChecklistStatusInput) -> (r: prompt_lab::ChecklistStatus)
        ensures
            r == checklist_status_of(v),
    {
        match v {
            ChecklistStatusInput::Active => prompt_lab::ChecklistStatus::Active,
            ChecklistStatusInput::Inactive => prompt_lab::ChecklistStatus::Inactive,
            ChecklistStatusInput::Draft => prompt_lab::ChecklistStatus::Draft,
        }
    }
}

impl FromSpecImpl<ChecklistStatusInput> for prompt_lab::ChecklistStatus {
    open spec fn obeys_from_spec() -> bool {
        true
    }

    open spec fn from_spec(v: ChecklistStatusInput) -> prompt_lab::ChecklistStatus {
        checklist_status_of(v)
    }
}

impl From<prompt_lab::ChecklistStatus> for ChecklistStatusInput {
    fn from(v: prompt_lab::ChecklistStatus) -> (r: ChecklistStatusInput)
        ensures
            r == checklist_status_input_of(v),
    {
        match v {
            prompt_lab::ChecklistStatus::Active => ChecklistStatusInput::Active,
            prompt_lab::ChecklistStatus::Inactive => ChecklistStatusInput::Inactive,
            prompt_lab::ChecklistStatus::Draft => ChecklistStatusInput::Draft,
        }
    }
}

impl FromSpecImpl<prompt_lab::ChecklistStatus> for ChecklistStatusInput {
    open spec fn obeys_from_spec() -> bool {
        true
    }

    open spec fn from_spec(v: prompt_lab::ChecklistStatus) -> ChecklistStatusInput {
        checklist_status_input_of(v)
    }
}

/// Where a check result comes from, as the desktop commands write it.
#[derive(Debug, Clone, Copy, PartialEq, Eq, Structural)]
pub enum SourceTypeInput {
    Ai,
    Manual,
}

/// The prompt-lab value of a desktop value.
pub open spec fn source_type_of(v: SourceTypeInput) -> prompt_lab::SourceType {
    match v {
        SourceTypeInput::Ai => prompt_lab::SourceType::Ai,
        SourceTypeInput::Manual => prompt_lab::SourceType::Manual,
    }
}

/// The desktop value of a prompt-lab value.
pub open spec fn source_type_input_of(v: prompt_lab::SourceType) -> SourceTypeInput {
    match v {
        prompt_lab::SourceType::Ai => SourceTypeInput::Ai,
        prompt_lab::SourceType::Manual => SourceTypeInput::Manual,
    }
}

impl From<SourceTypeInput> for prompt_lab::SourceType {
    fn from(v: SourceTypeInput) -> (r: prompt_lab::SourceType)
        ensures
            r == source_type_of(v),
    {
        match v {
            SourceTypeInput::Ai => prompt_lab::SourceType::Ai,
            SourceTypeInput::Manual => prompt_lab::SourceType::Manual,
        }
    }
}

impl FromSpecImpl<SourceTypeInput> for prompt_lab::SourceType {
    open spec fn obeys_from_spec() -> bool {
        true
    }

    open spec fn from_spec(v: SourceTypeInput) -> prompt_lab::SourceType {
        source_type_of(v)
    }
}

impl From<prompt_lab::SourceType> for SourceTypeInput {
    fn from(v: prompt_lab::SourceType) -> (r: SourceTypeInput)
        ensures
            r == source_type_input_of(v),
    {
        match v {
            prompt_lab::SourceType::Ai => SourceTypeInput::Ai,
            prompt_lab::SourceType::Manual => SourceTypeInput::Manual,
        }
    }
}

impl FromSpecImpl<prompt_lab::SourceType> for SourceTypeInput {
    open spec fn obeys_from_spec() -> bool {
        true
    }

    open spec fn from_spec(v: prompt_lab::SourceType) -> SourceTypeInput {
        source_type_input_of(v)
    }
}

/// The status of an AI execution, as the desktop commands write it.
#[derive(Debug, Clone, Copy, PartialEq, Eq, Structural)]
pub enum ExecStatusInput {
    Pending,
    Success,
    ApiError,
    ParseFailed,
}

/// The prompt-lab value of a desktop value.
pub open spec fn exec_status_of(v: ExecStatusInput) -> prompt_lab::ExecStatus {
    match v {
        ExecStatusInput::Pending => prompt_lab::ExecStatus::Pending,
        ExecStatusInput::Success => prompt_lab::ExecStatus::Success,
        ExecStatusInput::ApiError => prompt_lab::ExecStatus::ApiError,
        ExecStatusInput::ParseFailed => prompt_lab::ExecStatus::ParseFailed,
    }
}

/// The desktop value of a prompt-lab value.
pub open spec fn exec_status_input_of(v: prompt_lab::ExecStatus) -> ExecStatusInput {
    match v {
        prompt_lab::ExecStatus::Pending => ExecStatusInput::Pending,
        prompt_lab::ExecStatus::Success => ExecStatusInput::Success,
        prompt_lab::ExecStatus::ApiError => ExecStatusInput::ApiError,
        prompt_lab::ExecStatus::ParseFailed => ExecStatusInput::ParseFailed,
    }
}

impl From<ExecStatusInput> for prompt_lab::ExecStatus {
    fn from(v: ExecStatusInput) -> (r: prompt_lab::ExecStatus)
        ensures
            r == exec_status_of(v),
    {
        match v {
            ExecStatusInput::Pending => prompt_lab::ExecStatus::Pending,
            ExecStatusInput::Success => prompt_lab::ExecStatus::Success,
            ExecStatusInput::ApiError => prompt_lab::ExecStatus::ApiError,
            ExecStatusInput::ParseFailed => prompt_lab::ExecStatus::ParseFailed,
        }
    }
}

impl FromSpecImpl<ExecStatusInput> for prompt_lab::ExecStatus {
    open spec fn obeys_from_spec() -> bool {
        true
    }

    open spec fn from_spec(v: ExecStatusInput) -> prompt_lab::ExecStatus {
        exec_status_of(v)
    }
}

impl From<prompt_lab::ExecStatus> for ExecStatusInput {
    fn from(v: prompt_lab::ExecStatus) -> (r: ExecStatusInput)
        ensures
            r == exec_status_input_of(v),
    {
        match v {
            prompt_lab::ExecStatus::Pending => ExecStatusInput::Pending,
            prompt_lab::ExecStatus::Success => ExecStatusInput::Success,
            prompt_lab::ExecStatus::ApiError => ExecStatusInput::ApiError,
            prompt_lab::ExecStatus::ParseFailed => ExecStatusInput::ParseFailed,
        }
    }
}

impl FromSpecImpl<prompt_lab::ExecStatus> for ExecStatusInput {
    open spec fn obeys_from_spec() -> bool {
        true
    }

    open spec fn from_spec(v: prompt_lab::ExecStatus) -> ExecStatusInput {
        exec_status_input_of(v)
    }
}

/// Which checklist items a listing returns, as the desktop commands write it.
#[derive(Debug, Clone, Copy, PartialEq, Eq, Structural)]
pub struct ChecklistFilter {
    pub status: Option<ChecklistStatusInput>,
    pub target_level: Option<TargetLevelInput>,
}

impl Default for ChecklistFilter {
    fn default() -> (r: Self)
        ensures
            r.status is None,
            r.target_level is None,
    {
        ChecklistFilter { status: None, target_level: None }
    }
}

/// The prompt-lab filter of a desktop filter: each given field converted.
pub open spec fn checklist_filter_of(v: ChecklistFilter) -> prompt_lab::ChecklistFilter {
    prompt_lab::ChecklistFilter {
        status: match v.status {
            Some(s) => Some(checklist_status_of(s)),
            None => None,
        },
        target_level: match v.target_level {
            Some(t) => Some(target_level_of(t)),
            None => None,
        },
    }
}

impl From<ChecklistFilter> for prompt_lab::ChecklistFilter {
    fn from(v: ChecklistFilter) -> (r: prompt_lab::ChecklistFilter)
        ensures
            r == checklist_filter_of(v),
    {
        prompt_lab::ChecklistFilter {
            status: match v.status {
                Some(s) => Some(prompt_lab::ChecklistStatus::from(s)),
                None => None,
            },
            target_level: match v.target_level {
                Some(t) => Some(prompt_lab::TargetLevel::from(t)),
                None => None,
            },
        }
    }
}

impl FromSpecImpl<ChecklistFilter> for prompt_lab::ChecklistFilter {
    open spec fn obeys_from_spec() -> bool {
        true
    }

    open spec fn from_spec(v: ChecklistFilter) -> prompt_lab::ChecklistFilter {
        checklist_filter_of(v)
    }
}

/// A request to put a checklist item in a golden set, as the desktop commands write it.
#[derive(Debug, Clone, Copy, PartialEq, Eq, Structural)]
pub struct BindGoldenSetItemInput {
    pub golden_set_id: i64,
    pub checklist_item_id: i64,
    pub sort_order: i64,
}

impl From<BindGoldenSetItemInput> for prompt_lab::BindGoldenSetItemInput {
    fn from(v: BindGoldenSetItemInput) -> (r: prompt_lab::BindGoldenSetItemInput)
        ensures
            r.golden_set_id == v.golden_set_id,
            r.checklist_item_id == v.checklist_item_id,
            r.sort_order == v.sort_order,
    {
        prompt_lab::BindGoldenSetItemInput {
            golden_set_id: v.golden_set_id,
            checklist_item_id: v.checklist_item_id,
            sort_order: v.sort_order,
        }
    }
}

impl FromSpecImpl<BindGoldenSetItemInput> for prompt_lab::BindGoldenSetItemInput {
    open spec fn obeys_from_spec() -> bool {
        true
    }

    open spec fn from_spec(v: BindGoldenSetItemInput) -> prompt_lab::BindGoldenSetItemInput {
        prompt_lab::BindGoldenSetItemInput {
            golden_set_id: v.golden_set_id,
            checklist_item_id: v.checklist_item_id,
            sort_order: v.sort_order,
        }
    }
}

/// A request to take a checklist item out of a golden set.
#[derive(Debug, Clone, Copy, PartialEq, Eq, Structural)]
pub struct UnbindGoldenSetItemInput {
    pub golden_set_id: i64,
    pub checklist_item_id: i64,
}

/// Which check results a listing returns, as the desktop commands write it.
#[derive(Debug, Clone)]
pub struct CheckResultFilter {
    pub context_type: Option<String>,
    pub context_id: Option<i64>,
    pub check_item_id: Option<i64>,
}

impl Default for CheckResultFilter {
    fn default() -> (r: Self)
        ensures
            r.context_type is None,
            r.context_id is None,
            r.check_item_id is None,
    {
        CheckResultFilter { context_type: None, context_id: None, check_item_id: None }
    }
}

impl From<CheckResultFilter> for prompt_lab::CheckResultFilter {
    fn from(v: CheckResultFilter) -> (r: prompt_lab::CheckResultFilter)
        ensures
            opt_view(r.context_type) == opt_view(v.context_type),
            r.context_id == v.context_id,
            r.check_item_id == v.check_item_id,
    {
        prompt_lab::CheckResultFilter {
            context_type: v.context_type,
            context_id: v.context_id,
            check_item_id: v.check_item_id,
        }
    }
}

impl FromSpecImpl<CheckResultFilter> for prompt_lab::CheckResultFilter {
    open spec fn obeys_from_spec() -> bool {
        true
    }

    open spec fn from_spec(v: CheckResultFilter) -> prompt_lab::CheckResultFilter {
        prompt_lab::CheckResultFilter {
            context_type: v.context_type,
            context_id: v.context_id,
            check_item_id: v.check_item_id,
        }
    }
}

/// Which AI execution logs a listing returns, as the desktop commands write it.
#[derive(Debug, Clone)]
pub struct AiExecutionLogFilter {
    pub context_type: Option<String>,
    pub context_id: Option<i64>,
    pub check_item_id: Option<i64>,
}

impl Default for AiExecutionLogFilter {
    fn default() -> (r: Self)
        ensures
            r.context_type is None,
            r.context_id is None,
            r.check_item_id is None,
    {
        AiExecutionLogFilter { context_type: None, context_id: None, check_item_id: None }
    }
}

impl From<AiExecutionLogFilter> for prompt_lab::AiExecutionLogFilter {
    fn from(v: AiExecutionLogFilter) -> (r: prompt_lab::AiExecutionLogFilter)
        ensures
            opt_view(r.context_type) == opt_view(v.context_type),
            r.context_id == v.context_id,
            r.check_item_id == v.check_item_id,
    {
        prompt_lab::AiExecutionLogFilter {
            context_type: v.context_type,
            context_id: v.context_id,
            check_item_id: v.check_item_id,
        }
    }
}

impl FromSpecImpl<AiExecutionLogFilter> for prompt_lab::AiExecutionLogFilter {
    open spec fn obeys_from_spec() -> bool {
        true
    }

    open spec fn from_spec(v: AiExecutionLogFilter) -> prompt_lab::AiExecutionLogFilter {
        prompt_lab::AiExecutionLogFilter {
            context_type: v.context_type,
            context_id: v.context_id,
            check_item_id: v.check_item_id,
        }
    }
}

/// A checklist item in a golden set, as the desktop commands report it.
#[derive(Debug, Clone)]
pub struct GoldenSetItemResponse {
    pub golden_set_id: i64,
    pub checklist_item_id: i64,
    pub sort_order: i64,
    pub created_at: String,
}

impl From<prompt_lab::GoldenSetItem> for GoldenSetItemResponse {
    fn from(v: prompt_lab::GoldenSetItem) -> (r: GoldenSetItemResponse)
        ensures
            r.golden_set_id == v.golden_set_id,
            r.checklist_item_id == v.checklist_item_id,
            r.sort_order == v.sort_order,
            r.created_at@ == v.created_at@,
    {
        GoldenSetItemResponse {
            golden_set_id: v.golden_set_id,
            checklist_item_id: v.checklist_item_id,
            sort_order: v.sort_order,
            created_at: v.created_at,
        }
    }
}

impl FromSpecImpl<prompt_lab::GoldenSetItem> for GoldenSetItemResponse {
    open spec fn obeys_from_spec() -> bool {
        true
    }

    open spec fn from_spec(v: prompt_lab::GoldenSetItem) -> GoldenSetItemResponse {
        GoldenSetItemResponse {
            golden_set_id: v.golden_set_id,
            checklist_item_id: v.checklist_item_id,
            sort_order: v.sort_order,
            created_at: v.created_at,
        }
    }
}

/// A request to create a checklist item, as the desktop commands write it.
#[derive(Debug, Clone)]
pub struct CreateChecklistItemInput {
    pub name: String,
    pub prompt: String,
    pub target_level: TargetLevelInput,
    pub result_schema: Option<String>,
    pub version: Option<i64>,
    pub status: ChecklistStatusInput,
    pub created_by: Option<i64>,
}

/// The prompt-lab request for a desktop request: each field carried over, enumerations converted.
pub open spec fn create_checklist_item_input_of(v: CreateChecklistItemInput) -> prompt_lab::CreateChecklistItemInput {
    prompt_lab::CreateChecklistItemInput {
        name: v.name,
        prompt: v.prompt,
        target_level: target_level_of(v.target_level),
        result_schema: v.result_schema,
        version: v.version,
        status: checklist_status_of(v.status),
        created_by: v.created_by,
    }
}

impl From<CreateChecklistItemInput> for prompt_lab::CreateChecklistItemInput {
    fn from(v: CreateChecklistItemInput) -> (r: prompt_lab::CreateChecklistItemInput)
        ensures
            r == create_checklist_item_input_of(v),
    {
        prompt_lab::CreateChecklistItemInput {
            name: v.name,
            prompt: v.prompt,
            target_level: prompt_lab::TargetLevel::from(v.target_level),
            result_schema: v.result_schema,
            version: v.version,
            status: prompt_lab::ChecklistStatus::from(v.status),
            created_by: v.created_by,
        }
    }
}

impl FromSpecImpl<CreateChecklistItemInput> for prompt_lab::CreateChecklistItemInput {
    open spec fn obeys_from_spec() -> bool {
        true
    }

    open spec fn from_spec(v: CreateChecklistItemInput) -> prompt_lab::CreateChecklistItemInput {
        create_checklist_item_input_of(v)
    }
}

/// A request to change a checklist item; each given field replaces the stored one, as the desktop commands write it.
#[derive(Debug, Clone)]
pub struct UpdateChecklistItemInput {
    pub id: i64,
    pub name: Option<String>,
    pub prompt: Option<String>,
    pub target_level: Option<TargetLevelInput>,
    pub result_schema: Option<String>,
    pub version: Option<i64>,
    pub status: Option<ChecklistStatusInput>,
    pub updated_by: Option<i64>,
}

/// The prompt-lab request for a desktop request: each field carried over, enumerations converted.
pub open spec fn update_checklist_item_input_of(v: UpdateChecklistItemInput) -> prompt_lab::UpdateChecklistItemInput {
    prompt_lab::UpdateChecklistItemInput {
        id: v.id,
        name: v.name,
        prompt: v.prompt,
        target_level: match v.target_level {
                Some(x) => Some(target_level_of(x)),
                None => None,
            },
        result_schema: v.result_schema,
        version: v.version,
        status: match v.status {
                Some(x) => Some(checklist_status_of(x)),
                None => None,
            },
        updated_by: v.updated_by,
    }
}

impl From<UpdateChecklistItemInput> for prompt_lab::UpdateChecklistItemInput {
    fn from(v: UpdateChecklistItemInput) -> (r: prompt_lab::UpdateChecklistItemInput)
        ensures
            r == update_checklist_item_input_of(v),
    {
        prompt_lab::UpdateChecklistItemInput {
            id: v.id,
            name: v.name,
            prompt: v.prompt,
            target_level: match v.target_level {
                Some(x) => Some(prompt_lab::TargetLevel::from(x)),
                None => None,
            },
            result_schema: v.result_schema,
            version: v.version,
            status: match v.status {
                Some(x) => Some(prompt_lab::ChecklistStatus::from(x)),
                None => None,
            },
            updated_by: v.updated_by,
        }
    }
}

impl FromSpecImpl<UpdateChecklistItemInput> for prompt_lab::UpdateChecklistItemInput {
    open spec fn obeys_from_spec() -> bool {
        true
    }

    open spec fn from_spec(v: UpdateChecklistItemInput) -> prompt_lab::UpdateChecklistItemInput {
        update_checklist_item_input_of(v)
    }
}

/// A request to record a check result, or replace the one with the given id, as the desktop commands write it.
#[derive(Debug, Clone)]
pub struct UpsertCheckResultInput {
    pub id: Option<i64>,
    pub context_type: String,
    pub context_id: i64,
    pub check_item_id: i64,
    pub source_type: SourceTypeInput,
    pub operator_id: Option<String>,
    pub result: Option<String>,
    pub is_pass: bool,
}

/// The prompt-lab request for a desktop request: each field carried over, enumerations converted.
pub open spec fn upsert_check_result_input_of(v: UpsertCheckResultInput) -> prompt_lab::UpsertCheckResultInput {
    prompt_lab::UpsertCheckResultInput {
        id: v.id,
        context_type: v.context_type,
        context_id: v.context_id,
        check_item_id: v.check_item_id,
        source_type: source_type_of(v.source_type),
        operator_id: v.operator_id,
        result: v.result,
        is_pass: v.is_pass,
    }
}

impl From<UpsertCheckResultInput> for prompt_lab::UpsertCheckResultInput {
    fn from(v: UpsertCheckResultInput) -> (r: prompt_lab::UpsertCheckResultInput)
        ensures
            r == upsert_check_result_input_of(v),
    {
        prompt_lab::UpsertCheckResultInput {
            id: v.id,
            context_type: v.context_type,
            context_id: v.context_id,
            check_item_id: v.check_item_id,
            source_type: prompt_lab::SourceType::from(v.source_type),
            operator_id: v.operator_id,
            result: v.result,
            is_pass: v.is_pass,
        }
    }
}

impl FromSpecImpl<UpsertCheckResultInput> for prompt_lab::UpsertCheckResultInput {
    open spec fn obeys_from_spec() -> bool {
        true
    }

    open spec fn from_spec(v: UpsertCheckResultInput) -> prompt_lab::UpsertCheckResultInput {
        upsert_check_result_input_of(v)
    }
}

/// A request to record one AI execution, as the desktop commands write it.
#[derive(Debug, Clone)]
pub struct AppendAiExecutionLogInput {
    pub check_result_id: Option<i64>,
    pub context_type: String,
    pub context_id: i64,
    pub check_item_id: i64,
    pub model_provider: Option<String>,
    pub model_version: String,
    pub temperature_bits: Option<u64>,
    pub prompt_snapshot: Option<String>,
    pub raw_output: Option<String>,
    pub input_tokens: Option<i64>,
    pub output_tokens: Option<i64>,
    pub exec_status: ExecStatusInput,
    pub error_message: Option<String>,
    pub latency_ms: Option<i64>,
}

/// The prompt-lab request for a desktop request: each field carried over, enumerations converted.
pub open spec fn append_ai_execution_log_input_of(v: AppendAiExecutionLogInput) -> prompt_lab::AppendAiExecutionLogInput {
    prompt_lab::AppendAiExecutionLogInput {
        check_result_id: v.check_result_id,
        context_type: v.context_type,
        context_id: v.context_id,
        check_item_id: v.check_item_id,
        model_provider: v.model_provider,
        model_version: v.model_version,
        temperature_bits: v.temperature_bits,
        prompt_snapshot: v.prompt_snapshot,
        raw_output: v.raw_output,
        input_tokens: v.input_tokens,
        output_tokens: v.output_tokens,
        exec_status: exec_status_of(v.exec_status),
        error_message: v.error_message,
        latency_ms: v.latency_ms,
    }
}

impl From<AppendAiExecutionLogInput> for prompt_lab::AppendAiExecutionLogInput {
    fn from(v: AppendAiExecutionLogInput) -> (r: prompt_lab::AppendAiExecutionLogInput)
        ensures
            r == append_ai_execution_log_input_of(v),
    {
        prompt_lab::AppendAiExecutionLogInput {
            check_result_id: v.check_result_id,
            context_type: v.context_type,
            context_id: v.context_id,
            check_item_id: v.check_item_id,
            model_provider: v.model_provider,
            model_version: v.model_version,
            temperature_bits: v.temperature_bits,
            prompt_snapshot: v.prompt_snapshot,
            raw_output: v.raw_output,
            input_tokens: v.input_tokens,
            output_tokens: v.output_tokens,
            exec_status: prompt_lab::ExecStatus::from(v.exec_status),
            error_message: v.error_message,
            latency_ms: v.latency_ms,
        }
    }
}

impl FromSpecImpl<AppendAiExecutionLogInput> for prompt_lab::AppendAiExecutionLogInput {
    open spec fn obeys_from_spec() -> bool {
        true
    }

    open spec fn from_spec(v: AppendAiExecutionLogInput) -> prompt_lab::AppendAiExecutionLogInput {
        append_ai_execution_log_input_of(v)
    }
}

/// A stored checklist item, as the desktop commands report it.
#[derive(Debug, Clone)]
pub struct ChecklistItemResponse {
    pub id: i64,
    pub name: String,
    pub prompt: String,
    pub target_level: TargetLevelInput,
    pub result_schema: Option<String>,
    pub version: i64,
    pub status: ChecklistStatusInput,
    pub created_at: String,
    pub updated_at: String,
    pub created_by: Option<i64>,
    pub updated_by: Option<i64>,
    pub deleted_at: Option<String>,
}

/// The desktop report of a stored record: each field carried over, enumerations converted.
pub open spec fn checklist_item_response_of(v: prompt_lab::ChecklistItem) -> ChecklistItemResponse {
    ChecklistItemResponse {
        id: v.id,
        name: v.name,
        prompt: v.prompt,
        target_level: target_level_input_of(v.target_level),
        result_schema: v.result_schema,
        version: v.version,
        status: checklist_status_input_of(v.status),
        created_at: v.created_at,
        updated_at: v.updated_at,
        created_by: v.created_by,
        updated_by: v.updated_by,
        deleted_at: v.deleted_at,
    }
}

impl From<prompt_lab::ChecklistItem> for ChecklistItemResponse {
    fn from(v: prompt_lab::ChecklistItem) -> (r: ChecklistItemResponse)
        ensures
            r == checklist_item_response_of(v),
    {
        ChecklistItemResponse {
            id: v.id,
            name: v.name,
            prompt: v.prompt,
            target_level: TargetLevelInput::from(v.target_level),
            result_schema: v.result_schema,
            version: v.version,
            status: ChecklistStatusInput::from(v.status),
            created_at: v.created_at,
            updated_at: v.updated_at,
            created_by: v.created_by,
            updated_by: v.updated_by,
            deleted_at: v.deleted_at,
        }
    }
}

impl FromSpecImpl<prompt_lab::ChecklistItem> for ChecklistItemResponse {
    open spec fn obeys_from_spec() -> bool {
        true
    }

    open spec fn from_spec(v: prompt_lab::ChecklistItem) -> ChecklistItemResponse {
        checklist_item_response_of(v)
    }
}

/// A stored check result, as the desktop commands report it.
#[derive(Debug, Clone)]
pub struct CheckResultResponse {
    pub id: i64,
    pub context_type: String,
    pub context_id: i64,
    pub check_item_id: i64,
    pub source_type: SourceTypeInput,
    pub operator_id: Option<String>,
    pub result: Option<String>,
    pub is_pass: bool,
    pub created_at: String,
}

/// The desktop report of a stored record: each field carried over, enumerations converted.
pub open spec fn check_result_response_of(v: prompt_lab::CheckResult) -> CheckResultResponse {
    CheckResultResponse {
        id: v.id,
        context_type: v.context_type,
        context_id: v.context_id,
        check_item_id: v.check_item_id,
        source_type: source_type_input_of(v.source_type),
        operator_id: v.operator_id,
        result: v.result,
        is_pass: v.is_pass,
        created_at: v.created_at,
    }
}

impl From<prompt_lab::CheckResult> for CheckResultResponse {
    fn from(v: prompt_lab::CheckResult) -> (r: CheckResultResponse)
        ensures
            r == check_result_response_of(v),
    {
        CheckResultResponse {
            id: v.id,
            context_type: v.context_type,
            context_id: v.context_id,
            check_item_id: v.check_item_id,
            source_type: SourceTypeInput::from(v.source_type),
            operator_id: v.operator_id,
            result: v.result,
            is_pass: v.is_pass,
            created_at: v.created_at,
        }
    }
}

impl FromSpecImpl<prompt_lab::CheckResult> for CheckResultResponse {
    open spec fn obeys_from_spec() -> bool {
        true
    }

    open spec fn from_spec(v: prompt_lab::CheckResult) -> CheckResultResponse {
        check_result_response_of(v)
    }
}

/// A stored record of one AI execution, as the desktop commands report it.
#[derive(Debug, Clone)]
pub struct AiExecutionLogResponse {
    pub id: i64,
    pub check_result_id: Option<i64>,
    pub context_type: String,
    pub context_id: i64,
    pub check_item_id: i64,
    pub model_provider: Option<String>,
    pub model_version: String,
    pub temperature_bits: Option<u64>,
    pub prompt_snapshot: Option<String>,
    pub raw_output: Option<String>,
    pub input_tokens: i64,
    pub output_tokens: i64,
    pub exec_status: ExecStatusInput,
    pub error_message: Option<String>,
    pub latency_ms: i64,
    pub created_at: String,
}

/// The desktop report of a stored record: each field carried over, enumerations converted.
pub open spec fn ai_execution_log_response_of(v: prompt_lab::AiExecutionLog) -> AiExecutionLogResponse {
    AiExecutionLogResponse {
        id: v.id,
        check_result_id: v.check_result_id,
        context_type: v.context_type,
        context_id: v.context_id,
        check_item_id: v.check_item_id,
        model_provider: v.model_provider,
        model_version: v.model_version,
        temperature_bits: v.temperature_bits,
        prompt_snapshot: v.prompt_snapshot,
        raw_output: v.raw_output,
        input_tokens: v.input_tokens,
        output_tokens: v.output_tokens,
        exec_status: exec_status_input_of(v.exec_status),
        error_message: v.error_message,
        latency_ms: v.latency_ms,
        created_at: v.created_at,
    }
}

impl From<prompt_lab::AiExecutionLog> for AiExecutionLogResponse {
    fn from(v: prompt_lab::AiExecutionLog) -> (r: AiExecutionLogResponse)
        ensures
            r == ai_execution_log_response_of(v),
    {
        AiExecutionLogResponse {
            id: v.id,
            check_result_id: v.check_result_id,
            context_type: v.context_type,
            context_id: v.context_id,
            check_item_id: v.check_item_id,
            model_provider: v.model_provider,
            model_version: v.model_version,
            temperature_bits: v.temperature_bits,
            prompt_snapshot: v.prompt_snapshot,
            raw_output: v.raw_output,
            input_tokens: v.input_tokens,
            output_tokens: v.output_tokens,
            exec_status: ExecStatusInput::from(v.exec_status),
            error_message: v.error_message,
            latency_ms: v.latency_ms,
            created_at: v.created_at,
        }
    }
}

impl FromSpecImpl<prompt_lab::AiExecutionLog> for AiExecutionLogResponse {
    open spec fn obeys_from_spec() -> bool {
        true
    }

    open spec fn from_spec(v: prompt_lab::AiExecutionLog) -> AiExecutionLogResponse {
        ai_execution_log_response_of(v)
    }
}

/// Converting a desktop value to the prompt-lab value and back gives it again,
/// and so does the other way round: the two record sets name the same values.
pub proof fn lemma_target_level_round_trip(v: TargetLevelInput, w: prompt_lab::TargetLevel)
    ensures
        target_level_input_of(target_level_of(v)) == v,
        target_level_of(target_level_input_of(w)) == w,
{
}

/// The statuses of checklist items convert both ways without loss.
pub proof fn lemma_checklist_status_round_trip(v: ChecklistStatusInput, w: prompt_lab::ChecklistStatus)
    ensures
        checklist_status_input_of(checklist_status_of(v)) == v,
        checklist_status_of(checklist_status_input_of(w)) == w,
{
}

/// The sources of check results convert both ways without loss.
pub proof fn lemma_source_type_round_trip(v: SourceTypeInput, w: prompt_lab::SourceType)
    ensures
        source_type_input_of(source_type_of(v)) == v,
        source_type_of(source_type_input_of(w)) == w,
{
}

/// The statuses of AI executions convert both ways without loss.
pub proof fn lemma_exec_status_round_trip(v: ExecStatusInput, w: prompt_lab::ExecStatus)
    ensures
        exec_status_input_of(exec_status_of(v)) == v,
        exec_status_of(exec_status_input_of(w)) == w,
{
}

/// Different kinds of prompt-lab error are reported with different codes.
pub proof fn lemma_error_codes_distinct(a: PromptLabErrorKind, b: PromptLabErrorKind)
    requires
        a != b,
    ensures
        error_code(a) != error_code(b),
{
    reveal_strlit("DATABASE_ERROR");
    reveal_strlit("MIGRATION_ERROR");
    reveal_strlit("JSON_ERROR");
    reveal_strlit("IO_ERROR");
    reveal_strlit("INVALID_ENUM");
    reveal_strlit("INVALID_INPUT");
    reveal_strlit("NOT_FOUND");
    if error_code(a) == error_code(b) {
        assert(error_code(a).len() == error_code(b).len());
        assert(error_code(a)[0] == error_code(b)[0]);
        assert(error_code(a)[1] == error_code(b)[1]);
        assert(error_code(a)[8] == error_code(b)[8]);
    }
}

} // verus!

use argusx::desktop::{
    AiExecutionLogResponse, AppendAiExecutionLogInput, CheckResultResponse, ChecklistItemResponse,
    CreateChecklistItemInput, UpdateChecklistItemInput, UpsertCheckResultInput,
    AiExecutionLogFilter, ApiError, BindGoldenSetItemInput, CheckResultFilter, ChecklistFilter,
    ChecklistStatusInput, ExecStatusInput, GoldenSetItemResponse, SourceTypeInput, TargetLevelInput,
    UnbindGoldenSetItemInput,
};
use argusx::prompt_lab::{self, PromptLabErrorKind};

#[test]
fn api_error_codes() {
    let cases = [
        (PromptLabErrorKind::Database, "DATABASE_ERROR"),
        (PromptLabErrorKind::Migration, "MIGRATION_ERROR"),
        (PromptLabErrorKind::Json, "JSON_ERROR"),
        (PromptLabErrorKind::Io, "IO_ERROR"),
        (PromptLabErrorKind::InvalidEnum, "INVALID_ENUM"),
        (PromptLabErrorKind::InvalidInput, "INVALID_INPUT"),
        (PromptLabErrorKind::NotFound, "NOT_FOUND"),
    ];
    for (kind, code) in cases {
        let e = ApiError::from_error(kind, "boom".to_string());
        assert_eq!(e.code, code);
        assert_eq!(e.message, "boom");
    }
}

#[test]
fn enums_round_trip() {
    for v in [TargetLevelInput::Step, TargetLevelInput::Sop] {
        let core: prompt_lab::TargetLevel = v.into();
        assert_eq!(TargetLevelInput::from(core), v);
    }
    for v in [ChecklistStatusInput::Active, ChecklistStatusInput::Inactive, ChecklistStatusInput::Draft] {
        let core: prompt_lab::ChecklistStatus = v.into();
        assert_eq!(ChecklistStatusInput::from(core), v);
    }
    for v in [SourceTypeInput::Ai, SourceTypeInput::Manual] {
        let core: prompt_lab::SourceType = v.into();
        assert_eq!(SourceTypeInput::from(core), v);
    }
    for v in [ExecStatusInput::Pending, ExecStatusInput::Success, ExecStatusInput::ApiError, ExecStatusInput::ParseFailed] {
        let core: prompt_lab::ExecStatus = v.into();
        assert_eq!(ExecStatusInput::from(core), v);
    }
    assert_eq!(prompt_lab::TargetLevel::from(TargetLevelInput::Sop), prompt_lab::TargetLevel::Sop);
    assert_eq!(prompt_lab::ExecStatus::from(ExecStatusInput::ParseFailed), prompt_lab::ExecStatus::ParseFailed);
}

#[test]
fn filters_convert_field_by_field() {
    let f = ChecklistFilter { status: Some(ChecklistStatusInput::Draft), target_level: None };
    let core: prompt_lab::ChecklistFilter = f.into();
    assert_eq!(core.status, Some(prompt_lab::ChecklistStatus::Draft));
    assert_eq!(core.target_level, None);
    let d = ChecklistFilter::default();
    assert!(d.status.is_none() && d.target_level.is_none());

    let c = CheckResultFilter { context_type: Some("step".to_string()), context_id: Some(3), check_item_id: None };
    let core: prompt_lab::CheckResultFilter = c.into();
    assert_eq!(core.context_type.as_deref(), Some("step"));
    assert_eq!(core.context_id, Some(3));
    assert_eq!(core.check_item_id, None);

    let a = AiExecutionLogFilter { context_type: None, context_id: None, check_item_id: Some(9) };
    let core: prompt_lab::AiExecutionLogFilter = a.into();
    assert_eq!(core.check_item_id, Some(9));
    assert!(CheckResultFilter::default().context_type.is_none());
    assert!(AiExecutionLogFilter::default().context_id.is_none());

    let b = BindGoldenSetItemInput { golden_set_id: 1, checklist_item_id: 2, sort_order: 3 };
    let core: prompt_lab::BindGoldenSetItemInput = b.into();
    assert_eq!((core.golden_set_id, core.checklist_item_id, core.sort_order), (1, 2, 3));
    let u = UnbindGoldenSetItemInput { golden_set_id: 4, checklist_item_id: 5 };
    assert_eq!(u.golden_set_id, 4);

    let item = prompt_lab::GoldenSetItem {
        golden_set_id: 1,
        checklist_item_id: 2,
        sort_order: 0,
        created_at: "2024-01-01".to_string(),
    };
    let r = GoldenSetItemResponse::from(item);
    assert_eq!(r.created_at, "2024-01-01");
    assert_eq!(r.checklist_item_id, 2);
}

#[test]
fn records_convert_with_their_enumerations() {
    let create = CreateChecklistItemInput {
        name: "n".to_string(),
        prompt: "p".to_string(),
        target_level: TargetLevelInput::Sop,
        result_schema: Some("{\"type\":\"object\"}".to_string()),
        version: None,
        status: ChecklistStatusInput::Draft,
        created_by: Some(7),
    };
    let core: prompt_lab::CreateChecklistItemInput = create.into();
    assert_eq!(core.target_level, prompt_lab::TargetLevel::Sop);
    assert_eq!(core.status, prompt_lab::ChecklistStatus::Draft);
    assert_eq!(core.result_schema.as_deref(), Some("{\"type\":\"object\"}"));

    let update = UpdateChecklistItemInput {
        id: 3,
        name: None,
        prompt: Some("q".to_string()),
        target_level: None,
        result_schema: None,
        version: Some(2),
        status: Some(ChecklistStatusInput::Inactive),
        updated_by: None,
    };
    let core: prompt_lab::UpdateChecklistItemInput = update.into();
    assert_eq!(core.status, Some(prompt_lab::ChecklistStatus::Inactive));
    assert!(core.target_level.is_none());

    let upsert = UpsertCheckResultInput {
        id: None,
        context_type: "sop".to_string(),
        context_id: 1,
        check_item_id: 2,
        source_type: SourceTypeInput::Manual,
        operator_id: Some("op".to_string()),
        result: None,
        is_pass: true,
    };
    let core: prompt_lab::UpsertCheckResultInput = upsert.into();
    assert_eq!(core.source_type, prompt_lab::SourceType::Manual);
    assert!(core.is_pass);

    let log = AppendAiExecutionLogInput {
        check_result_id: None,
        context_type: "step".to_string(),
        context_id: 1,
        check_item_id: 2,
        model_provider: Some("bigmodel".to_string()),
        model_version: "glm-4".to_string(),
        temperature_bits: Some(0.7f64.to_bits()),
        prompt_snapshot: None,
        raw_output: None,
        input_tokens: Some(10),
        output_tokens: Some(20),
        exec_status: ExecStatusInput::ApiError,
        error_message: Some("rate".to_string()),
        latency_ms: Some(5),
    };
    let core: prompt_lab::AppendAiExecutionLogInput = log.into();
    assert_eq!(core.exec_status, prompt_lab::ExecStatus::ApiError);
    assert_eq!(core.temperature_bits.map(f64::from_bits), Some(0.7));

    let item = prompt_lab::ChecklistItem {
        id: 1,
        name: "n".to_string(),
        prompt: "p".to_string(),
        target_level: prompt_lab::TargetLevel::Step,
        result_schema: None,
        version: 1,
        status: prompt_lab::ChecklistStatus::Active,
        created_at: "c".to_string(),
        updated_at: "u".to_string(),
        created_by: None,
        updated_by: None,
        deleted_at: None,
    };
    let r = ChecklistItemResponse::from(item);
    assert_eq!(r.target_level, TargetLevelInput::Step);
    assert_eq!(r.status, ChecklistStatusInput::Active);

    let result = prompt_lab::CheckResult {
        id: 1,
        context_type: "sop".to_string(),
        context_id: 2,
        check_item_id: 3,
        source_type: prompt_lab::SourceType::Ai,
        operator_id: None,
        result: Some("true".to_string()),
        is_pass: false,
        created_at: "c".to_string(),
    };
    let r = CheckResultResponse::from(result);
    assert_eq!(r.source_type, SourceTypeInput::Ai);
    assert_eq!(r.result.as_deref(), Some("true"));

    let stored = prompt_lab::AiExecutionLog {
        id: 9,
        check_result_id: Some(1),
        context_type: "step".to_string(),
        context_id: 1,
        check_item_id: 2,
        model_provider: None,
        model_version: "v".to_string(),
        temperature_bits: None,
        prompt_snapshot: None,
        raw_output: None,
        input_tokens: 1,
        output_tokens: 2,
        exec_status: prompt_lab::ExecStatus::Success,
        error_message: None,
        latency_ms: 3,
        created_at: "c".to_string(),
    };
    let r = AiExecutionLogResponse::from(stored);
    assert_eq!(r.exec_status, ExecStatusInput::Success);
    assert_eq!(r.latency_ms, 3);
}

use vldb::manager_form::{
    adjust_choice_field, choice_field, form_request, handle_form_key, next_page, number_field,
    parse_port, parse_service_id, previous_page, sanitize_display_text, set_form_value,
    free_port_from, suggested_instance_name, suggested_port, text_field, ActivePage, FormFieldKey, FormKey,
    FormKeyOutcome, FormMode, FormRequest, FormState,
};
use vldb::manager_install::InstalledInstance;
use vldb::manager_service::ServiceId;
use vldb::manager_session::{
    build_step, clamp_selection, cycle_next, cycle_previous, field_label, form_title,
    history_line, history_lines, localized_source_label, page_label, preview_lines,
    process_exit_report, push_history_line, start_step, stop_step, WorkspaceStep,
};

fn instance(service: ServiceId, name: &str, port: u16) -> InstalledInstance {
    InstalledInstance {
        service,
        instance_name: name.to_string(),
        config_path: String::new(),
        host: "127.0.0.1".to_string(),
        port,
        db_path: String::new(),
        service_name: format!("{}-{}", service.label(), name),
        registered: false,
        running: false,
    }
}

fn install_form() -> FormState {
    FormState {
        mode: FormMode::Install,
        fields: vec![
            choice_field(
                FormFieldKey::Service,
                vec!["vldb-lancedb".to_string(), "vldb-duckdb".to_string()],
                "vldb-lancedb".to_string(),
            ),
            text_field(FormFieldKey::InstanceName, " main ".to_string()),
            text_field(FormFieldKey::BindHost, "127.0.0.1".to_string()),
            number_field(FormFieldKey::Port, "19302".to_string()),
            text_field(FormFieldKey::DataPath, "/data/main".to_string()),
            text_field(FormFieldKey::ServiceName, "vldb-lancedb-main".to_string()),
        ],
        selected_index: 0,
    }
}

#[test]
fn pages_cycle_both_ways() {
    assert_eq!(ActivePage::all(), [ActivePage::Installed, ActivePage::Workspace, ActivePage::Output]);
    assert_eq!(next_page(ActivePage::Output), ActivePage::Installed);
    assert_eq!(previous_page(ActivePage::Installed), ActivePage::Output);
    assert_eq!(previous_page(next_page(ActivePage::Workspace)), ActivePage::Workspace);
}

#[test]
fn fields_move_and_read_trimmed() {
    let mut form = install_form();
    form.previous_field();
    assert_eq!(form.selected_index, 5);
    form.next_field();
    assert_eq!(form.selected_index, 0);
    assert_eq!(form.field_value(FormFieldKey::InstanceName), Some("main".to_string()));
    assert_eq!(form.field_value(FormFieldKey::LanceDbRoot), None);
    set_form_value(&mut form, FormFieldKey::DataPath, "/data/other".to_string());
    assert_eq!(form.field_value(FormFieldKey::DataPath), Some("/data/other".to_string()));
}

#[test]
fn choices_step_around() {
    let mut form = install_form();
    assert!(adjust_choice_field(&mut form, true));
    assert_eq!(form.fields[0].value, "vldb-duckdb");
    assert!(adjust_choice_field(&mut form, true));
    assert_eq!(form.fields[0].value, "vldb-lancedb");
    assert!(adjust_choice_field(&mut form, false));
    assert_eq!(form.fields[0].value, "vldb-duckdb");
    form.selected_index = 1;
    assert!(!adjust_choice_field(&mut form, true));
}

#[test]
fn keys_edit_the_selected_field() {
    let mut form = install_form();
    assert_eq!(handle_form_key(&mut form, FormKey::Right), FormKeyOutcome::RefreshInstallDefaults);
    assert_eq!(handle_form_key(&mut form, FormKey::Char('x')), FormKeyOutcome::KeepOpen);
    assert_eq!(form.fields[0].value, "vldb-duckdb");
    form.selected_index = 3;
    handle_form_key(&mut form, FormKey::Char('a'));
    handle_form_key(&mut form, FormKey::Char('7'));
    assert_eq!(form.fields[3].value, "193027");
    handle_form_key(&mut form, FormKey::Backspace);
    assert_eq!(form.fields[3].value, "19302");
    assert_eq!(handle_form_key(&mut form, FormKey::Esc), FormKeyOutcome::Close);
    assert_eq!(handle_form_key(&mut form, FormKey::Enter), FormKeyOutcome::Submit);
    assert_eq!(handle_form_key(&mut form, FormKey::Down), FormKeyOutcome::KeepOpen);
    assert_eq!(form.selected_index, 4);
}

#[test]
fn ports_and_services_parse_like_the_standard_library() {
    assert_eq!(parse_port(" 8080 "), Ok(8080));
    assert_eq!(parse_port("+80"), Ok(80));
    assert_eq!(parse_port(""), Err("端口无效 / Invalid port ``: cannot parse integer from empty string".to_string()));
    assert_eq!(parse_port("65536"), Err("端口无效 / Invalid port `65536`: number too large to fit in target type".to_string()));
    assert_eq!(parse_port("12a"), Err("端口无效 / Invalid port `12a`: invalid digit found in string".to_string()));
    assert_eq!(parse_port("99999x"), Err("端口无效 / Invalid port `99999x`: number too large to fit in target type".to_string()));
    assert_eq!(parse_service_id(" vldb-duckdb "), Ok(ServiceId::DuckDb));
    assert_eq!(parse_service_id("x"), Err("未知服务 / Unknown service: x".to_string()));
}

#[test]
fn submitted_forms_become_requests() {
    let form = install_form();
    match form_request(&form).unwrap() {
        FormRequest::Install(req) => {
            assert_eq!(req.service, ServiceId::LanceDb);
            assert_eq!(req.instance_name, "main");
            assert_eq!(req.port, 19302);
            assert_eq!(req.data_path, "/data/main");
        }
        _ => panic!("expected an install request"),
    }
    let mut bad = install_form();
    set_form_value(&mut bad, FormFieldKey::Port, "x".to_string());
    assert!(form_request(&bad).is_err());
    let configure = FormState {
        mode: FormMode::Configure(instance(ServiceId::DuckDb, "a", 19401)),
        fields: vec![number_field(FormFieldKey::Port, "19500".to_string())],
        selected_index: 0,
    };
    match form_request(&configure).unwrap() {
        FormRequest::Configure { original, request } => {
            assert_eq!(original.instance_name, "a");
            assert_eq!(request.port, 19500);
            assert_eq!(request.bind_host, "");
        }
        _ => panic!("expected a configure request"),
    }
}

#[test]
fn suggestions_skip_what_is_taken() {
    let none: Vec<InstalledInstance> = Vec::new();
    assert_eq!(suggested_instance_name(&none, false, ServiceId::LanceDb), "default");
    assert_eq!(suggested_instance_name(&none, true, ServiceId::LanceDb), "instance-2");
    let list = vec![
        instance(ServiceId::LanceDb, "instance-2", 19301),
        instance(ServiceId::LanceDb, "instance-3", 19302),
        instance(ServiceId::DuckDb, "instance-4", 19401),
    ];
    assert_eq!(suggested_instance_name(&list, true, ServiceId::LanceDb), "instance-4");
    assert_eq!(suggested_instance_name(&list, true, ServiceId::DuckDb), "instance-2");
    assert_eq!(suggested_port(&list, ServiceId::LanceDb), 19303);
    assert_eq!(suggested_port(&list, ServiceId::DuckDb), 19402);
    assert_eq!(free_port_from(&list, ServiceId::LanceDb), Some(19303));
    let full: Vec<InstalledInstance> =
        (19401u32..=65535).map(|p| instance(ServiceId::DuckDb, "x", p as u16)).collect();
    assert_eq!(free_port_from(&full, ServiceId::DuckDb), None);
    assert_eq!(free_port_from(&full, ServiceId::LanceDb), Some(19301));
}

#[test]
fn display_text_drops_verbatim_prefixes() {
    assert_eq!(sanitize_display_text("\\\\?\\C:\\data"), "C:\\data");
    assert_eq!(sanitize_display_text("\\\\?\\UNC\\server\\share"), "\\\\server\\share");
    assert_eq!(sanitize_display_text("/srv/x"), "/srv/x");
}

#[test]
fn selections_wrap_around() {
    assert_eq!(cycle_next(2, 3), 0);
    assert_eq!(cycle_previous(0, 3), 2);
    assert_eq!(cycle_previous(cycle_next(1, 3), 3), 1);
    assert_eq!(cycle_next(5, 0), 0);
    assert_eq!(clamp_selection(7, 3), 2);
    assert_eq!(clamp_selection(1, 3), 1);
}

#[test]
fn history_keeps_the_latest_lines() {
    let mut h = std::collections::VecDeque::new();
    for i in 0..605 {
        push_history_line(&mut h, format!("line {i}"));
    }
    assert_eq!(h.len(), 600);
    assert_eq!(h[0], "line 5");
    let last = history_lines(&h, 2);
    assert_eq!(last, vec!["line 603".to_string(), "line 604".to_string()]);
    assert_eq!(history_line("12:00:00", "build", "ok"), "[12:00:00] build        ok");
    assert_eq!(history_line("t", "a-very-long-source", "m"), "[t] a-very-long-source m");
}

#[test]
fn previews_fit_their_budget() {
    let header = vec!["source: x".to_string(), String::new()];
    let lines = preview_lines(header.clone(), "a\r\nb\nc\n", 10, false);
    assert_eq!(lines, vec!["source: x", "", "a", "b", "c"]);
    let cut = preview_lines(header.clone(), "a\nb\nc\nd\n", 4, false);
    assert_eq!(cut, vec!["source: x", "", "a", "... config preview truncated ..."]);
    let empty = preview_lines(header, "", 4, true);
    assert_eq!(empty, vec!["source: x", "", "(空配置)"]);
}

#[test]
fn workspace_steps() {
    match start_step("vldb-duckdb", false, false, true, 19401, false) {
        WorkspaceStep::Refuse(m) => assert_eq!(m, "vldb-duckdb already responds on port 19401, likely from an external process"),
        _ => panic!("expected a refusal"),
    }
    assert!(matches!(start_step("x", false, false, false, 1, false), WorkspaceStep::Proceed));
    assert!(matches!(stop_step("x", false, false, false), WorkspaceStep::Note(_)));
    match build_step("vldb-lancedb", false, true, true) {
        WorkspaceStep::Refuse(m) => assert_eq!(m, "请先停止 vldb-lancedb，再在当前平台上重新构建"),
        _ => panic!("expected a refusal"),
    }
    let (error, line) = process_exit_report("vldb-duckdb", Some(3), false, false);
    assert_eq!(error.unwrap(), "vldb-duckdb exited unexpectedly with 3");
    assert_eq!(line, "vldb-duckdb process exited with 3");
}

#[test]
fn labels_follow_the_language() {
    assert_eq!(page_label(ActivePage::Output, false), "Output");
    assert_eq!(field_label(FormFieldKey::DuckDbRoot, true), "DuckDB 根目录");
    assert_eq!(localized_source_label("example", true), "示例");
    assert_eq!(localized_source_label("other", true), "other");
    let title = form_title(&FormMode::Configure(instance(ServiceId::LanceDb, "a", 1)), false);
    assert_eq!(title, "Configure vldb-lancedb / a");
}

use localcode::picker::{
    fit_glyph, fit_words, switch_after_post, initial_quant, localcode_control_url, post_reply, supervisor_error,
    switch_poll_done, AppEvent, ChatWidget, LocalcodeCatalog, LocalcodeGroup, LocalcodeQuant,
    LocalcodeQuants, LocalcodeStatus, ReasoningEffort, SelectionView, SupervisorFailure,
    TextColor, UiAction,
};

fn widget(switch: Option<&str>) -> ChatWidget {
    ChatWidget {
        model: "qwen-7b".to_string(),
        reasoning_effort: None,
        localcode_switch: switch.map(|s| s.to_string()),
    }
}

fn status(state: &str, model: Option<&str>, detail: Option<&str>, pct: Option<u64>) -> LocalcodeStatus {
    LocalcodeStatus {
        state: state.to_string(),
        model: model.map(|s| s.to_string()),
        detail: detail.map(|s| s.to_string()),
        pct,
    }
}

fn group(key: &str, name: &str, maker: &str, license: &str, recommended: bool, current: bool) -> LocalcodeGroup {
    LocalcodeGroup {
        key: key.to_string(),
        display_name: name.to_string(),
        maker: maker.to_string(),
        license: license.to_string(),
        recommended,
        current,
    }
}

fn quant(label: &str, fit: &str, tok_s: Option<u64>, recommended: bool, downloaded: bool, current: bool) -> LocalcodeQuant {
    LocalcodeQuant {
        filename: format!("{label}.gguf"),
        alias: format!("m-{label}"),
        label: label.to_string(),
        size_gb: "4.5".to_string(),
        fit: fit.to_string(),
        tok_s,
        recommended,
        downloaded,
        current,
    }
}

fn quants(list: Vec<LocalcodeQuant>, license: &str) -> LocalcodeQuants {
    LocalcodeQuants {
        group: "qwen".to_string(),
        display_name: "Qwen 3".to_string(),
        maker: "Alibaba".to_string(),
        license: license.to_string(),
        ram_gb: 32,
        quants: list,
    }
}

fn info(a: &UiAction) -> &str {
    match a {
        UiAction::InfoMessage(m) => m,
        other => panic!("expected a message, got {other:?}"),
    }
}

fn shown(a: UiAction) -> SelectionView {
    match a {
        UiAction::ShowSelection(v) | UiAction::ShowModelSelection(v) => v,
        other => panic!("expected a list, got {other:?}"),
    }
}

#[test]
fn glyphs_and_words() {
    assert_eq!(fit_glyph("fits"), "✓");
    assert_eq!(fit_glyph("tight"), "~");
    assert_eq!(fit_glyph("too_big"), "✗");
    assert_eq!(fit_glyph("huge"), "?");
    assert_eq!(fit_words("fits"), "fits");
    assert_eq!(fit_words("tight"), "tight");
    assert_eq!(fit_words("too_big"), "too big");
    assert_eq!(fit_words(""), "");
    assert_eq!(fit_words("Fits"), "");
}

#[test]
fn control_url_is_normalised() {
    assert_eq!(localcode_control_url(Some("  http://127.0.0.1:8765/ \n")), Some("http://127.0.0.1:8765".to_string()));
    assert_eq!(localcode_control_url(Some("http://h//")), Some("http://h".to_string()));
    assert_eq!(localcode_control_url(Some("http://h")), Some("http://h".to_string()));
    assert_eq!(localcode_control_url(Some(" / ")), None);
    assert_eq!(localcode_control_url(Some("\u{3000}\t")), None);
    assert_eq!(localcode_control_url(Some("")), None);
    assert_eq!(localcode_control_url(None), None);
    // Only the outer white space goes: a space before the last slash stays.
    assert_eq!(localcode_control_url(Some("http://h/ /")), Some("http://h/ ".to_string()));
}

#[test]
fn model_popup_and_quants_urls() {
    let w = widget(None);
    match w.open_localcode_model_popup("http://h") {
        UiAction::FetchCatalog { url } => assert_eq!(url, "http://h/catalog"),
        other => panic!("{other:?}"),
    }
    match w.open_localcode_quants("http://h", "qwen") {
        UiAction::FetchQuants { url } => assert_eq!(url, "http://h/quants?group=qwen"),
        other => panic!("{other:?}"),
    }
}

#[test]
fn catalog_error_is_reported() {
    let w = widget(None);
    let a = w.on_localcode_catalog_loaded(Err("timeout".to_string()));
    assert_eq!(info(&a), "Could not list models: timeout");
}

#[test]
fn catalog_lists_every_model() {
    let w = widget(None);
    let catalog = LocalcodeCatalog {
        ram_gb: 16,
        current: None,
        groups: vec![
            group("qwen", "Qwen 3", "Alibaba", "Apache-2.0", true, false),
            group("gemma", "Gemma", "Google", "", false, true),
        ],
    };
    let v = shown(w.on_localcode_catalog_loaded(Ok(catalog)));
    assert_eq!(v.view_id, "localcode-model");
    assert_eq!(v.title, "Choose a model");
    assert_eq!(v.subtitle, "Model first, then quant · 16 GB Mac · ★ recommended for you");
    assert_eq!(v.initial_selected_idx, None);
    assert!(v.standard_footer_hint);
    assert_eq!(v.items.len(), 2);
    let a = &v.items[0];
    assert_eq!(a.name, "Qwen 3");
    assert_eq!(a.name_prefix[0].text, "★ ");
    assert_eq!(a.name_prefix[0].color, TextColor::Yellow);
    assert_eq!(a.description.as_deref(), Some("Alibaba · Apache-2.0"));
    assert!(!a.is_current);
    assert!(!a.dismiss_on_select);
    assert!(a.dismiss_parent_on_child_accept);
    assert_eq!(a.search_value.as_deref(), Some("Qwen 3 Alibaba"));
    match &a.on_select {
        AppEvent::LocalcodeOpenQuants { group } => assert_eq!(group, "qwen"),
        other => panic!("{other:?}"),
    }
    let b = &v.items[1];
    assert_eq!(b.name_prefix[0].text, "  ");
    assert_eq!(b.name_prefix[0].color, TextColor::Plain);
    assert_eq!(b.description.as_deref(), Some("Google"));
    assert!(b.is_current);
}

#[test]
fn quants_error_and_empty() {
    let w = widget(None);
    assert_eq!(info(&w.on_localcode_quants_loaded(Err("down".to_string()))), "Could not list quants: down");
    let a = w.on_localcode_quants_loaded(Ok(quants(vec![], "")));
    assert_eq!(info(&a), "No quants found for Qwen 3. Offline, or this repo ships no GGUF quants yet.");
}

#[test]
fn quants_list_rows() {
    let w = widget(None);
    let list = vec![
        quant("Q4_K_M", "fits", Some(42), true, false, false),
        quant("Q8_0", "tight", None, false, true, false),
        quant("F16", "too_big", None, false, false, false),
        quant("IQ1", "odd", None, false, false, false),
    ];
    let v = shown(w.on_localcode_quants_loaded(Ok(quants(list, "MIT"))));
    assert_eq!(v.view_id, "localcode-quant");
    assert_eq!(v.title, "Qwen 3 · Alibaba · MIT");
    assert_eq!(
        v.subtitle,
        "★ best@32GB · ✓ fits · ~ tight · ✗ too big · Enter → use (downloads if needed) · Esc ← back"
    );
    assert!(v.standard_footer_hint);
    assert_eq!(v.items.len(), 4);
    let a = &v.items[0];
    assert_eq!(a.name, "Q4_K_M");
    assert_eq!(a.description.as_deref(), Some("4.5 GB · ~42 tok/s · fits"));
    assert_eq!(a.name_prefix[0].text, "★ ");
    assert_eq!(a.name_prefix[1].text, "✓ ");
    assert_eq!(a.name_prefix[1].color, TextColor::Green);
    assert!(a.dismiss_on_select);
    assert!(!a.dismiss_parent_on_child_accept);
    assert_eq!(a.search_value.as_deref(), Some("Q4_K_M"));
    match &a.on_select {
        AppEvent::LocalcodeSelectQuant { group, filename, alias, display } => {
            assert_eq!(group, "qwen");
            assert_eq!(filename, "Q4_K_M.gguf");
            assert_eq!(alias, "m-Q4_K_M");
            assert_eq!(display, "Qwen 3 Q4_K_M");
        }
        other => panic!("{other:?}"),
    }
    assert_eq!(v.items[1].description.as_deref(), Some("4.5 GB · downloaded"));
    assert_eq!(v.items[1].name_prefix[1].text, "~ ");
    assert_eq!(v.items[1].name_prefix[1].color, TextColor::Yellow);
    assert_eq!(v.items[2].description.as_deref(), Some("4.5 GB · too big"));
    assert_eq!(v.items[2].name_prefix[1].text, "✗ ");
    assert_eq!(v.items[2].name_prefix[1].color, TextColor::Red);
    // An unknown fit has no words, so the description ends with the separator.
    assert_eq!(v.items[3].description.as_deref(), Some("4.5 GB · "));
    assert_eq!(v.items[3].name_prefix[1].text, "? ");
    assert_eq!(v.items[3].name_prefix[1].color, TextColor::Red);
    assert_eq!(v.initial_selected_idx, Some(0));
}

#[test]
fn quants_title_without_license() {
    let w = widget(None);
    let v = shown(w.on_localcode_quants_loaded(Ok(quants(vec![quant("Q4", "fits", None, false, false, false)], ""))));
    assert_eq!(v.title, "Qwen 3 · Alibaba");
    assert_eq!(v.initial_selected_idx, None);
}

#[test]
fn initial_selection_rule() {
    // The last current quant wins, even over an earlier recommended one.
    let l = vec![
        quant("a", "fits", None, true, false, false),
        quant("b", "fits", None, false, false, true),
        quant("c", "fits", None, true, false, false),
        quant("d", "fits", None, false, false, true),
    ];
    assert_eq!(initial_quant(&l), Some(3));
    // With no current quant, the first recommended one.
    let l = vec![
        quant("a", "fits", None, false, false, false),
        quant("b", "fits", None, true, false, false),
        quant("c", "fits", None, true, false, false),
    ];
    assert_eq!(initial_quant(&l), Some(1));
    let l = vec![quant("a", "fits", None, false, false, false)];
    assert_eq!(initial_quant(&l), None);
    assert_eq!(initial_quant(&vec![]), None);
}

#[test]
fn select_quant_starts_switch() {
    let mut w = widget(None);
    let acts = w.localcode_select_quant("http://h", "qwen".to_string(), "q.gguf".to_string(), "m-q".to_string(), "Qwen 3 Q4");
    assert_eq!(w.localcode_switch.as_deref(), Some("m-q"));
    assert_eq!(acts.len(), 3);
    assert!(matches!(acts[0], UiAction::EnsureStatusIndicator));
    match &acts[1] {
        UiAction::UpdateStatus { header, details, preserve_capitalization, details_max_lines } => {
            assert!(*preserve_capitalization);
            assert_eq!(*details_max_lines, 1);
            assert_eq!(header, "Switching to Qwen 3 Q4");
            assert_eq!(details, "contacting localcode…");
        }
        other => panic!("{other:?}"),
    }
    match &acts[2] {
        UiAction::StartSwitch { select_url, status_url, group, filename } => {
            assert_eq!(select_url, "http://h/select");
            assert_eq!(status_url, "http://h/status");
            assert_eq!(group, "qwen");
            assert_eq!(filename, "q.gguf");
        }
        other => panic!("{other:?}"),
    }
}

#[test]
fn select_quant_refused_while_switching() {
    let mut w = widget(Some("m-a"));
    let acts = w.localcode_select_quant("http://h", "g".to_string(), "f".to_string(), "m-b".to_string(), "B");
    assert_eq!(acts.len(), 1);
    assert_eq!(info(&acts[0]), "A model switch is already in progress.");
    assert_eq!(w.localcode_switch.as_deref(), Some("m-a"));
}

#[test]
fn select_quant_refused_for_current_model() {
    let mut w = widget(None);
    let acts = w.localcode_select_quant("http://h", "g".to_string(), "f".to_string(), "qwen-7b".to_string(), "Qwen 7B");
    assert_eq!(acts.len(), 1);
    assert_eq!(info(&acts[0]), "Qwen 7B is already the current model.");
    assert_eq!(w.localcode_switch, None);
}

#[test]
fn status_ignored_without_switch() {
    let mut w = widget(None);
    assert!(w.on_localcode_switch_status(Ok(status("ready", None, None, None))).is_empty());
    assert!(w.on_localcode_switch_status(Err("x".to_string())).is_empty());
    assert_eq!(w.localcode_switch, None);
    assert_eq!(w.model, "qwen-7b");
}

fn header_and_details(a: &UiAction) -> (String, String) {
    match a {
        UiAction::UpdateStatus { header, details, preserve_capitalization, details_max_lines } => {
            assert!(*preserve_capitalization);
            assert_eq!(*details_max_lines, 1);
            (header.clone(), details.clone())
        }
        other => panic!("{other:?}"),
    }
}

#[test]
fn downloading_details() {
    let mut w = widget(Some("m-q"));
    let acts = w.on_localcode_switch_status(Ok(status("downloading", Some("Qwen"), Some("1.2/4.5 GB"), Some(20))));
    assert_eq!(header_and_details(&acts[0]), ("Downloading Qwen".to_string(), "1.2/4.5 GB".to_string()));
    let acts = w.on_localcode_switch_status(Ok(status("downloading", None, Some("  \t"), Some(37))));
    assert_eq!(header_and_details(&acts[0]), ("Downloading m-q".to_string(), "37%".to_string()));
    let acts = w.on_localcode_switch_status(Ok(status("downloading", None, None, None)));
    assert_eq!(header_and_details(&acts[0]), ("Downloading m-q".to_string(), "starting…".to_string()));
    assert_eq!(acts.len(), 1);
    assert_eq!(w.localcode_switch.as_deref(), Some("m-q"));
}

#[test]
fn loading_keeps_switch() {
    let mut w = widget(Some("m-q"));
    let acts = w.on_localcode_switch_status(Ok(status("loading", None, None, None)));
    assert_eq!(acts.len(), 1);
    assert_eq!(header_and_details(&acts[0]), ("Loading m-q".to_string(), "starting the local server…".to_string()));
    assert_eq!(w.localcode_switch.as_deref(), Some("m-q"));
}

#[test]
fn ready_switches_model() {
    let mut w = widget(Some("m-q"));
    w.reasoning_effort = Some(ReasoningEffort::High);
    let acts = w.on_localcode_switch_status(Ok(status("ready", Some("Qwen-Q4"), None, None)));
    assert_eq!(w.localcode_switch, None);
    assert_eq!(acts.len(), 4);
    assert!(matches!(acts[0], UiAction::HideStatusIndicator));
    match &acts[1] {
        UiAction::Send(AppEvent::UpdateModel(m)) => assert_eq!(m, "Qwen-Q4"),
        other => panic!("{other:?}"),
    }
    assert!(matches!(acts[2], UiAction::Send(AppEvent::UpdateReasoningEffort(Some(ReasoningEffort::High)))));
    match &acts[3] {
        UiAction::Send(AppEvent::PersistModelSelection { model, effort }) => {
            assert_eq!(model, "Qwen-Q4");
            assert_eq!(*effort, Some(ReasoningEffort::High));
        }
        other => panic!("{other:?}"),
    }
}

#[test]
fn ready_without_effort_keeps_thinking_off() {
    let mut w = widget(Some("m-q"));
    let acts = w.on_localcode_switch_status(Ok(status("ready", None, None, None)));
    match &acts[1] {
        UiAction::Send(AppEvent::UpdateModel(m)) => assert_eq!(m, "m-q"),
        other => panic!("{other:?}"),
    }
    assert!(matches!(acts[2], UiAction::Send(AppEvent::UpdateReasoningEffort(Some(ReasoningEffort::Disabled)))));
    match &acts[3] {
        UiAction::Send(AppEvent::PersistModelSelection { effort, .. }) => assert_eq!(*effort, Some(ReasoningEffort::Disabled)),
        other => panic!("{other:?}"),
    }
}

#[test]
fn failure_states_end_switch() {
    let mut w = widget(Some("m-q"));
    let acts = w.on_localcode_switch_status(Ok(status("error", None, Some("disk full"), None)));
    assert_eq!(w.localcode_switch, None);
    assert!(matches!(acts[0], UiAction::HideStatusIndicator));
    assert_eq!(info(&acts[1]), "Model switch to m-q failed: disk full");

    let mut w = widget(Some("m-q"));
    let acts = w.on_localcode_switch_status(Ok(status("idle", Some("Other"), None, None)));
    assert_eq!(w.localcode_switch, None);
    assert_eq!(info(&acts[1]), "Model switch to Other failed: unknown error");

    let mut w = widget(Some("m-q"));
    let acts = w.on_localcode_switch_status(Err("connection refused".to_string()));
    assert_eq!(w.localcode_switch, None);
    assert_eq!(acts.len(), 2);
    assert_eq!(info(&acts[1]), "Model switch failed: connection refused");
}

#[test]
fn polling_stops_only_where_switch_ends() {
    for st in ["ready", "error", "idle"] {
        let r = Ok(status(st, None, None, None));
        assert!(switch_poll_done(&r));
        let mut w = widget(Some("m-q"));
        w.on_localcode_switch_status(r);
        assert_eq!(w.localcode_switch, None, "state {st}");
    }
    assert!(switch_poll_done(&Err("gone".to_string())));
    assert!(!switch_poll_done(&Ok(status("downloading", None, None, None))));
    assert!(!switch_poll_done(&Ok(status("loading", None, None, None))));
    assert!(!switch_poll_done(&Ok(status("weird", None, None, None))));
}

#[test]
fn switch_lasts_through_progress_reports() {
    let mut w = widget(None);
    w.localcode_select_quant("http://h", "g".to_string(), "f".to_string(), "m-q".to_string(), "Q");
    for st in ["downloading", "loading", "downloading"] {
        w.on_localcode_switch_status(Ok(status(st, None, None, Some(1))));
        assert_eq!(w.localcode_switch.as_deref(), Some("m-q"));
        let acts = w.localcode_select_quant("http://h", "g".to_string(), "f".to_string(), "m-z".to_string(), "Z");
        assert_eq!(info(&acts[0]), "A model switch is already in progress.");
    }
    w.on_localcode_switch_status(Ok(status("ready", None, None, None)));
    assert_eq!(w.localcode_switch, None);
}

#[test]
fn supervisor_messages() {
    assert_eq!(supervisor_error(&SupervisorFailure::Unreachable("refused".to_string())), "localcode supervisor unreachable: refused");
    assert_eq!(supervisor_error(&SupervisorFailure::Status("404 Not Found".to_string())), "localcode supervisor returned 404 Not Found");
    assert_eq!(supervisor_error(&SupervisorFailure::BadReply("eof".to_string())), "bad reply from localcode supervisor: eof");
}

#[test]
fn post_reply_outcomes() {
    assert_eq!(post_reply(true, Some("ignored")), Ok(()));
    assert_eq!(post_reply(false, Some("no such quant")), Err("no such quant".to_string()));
    assert_eq!(post_reply(false, None), Err("request rejected".to_string()));
}

#[test]
fn failed_select_post_is_reported_once_and_stops() {
    assert_eq!(switch_after_post(Err("no such quant".to_string())), Some("no such quant".to_string()));
    assert_eq!(switch_after_post(Ok(())), None);
}

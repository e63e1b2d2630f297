use lazyqmk::contexts;
use lazyqmk::help_content::{get_help_content, HelpLine, HelpStyle};
use lazyqmk::help_registry::{default_priority, priority_order, Binding, Context, HelpMeta, HelpRegistry};

fn binding(keys: &[&str], alt: &[&str], action: &str, hint: Option<&str>, priority: u32) -> Binding {
    Binding {
        keys: keys.iter().map(|k| k.to_string()).collect(),
        alt_keys: alt.iter().map(|k| k.to_string()).collect(),
        action: action.to_string(),
        hint: hint.map(|h| h.to_string()),
        priority,
    }
}

fn context(name: &str, bindings: Vec<Binding>) -> Context {
    Context { name: name.to_string(), description: format!("{name} context"), bindings }
}

fn registry() -> HelpRegistry {
    let main = context(
        "Main View",
        vec![
            binding(&["Up"], &["k"], "Navigate up", Some("Move"), 30),
            binding(&["Enter"], &[], "Open keycode picker", Some("Pick"), 10),
            binding(&["Ctrl+S"], &[], "Save", None, 10),
            binding(&["Ctrl+P"], &[], "Settings", None, 60),
            binding(&["?"], &[], "Toggle help", Some("Help"), 10),
        ],
    );
    let build_log = context("Build Log", vec![binding(&["Esc"], &[], "Close log", None, 50)]);
    let tips = context("Tips", vec![binding(&[], &[], "Use ? for help", None, 50)]);
    let meta = HelpMeta { version: "2.1".to_string(), app_name: "LazyQMK".to_string() };
    HelpRegistry::from_parts(
        meta,
        vec![
            (contexts::MAIN.to_string(), main),
            (contexts::BUILD_LOG.to_string(), build_log),
            (contexts::TIPS.to_string(), tips),
        ],
    )
    .unwrap()
}

fn text_of(line: &HelpLine) -> String {
    line.spans.iter().map(|s| s.text.as_str()).collect()
}

#[test]
fn duplicate_context_keys_are_refused() {
    let meta = HelpMeta { version: "1".to_string(), app_name: "x".to_string() };
    let r = HelpRegistry::from_parts(
        meta,
        vec![("main".to_string(), context("A", vec![])), ("main".to_string(), context("B", vec![]))],
    );
    assert!(r.is_none());
}

#[test]
fn lookups() {
    let r = registry();
    assert_eq!(r.app_name(), "LazyQMK");
    assert_eq!(r.version(), "2.1");
    assert_eq!(r.get_context(contexts::MAIN).unwrap().name, "Main View");
    assert!(r.get_context("nope").is_none());
    let names: Vec<&String> = r.context_names();
    assert_eq!(names, vec!["main", "build_log", "tips"]);
    let info = r.get_context_info();
    assert_eq!(info[1], ("build_log", "Build Log", "Build Log context"));
    assert_eq!(default_priority(), 50);
}

#[test]
fn bindings_in_priority_order_stable() {
    let r = registry();
    let actions: Vec<&str> = r.get_bindings(contexts::MAIN).iter().map(|b| b.action.as_str()).collect();
    assert_eq!(actions, vec!["Open keycode picker", "Save", "Toggle help", "Navigate up", "Settings"]);
    assert!(r.get_bindings("nope").is_empty());
    assert_eq!(priority_order(&vec![5, 1, 5, 0]), vec![3, 1, 0, 2]);
}

#[test]
fn status_bar_hints() {
    let r = registry();
    let hints: Vec<&str> = r.get_status_bar_hints(contexts::MAIN).iter().map(|b| b.action.as_str()).collect();
    assert_eq!(hints, vec!["Open keycode picker", "Toggle help", "Navigate up"]);
    let formatted = r.format_status_bar_hints(contexts::MAIN, 2);
    assert_eq!(
        formatted,
        vec![("Enter".to_string(), "Pick".to_string()), ("?".to_string(), "Help".to_string())]
    );
    assert!(r.format_status_bar_hints(contexts::BUILD_LOG, 5).is_empty());
}

#[test]
fn binding_formatting() {
    let b = binding(&["h", "Left"], &["a", "b"], "Move left", None, 1);
    assert_eq!(
        HelpRegistry::format_binding_for_help(&b),
        ("h/Left (a/b)".to_string(), "Move left".to_string())
    );
    let b = binding(&["x"], &[], "Cut", None, 1);
    assert_eq!(HelpRegistry::format_binding_for_help(&b).0, "x");
}

#[test]
fn help_content_sections() {
    let lines = get_help_content(&registry());
    let texts: Vec<String> = lines.iter().map(text_of).collect();
    let rule = "═".repeat(63);
    assert_eq!(texts[0], rule);
    let title = format!("{:^65}", "LazyQMK - Help");
    assert_eq!(texts[1], title);
    assert_eq!(lines[1].spans[0].style, HelpStyle::Title);
    for section in ["NAVIGATION", "LAYERS", "KEY EDITOR", "CLIPBOARD", "COLOR SYSTEM", "CATEGORY SYSTEM", "SETTINGS", "TEMPLATES", "FILE OPERATIONS", "BUILD SYSTEM", "CONFIGURATION", "GENERAL", "TIPS"] {
        assert!(texts.contains(&format!("═══ {section} ═══")), "missing {section}");
    }
    // navigation lists the matching main binding with padded keys
    let nav = texts.iter().position(|t| t == "═══ NAVIGATION ═══").unwrap();
    assert_eq!(texts[nav + 1], "");
    assert_eq!(texts[nav + 2], format!("  {:<18}Navigate up", "Up (k)"));
    assert_eq!(lines[nav + 2].spans[1].style, HelpStyle::Key);
    // the settings binding is shown with its own label
    assert!(texts.contains(&format!("  {:<18}Open settings manager", "Ctrl+P")));
    // unknown contexts fall back to the given subsection title
    assert!(texts.contains(&"  In layer manager:".to_string()));
    assert!(texts.contains(&"  In build log:".to_string()));
    assert!(texts.contains(&format!("  {:<18}Close log", "Esc")));
    assert!(texts.contains(&"  • Use ? for help".to_string()));
    let n = texts.len();
    assert_eq!(texts[n - 3], "  Help format v2.1 • 3 contexts");
    assert_eq!(texts[n - 2], "              Press '?' to close • ↑↓ to scroll               ");
    assert_eq!(texts[n - 1], rule);
}

#[test]
fn help_content_of_empty_registry() {
    let meta = HelpMeta { version: "0".to_string(), app_name: "A name longer than sixty-five characters for sure, surely, definitely".to_string() };
    let r = HelpRegistry::from_parts(meta, vec![]).unwrap();
    let lines = get_help_content(&r);
    assert_eq!(text_of(&lines[1]), "A name longer than sixty-five characters for sure, surely, definitely - Help");
    assert!(lines.iter().any(|l| text_of(l) == "  In keycode picker:"));
    assert_eq!(text_of(&lines[lines.len() - 3]), "  Help format v0 • 0 contexts");
}

#[test]
fn status_bar_hints_are_the_hinted_bindings() {
    let r = registry();
    for name in [contexts::MAIN, contexts::BUILD_LOG, contexts::TIPS, "nope"] {
        let from_bindings: Vec<(&str, u32)> = r
            .get_bindings(name)
            .into_iter()
            .filter(|b| b.hint.is_some())
            .map(|b| (b.action.as_str(), b.priority))
            .collect();
        let hints: Vec<(&str, u32)> =
            r.get_status_bar_hints(name).into_iter().map(|b| (b.action.as_str(), b.priority)).collect();
        assert_eq!(hints, from_bindings);
    }
}

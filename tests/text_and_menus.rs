use zeroclaw_onboard::catalog::{
    curated_models_for_provider, default_model_for_provider, get_provider_tiers,
    get_providers_for_tier, ProviderCatalog, ProviderModels, ProviderTier,
};
use zeroclaw_onboard::dashboard::{AppState, MenuItem};
use zeroclaw_onboard::state::App;
use zeroclaw_onboard::text::{parse_list_csv, parse_port, same_text, text_less, trim, trim_trailing_slashes};

fn s(v: &str) -> String {
    v.to_string()
}

fn catalog() -> ProviderCatalog {
    ProviderCatalog {
        tiers: vec![
            ProviderTier { label: s("Recommended"), providers: vec![(s("openrouter"), s("OpenRouter"))] },
            ProviderTier { label: s("Custom"), providers: vec![] },
        ],
        models: vec![
            ProviderModels { provider: s("openrouter"), default_model: s("or/auto"), curated: vec![(s("x"), s("X model"))] },
            ProviderModels { provider: s("openrouter"), default_model: s("shadowed"), curated: vec![] },
        ],
        fallback_model: s("fallback"),
    }
}

#[test]
fn trim_removes_unicode_whitespace() {
    assert_eq!(trim("  a b \t\n"), "a b");
    assert_eq!(trim("\u{3000}x\u{a0}"), "x");
    assert_eq!(trim("   "), "");
    assert_eq!(trim(""), "");
    assert_eq!(App::text_value(" key "), "key");
}

#[test]
fn trailing_slashes_are_removed() {
    assert_eq!(trim_trailing_slashes("http://h/v1///"), "http://h/v1");
    assert_eq!(trim_trailing_slashes("///"), "");
    assert_eq!(trim_trailing_slashes("a/b"), "a/b");
}

#[test]
fn csv_lists() {
    assert_eq!(parse_list_csv(""), Vec::<String>::new());
    assert_eq!(parse_list_csv("a"), vec![s("a")]);
    assert_eq!(parse_list_csv(" a ,b,, c ,"), vec![s("a"), s("b"), s("c")]);
    assert_eq!(parse_list_csv(",,"), Vec::<String>::new());
}

#[test]
fn ports_parse_like_u16() {
    assert_eq!(parse_port("8080"), Some(8080));
    assert_eq!(parse_port("+1"), Some(1));
    assert_eq!(parse_port("0"), Some(0));
    assert_eq!(parse_port("65535"), Some(65535));
    assert_eq!(parse_port("65536"), None);
    assert_eq!(parse_port("99999999999"), None);
    assert_eq!(parse_port("-1"), None);
    assert_eq!(parse_port("+"), None);
    assert_eq!(parse_port(""), None);
    assert_eq!(parse_port("12a"), None);
}

#[test]
fn text_order_and_equality() {
    assert!(text_less("a", "b"));
    assert!(text_less("a", "ab"));
    assert!(!text_less("ab", "a"));
    assert!(!text_less("a", "a"));
    assert!(text_less("Z", "a"));
    assert!(same_text("vllm", "vllm"));
    assert!(!same_text("vllm", "vllm2"));
}

#[test]
fn catalog_lookups() {
    let c = catalog();
    assert_eq!(get_provider_tiers(&c), vec![s("Recommended"), s("Custom")]);
    assert_eq!(get_providers_for_tier(&c, 0), vec![(s("openrouter"), s("OpenRouter"))]);
    assert!(get_providers_for_tier(&c, 1).is_empty());
    assert!(get_providers_for_tier(&c, 7).is_empty());
    assert_eq!(curated_models_for_provider(&c, "openrouter"), vec![(s("x"), s("X model"))]);
    assert!(curated_models_for_provider(&c, "nobody").is_empty());
    assert_eq!(default_model_for_provider(&c, "openrouter"), "or/auto");
    assert_eq!(default_model_for_provider(&c, "nobody"), "fallback");
}

#[test]
fn menu_titles() {
    assert_eq!(MenuItem::Home.title(), "Home");
    assert_eq!(MenuItem::ConfigSchema.title(), "Config Schema");
    assert_eq!(MenuItem::DoctorFull.title(), "Doctor (run)");
    assert_eq!(MenuItem::PeripheralList.title(), "Peripheral List (run)");
}

#[test]
fn dashboard_cursor() {
    let mut d = AppState::new();
    assert_eq!(d.items.len(), 18);
    assert_eq!(d.selected_item(), MenuItem::Home);
    assert_eq!(d.output[0], "ZeroClaw TUI Dashboard");
    d.move_up();
    assert_eq!(d.menu, Some(0));
    d.move_down();
    assert_eq!(d.selected_item(), MenuItem::Status);
    for _ in 0..30 {
        d.move_down();
    }
    assert_eq!(d.menu, Some(17));
    assert_eq!(d.selected_item(), MenuItem::PeripheralList);
    d.menu = Some(99);
    assert_eq!(d.selected_item(), MenuItem::Home);
}

#[test]
fn custom_workspace_path_expands_home() {
    let mut app = App::new(false);
    app.workspace_input = s("~/ws");
    assert_eq!(app.custom_workspace_path(), None);
    app.use_default_workspace = false;
    let p = app.custom_workspace_path().expect("typed path");
    assert!(p.ends_with("/ws"));
    assert_ne!(p, "~/ws");
    app.workspace_input = s(" /srv/ws ");
    assert_eq!(app.custom_workspace_path(), Some(s("/srv/ws")));
    app.workspace_input = s("  ");
    assert_eq!(app.custom_workspace_path(), None);
}

#[test]
fn workspace_dirs_set_config_path() {
    let mut app = App::new(false);
    app.apply_workspace_dirs(s("/etc/zc"), s("/srv/ws"));
    assert_eq!(app.config_path, "/etc/zc/config.toml");
    assert_eq!(app.workspace_dir, "/srv/ws");
    app.apply_workspace_dirs(s("/etc/zc/"), s("/srv/ws"));
    assert_eq!(app.config_path, "/etc/zc/config.toml");
}

use hyprland_installer::config::InstallConfig;
use hyprland_installer::update::{
    plan_config_update, render_preview, render_sidecar, ConfigUpdate, Handover, BACKUP_EXTENSION,
    CONFIG_FILE, SIDECAR_FILE,
};

fn with_bar() -> InstallConfig {
    let mut config = InstallConfig::default();
    config.status_bar = Some("waybar".to_string());
    config
}

const HEADER: &str = "# Auto-generated autostart configuration\n# Generated by hyprland-installer\n# Include this in your main hyprland.conf with: source = ~/.config/hypr/hyprland-autostart.conf\n\n";

#[test]
fn file_names() {
    assert_eq!(CONFIG_FILE, "hypr/hyprland.conf");
    assert_eq!(SIDECAR_FILE, "hyprland-autostart.conf");
    assert_eq!(BACKUP_EXTENSION, "conf.backup");
    assert_ne!(SIDECAR_FILE, "hyprland.conf");
}

#[test]
fn missing_file_is_not_created_but_a_sidecar_is() {
    let update = plan_config_update(&with_bar(), None);
    assert_eq!(
        update,
        ConfigUpdate::CreateSidecar {
            content: format!("{}exec-once = waybar\n\n", HEADER),
        }
    );
    assert!(!update.backs_up_first());
    assert_eq!(update.handover(), Some(Handover::File));
}

#[test]
fn sidecar_holds_the_lines_without_markers() {
    let content = render_sidecar(&vec!["a".to_string(), "b".to_string()]);
    assert_eq!(content, format!("{}a\nb\n", HEADER));
    assert!(!content.contains("AUTO-GENERATED"));
}

#[test]
fn existing_file_is_backed_up_and_rewritten() {
    let update = plan_config_update(&with_bar(), Some("# mine\n"));
    assert_eq!(
        update,
        ConfigUpdate::Rewrite {
            content: "# mine\n\n\n# === AUTO-GENERATED EXEC-ONCE START ===\nexec-once = waybar\n\n# === AUTO-GENERATED EXEC-ONCE END ===\n"
                .to_string(),
        }
    );
    assert!(update.backs_up_first());
    assert_eq!(update.handover(), Some(Handover::DirectoryTree));
}

#[test]
fn updating_twice_changes_nothing_more() {
    let config = with_bar();
    let first = match plan_config_update(&config, Some("# mine\nbind = x\n")) {
        ConfigUpdate::Rewrite { content } => content,
        other => panic!("unexpected {:?}", other),
    };
    let second = plan_config_update(&config, Some(&first));
    assert_eq!(second, ConfigUpdate::Rewrite { content: first.clone() });
    assert_eq!(first.matches("# === AUTO-GENERATED EXEC-ONCE START ===").count(), 1);
}

#[test]
fn nothing_to_add_means_nothing_to_write() {
    let config = InstallConfig::default();
    let missing = plan_config_update(&config, None);
    assert_eq!(missing, ConfigUpdate::Nothing);
    assert_eq!(missing.handover(), None);
    assert!(!missing.backs_up_first());
    assert_eq!(plan_config_update(&config, Some("text")), ConfigUpdate::Nothing);
}

#[test]
fn dry_run_only_previews() {
    let mut config = with_bar();
    config.dry_run = true;
    let rows = vec![
        "# === AUTO-GENERATED EXEC-ONCE START ===".to_string(),
        "exec-once = waybar".to_string(),
        "".to_string(),
        "# === AUTO-GENERATED EXEC-ONCE END ===".to_string(),
    ];
    for existing in [None, Some("# mine\n")] {
        let update = plan_config_update(&config, existing);
        assert_eq!(update, ConfigUpdate::Preview { rows: rows.clone() });
        assert!(!update.backs_up_first());
        assert_eq!(update.handover(), None);
    }
    let mut blank = InstallConfig::default();
    blank.dry_run = true;
    assert_eq!(plan_config_update(&blank, None), ConfigUpdate::Preview { rows: vec![] });
    assert!(render_preview(&vec![]).is_empty());
}

#[test]
fn unterminated_block_is_completed() {
    let update = plan_config_update(
        &with_bar(),
        Some("# mine\n# === AUTO-GENERATED EXEC-ONCE START ===\nexec-once = x\n"),
    );
    assert_eq!(
        update,
        ConfigUpdate::Rewrite {
            content: "# mine\n# === AUTO-GENERATED EXEC-ONCE START ===\nexec-once = waybar\n\n# === AUTO-GENERATED EXEC-ONCE END ===\n"
                .to_string(),
        }
    );
    assert!(update.backs_up_first());
    assert_eq!(update.handover(), Some(Handover::DirectoryTree));
}

#[test]
fn an_existing_file_is_always_rewritten_in_a_live_run() {
    let contents = [
        "",
        "# === AUTO-GENERATED EXEC-ONCE END ===",
        "# === AUTO-GENERATED EXEC-ONCE START ===",
        "# === AUTO-GENERATED EXEC-ONCE END ===\n# === AUTO-GENERATED EXEC-ONCE START ===",
        "a\n# === AUTO-GENERATED EXEC-ONCE START ===\nb\n# === AUTO-GENERATED EXEC-ONCE END ===\nc",
    ];
    for content in contents {
        let text = match plan_config_update(&with_bar(), Some(content)) {
            ConfigUpdate::Rewrite { content } => content,
            other => panic!("unexpected {:?}", other),
        };
        let start = text.find("# === AUTO-GENERATED EXEC-ONCE START ===\nexec-once = waybar\n\n# === AUTO-GENERATED EXEC-ONCE END ===");
        assert!(start.is_some());
        let again = plan_config_update(&with_bar(), Some(&text));
        assert_eq!(again, ConfigUpdate::Rewrite { content: text });
    }
}

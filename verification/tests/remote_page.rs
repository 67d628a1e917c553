use celeste::domain::remote::{Remote, RemoteId, SyncPolicy};
use celeste::domain::run_state::{RunState, SyncActivity};
use celeste::domain::sync::{SyncDir, SyncDirExclusion, SyncDirExclusionId, SyncDirId};
use celeste::screens::remote_page::{
    auto_excluded_for, confirm_delete, countdown, exclusion_panel_view, format_duration,
    format_seconds, is_remote_descendant, view, Known, PendingDelete, MAX_LOG_LINES,
};
use celeste::widgets::run_state_icon::status_icon;
use std::collections::HashMap;
use std::time::Duration;

#[test]
fn format_duration_shapes() {
    assert_eq!(format_duration(Duration::ZERO), "0s");
    assert_eq!(format_duration(Duration::from_secs(9)), "9s");
    assert_eq!(format_duration(Duration::from_secs(65)), "1m05s");
    assert_eq!(format_duration(Duration::from_secs(3_900)), "1h05m");
}

#[test]
fn parts_of_a_second_are_dropped() {
    assert_eq!(format_duration(Duration::from_millis(59_999)), "59s");
    assert_eq!(format_duration(Duration::from_millis(999)), "0s");
}

#[test]
fn units_change_on_the_minute_and_on_the_hour() {
    assert_eq!(format_seconds(59), "59s");
    assert_eq!(format_seconds(60), "1m00s");
    assert_eq!(format_seconds(3_599), "59m59s");
    assert_eq!(format_seconds(3_600), "1h00m");
    assert_eq!(format_seconds(86_399), "23h59m");
    assert_eq!(format_seconds(u64::MAX), "5124095576030431h00m");
}

fn dir(id: i64, remote_id: i64, remote_path: &str) -> SyncDir {
    SyncDir {
        id: SyncDirId(id),
        remote_id: RemoteId(remote_id),
        local_path: format!("/home/me/{id}"),
        remote_path: remote_path.to_owned(),
    }
}

#[test]
fn a_path_lies_below_its_ancestors_only() {
    let below = |a: &str, b: &str| is_remote_descendant(&dir(1, 1, a), &dir(2, 1, b));
    assert!(below("Docs", "Docs/2024"));
    assert!(below("", "Docs"));
    assert!(!below("", ""));
    assert!(!below("Docs", "Docs"));
    assert!(!below("Docs", "Docs2"));
    assert!(!below("Docs/2024", "Docs"));
    assert!(below("Docs/", "Docs/2024"));
    assert!(!below("Docs/", "Docs/"));
    assert!(below("Docs", "Docs/2024/May") && below("Docs/2024", "Docs/2024/May"));
}

#[test]
fn only_other_directories_of_the_same_remote_are_left_out() {
    let sd = dir(1, 1, "Docs");
    let all = vec![
        dir(1, 1, "Docs"),
        dir(2, 1, "Docs/a"),
        dir(3, 2, "Docs/b"),
        dir(4, 1, "Music"),
        dir(5, 1, "Docs/c/d"),
    ];
    let ids: Vec<i64> = auto_excluded_for(&sd, &all).iter().map(|d| d.id.0).collect();
    assert_eq!(ids, vec![2, 5]);
}

#[test]
fn the_panel_shows_paths_from_its_directory() {
    let sd = dir(1, 1, "Docs");
    let nested = [dir(2, 1, "Docs/a"), dir(3, 1, "Elsewhere")];
    let custom =
        vec![SyncDirExclusion { id: SyncDirExclusionId(9), remote_path: "tmp".to_owned() }];
    let panel = exclusion_panel_view(&sd, &nested.iter().collect(), &custom, "dra");
    assert_eq!(panel.automatic, vec!["  \"a\"", "  \"Elsewhere\""]);
    assert_eq!(panel.custom, vec![(SyncDirExclusionId(9), "  \"tmp\"".to_owned())]);
    assert!(!panel.nothing);
    assert_eq!(panel.draft, "dra");

    let slashed = exclusion_panel_view(
        &dir(1, 1, "Docs/"),
        &nested.iter().collect(),
        &Vec::new(),
        "",
    );
    assert_eq!(slashed.automatic, vec!["  \"Docs/a\"", "  \"Elsewhere\""]);
    let doubled = dir(4, 1, "Docs//x");
    let below_slash = exclusion_panel_view(&dir(1, 1, "Docs/"), &vec![&doubled], &Vec::new(), "");
    assert_eq!(below_slash.automatic, vec!["  \"x\""]);
    let below_plain = exclusion_panel_view(&sd, &vec![&doubled], &Vec::new(), "");
    assert_eq!(below_plain.automatic, vec!["  \"/x\""]);

    let root = dir(1, 1, "");
    let empty = exclusion_panel_view(&root, &Vec::new(), &Vec::new(), "");
    assert!(empty.nothing);
    let of_root = exclusion_panel_view(&root, &nested.iter().collect(), &Vec::new(), "");
    assert_eq!(of_root.automatic, vec!["  \"Docs/a\"", "  \"Elsewhere\""]);
}

#[test]
fn the_dialog_says_what_is_deleted() {
    let remote = confirm_delete(&PendingDelete::Remote(RemoteId(1), "work".to_owned()));
    assert_eq!(remote.title, "Delete remote?");
    assert_eq!(
        remote.body,
        "Are you sure you want to delete the remote \"work\"? All sync directories for this \
         remote will be removed and syncing will stop. Local files are preserved."
    );
    let link = confirm_delete(&PendingDelete::SyncDir {
        local: "/home/me".to_owned(),
        remote: String::new(),
    });
    assert_eq!(link.title, "Delete sync directory?");
    assert_eq!(
        link.body,
        "Are you sure you want to delete the sync directory \"/home/me\" → \"/\"? Local and \
         remote files are preserved; only the link between them is removed."
    );
}

#[test]
fn the_countdown_says_when_or_that_it_is_paused() {
    let due = countdown(Some((Duration::from_secs(65), true)));
    assert_eq!((due.label.as_str(), due.in_backoff), ("next sync in 1m05s", true));
    let paused = countdown(None);
    assert_eq!((paused.label.as_str(), paused.in_backoff), ("paused", false));
}

fn remote() -> Remote {
    Remote {
        id: RemoteId(1),
        name: "work".to_owned(),
        policy: SyncPolicy { interval: Duration::from_secs(60), enabled: true },
        provider_kind: None,
    }
}

#[test]
fn the_page_has_a_card_for_every_directory() {
    let dirs = vec![dir(1, 1, "Docs"), dir(2, 1, "Docs/a"), dir(3, 1, "")];
    let mut status = HashMap::new();
    status.insert(1, RunState::Syncing(SyncActivity::Listing));
    let mut exclusions = HashMap::new();
    exclusions.insert(
        1,
        vec![SyncDirExclusion { id: SyncDirExclusionId(7), remote_path: "tmp".to_owned() }],
    );
    let mut drafts = HashMap::new();
    drafts.insert(1, "dr".to_owned());
    let known = Known {
        all_known_sync_dirs: &dirs,
        status: &status,
        exclusion_panel: Some(SyncDirId(1)),
        exclusions: &exclusions,
        draft_exclusion: &drafts,
        needs_reauth: false,
    };
    let page = view(&remote(), &dirs, &known, ("l", "r"), None, &None);
    assert_eq!(page.name, "work");
    assert!(!page.no_directories && !page.reauth_banner && page.dialog.is_none());
    assert_eq!((page.draft_local.as_str(), page.draft_remote.as_str()), ("l", "r"));
    assert_eq!(page.cards[0].path_label, "\"/home/me/1\" → \"Docs\"");
    assert_eq!(page.cards[2].path_label, "\"/home/me/3\" → \"/\"");
    let labels: Vec<&str> = page.cards.iter().map(|c| c.excluded_label.as_str()).collect();
    assert_eq!(labels, vec!["Excluded (2)", "Excluded (0)", "Excluded (2)"]);
    assert_eq!(page.cards[0].icon_state, Some(RunState::Syncing(SyncActivity::Listing)));
    assert_eq!(page.cards[1].icon_state, None);
    let panel = page.cards[0].panel.as_ref().unwrap();
    assert_eq!(panel.draft, "dr");
    assert!(page.cards[1].panel.is_none() && page.cards[2].panel.is_none());
}

#[test]
fn a_remote_that_needs_a_login_says_so_on_every_card() {
    let dirs = vec![dir(1, 1, "a"), dir(2, 1, "b")];
    let mut status = HashMap::new();
    status.insert(1, RunState::Synced);
    let (none, no_drafts) = (HashMap::new(), HashMap::new());
    let known = Known {
        all_known_sync_dirs: &dirs,
        status: &status,
        exclusion_panel: None,
        exclusions: &none,
        draft_exclusion: &no_drafts,
        needs_reauth: true,
    };
    let pending = Some(PendingDelete::Remote(RemoteId(1), "work".to_owned()));
    let page = view(&remote(), &dirs, &known, ("", ""), None, &pending);
    assert!(page.reauth_banner);
    assert!(page.cards.iter().all(|c| c.icon_state == Some(RunState::AuthNeeded)));
    assert_eq!(page.dialog.unwrap().title, "Delete remote?");
    let empty = view(&remote(), &Vec::new(), &known, ("", ""), None, &None);
    assert!(empty.no_directories && empty.cards.is_empty());
}

#[test]
fn the_log_is_bounded() {
    assert_eq!(MAX_LOG_LINES, 200);
}

#[test]
fn badges_show_the_state() {
    assert_eq!(status_icon(None), None);
    assert_eq!(status_icon(Some(RunState::Waiting)), None);
    for (state, glyph, color) in [
        (RunState::Paused, icondata::AiPauseCircleOutlined, "#6b7280"),
        (RunState::AuthNeeded, icondata::AiLockOutlined, "#f97316"),
        (RunState::Synced, icondata::AiCheckCircleOutlined, "#22c55e"),
        (RunState::Warning, icondata::AiWarningOutlined, "#eab308"),
        (RunState::Error, icondata::BiErrorAltRegular, "#ef4444"),
    ] {
        let svg = status_icon(Some(state)).unwrap();
        assert_eq!(
            svg,
            format!(
                "<svg xmlns=\"http://www.w3.org/2000/svg\" viewBox=\"{}\" fill=\"{color}\" \
                 stroke=\"none\" stroke-width=\"1\" stroke-linecap=\"butt\" \
                 stroke-linejoin=\"miter\">{}</svg>",
                glyph.view_box.unwrap(),
                glyph.data,
            )
        );
    }
    let syncing = status_icon(Some(RunState::Syncing(SyncActivity::Listing))).unwrap();
    assert!(syncing.contains("stroke=\"#3b82f6\" stroke-width=\"2\""));
    assert!(syncing.contains("fill=\"none\""));
    assert!(syncing.contains(icondata::TbRefreshOutline.data));
}

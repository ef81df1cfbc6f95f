use std::collections::VecDeque;
use lurk_dashboard::compose::{compose_frame, render_frame, SnapshotView};
use lurk_dashboard::game::{Entity, Message};
use lurk_dashboard::layout::Rect;
use lurk_dashboard::panel::{
    gauge_label, message_feed_lines, player_stat_lines, total_points_text, Color, Panel,
    PanelContent,
};
use lurk_dashboard::session::RenderError;

fn bob() -> Entity {
    Entity {
        name: String::from("Bob"),
        is_alive: false,
        join_battle: false,
        is_monster: false,
        is_started: false,
        is_ready: false,
        attack: 100,
        defense: 50,
        regen: 75,
        health: 100,
        gold: 50,
        location: 0,
        description: String::from("Description here"),
    }
}

fn feed() -> VecDeque<Message> {
    VecDeque::from(vec![
        Message {
            sender: String::from("A"),
            receiver: String::new(),
            content: String::from("Hello, world"),
        },
        Message {
            sender: String::from("B"),
            receiver: String::new(),
            content: String::from("World, hello"),
        },
    ])
}

#[test]
fn player_stat_lines_exact() {
    let lines = player_stat_lines(&bob());
    assert_eq!(
        lines,
        vec![
            "Health: 100",
            "Gold: 50",
            "Attack: 100",
            "Defense: 50",
            "Regeneration: 75",
        ]
    );
}

#[test]
fn player_stat_lines_negative_health() {
    let mut p = bob();
    p.health = -12;
    let lines = player_stat_lines(&p);
    assert_eq!(lines[0], "Health: -12");
}

#[test]
fn message_feed_lines_keep_insertion_order() {
    let lines = message_feed_lines(&feed());
    assert_eq!(lines, vec!["A: Hello, world", "B: World, hello"]);
}

#[test]
fn gauge_label_exact() {
    assert_eq!(gauge_label("Attack: ", 100, 225), "Attack: 100/225");
}

#[test]
fn total_points_text_exact() {
    assert_eq!(total_points_text(225), "Total Points: 225");
}

fn panels_at_80_24() -> Vec<Panel> {
    compose_frame(Rect { x: 0, y: 0, width: 80, height: 24 }, &bob(), &feed())
}

#[test]
fn frame_has_twelve_panels_in_tree_order() {
    let panels = panels_at_80_24();
    assert_eq!(panels.len(), 12);
    // Vertical bands of 24 rows under 10/55/30/5: 2, 13, 7, and the last
    // band absorbs the 2 rows left over.
    assert_eq!(panels[0].rect, Rect { x: 0, y: 0, width: 80, height: 24 });
    assert_eq!(panels[1].rect, Rect { x: 0, y: 0, width: 80, height: 2 });
    assert_eq!(panels[2].rect, Rect { x: 0, y: 2, width: 80, height: 13 });
    assert_eq!(panels[11].rect, Rect { x: 0, y: 22, width: 80, height: 2 });
    // The bottom triad splits the 7-row band 30/40/30 into 24/32/24 columns.
    assert_eq!(panels[9].rect, Rect { x: 24, y: 15, width: 32, height: 7 });
    assert_eq!(panels[10].rect, Rect { x: 56, y: 15, width: 24, height: 7 });
    // Player column: stats over description, 3 rows then the 4 left over.
    assert_eq!(panels[3].rect, Rect { x: 0, y: 15, width: 7, height: 3 });
    assert_eq!(panels[8].rect, Rect { x: 0, y: 18, width: 24, height: 4 });
    // Gauge stack inside the remaining 17 columns of the stats row.
    assert_eq!(panels[4].rect, Rect { x: 7, y: 15, width: 17, height: 0 });
    assert_eq!(panels[7].rect, Rect { x: 7, y: 15, width: 17, height: 3 });
}

#[test]
fn stats_panel_titled_with_player_name() {
    let panels = panels_at_80_24();
    match &panels[3].content {
        PanelContent::List { block, lines, .. } => {
            assert_eq!(block.title.as_deref(), Some("Bob"));
            assert_eq!(lines.len(), 5);
            assert_eq!(lines[0], "Health: 100");
            assert_eq!(lines[4], "Regeneration: 75");
        }
        _ => panic!("stats panel is not a list"),
    }
}

#[test]
fn gauge_panels_carry_derived_percentages() {
    let panels = panels_at_80_24();
    match &panels[4].content {
        PanelContent::Gauge { label, percent, style } => {
            assert_eq!(label.as_str(), "Attack: 100/225");
            assert_eq!(*percent, 44);
            assert_eq!(style.fg, Color::Red);
        }
        _ => panic!("attack gauge is not a gauge"),
    }
    match &panels[6].content {
        PanelContent::Gauge { label, percent, style } => {
            assert_eq!(label.as_str(), "Regeneration: 75/225");
            assert_eq!(*percent, 33);
            assert_eq!(style.fg, Color::LightGreen);
        }
        _ => panic!("regen gauge is not a gauge"),
    }
    match &panels[7].content {
        PanelContent::Paragraph { text, .. } => assert_eq!(text.as_str(), "Total Points: 225"),
        _ => panic!("total points panel is not a paragraph"),
    }
}

#[test]
fn feed_panel_titled_and_ordered() {
    let panels = panels_at_80_24();
    match &panels[9].content {
        PanelContent::List { block, lines, .. } => {
            assert_eq!(block.title.as_deref(), Some("Message Feed"));
            assert_eq!(lines[0], "A: Hello, world");
            assert_eq!(lines[1], "B: World, hello");
        }
        _ => panic!("feed panel is not a list"),
    }
}

#[test]
fn poisoned_lock_is_fatal_and_commits_nothing() {
    let r = render_frame(Rect { x: 0, y: 0, width: 80, height: 24 }, None);
    match r {
        Err(e) => {
            assert_eq!(e, RenderError::LockPoisoned);
            assert_eq!(e.describe(), "Failed to lock game data.");
        }
        Ok(_) => panic!("a poisoned lock must not yield a frame"),
    }
}

#[test]
fn healthy_lock_yields_full_frame() {
    let snapshot = SnapshotView { player: bob(), messages: feed() };
    let r = render_frame(Rect { x: 0, y: 0, width: 80, height: 24 }, Some(snapshot));
    match r {
        Ok(panels) => assert_eq!(panels.len(), 12),
        Err(_) => panic!("a healthy snapshot must render"),
    }
}

//! Frame composition: one call per frame turns the terminal rectangle and
//! the snapshot data into the fixed dashboard panel tree, in draw order.
//!
//! The tree is four structural levels deep: a vertical band split
//! 10/55/30/5 (top bar, info bar, bottom triad, input bar); the triad split
//! 30/40/30 into player, message-feed and entity columns; the player column
//! split 50/50 into stats and description; the stats row split 30/70 into a
//! list and a stack of four equal gauge rows.

use vstd::prelude::*;
use vstd::string::StringExecFns;
use crate::game::{Entity, Message};
use crate::layout::{
    child_extent, child_rect, lemma_children_contiguous, partition, weights_int, Direction, Rect,
};
use crate::panel::{
    background_style, border_style, borders_all, borders_bottom, borders_left_right,
    borders_none, borders_top, gauge_label, gauge_label_spec, gauge_style, italic_text_style,
    message_feed_lines, message_line_spec, player_stat_lines, stat_lines_spec, text_style,
    title_style, total_points_spec, total_points_text, Block, BorderSet, Color, Decoration,
    Panel, PanelContent, Style,
};
use crate::session::RenderError;
use crate::stats::{derive_stats, pct_round};
use std::collections::VecDeque;

verus! {

/// The top-level vertical bands: top bar, info bar, bottom triad, input bar.
pub open spec fn band_weights() -> Seq<int> {
    seq![10int, 55int, 30int, 5int]
}

/// The bottom triad: player column, message feed, entity view.
pub open spec fn triad_weights() -> Seq<int> {
    seq![30int, 40int, 30int]
}

/// The player column: stats above, description below.
pub open spec fn halves_weights() -> Seq<int> {
    seq![50int, 50int]
}

/// The stats row: stat list beside the gauge stack.
pub open spec fn stats_split_weights() -> Seq<int> {
    seq![30int, 70int]
}

/// The gauge stack: three gauges and the total-points text.
pub open spec fn gauge_weights() -> Seq<int> {
    seq![25int, 25int, 25int, 25int]
}

/// Band `i` of the top-level vertical split of the terminal area.
pub open spec fn band_rect(area: Rect, i: int) -> Rect {
    child_rect(area, Direction::Vertical, band_weights(), i)
}

/// Column `i` of the bottom triad.
pub open spec fn triad_rect(area: Rect, i: int) -> Rect {
    child_rect(band_rect(area, 2), Direction::Horizontal, triad_weights(), i)
}

/// Row `i` of the player column.
pub open spec fn player_row_rect(area: Rect, i: int) -> Rect {
    child_rect(triad_rect(area, 0), Direction::Vertical, halves_weights(), i)
}

/// Column `i` of the stats row.
pub open spec fn stats_col_rect(area: Rect, i: int) -> Rect {
    child_rect(player_row_rect(area, 0), Direction::Horizontal, stats_split_weights(), i)
}

/// Row `i` of the gauge stack.
pub open spec fn gauge_row_rect(area: Rect, i: int) -> Rect {
    child_rect(stats_col_rect(area, 1), Direction::Vertical, gauge_weights(), i)
}

/// A plain box at `r` with the given borders and the dashboard frame styles.
pub open spec fn is_frame_panel(p: Panel, r: Rect, borders: BorderSet) -> bool {
    &&& p.rect == r
    &&& p.content matches PanelContent::Frame { block } && block.borders == borders
        && block.border_style == border_style() && block.style == background_style()
        && block.title is None
}

/// The player stat list at `r`: titled with the player's name, underlined,
/// showing exactly the five stat lines.
pub open spec fn is_stats_panel(p: Panel, r: Rect, player: Entity) -> bool {
    &&& p.rect == r
    &&& p.content matches PanelContent::List { block, lines, line_style } && block.borders
        == borders_none() && block.border_style == border_style() && block.style
        == background_style() && (block.title matches Some(t) && t@ == player.name@)
        && block.title_style == title_style() && line_style == text_style() && lines@.len()
        == stat_lines_spec(player).len() && (forall|i: int|
        0 <= i < lines@.len() ==> (#[trigger] lines@[i])@ == stat_lines_spec(player)[i])
}

/// The message feed at `r`: titled `Message Feed`, underlined, one line per
/// message in insertion order, side borders only.
pub open spec fn is_feed_panel(p: Panel, r: Rect, messages: Seq<Message>) -> bool {
    &&& p.rect == r
    &&& p.content matches PanelContent::List { block, lines, line_style } && block.borders
        == borders_left_right() && block.border_style == border_style() && block.style
        == background_style() && (block.title matches Some(t) && t@ == "Message Feed"@)
        && block.title_style == title_style() && line_style == text_style() && lines@.len()
        == messages.len() && (forall|i: int|
        0 <= i < lines@.len() ==> (#[trigger] lines@[i])@ == message_line_spec(messages[i]))
}

/// A gauge at `r` with the given label, fill percentage and bar color.
pub open spec fn is_gauge_panel(p: Panel, r: Rect, label: Seq<char>, percent: int, fg: Color) -> bool {
    &&& p.rect == r
    &&& p.content matches PanelContent::Gauge { label: l, percent: pc, style } && l@ == label
        && pc as int == percent && style == gauge_style(fg)
}

/// A text block at `r` with the given text, text style and borders.
pub open spec fn is_paragraph_panel(
    p: Panel,
    r: Rect,
    text: Seq<char>,
    st: Style,
    borders: BorderSet,
) -> bool {
    &&& p.rect == r
    &&& p.content matches PanelContent::Paragraph { block, text: t, style } && block.borders
        == borders && block.border_style == border_style() && block.style == background_style()
        && block.title is None && t@ == text && style == st
}

/// The full contract of one composed frame: twelve panels in draw order,
/// each at its place in the fixed tree, each with its exact content.
pub open spec fn frame_props(
    area: Rect,
    player: Entity,
    messages: Seq<Message>,
    panels: Seq<Panel>,
) -> bool {
    let total = player.attack + player.defense + player.regen;
    &&& panels.len() == 12
    &&& is_frame_panel(panels[0], area, borders_all())
    &&& is_frame_panel(panels[1], band_rect(area, 0), borders_all())
    &&& is_frame_panel(panels[2], band_rect(area, 1), borders_bottom())
    &&& is_stats_panel(panels[3], stats_col_rect(area, 0), player)
    &&& is_gauge_panel(
        panels[4],
        gauge_row_rect(area, 0),
        gauge_label_spec("Attack: "@, player.attack as nat, total as nat),
        pct_round(player.attack as int, total),
        Color::Red,
    )
    &&& is_gauge_panel(
        panels[5],
        gauge_row_rect(area, 1),
        gauge_label_spec("Defense: "@, player.defense as nat, total as nat),
        pct_round(player.defense as int, total),
        Color::Cyan,
    )
    &&& is_gauge_panel(
        panels[6],
        gauge_row_rect(area, 2),
        gauge_label_spec("Regeneration: "@, player.regen as nat, total as nat),
        pct_round(player.regen as int, total),
        Color::LightGreen,
    )
    &&& is_paragraph_panel(
        panels[7],
        gauge_row_rect(area, 3),
        total_points_spec(total as nat),
        text_style(),
        borders_none(),
    )
    &&& is_paragraph_panel(
        panels[8],
        player_row_rect(area, 1),
        player.description@,
        italic_text_style(),
        borders_top(),
    )
    &&& is_feed_panel(panels[9], triad_rect(area, 1), messages)
    &&& is_frame_panel(panels[10], triad_rect(area, 2), borders_all())
    &&& is_frame_panel(panels[11], band_rect(area, 3), borders_all())
}

/// Law: the four dashboard bands occupy the terminal height exactly — their
/// extents telescope to the parent extent, leaving no gap.
pub proof fn lemma_dashboard_bands_cover(h: int)
    ensures
        child_extent(h, band_weights(), 0) + child_extent(h, band_weights(), 1) + child_extent(
            h,
            band_weights(),
            2,
        ) + child_extent(h, band_weights(), 3) == h,
{
    lemma_children_contiguous(h, band_weights(), 0);
    lemma_children_contiguous(h, band_weights(), 1);
    lemma_children_contiguous(h, band_weights(), 2);
    lemma_children_contiguous(h, band_weights(), 3);
}

fn mk_border_style() -> (s: Style)
    ensures
        s == border_style(),
{
    Style { fg: Color::Green, bg: Color::Black, decoration: Decoration::Plain }
}

fn mk_background_style() -> (s: Style)
    ensures
        s == background_style(),
{
    Style { fg: Color::White, bg: Color::Black, decoration: Decoration::Plain }
}

fn mk_text_style() -> (s: Style)
    ensures
        s == text_style(),
{
    Style { fg: Color::White, bg: Color::Black, decoration: Decoration::Plain }
}

fn mk_title_style() -> (s: Style)
    ensures
        s == title_style(),
{
    Style { fg: Color::White, bg: Color::Black, decoration: Decoration::Underline }
}

fn mk_frame_block(borders: BorderSet) -> (b: Block)
    ensures
        b.borders == borders,
        b.border_style == border_style(),
        b.style == background_style(),
        b.title is None,
{
    Block {
        borders,
        border_style: mk_border_style(),
        style: mk_background_style(),
        title: None,
        title_style: mk_title_style(),
    }
}

/// Composes one frame. The panels come back in draw order; the caller
/// commits them to the device in one step.
#[verifier::rlimit(100)]
pub fn compose_frame(area: Rect, player: &Entity, messages: &VecDeque<Message>) -> (panels: Vec<
    Panel,
>)
    requires
        area.wf(),
    ensures
        frame_props(area, *player, messages@, panels@),
{
    let mut band_ws: Vec<u16> = Vec::new();
    band_ws.push(10);
    band_ws.push(55);
    band_ws.push(30);
    band_ws.push(5);
    proof {
        assert(weights_int(band_ws@) =~= band_weights());
    }
    let bands = partition(area, Direction::Vertical, &band_ws);

    let mut triad_ws: Vec<u16> = Vec::new();
    triad_ws.push(30);
    triad_ws.push(40);
    triad_ws.push(30);
    proof {
        assert(weights_int(triad_ws@) =~= triad_weights());
    }
    let triad = partition(bands[2], Direction::Horizontal, &triad_ws);

    let mut halves_ws: Vec<u16> = Vec::new();
    halves_ws.push(50);
    halves_ws.push(50);
    proof {
        assert(weights_int(halves_ws@) =~= halves_weights());
    }
    let player_rows = partition(triad[0], Direction::Vertical, &halves_ws);

    let mut stats_ws: Vec<u16> = Vec::new();
    stats_ws.push(30);
    stats_ws.push(70);
    proof {
        assert(weights_int(stats_ws@) =~= stats_split_weights());
    }
    let stats_cols = partition(player_rows[0], Direction::Horizontal, &stats_ws);

    let mut gauge_ws: Vec<u16> = Vec::new();
    gauge_ws.push(25);
    gauge_ws.push(25);
    gauge_ws.push(25);
    gauge_ws.push(25);
    proof {
        assert(weights_int(gauge_ws@) =~= gauge_weights());
    }
    let gauge_rows = partition(stats_cols[1], Direction::Vertical, &gauge_ws);

    let stats = derive_stats(player);
    let total = stats.total_points;

    let mut panels: Vec<Panel> = Vec::new();

    // Base border over the whole terminal.
    panels.push(
        Panel {
            rect: area,
            content: PanelContent::Frame {
                block: mk_frame_block(
                    BorderSet { top: true, bottom: true, left: true, right: true },
                ),
            },
        },
    );
    // Top bar.
    panels.push(
        Panel {
            rect: bands[0],
            content: PanelContent::Frame {
                block: mk_frame_block(
                    BorderSet { top: true, bottom: true, left: true, right: true },
                ),
            },
        },
    );
    // Info bar, closed off by a bottom border.
    panels.push(
        Panel {
            rect: bands[1],
            content: PanelContent::Frame {
                block: mk_frame_block(
                    BorderSet { top: false, bottom: true, left: false, right: false },
                ),
            },
        },
    );
    // Player stat list, titled with the player's name.
    let lines = player_stat_lines(player);
    panels.push(
        Panel {
            rect: stats_cols[0],
            content: PanelContent::List {
                block: Block {
                    borders: BorderSet { top: false, bottom: false, left: false, right: false },
                    border_style: mk_border_style(),
                    style: mk_background_style(),
                    title: Some(player.name.clone()),
                    title_style: mk_title_style(),
                },
                lines,
                line_style: mk_text_style(),
            },
        },
    );
    // The three stat gauges and the total-points text.
    panels.push(
        Panel {
            rect: gauge_rows[0],
            content: PanelContent::Gauge {
                label: gauge_label("Attack: ", player.attack, total),
                percent: stats.attack_pct,
                style: Style { fg: Color::Red, bg: Color::Black, decoration: Decoration::Plain },
            },
        },
    );
    panels.push(
        Panel {
            rect: gauge_rows[1],
            content: PanelContent::Gauge {
                label: gauge_label("Defense: ", player.defense, total),
                percent: stats.defense_pct,
                style: Style { fg: Color::Cyan, bg: Color::Black, decoration: Decoration::Plain },
            },
        },
    );
    panels.push(
        Panel {
            rect: gauge_rows[2],
            content: PanelContent::Gauge {
                label: gauge_label("Regeneration: ", player.regen, total),
                percent: stats.regen_pct,
                style: Style {
                    fg: Color::LightGreen,
                    bg: Color::Black,
                    decoration: Decoration::Plain,
                },
            },
        },
    );
    panels.push(
        Panel {
            rect: gauge_rows[3],
            content: PanelContent::Paragraph {
                block: Block {
                    borders: BorderSet { top: false, bottom: false, left: false, right: false },
                    border_style: mk_border_style(),
                    style: mk_background_style(),
                    title: None,
                    title_style: mk_title_style(),
                },
                text: total_points_text(total),
                style: mk_text_style(),
            },
        },
    );
    // Player description, set off by a top border.
    panels.push(
        Panel {
            rect: player_rows[1],
            content: PanelContent::Paragraph {
                block: Block {
                    borders: BorderSet { top: true, bottom: false, left: false, right: false },
                    border_style: mk_border_style(),
                    style: mk_background_style(),
                    title: None,
                    title_style: mk_title_style(),
                },
                text: player.description.clone(),
                style: Style {
                    fg: Color::White,
                    bg: Color::Black,
                    decoration: Decoration::Italic,
                },
            },
        },
    );
    // Message feed.
    let feed = message_feed_lines(messages);
    panels.push(
        Panel {
            rect: triad[1],
            content: PanelContent::List {
                block: Block {
                    borders: BorderSet { top: false, bottom: false, left: true, right: true },
                    border_style: mk_border_style(),
                    style: mk_background_style(),
                    title: Some(String::from_str("Message Feed")),
                    title_style: mk_title_style(),
                },
                lines: feed,
                line_style: mk_text_style(),
            },
        },
    );
    // Entity view: a bordered box, content reserved for future work.
    panels.push(
        Panel {
            rect: triad[2],
            content: PanelContent::Frame {
                block: mk_frame_block(
                    BorderSet { top: true, bottom: true, left: true, right: true },
                ),
            },
        },
    );
    // Input bar.
    panels.push(
        Panel {
            rect: bands[3],
            content: PanelContent::Frame {
                block: mk_frame_block(
                    BorderSet { top: true, bottom: true, left: true, right: true },
                ),
            },
        },
    );

    panels
}

/// The fields the renderer clones out of the shared snapshot while it holds
/// the lock. Cloning and releasing keeps the lock-hold duration short:
/// layout and draw work never runs under the lock.
pub struct SnapshotView {
    pub player: Entity,
    pub messages: VecDeque<Message>,
}

/// One frame from the outcome of the locked read of the shared state.
///
/// The driver passes `Some` with the cloned-out fields when the lock was
/// healthy, and `None` when it was observed poisoned. Law: a poisoned lock
/// is fatal — the result is then the lock-poisoned error and no frame
/// exists to commit; a healthy read always yields a full composed frame.
pub fn render_frame(area: Rect, snapshot: Option<SnapshotView>) -> (r: Result<
    Vec<Panel>,
    RenderError,
>)
    requires
        area.wf(),
    ensures
        r is Err <==> snapshot is None,
        r is Err ==> r->Err_0 == RenderError::LockPoisoned,
        r is Ok ==> frame_props(
            area,
            snapshot.unwrap().player,
            snapshot.unwrap().messages@,
            r->Ok_0@,
        ),
{
    match snapshot {
        None => Err(RenderError::LockPoisoned),
        Some(view) => Ok(compose_frame(area, &view.player, &view.messages)),
    }
}

} // verus!

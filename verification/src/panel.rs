//! Leaf panels: the typed description of what one panel draws, and verified
//! builders for the text content each panel shows.
//!
//! Draw calls never touch the device; a composed frame is a list of panels
//! that the driver commits in one step.

use vstd::prelude::*;
use vstd::string::StringExecFns;
use crate::game::{Entity, Message};
use crate::layout::Rect;
use crate::text::{dec_rep, int_rep, i32_string, u32_string};
use std::collections::VecDeque;

verus! {

/// A terminal color. Only the colors the dashboard uses are modeled; the
/// device backend maps them to its own palette.
#[derive(Clone, Copy, PartialEq, Eq, Structural, Debug)]
pub enum Color {
    Black,
    White,
    Green,
    Red,
    Cyan,
    LightGreen,
}

/// A text decoration.
#[derive(Clone, Copy, PartialEq, Eq, Structural, Debug)]
pub enum Decoration {
    Plain,
    Underline,
    Italic,
}

/// Foreground and background colors plus a decoration.
#[derive(Clone, Copy, PartialEq, Eq, Structural, Debug)]
pub struct Style {
    pub fg: Color,
    pub bg: Color,
    pub decoration: Decoration,
}

/// Which edges of a panel get a border line.
#[derive(Clone, Copy, PartialEq, Eq, Structural, Debug)]
pub struct BorderSet {
    pub top: bool,
    pub bottom: bool,
    pub left: bool,
    pub right: bool,
}

/// The frame around a panel: borders, styles, and an optional title.
pub struct Block {
    pub borders: BorderSet,
    pub border_style: Style,
    pub style: Style,
    pub title: Option<String>,
    pub title_style: Style,
}

/// What one leaf panel draws inside its rectangle.
pub enum PanelContent {
    /// A bordered or plain box with no text of its own.
    Frame { block: Block },
    /// A titled list of styled text lines, top to bottom.
    List { block: Block, lines: Vec<String>, line_style: Style },
    /// A labeled percentage gauge.
    Gauge { label: String, percent: u16, style: Style },
    /// A styled text block.
    Paragraph { block: Block, text: String, style: Style },
}

/// One leaf panel of a composed frame: a destination rectangle and what to
/// draw there. Drawing is clipped to the rectangle by the backend.
pub struct Panel {
    pub rect: Rect,
    pub content: PanelContent,
}

/// The dashboard's border color.
pub open spec fn border_color() -> Color {
    Color::Green
}

/// The dashboard's background color.
pub open spec fn background_color() -> Color {
    Color::Black
}

/// The dashboard's standard text color.
pub open spec fn standard_text_color() -> Color {
    Color::White
}

/// Border lines: green on the black background.
pub open spec fn border_style() -> Style {
    Style { fg: border_color(), bg: background_color(), decoration: Decoration::Plain }
}

/// Panel fill: the black background.
pub open spec fn background_style() -> Style {
    Style { fg: standard_text_color(), bg: background_color(), decoration: Decoration::Plain }
}

/// Ordinary text: white on black.
pub open spec fn text_style() -> Style {
    Style { fg: standard_text_color(), bg: background_color(), decoration: Decoration::Plain }
}

/// Panel titles: white on black, underlined.
pub open spec fn title_style() -> Style {
    Style { fg: standard_text_color(), bg: background_color(), decoration: Decoration::Underline }
}

/// The player description: white on black, italic.
pub open spec fn italic_text_style() -> Style {
    Style { fg: standard_text_color(), bg: background_color(), decoration: Decoration::Italic }
}

/// A gauge bar in the given color on the black background.
pub open spec fn gauge_style(fg: Color) -> Style {
    Style { fg: fg, bg: background_color(), decoration: Decoration::Plain }
}

pub open spec fn borders_all() -> BorderSet {
    BorderSet { top: true, bottom: true, left: true, right: true }
}

pub open spec fn borders_none() -> BorderSet {
    BorderSet { top: false, bottom: false, left: false, right: false }
}

pub open spec fn borders_bottom() -> BorderSet {
    BorderSet { top: false, bottom: true, left: false, right: false }
}

pub open spec fn borders_top() -> BorderSet {
    BorderSet { top: true, bottom: false, left: false, right: false }
}

pub open spec fn borders_left_right() -> BorderSet {
    BorderSet { top: false, bottom: false, left: true, right: true }
}

/// The five lines of the player stat list, in display order.
pub open spec fn stat_lines_spec(e: Entity) -> Seq<Seq<char>> {
    seq![
        "Health: "@ + int_rep(e.health as int),
        "Gold: "@ + dec_rep(e.gold as nat),
        "Attack: "@ + dec_rep(e.attack as nat),
        "Defense: "@ + dec_rep(e.defense as nat),
        "Regeneration: "@ + dec_rep(e.regen as nat),
    ]
}

/// Builds the five stat lines shown beside the player's name.
pub fn player_stat_lines(player: &Entity) -> (lines: Vec<String>)
    ensures
        lines@.len() == stat_lines_spec(*player).len(),
        forall|i: int|
            0 <= i < lines@.len() ==> lines@[i]@ == stat_lines_spec(*player)[i],
{
    let mut lines: Vec<String> = Vec::new();
    lines.push(String::from_str("Health: ").concat(i32_string(player.health as i32).as_str()));
    lines.push(String::from_str("Gold: ").concat(u32_string(player.gold as u32).as_str()));
    lines.push(String::from_str("Attack: ").concat(u32_string(player.attack as u32).as_str()));
    lines.push(String::from_str("Defense: ").concat(u32_string(player.defense as u32).as_str()));
    lines.push(
        String::from_str("Regeneration: ").concat(u32_string(player.regen as u32).as_str()),
    );
    lines
}

/// One rendered feed line: `sender: content`.
pub open spec fn message_line_spec(m: Message) -> Seq<char> {
    m.sender@ + ": "@ + m.content@
}

/// Renders one message as its feed line.
pub fn message_line(m: &Message) -> (s: String)
    ensures
        s@ == message_line_spec(*m),
{
    let s = m.sender.clone().concat(": ").concat(m.content.as_str());
    proof {
        assert(s@ =~= message_line_spec(*m));
    }
    s
}

/// Law: the feed preserves insertion order — line `i` renders message `i`,
/// oldest first, one line per message.
pub fn message_feed_lines(messages: &VecDeque<Message>) -> (lines: Vec<String>)
    ensures
        lines@.len() == messages@.len(),
        forall|i: int|
            0 <= i < lines@.len() ==> lines@[i]@ == message_line_spec(messages@[i]),
{
    let mut lines: Vec<String> = Vec::new();
    let n = messages.len();
    let mut i: usize = 0;
    while i < n
        invariant
            n == messages@.len(),
            i <= n,
            lines@.len() == i,
            forall|k: int| 0 <= k < i ==> lines@[k]@ == message_line_spec(messages@[k]),
        decreases n - i,
    {
        lines.push(message_line(&messages[i]));
        i = i + 1;
    }
    lines
}

/// A gauge label: `prefix` then `stat/total`.
pub open spec fn gauge_label_spec(prefix: Seq<char>, stat: nat, total: nat) -> Seq<char> {
    prefix + dec_rep(stat) + seq!['/'] + dec_rep(total)
}

/// Builds a gauge label such as `Attack: 100/225`.
pub fn gauge_label(prefix: &str, stat: u16, total: u32) -> (s: String)
    ensures
        s@ == gauge_label_spec(prefix@, stat as nat, total as nat),
{
    let s = String::from_str(prefix).concat(u32_string(stat as u32).as_str()).concat(
        "/",
    ).concat(u32_string(total).as_str());
    proof {
        reveal_strlit("/");
        assert("/"@ =~= seq!['/']);
        assert(s@ =~= gauge_label_spec(prefix@, stat as nat, total as nat));
    }
    s
}

/// The total-points paragraph text.
pub open spec fn total_points_spec(total: nat) -> Seq<char> {
    "Total Points: "@ + dec_rep(total)
}

/// Builds the total-points paragraph text.
pub fn total_points_text(total: u32) -> (s: String)
    ensures
        s@ == total_points_spec(total as nat),
{
    String::from_str("Total Points: ").concat(u32_string(total).as_str())
}

} // verus!

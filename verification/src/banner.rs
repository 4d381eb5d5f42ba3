//! Animated banner data: frame art, the bouncing-ball row, and the
//! round labels the banner shows. Styling and drawing live in the
//! application shell.

use vstd::prelude::*;

use crate::domain::RoundKind;

verus! {

/// Number of animation frames the banner cycles through.
pub const FRAME_COUNT: usize = 4;

/// Roles a banner color can play; the shell resolves them to styles.
#[derive(Debug, Clone, Copy, PartialEq, Eq, Structural)]
pub enum BannerColor {
    Primary,
    Secondary,
    Accent,
    Shadow,
    Dim,
    Winner,
}

/// Color themes the banner can render under.
#[derive(Debug, Clone, Copy, Default, PartialEq, Eq, Structural)]
pub enum BannerTheme {
    #[default]
    Dark,
}

/// Row of the bouncing ball at a tick: a triangle wave between the top
/// row and the bottom row of the banner.
pub open spec fn ball_row_spec(tick: nat, height: nat) -> nat {
    if height <= 1 {
        0
    } else {
        let h = (height - 1) as nat;
        let t = tick % (2 * h);
        if h >= t {
            (h - t) as nat
        } else {
            (t - h) as nat
        }
    }
}

/// Row of the bouncing ball at a tick.
pub fn ball_row(tick: u64, height: u16) -> (r: u16)
    ensures
        r == ball_row_spec(tick as nat, height as nat),
{
    if height == 0 {
        return 0;
    }
    let h: u64 = (height - 1) as u64;
    if h == 0 {
        return 0;
    }
    let period: u64 = 2 * h;
    let t: u64 = tick % period;
    let d: u64 = if h >= t {
        h - t
    } else {
        t - h
    };
    d as u16
}

/// The five rows of one basketball animation frame.
pub fn basketball_frame(frame: usize) -> (r: [&'static str; 5])
    ensures
        r@.len() == 5,
{
    let f = frame % FRAME_COUNT;
    if f == 0 {
        ["  .---.  ", " /  |  \\ ", "| --+-- |", " \\  |  / ", "  '---'  "]
    } else if f == 1 {
        ["  .---.  ", " / / \\ \\ ", "| /   \\ |", " \\ \\ / / ", "  '---'  "]
    } else if f == 2 {
        ["  .---.  ", " /  -  \\ ", "|-- + --|", " \\  -  / ", "  '---'  "]
    } else {
        ["  .---.  ", " / \\ / \\ ", "| \\   / |", " / / \\ \\ ", "  '---'  "]
    }
}

/// The four rows of the large banner title.
pub fn title_rows() -> (r: [&'static str; 4])
    ensures
        r@.len() == 4,
{
    [
        " __  __   _   ___  ___ _  _    __  __   _   ___  _  _ ___ ___ ___ ",
        "|  \\/  | /_\\ | _ \\/ __| || |  |  \\/  | /_\\ |   \\| \\| | __/ __/ __|",
        "| |\\/| |/ _ \\|   / (__| __ |  | |\\/| |/ _ \\| |) | .` | _|\\__ \\__ \\",
        "|_|  |_/_/ \\_\\_|_\\\\___|_||_|  |_|  |_/_/ \\_\\___/|_|\\_|___|___/___/",
    ]
}

/// The shouting label of one round.
pub open spec fn round_label_spec(round: RoundKind) -> Seq<char> {
    match round {
        RoundKind::FirstFour => "FIRST FOUR"@,
        RoundKind::First => "ROUND OF 64"@,
        RoundKind::Second => "ROUND OF 32"@,
        RoundKind::Sweet16 => "SWEET 16"@,
        RoundKind::Elite8 => "ELITE 8"@,
        RoundKind::FinalFour => "FINAL FOUR"@,
        RoundKind::Championship => "CHAMPIONSHIP"@,
    }
}

/// The shouting label of one round, for the banner.
pub fn round_label(round: RoundKind) -> (r: &'static str)
    ensures
        r@ == round_label_spec(round),
{
    match round {
        RoundKind::FirstFour => "FIRST FOUR",
        RoundKind::First => "ROUND OF 64",
        RoundKind::Second => "ROUND OF 32",
        RoundKind::Sweet16 => "SWEET 16",
        RoundKind::Elite8 => "ELITE 8",
        RoundKind::FinalFour => "FINAL FOUR",
        RoundKind::Championship => "CHAMPIONSHIP",
    }
}

} // verus!

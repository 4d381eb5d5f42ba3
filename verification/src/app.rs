//! The application facade: settings plus root state, and the handlers
//! the event loop calls for key bindings and network responses. File
//! and network work stays outside; these handlers only move state.

use vstd::prelude::*;

use crate::chat::{ChatMessage, ChatState, ChatWireMessage};
use crate::domain::{Game, GameDetail, Tournament};
use crate::nav::detect_active_round_spec;
use crate::session::{AppSettings, AppState, MenuItem};
use crate::text::str_eq;

verus! {

/// The viewer: settings and the whole session state.
#[derive(Debug)]
pub struct App {
    pub settings: AppSettings,
    pub state: AppState,
}

impl App {
    /// Fresh viewer around a prepared chat room.
    pub fn new(chat: ChatState) -> (r: Self)
        ensures
            !r.settings.full_screen,
            r.state.show_intro,
            r.state.bracket.tournament is None,
    {
        App { settings: AppSettings::load(), state: AppState::new(chat) }
    }

    /// A full bracket arrived: clear the error, load it, reset the feed.
    pub fn on_bracket_loaded(&mut self, tournament: Tournament)
        ensures
            final(self).state.last_error is None,
            final(self).state.bracket.tournament == Some(tournament),
            final(self).state.bracket.current_round == detect_active_round_spec(tournament),
            final(self).state.bracket.view_round == final(self).state.bracket.current_round,
            final(self).state.bracket.selected_region == 0,
            final(self).state.bracket.selected_game == 0,
            final(self).state.bracket.scroll_offset == 0,
            final(self).state.live_feed.game_id is None,
            final(self).state.live_feed.plays.len() == 0,
            final(self).settings == old(self).settings,
            final(self).state.active_tab == old(self).state.active_tab,
    {
        self.state.last_error = None;
        self.state.bracket.load(tournament);
        self.state.live_feed = crate::session::LiveFeedState { game_id: None, plays: Vec::new() };
    }

    /// A score refresh arrived: patch the tree in place and re-detect
    /// the active round, leaving the cursor untouched.
    pub fn on_scores_updated(&mut self, games: Vec<Game>)
        ensures
            old(self).state.bracket.tournament is None ==> final(self).state.bracket == old(
                self,
            ).state.bracket,
            old(self).state.bracket.tournament is Some ==> {
                let pre = old(self).state.bracket;
                let post = final(self).state.bracket;
                &&& post.tournament is Some
                &&& (pre.tournament->0.game_ids_unique() ==> crate::domain::merge_result(
                    pre.tournament->0,
                    games@,
                    post.tournament->0,
                ))
                &&& post.current_round == crate::nav::detect_active_round_spec(
                    post.tournament->0,
                )
                &&& post.view_round == pre.view_round
                &&& post.selected_region == pre.selected_region
                &&& post.selected_game == pre.selected_game
                &&& post.scroll_offset == pre.scroll_offset
            },
            final(self).settings == old(self).settings,
            final(self).state.active_tab == old(self).state.active_tab,
    {
        self.state.bracket.merge_updates(games);
    }

    /// A detail record arrived: refresh the feed, store the record, and
    /// rewind the detail scroll when the game changed.
    pub fn on_game_detail_loaded(&mut self, detail: GameDetail)
        ensures
            final(self).state.last_error is None,
            final(self).state.game_detail.detail == Some(detail),
            final(self).state.live_feed.game_id matches Some(id) && id@ == detail.game_id@,
            final(self).settings == old(self).settings,
    {
        self.state.last_error = None;
        let game_changed = match &self.state.game_detail.detail {
            Option::Some(prev) => !str_eq(prev.game_id.as_str(), detail.game_id.as_str()),
            Option::None => true,
        };
        self.state.live_feed.update_from_detail(&detail);
        self.state.game_detail.detail = Some(detail);
        if game_changed {
            self.state.game_detail.scroll_offset = 0;
        }
    }

    /// Switch tabs; opening the pick wizard re-seeds its questions.
    pub fn update_tab(&mut self, next: MenuItem)
        ensures
            old(self).state.active_tab == next ==> *final(self) == *old(self),
            old(self).state.active_tab != next ==> {
                &&& final(self).state.active_tab == next
                &&& final(self).state.previous_tab == old(self).state.active_tab
                &&& final(self).settings == old(self).settings
            },
    {
        if self.state.active_tab == next {
            return ;
        }
        self.state.previous_tab = self.state.active_tab;
        self.state.active_tab = next;
        if self.state.active_tab == MenuItem::Chat {
            self.state.chat.scroll_offset = 0;
        }
        if self.state.active_tab == MenuItem::PickWizard {
            self.start_pick_wizard();
        }
    }

    /// Leave the help tab back to where it was opened from.
    pub fn exit_help(&mut self)
        ensures
            old(self).state.active_tab == MenuItem::Help ==> final(self).state.active_tab == old(
                self,
            ).state.previous_tab,
            old(self).state.active_tab != MenuItem::Help ==> *final(self) == *old(self),
    {
        if self.state.active_tab == MenuItem::Help {
            self.state.active_tab = self.state.previous_tab;
        }
    }

    /// Toggle the log pane.
    pub fn toggle_show_logs(&mut self)
        ensures
            final(self).state.show_logs == !old(self).state.show_logs,
    {
        self.state.show_logs = !self.state.show_logs;
    }

    /// Toggle full-screen rendering.
    pub fn toggle_full_screen(&mut self)
        ensures
            final(self).settings.full_screen == !old(self).settings.full_screen,
    {
        self.settings.full_screen = !self.settings.full_screen;
    }

    /// Dismiss the intro screen.
    pub fn dismiss_intro(&mut self)
        ensures
            !final(self).state.show_intro,
    {
        self.state.show_intro = false;
    }

    /// Move the bracket view one round later.
    pub fn bracket_next_round(&mut self)
        ensures
            final(self).state.bracket == old(self).state.bracket.round_advanced(),
    {
        self.state.bracket.navigate_round_next();
    }

    /// Move the bracket view one round earlier.
    pub fn bracket_prev_round(&mut self)
        ensures
            final(self).state.bracket == old(self).state.bracket.round_retreated(),
    {
        self.state.bracket.navigate_round_prev();
    }

    /// Select the next game down, clamped to the last of the view.
    pub fn bracket_game_down(&mut self)
        ensures
            final(self).state.bracket.selected_game == if old(self).state.bracket.selected_game
                + 1 < old(self).state.bracket.games_in_view_spec() {
                old(self).state.bracket.selected_game + 1
            } else {
                old(self).state.bracket.selected_game as int
            },
            final(self).state.bracket.tournament == old(self).state.bracket.tournament,
            final(self).state.bracket.view_round == old(self).state.bracket.view_round,
            final(self).state.bracket.selected_region == old(self).state.bracket.selected_region,
    {
        self.state.bracket.navigate_game_down();
    }

    /// Select the previous game up, clamped at the first.
    pub fn bracket_game_up(&mut self)
        ensures
            final(self).state.bracket.selected_game == if old(self).state.bracket.selected_game
                > 0 {
                old(self).state.bracket.selected_game - 1
            } else {
                0int
            },
            final(self).state.bracket.tournament == old(self).state.bracket.tournament,
            final(self).state.bracket.view_round == old(self).state.bracket.view_round,
            final(self).state.bracket.selected_region == old(self).state.bracket.selected_region,
    {
        self.state.bracket.navigate_game_up();
    }

    /// Cycle the selected region; a no-op while viewing a national round.
    pub fn bracket_cycle_region(&mut self)
        requires
            old(self).state.bracket.selected_region < usize::MAX,
        ensures
            old(self).state.bracket.view_round.is_final_four_spec() ==> final(self).state.bracket
                == old(self).state.bracket,
            !old(self).state.bracket.view_round.is_final_four_spec() ==> {
                let pre = old(self).state.bracket;
                let post = final(self).state.bracket;
                &&& post.selected_region == (pre.selected_region + 1) % pre.region_cycle_count()
                &&& post.selected_game == 0
                &&& post.scroll_offset == 0
                &&& post.tournament == pre.tournament
                &&& post.current_round == pre.current_round
                &&& post.view_round == pre.view_round
            },
            final(self).settings == old(self).settings,
    {
        self.state.bracket.cycle_region();
    }

    /// Open the detail tab for the selected game, handing back its id.
    pub fn bracket_select_game(&mut self) -> (r: Option<String>)
        ensures
            match r {
                Option::Some(id) => old(self).state.bracket.selected_game_id_spec() == Some(id@)
                    && final(self).state.active_tab == MenuItem::GameDetail,
                Option::None => old(self).state.bracket.selected_game_id_spec() is None
                    && *final(self) == *old(self),
            },
    {
        let ids = match self.state.bracket.selected_game_id() {
            Option::Some(ids) => ids,
            Option::None => {
                return None;
            },
        };
        self.update_tab(MenuItem::GameDetail);
        Some(ids)
    }

    /// The id of the game under the cursor, if any.
    pub fn selected_game_id(&self) -> (r: Option<String>)
        ensures
            match r {
                Option::Some(id) => self.state.bracket.selected_game_id_spec() == Some(id@),
                Option::None => self.state.bracket.selected_game_id_spec() is None,
            },
    {
        self.state.bracket.selected_game_id()
    }

    /// Advance the banner animation.
    pub fn advance_animation(&mut self, frame_count: usize)
        requires
            frame_count > 0,
        ensures
            final(self).state.animation.frame == (old(self).state.animation.frame + 1) % (
            frame_count as int),
    {
        self.state.animation.advance(frame_count);
    }

    /// Record a failure for the error indicator.
    pub fn on_error(&mut self, message: String)
        ensures
            final(self).state.last_error == Some(message),
    {
        self.state.last_error = Some(message);
    }

    /// The chat socket connected.
    pub fn on_chat_connected(&mut self)
        ensures
            final(self).state.chat.connected,
    {
        self.state.chat.connected = true;
        let notice = String::from_str("connected to ").concat(
            self.state.chat.endpoint.clone().as_str(),
        );
        self.state.chat.push_system(notice);
    }

    /// The chat socket dropped; note it once.
    pub fn on_chat_disconnected(&mut self)
        ensures
            !final(self).state.chat.connected,
    {
        if self.state.chat.connected {
            self.state.chat.push_system(String::from_str("chat disconnected, retrying..."));
        }
        self.state.chat.connected = false;
    }

    /// The chat socket reported an error: post it as a system notice,
    /// unless it would repeat the latest one.
    pub fn on_chat_error(&mut self, message: String)
        ensures
            ({
                let body = "chat error: "@ + message@;
                let pre = old(self).state.chat;
                let post = final(self).state.chat;
                if pre.messages.len() > 0 && pre.messages@.last().is_system
                    && pre.messages@.last().body@ == body {
                    post == pre
                } else {
                    &&& post.messages@.len() == pre.messages@.len() + 1
                    &&& post.messages@.drop_last() == pre.messages@
                    &&& post.messages@.last().is_system
                    &&& post.messages@.last().body@ == body
                }
            }),
            final(self).settings == old(self).settings,
            final(self).state.active_tab == old(self).state.active_tab,
    {
        let notice = String::from_str("chat error: ").concat(message.as_str());
        self.state.chat.push_system(notice);
    }

    /// A chat message arrived from the relay: absorb it into the log.
    pub fn on_chat_message(&mut self, msg: ChatWireMessage)
        ensures
            crate::chat::ingest_shape(
                old(self).state.chat,
                final(self).state.chat,
                msg.id@,
                msg.author@,
                msg.body@,
                false,
            ),
            final(self).settings == old(self).settings,
            final(self).state.active_tab == old(self).state.active_tab,
    {
        self.state.chat.ingest_message(
            ChatMessage {
                id: msg.id,
                author: msg.author,
                body: msg.body,
                timestamp: msg.timestamp,
                is_system: false,
            },
        );
    }

    /// Seed the pick wizard from the loaded bracket, or explain why not.
    pub fn start_pick_wizard(&mut self)
        ensures
            old(self).state.bracket.tournament matches Some(t) ==> {
                &&& final(self).state.pick_wizard.games_from(t)
                &&& final(self).state.pick_wizard.current_index == 0
                &&& final(self).state.pick_wizard.selections.len() == 0
            },
            old(self).state.bracket.tournament is None ==> final(self).state.last_error is Some,
            final(self).state.active_tab == old(self).state.active_tab,
            final(self).state.previous_tab == old(self).state.previous_tab,
            final(self).state.bracket == old(self).state.bracket,
            final(self).settings == old(self).settings,
    {
        match &self.state.bracket.tournament {
            Option::Some(t) => {
                self.state.pick_wizard.load_from_tournament_2025_template(t);
            },
            Option::None => {
                self.state.chat.push_system(
                    String::from_str("Load bracket first before using Pick Wizard."),
                );
                self.state.last_error = Some(String::from_str("Pick Wizard needs bracket data"));
            },
        }
    }

    /// Pick the top side of the current wizard question.
    pub fn pick_wizard_select_top(&mut self)
        ensures
            old(self).state.pick_wizard.current_index >= old(self).state.pick_wizard.games.len()
                ==> final(self).state.pick_wizard == old(self).state.pick_wizard,
            final(self).state.pick_wizard.games == old(self).state.pick_wizard.games,
    {
        self.state.pick_wizard.select_top();
    }

    /// Pick the bottom side of the current wizard question.
    pub fn pick_wizard_select_bottom(&mut self)
        ensures
            old(self).state.pick_wizard.current_index >= old(self).state.pick_wizard.games.len()
                ==> final(self).state.pick_wizard == old(self).state.pick_wizard,
            final(self).state.pick_wizard.games == old(self).state.pick_wizard.games,
    {
        self.state.pick_wizard.select_bottom();
    }

    /// Step the wizard back one question.
    pub fn pick_wizard_back(&mut self)
        ensures
            !final(self).state.pick_wizard.completed,
    {
        self.state.pick_wizard.back();
    }
}

} // verus!

//! The scenes that stand in front of the routes: the quick panel, the first
//! run, the receipt of a crash.

use crate::actions::first_run_rows;
use crate::ports::PowerAction;
use crate::preferences::{preference_label, preference_words};
use crate::scene::{
    maybe, no_nodes, node, node_models, plain, put, put_all, put_if, BorderWeight, NodeModel, Role,
    SceneNode, Token, TypeRole,
};
use crate::state::{PowerDialog, ShellCore, ShellModel};
use crate::surface::SurfaceFacts;
use crate::text::{cat, cat3, decimal, decimal_text, Text};
use vstd::prelude::*;
use vstd::string::*;

verus! {

broadcast use {
    crate::textlist::group_texts,
    crate::state::group_state_models,
    crate::scene::group_node_models,
};

/// The surface of a button in a list.
pub open spec fn button_token(focused: bool) -> Token {
    if focused {
        Token::FocusedRing
    } else {
        Token::RestSurface
    }
}

/// A button in a list.
pub open spec fn button(id: Text, label: Text, focused: bool) -> NodeModel {
    plain(id, Role::Button, label, button_token(focused)).focused(focused).activated_by(true)
}

fn make_button(id: &str, label: &str, focused: bool) -> (made: SceneNode)
    ensures
        made@ == button(id@, label@, focused),
{
    node(
        id,
        Role::Button,
        label,
        if focused {
            Token::FocusedRing
        } else {
            Token::RestSurface
        },
    ).focused(focused).activated_by(true)
}

/// A row of the quick panel.
pub open spec fn panel_row(id: Text, label: Text, focused: bool, enabled: bool) -> NodeModel {
    plain(id, Role::Button, label, Token::RestSurface).framed(
        if focused {
            Token::FocusedRing
        } else {
            Token::BorderHairline
        },
        if focused {
            BorderWeight::Thick
        } else {
            BorderWeight::Thin
        },
    ).focused(focused).disabled(!enabled).activated_by(enabled)
}

/// The text on a row of the quick panel.
pub open spec fn panel_label(id: Text, label: Text, focused: bool, enabled: bool) -> NodeModel {
    plain(id + "-label"@, Role::Text, label, Token::Transparent).lettered(TypeRole::Label).inked(
        if !enabled {
            Token::UnavailableText
        } else if focused {
            Token::FocusedText
        } else {
            Token::RestText
        },
    ).disabled(!enabled).at(1)
}

/// The nodes of a row of the quick panel without a value.
pub open spec fn panel_row_nodes(id: Text, label: Text, focused: bool, enabled: bool) -> Seq<
    NodeModel,
> {
    seq![panel_row(id, label, focused, enabled), panel_label(id, label, focused, enabled)]
}

fn make_panel_row(id: &str, label: &str, focused: bool, enabled: bool) -> (made: SceneNode)
    ensures
        made@ == panel_row(id@, label@, focused, enabled),
{
    node(id, Role::Button, label, Token::RestSurface).framed(
        if focused {
            Token::FocusedRing
        } else {
            Token::BorderHairline
        },
        if focused {
            BorderWeight::Thick
        } else {
            BorderWeight::Thin
        },
    ).focused(focused).disabled(!enabled).activated_by(enabled)
}

fn make_panel_label(id: &str, label: &str, focused: bool, enabled: bool) -> (made: SceneNode)
    ensures
        made@ == panel_label(id@, label@, focused, enabled),
{
    node(cat(id, "-label").as_str(), Role::Text, label, Token::Transparent).lettered(
        TypeRole::Label,
    ).inked(
        if !enabled {
            Token::UnavailableText
        } else if focused {
            Token::FocusedText
        } else {
            Token::RestText
        },
    ).disabled(!enabled).at(1)
}

fn show_panel_row(id: &str, label: &str, focused: bool, enabled: bool) -> (nodes: Vec<SceneNode>)
    ensures
        node_models(nodes@) == panel_row_nodes(id@, label@, focused, enabled),
{
    let mut nodes = no_nodes();
    put(&mut nodes, make_panel_row(id, label, focused, enabled));
    put(&mut nodes, make_panel_label(id, label, focused, enabled));
    nodes
}

/// What a power action is called in a question.
pub open spec fn power_verb(action: PowerAction) -> Text {
    match action {
        PowerAction::PowerOff => "power off"@,
        PowerAction::Restart => "restart"@,
        PowerAction::Sleep => "sleep"@,
    }
}

impl ShellModel {
    /// The nodes of the question before a power action. The first answer
    /// cancels it.
    pub open spec fn question_nodes(self, action: PowerAction) -> Seq<NodeModel> {
        seq![
            plain(
                "power-confirm-title"@,
                Role::Heading,
                "Ready to "@ + power_verb(action) + "?"@,
                Token::RestText,
            ),
            button("power-confirm-0"@, "Cancel"@, self.nav.focus == 0),
            button("power-confirm-1"@, "Confirm"@, self.nav.focus == 1),
        ]
    }

    /// When the device sleeps by itself, in words.
    pub open spec fn idle_words(self) -> Text {
        match self.power.applied_idle_policy.sleep_after {
            Some(span) => decimal_text(span / 1_000_000_000 / 60) + " min"@,
            None => "Off"@,
        }
    }

    /// The nodes of the row that sets when the device sleeps by itself.
    pub open spec fn idle_nodes(self) -> Seq<NodeModel> {
        let focused = self.nav.focus == self.idle_row();
        let id = "quick-power-idle"@;
        seq![
            panel_row(id, "Auto-sleep · "@ + self.idle_words(), focused, true),
            panel_label(id, "Auto-sleep"@, focused, true),
            plain(id + "-value"@, Role::Text, self.idle_words(), Token::Transparent).lettered(
                TypeRole::Caption,
            ).inked(Token::TextMuted).disabled(false).at(1),
        ]
    }

    /// The nodes of the rows of the quick panel. What the device does not
    /// support is disabled.
    pub open spec fn panel_rows(self) -> Seq<NodeModel> {
        let focus = self.nav.focus;
        seq![
            plain(
                "quick-panel-surface"@,
                Role::Group,
                "Quick actions"@,
                Token::Raised,
            ).framed(Token::BorderHairline, BorderWeight::Thin).elevated().expanded(),
        ] + panel_row_nodes("quick-0"@, "Open focused item"@, focus == 0, true) + panel_row_nodes(
            "quick-1"@,
            "Browse the library"@,
            focus == 1,
            true,
        ) + seq![plain("quick-section-divider"@, Role::Group, ""@, Token::BorderHairline)]
            + panel_row_nodes(
            "quick-power-power-off"@,
            "Power off"@,
            focus == 2,
            self.supports(PowerAction::PowerOff),
        ) + panel_row_nodes(
            "quick-power-restart"@,
            "Restart"@,
            focus == 3,
            self.supports(PowerAction::Restart),
        ) + (if self.supports(PowerAction::Sleep) {
            panel_row_nodes("quick-power-sleep"@, "Sleep"@, focus == 4, true)
        } else {
            Seq::empty()
        }) + (if self.power.idle_policy_loaded {
            self.idle_nodes()
        } else {
            Seq::empty()
        }) + panel_row_nodes(
            "quick-capture-screenshot"@,
            "Capture screenshot"@,
            focus == self.screenshot_row(),
            true,
        )
    }

    /// The nodes of the quick panel.
    pub open spec fn quick_nodes(self, facts: SurfaceFacts) -> Seq<NodeModel> {
        match self.power.power_dialog {
            PowerDialog::Confirm(action) => self.question_nodes(action),
            PowerDialog::Closed => self.panel_rows() + (match self.power.power_status {
                Some(status) => seq![
                    plain("quick-power-status"@, Role::Text, status, Token::StatusAttention),
                ],
                None => Seq::empty(),
            }) + maybe(
                facts.truth_fits,
                plain(
                    "quick-truth"@,
                    Role::Text,
                    "Nothing is running now. Quick shows only what applies right here."@,
                    Token::Transparent,
                ).lettered(TypeRole::Caption).inked(Token::TextMuted).multiline(true),
            ),
        }
    }

    /// The nodes of the first rows of the first run.
    pub open spec fn comfort_before(self, upto: int) -> Seq<NodeModel>
        decreases upto,
    {
        if upto <= 0 {
            Seq::empty()
        } else {
            let rows = self.comfort.display_preferences;
            self.comfort_before(upto - 1).push(
                button(
                    "comfort-"@ + decimal_text((upto - 1) as nat),
                    preference_words(rows[first_run_rows(rows)[upto - 1] as int]),
                    upto - 1 == self.nav.focus,
                ),
            )
        }
    }

    /// The nodes of the first run.
    pub open spec fn first_run_nodes(self) -> Seq<NodeModel> {
        let count = first_run_rows(self.comfort.display_preferences).len() as int;
        seq![
            plain("first-run-panel"@, Role::Group, ""@, Token::Scrim),
            plain(
                "first-run-title"@,
                Role::Heading,
                "FIRST RUN · Make it comfortable"@,
                Token::Scrim,
            ),
            plain(
                "first-run-copy"@,
                Role::Text,
                "All of this lives in Settings → Accessibility and can change any time."@,
                Token::Scrim,
            ).multiline(true),
        ] + self.comfort_before(count) + seq![
            plain(
                "safe-return-teach"@,
                Role::Text,
                self.settings.safe_return_binding + " returns you here."@,
                Token::Canvas,
            ).multiline(true),
            button("continue"@, "Continue · START"@, self.nav.focus == count),
        ]
    }

    /// The nodes of the receipt of a crash.
    pub open spec fn crash_nodes(self) -> Seq<NodeModel> {
        seq![
            plain("receipt-panel"@, Role::Group, ""@, Token::Raised),
            plain(
                "crash-eyebrow"@,
                Role::Text,
                "⚠ Closed unexpectedly"@,
                Token::StatusAttention,
            ),
            plain("crash-title"@, Role::Heading, self.session.active_title, Token::RestText),
            plain(
                "crash-copy"@,
                Role::Text,
                self.session.active_title
                    + " stopped on its own and the shelf took the screen back. Nothing else was affected, and it's ready to open again."@,
                Token::TextSecondary,
            ),
            plain(
                "crash-facts"@,
                Role::Text,
                "Session · Ended · What happened · "@ + self.session.crash_summary,
                Token::StatusAttention,
            ),
            plain(
                "crash-diagnostic"@,
                Role::Text,
                self.session.crash_receipt_id + " · kept on this device · "@
                    + self.session.crash_exit_detail,
                Token::TextSecondary,
            ),
            plain(
                "crash-honesty"@,
                Role::Text,
                "This record stays on the device — there's nowhere it gets sent, so there's no Report button to press."@,
                Token::TextSecondary,
            ),
            button("crash-action-0"@, "Back to Home"@, self.nav.focus == 0),
            button("crash-action-1"@, "Open again"@, self.nav.focus == 1),
        ]
    }
}

impl ShellCore {
    fn show_question(&self, action: PowerAction) -> (nodes: Vec<SceneNode>)
        ensures
            node_models(nodes@) == self@.question_nodes(action),
    {
        let verb = match action {
            PowerAction::PowerOff => "power off",
            PowerAction::Restart => "restart",
            PowerAction::Sleep => "sleep",
        };
        let mut nodes = no_nodes();
        put(
            &mut nodes,
            node(
                "power-confirm-title",
                Role::Heading,
                cat3("Ready to ", verb, "?").as_str(),
                Token::RestText,
            ),
        );
        put(&mut nodes, make_button("power-confirm-0", "Cancel", self.nav.focus == 0));
        put(&mut nodes, make_button("power-confirm-1", "Confirm", self.nav.focus == 1));
        nodes
    }

    fn show_idle(&self) -> (nodes: Vec<SceneNode>)
        ensures
            node_models(nodes@) == self@.idle_nodes(),
    {
        let words = match self.power.applied_idle_policy.sleep_after {
            Some(span) => cat(decimal(span.as_secs() / 60).as_str(), " min"),
            None => "Off".to_owned(),
        };
        let focused = self.nav.focus == self.idle_row();
        let mut nodes = no_nodes();
        put(
            &mut nodes,
            make_panel_row(
                "quick-power-idle",
                cat("Auto-sleep · ", words.as_str()).as_str(),
                focused,
                true,
            ),
        );
        put(&mut nodes, make_panel_label("quick-power-idle", "Auto-sleep", focused, true));
        put(
            &mut nodes,
            node(
                cat("quick-power-idle", "-value").as_str(),
                Role::Text,
                words.as_str(),
                Token::Transparent,
            ).lettered(TypeRole::Caption).inked(Token::TextMuted).disabled(false).at(1),
        );
        nodes
    }

    fn show_panel_rows(&self) -> (nodes: Vec<SceneNode>)
        ensures
            node_models(nodes@) == self@.panel_rows(),
    {
        let focus = self.nav.focus;
        let mut nodes = no_nodes();
        put(
            &mut nodes,
            node("quick-panel-surface", Role::Group, "Quick actions", Token::Raised).framed(
                Token::BorderHairline,
                BorderWeight::Thin,
            ).elevated().expanded(),
        );
        put_all(&mut nodes, show_panel_row("quick-0", "Open focused item", focus == 0, true));
        put_all(&mut nodes, show_panel_row("quick-1", "Browse the library", focus == 1, true));
        let mut divider = no_nodes();
        put(&mut divider, node("quick-section-divider", Role::Group, "", Token::BorderHairline));
        put_all(&mut nodes, divider);
        put_all(
            &mut nodes,
            show_panel_row(
                "quick-power-power-off",
                "Power off",
                focus == 2,
                self.supports_power(PowerAction::PowerOff),
            ),
        );
        put_all(
            &mut nodes,
            show_panel_row(
                "quick-power-restart",
                "Restart",
                focus == 3,
                self.supports_power(PowerAction::Restart),
            ),
        );
        if self.supports_power(PowerAction::Sleep) {
            put_all(&mut nodes, show_panel_row("quick-power-sleep", "Sleep", focus == 4, true));
        } else {
            put_all(&mut nodes, no_nodes());
        }
        if self.power.idle_policy_loaded {
            put_all(&mut nodes, self.show_idle());
        } else {
            put_all(&mut nodes, no_nodes());
        }
        put_all(
            &mut nodes,
            show_panel_row(
                "quick-capture-screenshot",
                "Capture screenshot",
                focus == self.screenshot_row(),
                true,
            ),
        );
        nodes
    }

    /// The nodes of the quick panel.
    pub fn show_quick(&self, facts: &SurfaceFacts) -> (nodes: Vec<SceneNode>)
        ensures
            node_models(nodes@) == self@.quick_nodes(*facts),
    {
        if let PowerDialog::Confirm(action) = self.power.power_dialog {
            return self.show_question(action);
        }
        let mut nodes = self.show_panel_rows();
        let mut status = no_nodes();
        if let Some(words) = &self.power.power_status {
            put(
                &mut status,
                node("quick-power-status", Role::Text, words.as_str(), Token::StatusAttention),
            );
        }
        put_all(&mut nodes, status);
        put_if(
            &mut nodes,
            facts.truth_fits,
            node(
                "quick-truth",
                Role::Text,
                "Nothing is running now. Quick shows only what applies right here.",
                Token::Transparent,
            ).lettered(TypeRole::Caption).inked(Token::TextMuted).multiline(true),
        );
        nodes
    }

    fn show_comfort(&self, rows: &Vec<usize>) -> (nodes: Vec<SceneNode>)
        requires
            rows@ == first_run_rows(self@.comfort.display_preferences),
            forall|i: int|
                0 <= i < rows@.len() ==> (#[trigger] rows@[i])
                    < self.comfort.display_preferences@.len(),
        ensures
            node_models(nodes@) == self@.comfort_before(rows@.len() as int),
    {
        let mut nodes = no_nodes();
        let mut next: usize = 0;
        while next < rows.len()
            invariant
                next <= rows@.len(),
                rows@ == first_run_rows(self@.comfort.display_preferences),
                forall|i: int|
                    0 <= i < rows@.len() ==> (#[trigger] rows@[i])
                        < self.comfort.display_preferences@.len(),
                node_models(nodes@) == self@.comfort_before(next as int),
            decreases rows@.len() - next,
        {
            let row = &self.comfort.display_preferences[rows[next]];
            put(
                &mut nodes,
                make_button(
                    cat("comfort-", decimal(next as u64).as_str()).as_str(),
                    preference_label(row).as_str(),
                    next == self.nav.focus,
                ),
            );
            next += 1;
        }
        nodes
    }

    /// The nodes of the first run.
    pub fn show_first_run(&self) -> (nodes: Vec<SceneNode>)
        requires
            self.wf(),
        ensures
            node_models(nodes@) == self@.first_run_nodes(),
    {
        let rows = self.first_run_preferences();
        let mut nodes = no_nodes();
        put(&mut nodes, node("first-run-panel", Role::Group, "", Token::Scrim));
        put(
            &mut nodes,
            node(
                "first-run-title",
                Role::Heading,
                "FIRST RUN · Make it comfortable",
                Token::Scrim,
            ),
        );
        put(
            &mut nodes,
            node(
                "first-run-copy",
                Role::Text,
                "All of this lives in Settings → Accessibility and can change any time.",
                Token::Scrim,
            ).multiline(true),
        );
        put_all(&mut nodes, self.show_comfort(&rows));
        let mut ending = no_nodes();
        put(
            &mut ending,
            node(
                "safe-return-teach",
                Role::Text,
                cat(self.settings.safe_return_binding.as_str(), " returns you here.").as_str(),
                Token::Canvas,
            ).multiline(true),
        );
        put(
            &mut ending,
            make_button("continue", "Continue · START", self.nav.focus == rows.len()),
        );
        put_all(&mut nodes, ending);
        nodes
    }

    /// The nodes of the receipt of a crash.
    pub fn show_crash(&self) -> (nodes: Vec<SceneNode>)
        ensures
            node_models(nodes@) == self@.crash_nodes(),
    {
        let title = self.session.active_title.as_str();
        let mut nodes = no_nodes();
        put(&mut nodes, node("receipt-panel", Role::Group, "", Token::Raised));
        put(
            &mut nodes,
            node("crash-eyebrow", Role::Text, "⚠ Closed unexpectedly", Token::StatusAttention),
        );
        put(&mut nodes, node("crash-title", Role::Heading, title, Token::RestText));
        put(
            &mut nodes,
            node(
                "crash-copy",
                Role::Text,
                cat(
                    title,
                    " stopped on its own and the shelf took the screen back. Nothing else was affected, and it's ready to open again.",
                ).as_str(),
                Token::TextSecondary,
            ),
        );
        put(
            &mut nodes,
            node(
                "crash-facts",
                Role::Text,
                cat(
                    "Session · Ended · What happened · ",
                    self.session.crash_summary.as_str(),
                ).as_str(),
                Token::StatusAttention,
            ),
        );
        put(
            &mut nodes,
            node(
                "crash-diagnostic",
                Role::Text,
                cat3(
                    self.session.crash_receipt_id.as_str(),
                    " · kept on this device · ",
                    self.session.crash_exit_detail.as_str(),
                ).as_str(),
                Token::TextSecondary,
            ),
        );
        put(
            &mut nodes,
            node(
                "crash-honesty",
                Role::Text,
                "This record stays on the device — there's nowhere it gets sent, so there's no Report button to press.",
                Token::TextSecondary,
            ),
        );
        put(&mut nodes, make_button("crash-action-0", "Back to Home", self.nav.focus == 0));
        put(&mut nodes, make_button("crash-action-1", "Open again", self.nav.focus == 1));
        nodes
    }
}

} // verus!

//! The action orchestrator: one action at a time goes from confirmation to
//! execution to its settled result. The action itself runs outside of the
//! session state; the state hands out what to run and takes in what came
//! back.

use vstd::prelude::*;
use vstd::string::*;
use crate::app::{App, Details, LogPanel, PendingAction, UnitList};
use crate::service::{PropertiesView, SystemdUnit, UnitAction, UnitType};

verus! {

/// Where the pending action stands.
#[derive(Debug, Clone, Copy, PartialEq, Eq, Structural)]
pub enum ActionPhase {
    /// No action is pending.
    Idle,
    /// The operator is asked whether to run the action.
    Confirming,
    /// The action was handed out and has not reported back.
    Executing,
    /// The action has ended and its result is shown.
    Settled,
}

/// An action to run for a unit.
#[derive(Debug, Clone)]
pub struct ActionRequest {
    pub action: UnitAction,
    /// The unit to act on; empty for a manager-wide action.
    pub unit_name: String,
    pub user_mode: bool,
    /// The category whose units are to be listed once the action has ended.
    pub unit_type: UnitType,
}

impl PendingAction {
    /// Where the pending action stands.
    pub open spec fn phase(&self) -> ActionPhase {
        if !self.show_confirm {
            ActionPhase::Idle
        } else if self.action_in_progress {
            ActionPhase::Executing
        } else if self.action_result is Some {
            ActionPhase::Settled
        } else {
            ActionPhase::Confirming
        }
    }

    /// Nothing is pending: the dialog is hidden and no field holds anything.
    pub open spec fn is_clear(&self) -> bool {
        &&& !self.show_confirm
        &&& self.confirm_action is None
        &&& self.confirm_unit_name is None
        &&& !self.action_in_progress
        &&& self.action_result is None
        &&& !self.awaiting_action
        &&& !self.awaiting_refresh
    }

    /// The state with nothing pending.
    pub open spec fn cleared() -> PendingAction {
        PendingAction {
            show_confirm: false,
            confirm_action: None,
            confirm_unit_name: None,
            action_in_progress: false,
            action_result: None,
            awaiting_action: false,
            awaiting_refresh: false,
        }
    }

    /// The action can be started: it awaits confirmation and names an action
    /// and a unit.
    pub open spec fn can_start(&self) -> bool {
        self.phase() == ActionPhase::Confirming && self.confirm_action is Some
            && self.confirm_unit_name is Some
    }

    /// The state after the operator confirmed: an action that can be started
    /// is executing, with its result and the listing that follows it still
    /// to come. Anything else is as it was.
    pub open spec fn started(self) -> PendingAction {
        if self.can_start() {
            PendingAction {
                action_in_progress: true,
                awaiting_action: true,
                awaiting_refresh: true,
                ..self
            }
        } else {
            self
        }
    }

    /// A result that is delivered settles the action.
    pub open spec fn takes_outcome(&self, outcome: Option<Result<String, String>>) -> bool {
        self.awaiting_action && outcome is Some
    }

    /// The state after a poll for the result: a result that is awaited and
    /// has come settles the action; any other poll changes nothing.
    pub open spec fn polled(self, outcome: Option<Result<String, String>>) -> PendingAction {
        if self.takes_outcome(outcome) {
            PendingAction {
                action_in_progress: false,
                action_result: outcome,
                awaiting_action: false,
                ..self
            }
        } else {
            self
        }
    }

    /// The state after a poll for the listing that follows the action.
    pub open spec fn refreshed(self, delivered: bool) -> PendingAction {
        if self.awaiting_refresh && delivered {
            PendingAction { awaiting_refresh: false, ..self }
        } else {
            self
        }
    }
}

impl App {
    /// Starts the action that awaits confirmation and returns what is to be
    /// run. The caller runs it without waiting for it and polls with
    /// `check_action_progress`. In any other phase, or without an action or
    /// a unit name, nothing is started and nothing changes.
    pub fn confirm_yes(&mut self) -> (r: Option<ActionRequest>)
        ensures
            *final(self) == (App { action: old(self).action.started(), ..*old(self) }),
            r is Some == old(self).action.can_start(),
            r matches Some(request) ==> {
                &&& Some(request.action) == old(self).action.confirm_action
                &&& Some(request.unit_name@) == old(self).action.confirm_unit_name.deep_view()
                &&& request.user_mode == old(self).units.user_mode
                &&& request.unit_type == old(self).units.unit_type
            },
    {
        if !self.action.show_confirm || self.action.action_in_progress
            || self.action.action_result.is_some() {
            return None;
        }
        let action = match self.action.confirm_action {
            Some(a) => a,
            None => {
                return None;
            },
        };
        let unit_name = match &self.action.confirm_unit_name {
            Some(name) => name.clone(),
            None => {
                return None;
            },
        };
        self.action.action_in_progress = true;
        self.action.awaiting_action = true;
        self.action.awaiting_refresh = true;
        Some(
            ActionRequest {
                action,
                unit_name,
                user_mode: self.units.user_mode,
                unit_type: self.units.unit_type,
            },
        )
    }

    /// Takes in what a poll brought: the result of the running action, if it
    /// has come, and the listing of the units read after it, if that has
    /// come, at time `now`. A result settles the action and, with the log
    /// panel shown, marks the log as to be read anew. A listing replaces the
    /// units, drops the remembered fact sheets and is filtered. What is not
    /// awaited is ignored.
    pub fn check_action_progress(
        &mut self,
        outcome: Option<Result<String, String>>,
        refreshed: Option<Vec<SystemdUnit>>,
        now: i64,
    )
        ensures
            *final(self) == (App {
                action: old(self).action.polled(outcome).refreshed(refreshed is Some),
                log_panel: if old(self).action.takes_outcome(outcome)
                    && old(self).log_panel.show_logs {
                    LogPanel { log_filters_dirty: true, ..old(self).log_panel }
                } else {
                    old(self).log_panel
                },
                units: final(self).units,
                details: final(self).details,
                ..*old(self)
            }),
            match refreshed {
                Some(units) if old(self).action.awaiting_refresh => {
                    &&& final(self).units == (UnitList {
                        services: units,
                        last_refreshed: Some(now),
                        filtered_indices: final(self).units.filtered_indices,
                        list_state: final(self).units.list_state,
                        ..old(self).units
                    })
                    &&& final(self).units.shows_filtered(
                        units.deep_view(),
                        old(self).units.filter(),
                        old(self).units.list_state,
                    )
                    &&& final(self).units.selection_wf()
                    &&& final(self).details == (Details {
                        properties_cache: final(self).details.properties_cache,
                        ..old(self).details
                    })
                    &&& final(self).details.properties_cache@ == Map::<
                        Seq<char>,
                        PropertiesView,
                    >::empty()
                },
                _ => final(self).units == old(self).units && final(self).details == old(
                    self,
                ).details,
            },
    {
        if self.action.awaiting_action {
            match outcome {
                Some(result) => {
                    self.action.action_in_progress = false;
                    self.action.action_result = Some(result);
                    self.action.awaiting_action = false;
                    if self.log_panel.show_logs {
                        self.log_panel.log_filters_dirty = true;
                    }
                },
                None => {},
            }
        }
        if self.action.awaiting_refresh {
            match refreshed {
                Some(units) => {
                    self.action.awaiting_refresh = false;
                    self.details.properties_cache.clear();
                    self.units.services = units;
                    self.units.last_refreshed = Some(now);
                    self.update_filter();
                },
                None => {},
            }
        }
    }

    /// Declines the action that awaits confirmation: nothing is pending any
    /// more.
    pub fn confirm_no(&mut self)
        ensures
            *final(self) == (App { action: PendingAction::cleared(), ..*old(self) }),
    {
        self.clear_pending_action();
    }

    /// Dismisses the pending action in whatever phase it is: nothing is
    /// pending any more. An action that is running is not stopped; its
    /// result is no longer awaited.
    pub fn dismiss_action_result(&mut self)
        ensures
            *final(self) == (App { action: PendingAction::cleared(), ..*old(self) }),
    {
        self.clear_pending_action();
    }

    fn clear_pending_action(&mut self)
        ensures
            *final(self) == (App { action: PendingAction::cleared(), ..*old(self) }),
    {
        self.action.show_confirm = false;
        self.action.confirm_action = None;
        self.action.confirm_unit_name = None;
        self.action.action_in_progress = false;
        self.action.action_result = None;
        self.action.awaiting_action = false;
        self.action.awaiting_refresh = false;
    }

    /// Asks for confirmation of a reload of the manager's configuration, an
    /// action for no unit in particular: the unit name is empty.
    pub fn request_daemon_reload(&mut self)
        ensures
            *final(self) == (App { action: final(self).action, ..*old(self) }),
            final(self).action == (PendingAction {
                show_confirm: true,
                confirm_action: Some(UnitAction::DaemonReload),
                confirm_unit_name: final(self).action.confirm_unit_name,
                ..old(self).action
            }),
            final(self).action.confirm_unit_name.deep_view() == Some(Seq::<char>::empty()),
    {
        self.action.confirm_action = Some(UnitAction::DaemonReload);
        self.action.confirm_unit_name = Some(String::new());
        self.action.show_confirm = true;
    }

    /// Removes the notice from the header.
    pub fn clear_status_message(&mut self)
        ensures
            *final(self) == (App { status_message: None, ..*old(self) }),
    {
        self.status_message = None;
    }
}

} // verus!

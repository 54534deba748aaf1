//! The administrative (dashboard) line protocol.
use crate::text::{contains, contains_text};
use vstd::prelude::*;

verus! {

/// Marker that the dashboard server's welcome line carries.
pub const DASHBOARD_WELCOME: &'static str = "Connected: Universal Robots Dashboard Server";

/// An administrative command for the dashboard server.
#[derive(Clone, Copy, PartialEq, Eq, Structural, Debug)]
pub enum DashboardCommand {
    Stop,
    ResetProtectiveStop,
}

impl DashboardCommand {
    /// The request line sent for this command.
    pub open spec fn request_spec(self) -> Seq<char> {
        match self {
            DashboardCommand::Stop => "stop\n"@,
            DashboardCommand::ResetProtectiveStop => "unlock protective stop\n"@,
        }
    }

    /// What a reply must contain for the command to have succeeded.
    pub open spec fn expected_spec(self) -> Seq<char> {
        match self {
            DashboardCommand::Stop => "Stopped"@,
            DashboardCommand::ResetProtectiveStop => "Protective stop releasing"@,
        }
    }

    /// The request line sent for this command, newline included.
    pub fn request_line(&self) -> (r: &'static str)
        ensures
            r@ == self.request_spec(),
    {
        match self {
            DashboardCommand::Stop => "stop\n",
            DashboardCommand::ResetProtectiveStop => "unlock protective stop\n",
        }
    }

    /// What a reply must contain for the command to have succeeded.
    pub fn expected_reply(&self) -> (r: &'static str)
        ensures
            r@ == self.expected_spec(),
    {
        match self {
            DashboardCommand::Stop => "Stopped",
            DashboardCommand::ResetProtectiveStop => "Protective stop releasing",
        }
    }

    /// Whether `reply`, the line the server answered with, reports success.
    pub fn reply_confirms(&self, reply: &str) -> (r: bool)
        ensures
            r == contains(reply@, self.expected_spec()),
    {
        contains_text(reply, self.expected_reply())
    }
}

/// Whether `line` is the welcome line of a dashboard server.
pub fn is_dashboard_welcome(line: &str) -> (r: bool)
    ensures
        r == contains(line@, DASHBOARD_WELCOME@),
{
    contains_text(line, DASHBOARD_WELCOME)
}

} // verus!

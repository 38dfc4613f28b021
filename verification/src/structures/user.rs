//! Records describing users, team members and notifications.

use vstd::prelude::*;

use super::{Int, UtcTime, ID};
use crate::structures::project;

verus! {

/// A user of the platform.
#[derive(Debug, Clone, PartialEq)]
pub struct User {
    pub username: String,
    /// The user's display name
    pub name: Option<String>,
    /// The user's email, only visible to the user itself when authenticated
    pub email: Option<String>,
    pub email_verified: Option<bool>,
    pub has_password: Option<bool>,
    pub has_totp: Option<bool>,
    pub auth_providers: Option<Vec<AuthProvider>>,
    /// A description of the user
    pub bio: Option<String>,
    /// Various data relating to the user's payouts status,
    /// only visible to the user itself when authenticated
    pub payout_data: Option<PayoutData>,
    pub id: ID,
    pub avatar_url: Option<String>,
    pub created: UtcTime,
    pub role: UserRole,
    /// Bitflags of badges applicable to this user
    pub badges: Int,
}

/// A user's payouts status; the balance is carried as its decimal text.
#[derive(Debug, Clone, PartialEq)]
pub struct PayoutData {
    pub balance: String,
    pub paypal_address: Option<String>,
    pub paypal_country: Option<String>,
    pub venmo_handle: Option<String>,
}

/// A member of a project's team.
#[derive(Debug, Clone, PartialEq)]
pub struct TeamMember {
    /// The ID of the member's team
    pub team_id: ID,
    pub user: User,
    pub role: String,
    /// The user's permissions in bitflag format
    /// (requires authorisation to view)
    pub permissions: Option<Int>,
    /// Whether the user has accepted membership of the team
    /// (requires authorisation to view)
    pub accepted: bool,
    /// The split of payouts going to this user, as its decimal text.
    /// The proportion of payouts they get is their split divided by the sum
    /// of the splits of all members.
    pub payouts_split: Option<String>,
    pub ordering: Int,
}

/// A notification a user received.
#[derive(Debug, Clone, PartialEq)]
pub struct Notification {
    pub id: ID,
    /// The ID of the user who received the notification
    pub user_id: ID,
    pub title: String,
    pub text: String,
    /// A _relative_ link to the related project/version
    pub link: String,
    pub read: bool,
    pub created: UtcTime,
    /// A list of actions that can be performed
    pub actions: Vec<NotificationAction>,
    pub body: NotificationBody,
}

/// An action that can be performed on a notification.
#[derive(Debug, PartialEq)]
pub struct NotificationAction {
    pub title: String,
    /// The route to call when this notification action is called.
    /// Contains the HTTP method and route respectively.
    pub action_route: (String, String),
}

impl Clone for NotificationAction {
    fn clone(&self) -> (r: Self)
        ensures
            r == *self,
    {
        NotificationAction {
            title: self.title.clone(),
            action_route: (self.action_route.0.clone(), self.action_route.1.clone()),
        }
    }
}

/// The typed contents of a notification.
#[derive(Debug, Clone, PartialEq)]
pub enum NotificationBody {
    ProjectUpdate { project_id: ID, version_id: ID },
    TeamInvite { project_id: ID, team_id: ID, invited_by: ID, role: String },
    OrganizationInvite { organization_id: ID, invited_by: ID, team_id: ID, role: String },
    StatusChange {
        project_id: ID,
        old_status: project::ProjectStatus,
        new_status: project::ProjectStatus,
    },
    ModeratorMessage {
        thread_id: ID,
        message_id: ID,
        project_id: Option<ID>,
        report_id: Option<ID>,
    },
    LegacyMarkdown {
        notification_type: Option<String>,
        title: String,
        text: String,
        link: String,
        actions: Vec<NotificationAction>,
    },
    Unknown,
}

#[derive(Debug, Clone, Copy, PartialEq, Eq, Structural)]
#[non_exhaustive]
pub enum UserRole {
    Developer,
    Moderator,
    Admin,
}

#[derive(Debug, Clone, Copy, PartialEq, Eq, Structural)]
pub enum AuthProvider {
    GitHub,
    Discord,
    Microsoft,
    GitLab,
    Google,
    Steam,
    PayPal,
}

} // verus!

//! Webhook dispatcher decision: validate the project identifier, resolve its
//! script path, and fix the HTTP answer. A rejected request carries no script
//! path, so no deployment task can be spawned for it.

use vstd::prelude::*;

use crate::registry::{get_script_path, known_project, script_path_spec};

verus! {

/// The dispatcher's whole answer to one webhook call: the HTTP status and
/// body to send back, and, only when the project resolved, the script path
/// the background deployment must run.
pub enum WebhookOutcome {
    Rejected { status: u16, body: String },
    Accepted { status: u16, body: String, script_path: String },
}

impl WebhookOutcome {
    /// The HTTP status code of this outcome.
    pub open spec fn status_spec(&self) -> u16 {
        match self {
            WebhookOutcome::Rejected { status, .. } => *status,
            WebhookOutcome::Accepted { status, .. } => *status,
        }
    }

    /// The HTTP body of this outcome.
    pub open spec fn body_spec(&self) -> Seq<char> {
        match self {
            WebhookOutcome::Rejected { body, .. } => body@,
            WebhookOutcome::Accepted { body, .. } => body@,
        }
    }

    pub fn status(&self) -> (s: u16)
        ensures
            s == self.status_spec(),
    {
        match self {
            WebhookOutcome::Rejected { status, .. } => *status,
            WebhookOutcome::Accepted { status, .. } => *status,
        }
    }

    pub fn body(&self) -> (b: &str)
        ensures
            b@ == self.body_spec(),
    {
        match self {
            WebhookOutcome::Rejected { body, .. } => body.as_str(),
            WebhookOutcome::Accepted { body, .. } => body.as_str(),
        }
    }
}

/// Decide a webhook call: an unknown project is rejected with a client error
/// and no script path, so nothing is spawned for it; a known project is
/// acknowledged at once with the resolved script path for the detached
/// deployment task.
pub fn handle_webhook(project_name: &str, base_dir: &str) -> (r: WebhookOutcome)
    ensures
        !known_project(project_name@) ==> (r matches WebhookOutcome::Rejected { status, body }
            && status == 400 && body@ == "无法获取部署脚本"@),
        known_project(project_name@) ==> (r matches WebhookOutcome::Accepted {
            status,
            body,
            script_path,
        } && status == 200 && body@ == "开始部署项目..."@ && Some(script_path@)
            == script_path_spec(base_dir@, project_name@)),
{
    match get_script_path(base_dir, project_name) {
        Some(script_path) => WebhookOutcome::Accepted {
            status: 200,
            body: String::from_str("开始部署项目..."),
            script_path,
        },
        None => WebhookOutcome::Rejected {
            status: 400,
            body: String::from_str("无法获取部署脚本"),
        },
    }
}

} // verus!

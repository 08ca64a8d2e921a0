pub mod laws;
pub mod markup;
pub mod model;
pub mod reply;
pub mod session;
pub mod status;

pub use model::{Action, PortalError, Status};
pub use reply::{confirm_action, get_action_from_result};
pub use session::{check_login_page, parse_operator, plan_action, session_id};
pub use status::get_status;

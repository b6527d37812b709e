//! The endpoint manifest: every route of the service with its method and
//! business module, the source from which `sys_apis` is rebuilt. A new route
//! must be listed here, or the tenant access check refuses it.

use vstd::prelude::*;

verus! {

/// One endpoint: path (without the `/admin/v1` prefix), method, and the
/// `sys_apis.business_module` value; `None` for an unclassified endpoint.
pub struct EndpointMeta {
    pub path: &'static str,
    pub method: &'static str,
    pub business_module: Option<&'static str>,
}

/// The endpoint table, in the order that `endpoints` lists it.
pub open spec fn endpoint_table() -> Seq<EndpointMeta> {
    seq![
        EndpointMeta { path: "/initial-context", method: "GET", business_module: Some("DASHBOARD") },
        EndpointMeta { path: "/perm-codes", method: "GET", business_module: Some("DASHBOARD") },
        EndpointMeta { path: "/routes", method: "GET", business_module: Some("DASHBOARD") },
        EndpointMeta { path: "/captcha", method: "GET", business_module: Some("DASHBOARD") },
        EndpointMeta { path: "/captcha/verify", method: "POST", business_module: Some("DASHBOARD") },
        EndpointMeta { path: "/login", method: "POST", business_module: Some("DASHBOARD") },
        EndpointMeta { path: "/logout", method: "POST", business_module: Some("DASHBOARD") },
        EndpointMeta { path: "/refresh-token", method: "POST", business_module: Some("DASHBOARD") },
        EndpointMeta { path: "/register", method: "POST", business_module: Some("DASHBOARD") },
        EndpointMeta { path: "/forgot-password", method: "POST", business_module: Some("DASHBOARD") },
        EndpointMeta { path: "/reset-password-by-code", method: "POST", business_module: Some("DASHBOARD") },
        EndpointMeta { path: "/dashboard/login-status-distribution", method: "GET", business_module: Some("DASHBOARD") },
        EndpointMeta { path: "/dashboard/login-trend", method: "GET", business_module: Some("DASHBOARD") },
        EndpointMeta { path: "/dashboard/operation-action-distribution", method: "GET", business_module: Some("DASHBOARD") },
        EndpointMeta { path: "/dashboard/overview", method: "GET", business_module: Some("DASHBOARD") },
        EndpointMeta { path: "/mfa/disable", method: "POST", business_module: Some("DASHBOARD") },
        EndpointMeta { path: "/mfa/enroll/confirm", method: "POST", business_module: Some("DASHBOARD") },
        EndpointMeta { path: "/mfa/enroll/start", method: "POST", business_module: Some("DASHBOARD") },
        EndpointMeta { path: "/mfa/methods", method: "GET", business_module: Some("DASHBOARD") },
        EndpointMeta { path: "/mfa/status", method: "GET", business_module: Some("DASHBOARD") },
        EndpointMeta { path: "/mfa/verify", method: "POST", business_module: Some("DASHBOARD") },
        EndpointMeta { path: "/mfa/{credentialId}", method: "DELETE", business_module: Some("DASHBOARD") },
        EndpointMeta { path: "/users:exists", method: "GET", business_module: Some("OPM") },
        EndpointMeta { path: "/users/exists", method: "GET", business_module: Some("OPM") },
        EndpointMeta { path: "/users", method: "GET", business_module: Some("OPM") },
        EndpointMeta { path: "/users", method: "POST", business_module: Some("OPM") },
        EndpointMeta { path: "/users/{id}", method: "GET", business_module: Some("OPM") },
        EndpointMeta { path: "/users/{id}", method: "PUT", business_module: Some("OPM") },
        EndpointMeta { path: "/users/{id}", method: "DELETE", business_module: Some("OPM") },
        EndpointMeta { path: "/users/{user_id}/password", method: "POST", business_module: Some("OPM") },
        EndpointMeta { path: "/users/username/{username}", method: "GET", business_module: Some("OPM") },
        EndpointMeta { path: "/users/username/{username}", method: "DELETE", business_module: Some("OPM") },
        EndpointMeta { path: "/me", method: "GET", business_module: Some("OPM") },
        EndpointMeta { path: "/me", method: "PUT", business_module: Some("OPM") },
        EndpointMeta { path: "/me/avatar", method: "POST", business_module: Some("OPM") },
        EndpointMeta { path: "/me/avatar", method: "DELETE", business_module: Some("OPM") },
        EndpointMeta { path: "/me/contact", method: "POST", business_module: Some("OPM") },
        EndpointMeta { path: "/me/contact/verify", method: "POST", business_module: Some("OPM") },
        EndpointMeta { path: "/me/password", method: "POST", business_module: Some("OPM") },
        EndpointMeta { path: "/org-units", method: "GET", business_module: Some("OPM") },
        EndpointMeta { path: "/org-units", method: "POST", business_module: Some("OPM") },
        EndpointMeta { path: "/org-units/{id}", method: "GET", business_module: Some("OPM") },
        EndpointMeta { path: "/org-units/{id}", method: "PUT", business_module: Some("OPM") },
        EndpointMeta { path: "/org-units/{id}", method: "DELETE", business_module: Some("OPM") },
        EndpointMeta { path: "/positions", method: "GET", business_module: Some("OPM") },
        EndpointMeta { path: "/positions", method: "POST", business_module: Some("OPM") },
        EndpointMeta { path: "/positions/{id}", method: "GET", business_module: Some("OPM") },
        EndpointMeta { path: "/positions/{id}", method: "PUT", business_module: Some("OPM") },
        EndpointMeta { path: "/positions/{id}", method: "DELETE", business_module: Some("OPM") },
        EndpointMeta { path: "/roles", method: "GET", business_module: Some("OPM") },
        EndpointMeta { path: "/roles", method: "POST", business_module: Some("OPM") },
        EndpointMeta { path: "/roles/{id}", method: "GET", business_module: Some("OPM") },
        EndpointMeta { path: "/roles/{id}", method: "PUT", business_module: Some("OPM") },
        EndpointMeta { path: "/roles/{id}", method: "DELETE", business_module: Some("OPM") },
        EndpointMeta { path: "/menus", method: "GET", business_module: Some("PERMISSION") },
        EndpointMeta { path: "/menus", method: "POST", business_module: Some("PERMISSION") },
        EndpointMeta { path: "/menus/sync", method: "POST", business_module: Some("PERMISSION") },
        EndpointMeta { path: "/menus/{id}", method: "GET", business_module: Some("PERMISSION") },
        EndpointMeta { path: "/menus/{id}", method: "PUT", business_module: Some("PERMISSION") },
        EndpointMeta { path: "/menus/{id}", method: "DELETE", business_module: Some("PERMISSION") },
        EndpointMeta { path: "/apis", method: "GET", business_module: Some("PERMISSION") },
        EndpointMeta { path: "/apis", method: "POST", business_module: Some("PERMISSION") },
        EndpointMeta { path: "/apis/sync", method: "POST", business_module: Some("PERMISSION") },
        EndpointMeta { path: "/apis/walk-route", method: "GET", business_module: Some("PERMISSION") },
        EndpointMeta { path: "/apis/{id}", method: "GET", business_module: Some("PERMISSION") },
        EndpointMeta { path: "/apis/{id}", method: "PUT", business_module: Some("PERMISSION") },
        EndpointMeta { path: "/apis/{id}", method: "DELETE", business_module: Some("PERMISSION") },
        EndpointMeta { path: "/permissions", method: "GET", business_module: Some("PERMISSION") },
        EndpointMeta { path: "/permissions", method: "POST", business_module: Some("PERMISSION") },
        EndpointMeta { path: "/permissions/sync:perms", method: "POST", business_module: Some("PERMISSION") },
        EndpointMeta { path: "/permissions/sync/perms", method: "POST", business_module: Some("PERMISSION") },
        EndpointMeta { path: "/permissions/{id}", method: "GET", business_module: Some("PERMISSION") },
        EndpointMeta { path: "/permissions/{id}", method: "PUT", business_module: Some("PERMISSION") },
        EndpointMeta { path: "/permissions/{id}", method: "DELETE", business_module: Some("PERMISSION") },
        EndpointMeta { path: "/permission-groups", method: "GET", business_module: Some("PERMISSION") },
        EndpointMeta { path: "/permission-groups", method: "POST", business_module: Some("PERMISSION") },
        EndpointMeta { path: "/permission-groups/{id}", method: "GET", business_module: Some("PERMISSION") },
        EndpointMeta { path: "/permission-groups/{id}", method: "PUT", business_module: Some("PERMISSION") },
        EndpointMeta { path: "/permission-groups/{id}", method: "DELETE", business_module: Some("PERMISSION") },
        EndpointMeta { path: "/dict/types", method: "GET", business_module: Some("DICT") },
        EndpointMeta { path: "/dict/types", method: "POST", business_module: Some("DICT") },
        EndpointMeta { path: "/dict/types", method: "DELETE", business_module: Some("DICT") },
        EndpointMeta { path: "/dict/types/code/{code}", method: "GET", business_module: Some("DICT") },
        EndpointMeta { path: "/dict/types/{id}", method: "GET", business_module: Some("DICT") },
        EndpointMeta { path: "/dict/types/{id}", method: "PUT", business_module: Some("DICT") },
        EndpointMeta { path: "/dict/entries", method: "GET", business_module: Some("DICT") },
        EndpointMeta { path: "/dict/entries", method: "POST", business_module: Some("DICT") },
        EndpointMeta { path: "/dict/entries", method: "DELETE", business_module: Some("DICT") },
        EndpointMeta { path: "/dict/entries/by-type-code", method: "GET", business_module: Some("DICT") },
        EndpointMeta { path: "/dict/entries/{id}", method: "PUT", business_module: Some("DICT") },
        EndpointMeta { path: "/access-keys", method: "GET", business_module: Some("SYSTEM") },
        EndpointMeta { path: "/access-keys", method: "POST", business_module: Some("SYSTEM") },
        EndpointMeta { path: "/access-keys/{id}", method: "GET", business_module: Some("SYSTEM") },
        EndpointMeta { path: "/access-keys/{id}", method: "PUT", business_module: Some("SYSTEM") },
        EndpointMeta { path: "/access-keys/{id}", method: "DELETE", business_module: Some("SYSTEM") },
        EndpointMeta { path: "/access-keys/{id}/secret", method: "PUT", business_module: Some("SYSTEM") },
        EndpointMeta { path: "/access-keys/token", method: "POST", business_module: Some("SYSTEM") },
        EndpointMeta { path: "/configs", method: "GET", business_module: Some("SYSTEM") },
        EndpointMeta { path: "/configs", method: "POST", business_module: Some("SYSTEM") },
        EndpointMeta { path: "/configs/{id}", method: "GET", business_module: Some("SYSTEM") },
        EndpointMeta { path: "/configs/{id}", method: "PUT", business_module: Some("SYSTEM") },
        EndpointMeta { path: "/configs/{id}", method: "DELETE", business_module: Some("SYSTEM") },
        EndpointMeta { path: "/dict/langs", method: "GET", business_module: Some("SYSTEM") },
        EndpointMeta { path: "/dict/langs", method: "POST", business_module: Some("SYSTEM") },
        EndpointMeta { path: "/dict/langs", method: "DELETE", business_module: Some("SYSTEM") },
        EndpointMeta { path: "/dict/langs/batch", method: "POST", business_module: Some("SYSTEM") },
        EndpointMeta { path: "/dict/langs/{id}", method: "GET", business_module: Some("SYSTEM") },
        EndpointMeta { path: "/dict/langs/{id}", method: "PUT", business_module: Some("SYSTEM") },
        EndpointMeta { path: "/login-policies", method: "GET", business_module: Some("SYSTEM") },
        EndpointMeta { path: "/login-policies", method: "POST", business_module: Some("SYSTEM") },
        EndpointMeta { path: "/login-policies/{id}", method: "GET", business_module: Some("SYSTEM") },
        EndpointMeta { path: "/login-policies/{id}", method: "PUT", business_module: Some("SYSTEM") },
        EndpointMeta { path: "/login-policies/{id}", method: "DELETE", business_module: Some("SYSTEM") },
        EndpointMeta { path: "/server-monitor", method: "GET", business_module: Some("SYSTEM") },
        EndpointMeta { path: "/notification-channels", method: "GET", business_module: Some("SYSTEM") },
        EndpointMeta { path: "/notification-channels", method: "POST", business_module: Some("SYSTEM") },
        EndpointMeta { path: "/notification-channels/{id}", method: "GET", business_module: Some("SYSTEM") },
        EndpointMeta { path: "/notification-channels/{id}", method: "PUT", business_module: Some("SYSTEM") },
        EndpointMeta { path: "/notification-channels/{id}", method: "DELETE", business_module: Some("SYSTEM") },
        EndpointMeta { path: "/notification-channels/{id}/send-test-email", method: "POST", business_module: Some("SYSTEM") },
        EndpointMeta { path: "/online-session/sessions", method: "GET", business_module: Some("SYSTEM") },
        EndpointMeta { path: "/online-session/my-sessions", method: "GET", business_module: Some("SYSTEM") },
        EndpointMeta { path: "/online-session/force-logout", method: "POST", business_module: Some("SYSTEM") },
        EndpointMeta { path: "/online-session/my-sessions/revoke", method: "POST", business_module: Some("SYSTEM") },
        EndpointMeta { path: "/files", method: "GET", business_module: Some("FILE") },
        EndpointMeta { path: "/files", method: "POST", business_module: Some("FILE") },
        EndpointMeta { path: "/files/{id}", method: "GET", business_module: Some("FILE") },
        EndpointMeta { path: "/files/{id}", method: "PUT", business_module: Some("FILE") },
        EndpointMeta { path: "/files/{id}", method: "DELETE", business_module: Some("FILE") },
        EndpointMeta { path: "/file/download", method: "GET", business_module: Some("FILE") },
        EndpointMeta { path: "/file/upload", method: "PUT", business_module: Some("FILE") },
        EndpointMeta { path: "/file/upload", method: "POST", business_module: Some("FILE") },
        EndpointMeta { path: "/file/image", method: "GET", business_module: Some("FILE") },
        EndpointMeta { path: "/tasks", method: "GET", business_module: Some("TASK") },
        EndpointMeta { path: "/tasks", method: "POST", business_module: Some("TASK") },
        EndpointMeta { path: "/tasks/type-name/{type_name}", method: "GET", business_module: Some("TASK") },
        EndpointMeta { path: "/tasks/{id}", method: "GET", business_module: Some("TASK") },
        EndpointMeta { path: "/tasks/{id}", method: "PUT", business_module: Some("TASK") },
        EndpointMeta { path: "/tasks/{id}", method: "DELETE", business_module: Some("TASK") },
        EndpointMeta { path: "/tasks:control", method: "POST", business_module: Some("TASK") },
        EndpointMeta { path: "/tasks:restart", method: "POST", business_module: Some("TASK") },
        EndpointMeta { path: "/tasks:start", method: "POST", business_module: Some("TASK") },
        EndpointMeta { path: "/tasks:stop", method: "POST", business_module: Some("TASK") },
        EndpointMeta { path: "/tasks:type-names", method: "GET", business_module: Some("TASK") },
        EndpointMeta { path: "/tasks/control", method: "POST", business_module: Some("TASK") },
        EndpointMeta { path: "/tasks/restart", method: "POST", business_module: Some("TASK") },
        EndpointMeta { path: "/tasks/start", method: "POST", business_module: Some("TASK") },
        EndpointMeta { path: "/tasks/stop", method: "POST", business_module: Some("TASK") },
        EndpointMeta { path: "/tasks/type-names", method: "GET", business_module: Some("TASK") },
        EndpointMeta { path: "/tenants:exists", method: "GET", business_module: Some("TENANT") },
        EndpointMeta { path: "/tenants/exists", method: "GET", business_module: Some("TENANT") },
        EndpointMeta { path: "/tenants", method: "GET", business_module: Some("TENANT") },
        EndpointMeta { path: "/tenants", method: "POST", business_module: Some("TENANT") },
        EndpointMeta { path: "/tenants/{id}", method: "GET", business_module: Some("TENANT") },
        EndpointMeta { path: "/tenants/{id}", method: "PUT", business_module: Some("TENANT") },
        EndpointMeta { path: "/tenants/{id}", method: "DELETE", business_module: Some("TENANT") },
        EndpointMeta { path: "/tenants/{id}/cleanup", method: "POST", business_module: Some("TENANT") },
        EndpointMeta { path: "/tenants/{id}/usage", method: "GET", business_module: Some("TENANT") },
        EndpointMeta { path: "/tenants:with-admin", method: "POST", business_module: Some("TENANT") },
        EndpointMeta { path: "/plans", method: "GET", business_module: Some("TENANT") },
        EndpointMeta { path: "/plans", method: "POST", business_module: Some("TENANT") },
        EndpointMeta { path: "/plans", method: "DELETE", business_module: Some("TENANT") },
        EndpointMeta { path: "/plans/{id}", method: "GET", business_module: Some("TENANT") },
        EndpointMeta { path: "/plans/{id}", method: "PUT", business_module: Some("TENANT") },
        EndpointMeta { path: "/plan-modules", method: "GET", business_module: Some("TENANT") },
        EndpointMeta { path: "/plan-modules", method: "POST", business_module: Some("TENANT") },
        EndpointMeta { path: "/plan-modules", method: "DELETE", business_module: Some("TENANT") },
        EndpointMeta { path: "/plan-modules/{id}", method: "GET", business_module: Some("TENANT") },
        EndpointMeta { path: "/plan-modules/{id}", method: "PUT", business_module: Some("TENANT") },
        EndpointMeta { path: "/plan-quotas", method: "GET", business_module: Some("TENANT") },
        EndpointMeta { path: "/plan-quotas", method: "POST", business_module: Some("TENANT") },
        EndpointMeta { path: "/plan-quotas", method: "DELETE", business_module: Some("TENANT") },
        EndpointMeta { path: "/plan-quotas/{id}", method: "PUT", business_module: Some("TENANT") },
        EndpointMeta { path: "/api-audit-logs", method: "GET", business_module: Some("LOG") },
        EndpointMeta { path: "/api-audit-logs/{id}", method: "GET", business_module: Some("LOG") },
        EndpointMeta { path: "/login-audit-logs", method: "GET", business_module: Some("LOG") },
        EndpointMeta { path: "/login-audit-logs/{id}", method: "GET", business_module: Some("LOG") },
        EndpointMeta { path: "/operation-audit-logs", method: "GET", business_module: Some("LOG") },
        EndpointMeta { path: "/operation-audit-logs/{id}", method: "GET", business_module: Some("LOG") },
        EndpointMeta { path: "/permission-audit-logs", method: "GET", business_module: Some("LOG") },
        EndpointMeta { path: "/permission-audit-logs/{id}", method: "GET", business_module: Some("LOG") },
        EndpointMeta { path: "/data-access-audit-logs", method: "GET", business_module: Some("LOG") },
        EndpointMeta { path: "/data-access-audit-logs/{id}", method: "GET", business_module: Some("LOG") },
        EndpointMeta { path: "/policy-evaluation-logs", method: "GET", business_module: Some("LOG") },
        EndpointMeta { path: "/policy-evaluation-logs/{id}", method: "GET", business_module: Some("LOG") },
        EndpointMeta { path: "/redis-cache-monitor", method: "GET", business_module: Some("LOG") },
        EndpointMeta { path: "/internal-message/messages", method: "GET", business_module: Some("INTERNAL_MESSAGE") },
        EndpointMeta { path: "/internal-message/messages/{id}", method: "GET", business_module: Some("INTERNAL_MESSAGE") },
        EndpointMeta { path: "/internal-message/messages/{id}", method: "PUT", business_module: Some("INTERNAL_MESSAGE") },
        EndpointMeta { path: "/internal-message/messages/{id}", method: "DELETE", business_module: Some("INTERNAL_MESSAGE") },
        EndpointMeta { path: "/internal-message/revoke", method: "POST", business_module: Some("INTERNAL_MESSAGE") },
        EndpointMeta { path: "/internal-message/send", method: "POST", business_module: Some("INTERNAL_MESSAGE") },
        EndpointMeta { path: "/internal-message/categories", method: "GET", business_module: Some("INTERNAL_MESSAGE") },
        EndpointMeta { path: "/internal-message/categories", method: "POST", business_module: Some("INTERNAL_MESSAGE") },
        EndpointMeta { path: "/internal-message/categories/{id}", method: "GET", business_module: Some("INTERNAL_MESSAGE") },
        EndpointMeta { path: "/internal-message/categories/{id}", method: "PUT", business_module: Some("INTERNAL_MESSAGE") },
        EndpointMeta { path: "/internal-message/categories/{id}", method: "DELETE", business_module: Some("INTERNAL_MESSAGE") },
        EndpointMeta { path: "/internal-message/inbox", method: "GET", business_module: Some("INTERNAL_MESSAGE") },
        EndpointMeta { path: "/internal-message/inbox/delete", method: "POST", business_module: Some("INTERNAL_MESSAGE") },
        EndpointMeta { path: "/internal-message/read", method: "POST", business_module: Some("INTERNAL_MESSAGE") },
        EndpointMeta { path: "/internal-message/status", method: "POST", business_module: Some("INTERNAL_MESSAGE") },
        EndpointMeta { path: "/scripts", method: "GET", business_module: None },
        EndpointMeta { path: "/scripts", method: "POST", business_module: None },
        EndpointMeta { path: "/scripts", method: "DELETE", business_module: None },
        EndpointMeta { path: "/scripts/count", method: "GET", business_module: None },
        EndpointMeta { path: "/scripts/name/{name}", method: "GET", business_module: None },
        EndpointMeta { path: "/scripts/{id}", method: "GET", business_module: None },
        EndpointMeta { path: "/scripts/{id}", method: "PUT", business_module: None },
        EndpointMeta { path: "/scripts/test_run", method: "POST", business_module: None },
        EndpointMeta { path: "/script/hooks", method: "GET", business_module: None },
        EndpointMeta { path: "/script/logs", method: "GET", business_module: None },
        EndpointMeta { path: "/script/logs/count", method: "GET", business_module: None },
        EndpointMeta { path: "/script/logs/purge", method: "POST", business_module: None },
    ]
}

/// All endpoints, grouped by module.
pub fn endpoints() -> (r: Vec<EndpointMeta>)
    ensures
        r@ == endpoint_table(),
{
    vec![
        EndpointMeta { path: "/initial-context", method: "GET", business_module: Some("DASHBOARD") },
        EndpointMeta { path: "/perm-codes", method: "GET", business_module: Some("DASHBOARD") },
        EndpointMeta { path: "/routes", method: "GET", business_module: Some("DASHBOARD") },
        EndpointMeta { path: "/captcha", method: "GET", business_module: Some("DASHBOARD") },
        EndpointMeta { path: "/captcha/verify", method: "POST", business_module: Some("DASHBOARD") },
        EndpointMeta { path: "/login", method: "POST", business_module: Some("DASHBOARD") },
        EndpointMeta { path: "/logout", method: "POST", business_module: Some("DASHBOARD") },
        EndpointMeta { path: "/refresh-token", method: "POST", business_module: Some("DASHBOARD") },
        EndpointMeta { path: "/register", method: "POST", business_module: Some("DASHBOARD") },
        EndpointMeta { path: "/forgot-password", method: "POST", business_module: Some("DASHBOARD") },
        EndpointMeta { path: "/reset-password-by-code", method: "POST", business_module: Some("DASHBOARD") },
        EndpointMeta { path: "/dashboard/login-status-distribution", method: "GET", business_module: Some("DASHBOARD") },
        EndpointMeta { path: "/dashboard/login-trend", method: "GET", business_module: Some("DASHBOARD") },
        EndpointMeta { path: "/dashboard/operation-action-distribution", method: "GET", business_module: Some("DASHBOARD") },
        EndpointMeta { path: "/dashboard/overview", method: "GET", business_module: Some("DASHBOARD") },
        EndpointMeta { path: "/mfa/disable", method: "POST", business_module: Some("DASHBOARD") },
        EndpointMeta { path: "/mfa/enroll/confirm", method: "POST", business_module: Some("DASHBOARD") },
        EndpointMeta { path: "/mfa/enroll/start", method: "POST", business_module: Some("DASHBOARD") },
        EndpointMeta { path: "/mfa/methods", method: "GET", business_module: Some("DASHBOARD") },
        EndpointMeta { path: "/mfa/status", method: "GET", business_module: Some("DASHBOARD") },
        EndpointMeta { path: "/mfa/verify", method: "POST", business_module: Some("DASHBOARD") },
        EndpointMeta { path: "/mfa/{credentialId}", method: "DELETE", business_module: Some("DASHBOARD") },
        EndpointMeta { path: "/users:exists", method: "GET", business_module: Some("OPM") },
        EndpointMeta { path: "/users/exists", method: "GET", business_module: Some("OPM") },
        EndpointMeta { path: "/users", method: "GET", business_module: Some("OPM") },
        EndpointMeta { path: "/users", method: "POST", business_module: Some("OPM") },
        EndpointMeta { path: "/users/{id}", method: "GET", business_module: Some("OPM") },
        EndpointMeta { path: "/users/{id}", method: "PUT", business_module: Some("OPM") },
        EndpointMeta { path: "/users/{id}", method: "DELETE", business_module: Some("OPM") },
        EndpointMeta { path: "/users/{user_id}/password", method: "POST", business_module: Some("OPM") },
        EndpointMeta { path: "/users/username/{username}", method: "GET", business_module: Some("OPM") },
        EndpointMeta { path: "/users/username/{username}", method: "DELETE", business_module: Some("OPM") },
        EndpointMeta { path: "/me", method: "GET", business_module: Some("OPM") },
        EndpointMeta { path: "/me", method: "PUT", business_module: Some("OPM") },
        EndpointMeta { path: "/me/avatar", method: "POST", business_module: Some("OPM") },
        EndpointMeta { path: "/me/avatar", method: "DELETE", business_module: Some("OPM") },
        EndpointMeta { path: "/me/contact", method: "POST", business_module: Some("OPM") },
        EndpointMeta { path: "/me/contact/verify", method: "POST", business_module: Some("OPM") },
        EndpointMeta { path: "/me/password", method: "POST", business_module: Some("OPM") },
        EndpointMeta { path: "/org-units", method: "GET", business_module: Some("OPM") },
        EndpointMeta { path: "/org-units", method: "POST", business_module: Some("OPM") },
        EndpointMeta { path: "/org-units/{id}", method: "GET", business_module: Some("OPM") },
        EndpointMeta { path: "/org-units/{id}", method: "PUT", business_module: Some("OPM") },
        EndpointMeta { path: "/org-units/{id}", method: "DELETE", business_module: Some("OPM") },
        EndpointMeta { path: "/positions", method: "GET", business_module: Some("OPM") },
        EndpointMeta { path: "/positions", method: "POST", business_module: Some("OPM") },
        EndpointMeta { path: "/positions/{id}", method: "GET", business_module: Some("OPM") },
        EndpointMeta { path: "/positions/{id}", method: "PUT", business_module: Some("OPM") },
        EndpointMeta { path: "/positions/{id}", method: "DELETE", business_module: Some("OPM") },
        EndpointMeta { path: "/roles", method: "GET", business_module: Some("OPM") },
        EndpointMeta { path: "/roles", method: "POST", business_module: Some("OPM") },
        EndpointMeta { path: "/roles/{id}", method: "GET", business_module: Some("OPM") },
        EndpointMeta { path: "/roles/{id}", method: "PUT", business_module: Some("OPM") },
        EndpointMeta { path: "/roles/{id}", method: "DELETE", business_module: Some("OPM") },
        EndpointMeta { path: "/menus", method: "GET", business_module: Some("PERMISSION") },
        EndpointMeta { path: "/menus", method: "POST", business_module: Some("PERMISSION") },
        EndpointMeta { path: "/menus/sync", method: "POST", business_module: Some("PERMISSION") },
        EndpointMeta { path: "/menus/{id}", method: "GET", business_module: Some("PERMISSION") },
        EndpointMeta { path: "/menus/{id}", method: "PUT", business_module: Some("PERMISSION") },
        EndpointMeta { path: "/menus/{id}", method: "DELETE", business_module: Some("PERMISSION") },
        EndpointMeta { path: "/apis", method: "GET", business_module: Some("PERMISSION") },
        EndpointMeta { path: "/apis", method: "POST", business_module: Some("PERMISSION") },
        EndpointMeta { path: "/apis/sync", method: "POST", business_module: Some("PERMISSION") },
        EndpointMeta { path: "/apis/walk-route", method: "GET", business_module: Some("PERMISSION") },
        EndpointMeta { path: "/apis/{id}", method: "GET", business_module: Some("PERMISSION") },
        EndpointMeta { path: "/apis/{id}", method: "PUT", business_module: Some("PERMISSION") },
        EndpointMeta { path: "/apis/{id}", method: "DELETE", business_module: Some("PERMISSION") },
        EndpointMeta { path: "/permissions", method: "GET", business_module: Some("PERMISSION") },
        EndpointMeta { path: "/permissions", method: "POST", business_module: Some("PERMISSION") },
        EndpointMeta { path: "/permissions/sync:perms", method: "POST", business_module: Some("PERMISSION") },
        EndpointMeta { path: "/permissions/sync/perms", method: "POST", business_module: Some("PERMISSION") },
        EndpointMeta { path: "/permissions/{id}", method: "GET", business_module: Some("PERMISSION") },
        EndpointMeta { path: "/permissions/{id}", method: "PUT", business_module: Some("PERMISSION") },
        EndpointMeta { path: "/permissions/{id}", method: "DELETE", business_module: Some("PERMISSION") },
        EndpointMeta { path: "/permission-groups", method: "GET", business_module: Some("PERMISSION") },
        EndpointMeta { path: "/permission-groups", method: "POST", business_module: Some("PERMISSION") },
        EndpointMeta { path: "/permission-groups/{id}", method: "GET", business_module: Some("PERMISSION") },
        EndpointMeta { path: "/permission-groups/{id}", method: "PUT", business_module: Some("PERMISSION") },
        EndpointMeta { path: "/permission-groups/{id}", method: "DELETE", business_module: Some("PERMISSION") },
        EndpointMeta { path: "/dict/types", method: "GET", business_module: Some("DICT") },
        EndpointMeta { path: "/dict/types", method: "POST", business_module: Some("DICT") },
        EndpointMeta { path: "/dict/types", method: "DELETE", business_module: Some("DICT") },
        EndpointMeta { path: "/dict/types/code/{code}", method: "GET", business_module: Some("DICT") },
        EndpointMeta { path: "/dict/types/{id}", method: "GET", business_module: Some("DICT") },
        EndpointMeta { path: "/dict/types/{id}", method: "PUT", business_module: Some("DICT") },
        EndpointMeta { path: "/dict/entries", method: "GET", business_module: Some("DICT") },
        EndpointMeta { path: "/dict/entries", method: "POST", business_module: Some("DICT") },
        EndpointMeta { path: "/dict/entries", method: "DELETE", business_module: Some("DICT") },
        EndpointMeta { path: "/dict/entries/by-type-code", method: "GET", business_module: Some("DICT") },
        EndpointMeta { path: "/dict/entries/{id}", method: "PUT", business_module: Some("DICT") },
        EndpointMeta { path: "/access-keys", method: "GET", business_module: Some("SYSTEM") },
        EndpointMeta { path: "/access-keys", method: "POST", business_module: Some("SYSTEM") },
        EndpointMeta { path: "/access-keys/{id}", method: "GET", business_module: Some("SYSTEM") },
        EndpointMeta { path: "/access-keys/{id}", method: "PUT", business_module: Some("SYSTEM") },
        EndpointMeta { path: "/access-keys/{id}", method: "DELETE", business_module: Some("SYSTEM") },
        EndpointMeta { path: "/access-keys/{id}/secret", method: "PUT", business_module: Some("SYSTEM") },
        EndpointMeta { path: "/access-keys/token", method: "POST", business_module: Some("SYSTEM") },
        EndpointMeta { path: "/configs", method: "GET", business_module: Some("SYSTEM") },
        EndpointMeta { path: "/configs", method: "POST", business_module: Some("SYSTEM") },
        EndpointMeta { path: "/configs/{id}", method: "GET", business_module: Some("SYSTEM") },
        EndpointMeta { path: "/configs/{id}", method: "PUT", business_module: Some("SYSTEM") },
        EndpointMeta { path: "/configs/{id}", method: "DELETE", business_module: Some("SYSTEM") },
        EndpointMeta { path: "/dict/langs", method: "GET", business_module: Some("SYSTEM") },
        EndpointMeta { path: "/dict/langs", method: "POST", business_module: Some("SYSTEM") },
        EndpointMeta { path: "/dict/langs", method: "DELETE", business_module: Some("SYSTEM") },
        EndpointMeta { path: "/dict/langs/batch", method: "POST", business_module: Some("SYSTEM") },
        EndpointMeta { path: "/dict/langs/{id}", method: "GET", business_module: Some("SYSTEM") },
        EndpointMeta { path: "/dict/langs/{id}", method: "PUT", business_module: Some("SYSTEM") },
        EndpointMeta { path: "/login-policies", method: "GET", business_module: Some("SYSTEM") },
        EndpointMeta { path: "/login-policies", method: "POST", business_module: Some("SYSTEM") },
        EndpointMeta { path: "/login-policies/{id}", method: "GET", business_module: Some("SYSTEM") },
        EndpointMeta { path: "/login-policies/{id}", method: "PUT", business_module: Some("SYSTEM") },
        EndpointMeta { path: "/login-policies/{id}", method: "DELETE", business_module: Some("SYSTEM") },
        EndpointMeta { path: "/server-monitor", method: "GET", business_module: Some("SYSTEM") },
        EndpointMeta { path: "/notification-channels", method: "GET", business_module: Some("SYSTEM") },
        EndpointMeta { path: "/notification-channels", method: "POST", business_module: Some("SYSTEM") },
        EndpointMeta { path: "/notification-channels/{id}", method: "GET", business_module: Some("SYSTEM") },
        EndpointMeta { path: "/notification-channels/{id}", method: "PUT", business_module: Some("SYSTEM") },
        EndpointMeta { path: "/notification-channels/{id}", method: "DELETE", business_module: Some("SYSTEM") },
        EndpointMeta { path: "/notification-channels/{id}/send-test-email", method: "POST", business_module: Some("SYSTEM") },
        EndpointMeta { path: "/online-session/sessions", method: "GET", business_module: Some("SYSTEM") },
        EndpointMeta { path: "/online-session/my-sessions", method: "GET", business_module: Some("SYSTEM") },
        EndpointMeta { path: "/online-session/force-logout", method: "POST", business_module: Some("SYSTEM") },
        EndpointMeta { path: "/online-session/my-sessions/revoke", method: "POST", business_module: Some("SYSTEM") },
        EndpointMeta { path: "/files", method: "GET", business_module: Some("FILE") },
        EndpointMeta { path: "/files", method: "POST", business_module: Some("FILE") },
        EndpointMeta { path: "/files/{id}", method: "GET", business_module: Some("FILE") },
        EndpointMeta { path: "/files/{id}", method: "PUT", business_module: Some("FILE") },
        EndpointMeta { path: "/files/{id}", method: "DELETE", business_module: Some("FILE") },
        EndpointMeta { path: "/file/download", method: "GET", business_module: Some("FILE") },
        EndpointMeta { path: "/file/upload", method: "PUT", business_module: Some("FILE") },
        EndpointMeta { path: "/file/upload", method: "POST", business_module: Some("FILE") },
        EndpointMeta { path: "/file/image", method: "GET", business_module: Some("FILE") },
        EndpointMeta { path: "/tasks", method: "GET", business_module: Some("TASK") },
        EndpointMeta { path: "/tasks", method: "POST", business_module: Some("TASK") },
        EndpointMeta { path: "/tasks/type-name/{type_name}", method: "GET", business_module: Some("TASK") },
        EndpointMeta { path: "/tasks/{id}", method: "GET", business_module: Some("TASK") },
        EndpointMeta { path: "/tasks/{id}", method: "PUT", business_module: Some("TASK") },
        EndpointMeta { path: "/tasks/{id}", method: "DELETE", business_module: Some("TASK") },
        EndpointMeta { path: "/tasks:control", method: "POST", business_module: Some("TASK") },
        EndpointMeta { path: "/tasks:restart", method: "POST", business_module: Some("TASK") },
        EndpointMeta { path: "/tasks:start", method: "POST", business_module: Some("TASK") },
        EndpointMeta { path: "/tasks:stop", method: "POST", business_module: Some("TASK") },
        EndpointMeta { path: "/tasks:type-names", method: "GET", business_module: Some("TASK") },
        EndpointMeta { path: "/tasks/control", method: "POST", business_module: Some("TASK") },
        EndpointMeta { path: "/tasks/restart", method: "POST", business_module: Some("TASK") },
        EndpointMeta { path: "/tasks/start", method: "POST", business_module: Some("TASK") },
        EndpointMeta { path: "/tasks/stop", method: "POST", business_module: Some("TASK") },
        EndpointMeta { path: "/tasks/type-names", method: "GET", business_module: Some("TASK") },
        EndpointMeta { path: "/tenants:exists", method: "GET", business_module: Some("TENANT") },
        EndpointMeta { path: "/tenants/exists", method: "GET", business_module: Some("TENANT") },
        EndpointMeta { path: "/tenants", method: "GET", business_module: Some("TENANT") },
        EndpointMeta { path: "/tenants", method: "POST", business_module: Some("TENANT") },
        EndpointMeta { path: "/tenants/{id}", method: "GET", business_module: Some("TENANT") },
        EndpointMeta { path: "/tenants/{id}", method: "PUT", business_module: Some("TENANT") },
        EndpointMeta { path: "/tenants/{id}", method: "DELETE", business_module: Some("TENANT") },
        EndpointMeta { path: "/tenants/{id}/cleanup", method: "POST", business_module: Some("TENANT") },
        EndpointMeta { path: "/tenants/{id}/usage", method: "GET", business_module: Some("TENANT") },
        EndpointMeta { path: "/tenants:with-admin", method: "POST", business_module: Some("TENANT") },
        EndpointMeta { path: "/plans", method: "GET", business_module: Some("TENANT") },
        EndpointMeta { path: "/plans", method: "POST", business_module: Some("TENANT") },
        EndpointMeta { path: "/plans", method: "DELETE", business_module: Some("TENANT") },
        EndpointMeta { path: "/plans/{id}", method: "GET", business_module: Some("TENANT") },
        EndpointMeta { path: "/plans/{id}", method: "PUT", business_module: Some("TENANT") },
        EndpointMeta { path: "/plan-modules", method: "GET", business_module: Some("TENANT") },
        EndpointMeta { path: "/plan-modules", method: "POST", business_module: Some("TENANT") },
        EndpointMeta { path: "/plan-modules", method: "DELETE", business_module: Some("TENANT") },
        EndpointMeta { path: "/plan-modules/{id}", method: "GET", business_module: Some("TENANT") },
        EndpointMeta { path: "/plan-modules/{id}", method: "PUT", business_module: Some("TENANT") },
        EndpointMeta { path: "/plan-quotas", method: "GET", business_module: Some("TENANT") },
        EndpointMeta { path: "/plan-quotas", method: "POST", business_module: Some("TENANT") },
        EndpointMeta { path: "/plan-quotas", method: "DELETE", business_module: Some("TENANT") },
        EndpointMeta { path: "/plan-quotas/{id}", method: "PUT", business_module: Some("TENANT") },
        EndpointMeta { path: "/api-audit-logs", method: "GET", business_module: Some("LOG") },
        EndpointMeta { path: "/api-audit-logs/{id}", method: "GET", business_module: Some("LOG") },
        EndpointMeta { path: "/login-audit-logs", method: "GET", business_module: Some("LOG") },
        EndpointMeta { path: "/login-audit-logs/{id}", method: "GET", business_module: Some("LOG") },
        EndpointMeta { path: "/operation-audit-logs", method: "GET", business_module: Some("LOG") },
        EndpointMeta { path: "/operation-audit-logs/{id}", method: "GET", business_module: Some("LOG") },
        EndpointMeta { path: "/permission-audit-logs", method: "GET", business_module: Some("LOG") },
        EndpointMeta { path: "/permission-audit-logs/{id}", method: "GET", business_module: Some("LOG") },
        EndpointMeta { path: "/data-access-audit-logs", method: "GET", business_module: Some("LOG") },
        EndpointMeta { path: "/data-access-audit-logs/{id}", method: "GET", business_module: Some("LOG") },
        EndpointMeta { path: "/policy-evaluation-logs", method: "GET", business_module: Some("LOG") },
        EndpointMeta { path: "/policy-evaluation-logs/{id}", method: "GET", business_module: Some("LOG") },
        EndpointMeta { path: "/redis-cache-monitor", method: "GET", business_module: Some("LOG") },
        EndpointMeta { path: "/internal-message/messages", method: "GET", business_module: Some("INTERNAL_MESSAGE") },
        EndpointMeta { path: "/internal-message/messages/{id}", method: "GET", business_module: Some("INTERNAL_MESSAGE") },
        EndpointMeta { path: "/internal-message/messages/{id}", method: "PUT", business_module: Some("INTERNAL_MESSAGE") },
        EndpointMeta { path: "/internal-message/messages/{id}", method: "DELETE", business_module: Some("INTERNAL_MESSAGE") },
        EndpointMeta { path: "/internal-message/revoke", method: "POST", business_module: Some("INTERNAL_MESSAGE") },
        EndpointMeta { path: "/internal-message/send", method: "POST", business_module: Some("INTERNAL_MESSAGE") },
        EndpointMeta { path: "/internal-message/categories", method: "GET", business_module: Some("INTERNAL_MESSAGE") },
        EndpointMeta { path: "/internal-message/categories", method: "POST", business_module: Some("INTERNAL_MESSAGE") },
        EndpointMeta { path: "/internal-message/categories/{id}", method: "GET", business_module: Some("INTERNAL_MESSAGE") },
        EndpointMeta { path: "/internal-message/categories/{id}", method: "PUT", business_module: Some("INTERNAL_MESSAGE") },
        EndpointMeta { path: "/internal-message/categories/{id}", method: "DELETE", business_module: Some("INTERNAL_MESSAGE") },
        EndpointMeta { path: "/internal-message/inbox", method: "GET", business_module: Some("INTERNAL_MESSAGE") },
        EndpointMeta { path: "/internal-message/inbox/delete", method: "POST", business_module: Some("INTERNAL_MESSAGE") },
        EndpointMeta { path: "/internal-message/read", method: "POST", business_module: Some("INTERNAL_MESSAGE") },
        EndpointMeta { path: "/internal-message/status", method: "POST", business_module: Some("INTERNAL_MESSAGE") },
        EndpointMeta { path: "/scripts", method: "GET", business_module: None },
        EndpointMeta { path: "/scripts", method: "POST", business_module: None },
        EndpointMeta { path: "/scripts", method: "DELETE", business_module: None },
        EndpointMeta { path: "/scripts/count", method: "GET", business_module: None },
        EndpointMeta { path: "/scripts/name/{name}", method: "GET", business_module: None },
        EndpointMeta { path: "/scripts/{id}", method: "GET", business_module: None },
        EndpointMeta { path: "/scripts/{id}", method: "PUT", business_module: None },
        EndpointMeta { path: "/scripts/test_run", method: "POST", business_module: None },
        EndpointMeta { path: "/script/hooks", method: "GET", business_module: None },
        EndpointMeta { path: "/script/logs", method: "GET", business_module: None },
        EndpointMeta { path: "/script/logs/count", method: "GET", business_module: None },
        EndpointMeta { path: "/script/logs/purge", method: "POST", business_module: None },
    ]
}

} // verus!

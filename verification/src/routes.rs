//! The route tables of the API: for each route its method, its path, the
//! handler that answers it and the middleware layers around the handler.
//!
//! Every table keeps one layering rule: the app-token layer is the outermost
//! one, a jwt layer sits directly inside it, and the group layer sits
//! directly inside a jwt layer, so that each layer finds what the layers
//! outside it have checked.

use vstd::prelude::*;

verus! {

/// The method of a route.
#[derive(Debug, Clone, Copy, PartialEq, Eq, Structural)]
pub enum HttpMethod {
    Get,
    Post,
    Put,
    Patch,
    Delete,
}

/// A middleware layer.
#[derive(Debug, Clone, Copy, PartialEq, Eq, Structural)]
pub enum Middleware {
    /// Checks the app token of a request and loads the app.
    AppToken,
    /// Checks the token of the base app (the customer dashboard).
    AppTokenBaseApp,
    /// Checks the jwt of a request.
    Jwt,
    /// Reads the jwt of a request even where it has expired.
    JwtExpire,
    /// Reads the jwt of a request where there is one.
    JwtOptional,
    /// Loads the group of the request and the caller's membership.
    Group,
}

/// The layers around a handler, innermost first.
#[derive(Debug, Clone, Copy, PartialEq, Eq, Structural)]
pub enum Guard {
    App,
    AppBase,
    JwtApp,
    JwtAppBase,
    JwtExpireApp,
    JwtExpireAppBase,
    JwtOptionalApp,
    CustomerJwt,
    GroupJwtApp,
}

/// Whether a layer is an app-token layer.
pub open spec fn is_app_layer(m: Middleware) -> bool {
    m == Middleware::AppToken || m == Middleware::AppTokenBaseApp
}

/// Whether a layer reads a jwt.
pub open spec fn is_jwt_layer(m: Middleware) -> bool {
    m == Middleware::Jwt || m == Middleware::JwtExpire || m == Middleware::JwtOptional
}

/// The layering rule of a chain of layers (innermost first): the chain is
/// not empty; an app-token layer stands only outermost; a jwt layer stands
/// only directly inside an app-token layer, or alone (the customer's own
/// jwt); the group layer stands only innermost, directly inside a checked
/// jwt layer that sits inside the app-token layer.
pub open spec fn well_layered(mw: Seq<Middleware>) -> bool {
    &&& mw.len() >= 1
    &&& forall|i: int| 0 <= i < mw.len() - 1 ==> !is_app_layer(#[trigger] mw[i])
    &&& forall|i: int|
        0 <= i < mw.len() && is_jwt_layer(#[trigger] mw[i]) ==> (
            (i == mw.len() - 2 && is_app_layer(mw[i + 1])) || (mw.len() == 1 && mw[i] == Middleware::Jwt)
        )
    &&& forall|i: int|
        0 <= i < mw.len() && #[trigger] mw[i] == Middleware::Group ==> (
            i == 0 && mw.len() == 3 && mw[1] == Middleware::Jwt && is_app_layer(mw[2])
        )
}

/// A route: its method, its path pattern, the handler and the layers.
#[derive(Debug)]
pub struct Route {
    pub method: HttpMethod,
    pub path: &'static str,
    pub handler: &'static str,
    pub middleware: Vec<Middleware>,
}

/// The layers of a guard, innermost first.
pub open spec fn guard_layers(g: Guard) -> Seq<Middleware> {
    match g {
        Guard::App => seq![Middleware::AppToken],
        Guard::AppBase => seq![Middleware::AppTokenBaseApp],
        Guard::JwtApp => seq![Middleware::Jwt, Middleware::AppToken],
        Guard::JwtAppBase => seq![Middleware::Jwt, Middleware::AppTokenBaseApp],
        Guard::JwtExpireApp => seq![Middleware::JwtExpire, Middleware::AppToken],
        Guard::JwtExpireAppBase => seq![Middleware::JwtExpire, Middleware::AppTokenBaseApp],
        Guard::JwtOptionalApp => seq![Middleware::JwtOptional, Middleware::AppToken],
        Guard::CustomerJwt => seq![Middleware::Jwt],
        Guard::GroupJwtApp => seq![Middleware::Group, Middleware::Jwt, Middleware::AppToken],
    }
}

/// Every guard gives a well-layered chain.
pub proof fn lemma_guards_well_layered(g: Guard)
    ensures
        well_layered(guard_layers(g)),
{
    let mw = guard_layers(g);
    assert forall|i: int| 0 <= i < mw.len() && is_jwt_layer(#[trigger] mw[i]) implies (
        (i == mw.len() - 2 && is_app_layer(mw[i + 1])) || (mw.len() == 1 && mw[i] == Middleware::Jwt)
    ) by {
        if i == 0 && mw.len() == 3 {
            assert(mw[0] == Middleware::Group);
        }
    }
}

/// The layers of a guard, as a list.
pub fn guard_middleware(g: Guard) -> (mw: Vec<Middleware>)
    ensures
        mw@ == guard_layers(g),
{
    let mw = match g {
        Guard::App => vec![Middleware::AppToken],
        Guard::AppBase => vec![Middleware::AppTokenBaseApp],
        Guard::JwtApp => vec![Middleware::Jwt, Middleware::AppToken],
        Guard::JwtAppBase => vec![Middleware::Jwt, Middleware::AppTokenBaseApp],
        Guard::JwtExpireApp => vec![Middleware::JwtExpire, Middleware::AppToken],
        Guard::JwtExpireAppBase => vec![Middleware::JwtExpire, Middleware::AppTokenBaseApp],
        Guard::JwtOptionalApp => vec![Middleware::JwtOptional, Middleware::AppToken],
        Guard::CustomerJwt => vec![Middleware::Jwt],
        Guard::GroupJwtApp => vec![Middleware::Group, Middleware::Jwt, Middleware::AppToken],
    };
    assert(mw@ =~= guard_layers(g));
    mw
}

/// Whether a route is the entry `e` of a route list: the same method, path
/// and handler, and the layers of the entry's guard.
pub open spec fn route_is(r: Route, e: (HttpMethod, &'static str, &'static str, Guard)) -> bool {
    &&& r.method == e.0
    &&& r.path@ == e.1@
    &&& r.handler@ == e.2@
    &&& r.middleware@ == guard_layers(e.3)
}

/// Whether a table holds exactly the routes of a list, in its order.
pub open spec fn table_is(table: Seq<Route>, list: Seq<(HttpMethod, &'static str, &'static str, Guard)>) -> bool {
    &&& table.len() == list.len()
    &&& forall|i: int| 0 <= i < table.len() ==> route_is(#[trigger] table[i], list[i])
}

/// The routes of the main API: method, path, handler and guard of each.
pub open spec fn api_route_list() -> Seq<(HttpMethod, &'static str, &'static str, Guard)> {
    seq![
        (HttpMethod::Post, "/api/v1/customer/register", "customer::register", Guard::AppBase),
        (HttpMethod::Post, "/api/v1/customer/prepare_login", "customer::prepare_login", Guard::AppBase),
        (HttpMethod::Post, "/api/v1/customer/done_login", "customer::done_login", Guard::AppBase),
        (HttpMethod::Get, "/api/v1/customer/captcha", "customer::customer_captcha", Guard::AppBase),
        (HttpMethod::Put, "/api/v1/customer/password_reset", "customer::prepare_reset_password", Guard::AppBase),
        (HttpMethod::Put, "/api/v1/customer/password_reset_validation", "customer::done_reset_password", Guard::AppBase),
        (HttpMethod::Put, "/api/v1/customer/refresh", "customer::refresh_jwt", Guard::JwtExpireAppBase),
        (HttpMethod::Post, "/api/v1/customer/register_validation", "customer::done_register", Guard::JwtAppBase),
        (HttpMethod::Patch, "/api/v1/customer/email_resend", "customer::resend_email", Guard::JwtAppBase),
        (HttpMethod::Put, "/api/v1/customer", "customer::update", Guard::JwtAppBase),
        (HttpMethod::Put, "/api/v1/customer/data", "customer::update_data", Guard::JwtAppBase),
        (HttpMethod::Put, "/api/v1/customer/password", "customer::change_password", Guard::JwtAppBase),
        (HttpMethod::Delete, "/api/v1/customer", "customer::delete", Guard::JwtAppBase),
        (HttpMethod::Get, "/api/v1/customer/apps/:last_fetched_time/:last_app_id", "customer_app::get_all_apps", Guard::CustomerJwt),
        (HttpMethod::Post, "/api/v1/customer/app", "customer_app::create_app", Guard::CustomerJwt),
        (HttpMethod::Get, "/api/v1/customer/app/:app_id", "customer_app::get_app_details", Guard::CustomerJwt),
        (HttpMethod::Put, "/api/v1/customer/app/:app_id", "customer_app::update", Guard::CustomerJwt),
        (HttpMethod::Put, "/api/v1/customer/app/:app_id/options", "customer_app::update_options", Guard::CustomerJwt),
        (HttpMethod::Put, "/api/v1/customer/app/:app_id/file_options", "customer_app::update_file_options", Guard::CustomerJwt),
        (HttpMethod::Delete, "/api/v1/customer/app/:app_id", "customer_app::delete", Guard::CustomerJwt),
        (HttpMethod::Patch, "/api/v1/customer/app/:app_id/token_renew", "customer_app::renew_tokens", Guard::CustomerJwt),
        (HttpMethod::Patch, "/api/v1/customer/app/:app_id/new_jwt_keys", "customer_app::add_jwt_keys", Guard::CustomerJwt),
        (HttpMethod::Get, "/api/v1/customer/app/:app_id/jwt", "customer_app::get_jwt_details", Guard::CustomerJwt),
        (HttpMethod::Delete, "/api/v1/customer/app/:app_id/jwt/:jwt_id", "customer_app::delete_jwt_keys", Guard::CustomerJwt),
        (HttpMethod::Get, "/api/v1/user/:user_id/public_key", "user::get_public_key_data", Guard::App),
        (HttpMethod::Get, "/api/v1/user/:user_id/public_key/:key_id", "user::get_public_key_by_id", Guard::App),
        (HttpMethod::Get, "/api/v1/user/:user_id/verify_key/:key_id", "user::get_verify_key_by_id", Guard::App),
        (HttpMethod::Get, "/api/v1/group/:group_id/public_key", "group::get_public_key_data", Guard::App),
        (HttpMethod::Post, "/api/v1/exists", "user::exists", Guard::App),
        (HttpMethod::Post, "/api/v1/register", "user::register", Guard::App),
        (HttpMethod::Post, "/api/v1/prepare_login", "user::prepare_login", Guard::App),
        (HttpMethod::Post, "/api/v1/done_login", "user::done_login", Guard::App),
        (HttpMethod::Post, "/api/v1/user/prepare_register_device", "user::prepare_register_device", Guard::App),
        (HttpMethod::Put, "/api/v1/refresh", "user::refresh_jwt", Guard::JwtExpireApp),
        (HttpMethod::Post, "/api/v1/init", "user::init_user", Guard::JwtExpireApp),
        (HttpMethod::Post, "/api/v1/keys/sym_key", "key_management::register_sym_key", Guard::JwtApp),
        (HttpMethod::Delete, "/api/v1/keys/sym_key/:key_id", "key_management::delete_sym_key", Guard::JwtApp),
        (HttpMethod::Get, "/api/v1/keys/sym_key/master_key/:master_key_id/:last_fetched_time/:last_key_id", "key_management::get_all_sym_keys_to_master_key", Guard::App),
        (HttpMethod::Get, "/api/v1/keys/sym_key/:key_id", "key_management::get_sym_key_by_id", Guard::App),
        (HttpMethod::Get, "/api/v1/user/device/:last_fetched_time/:last_id", "user::get_devices", Guard::JwtApp),
        (HttpMethod::Put, "/api/v1/user", "user::update", Guard::JwtApp),
        (HttpMethod::Put, "/api/v1/user/done_register_device", "user::done_register_device", Guard::JwtApp),
        (HttpMethod::Put, "/api/v1/user/update_pw", "user::change_password", Guard::JwtApp),
        (HttpMethod::Put, "/api/v1/user/reset_pw", "user::reset_password", Guard::JwtApp),
        (HttpMethod::Delete, "/api/v1/user", "user::delete", Guard::JwtApp),
        (HttpMethod::Delete, "/api/v1/user/:user_id", "user::delete", Guard::JwtApp),
        (HttpMethod::Delete, "/api/v1/user/device/:device_id", "user::delete_device", Guard::JwtApp),
        (HttpMethod::Post, "/api/v1/user/user_keys/rotation", "user::user_group_key_rotation", Guard::JwtApp),
        (HttpMethod::Get, "/api/v1/user/user_keys/rotation", "user::get_user_group_keys_for_update", Guard::JwtApp),
        (HttpMethod::Put, "/api/v1/user/user_keys/rotation/:key_id", "user::done_key_rotation_for_device", Guard::JwtApp),
        (HttpMethod::Get, "/api/v1/user/user_keys/key/:key_id", "user::get_user_key", Guard::JwtApp),
        (HttpMethod::Get, "/api/v1/user/user_keys/keys/:last_fetched_time/:last_k_id", "user::get_user_keys", Guard::JwtApp),
        (HttpMethod::Put, "/api/v1/user/user_keys/session/:key_session_id", "user::device_key_upload", Guard::JwtApp),
        (HttpMethod::Post, "/api/v1/content", "content_management::create_non_related_content", Guard::JwtApp),
        (HttpMethod::Post, "/api/v1/content/:user_id", "content_management::create_user_content", Guard::JwtApp),
        (HttpMethod::Delete, "/api/v1/content/id/:content_id", "content_management::delete_content_by_id", Guard::JwtApp),
        (HttpMethod::Delete, "/api/v1/content/item/:item", "content_management::delete_content_by_item", Guard::JwtApp),
        (HttpMethod::Get, "/api/v1/content/all/:last_fetched_time/:last_id", "content_management::get_content_all", Guard::JwtApp),
        (HttpMethod::Get, "/api/v1/content/:cat_id/:last_fetched_time/:last_id", "content_management::get_content_all_from_cat", Guard::JwtApp),
        (HttpMethod::Get, "/api/v1/content/user/all/:last_fetched_time/:last_id", "content_management::get_content_for_user", Guard::JwtApp),
        (HttpMethod::Get, "/api/v1/content/user/:cat_id/:last_fetched_time/:last_id", "content_management::get_content_for_user_from_cat", Guard::JwtApp),
        (HttpMethod::Get, "/api/v1/content/access/item/:item", "content_management::check_access_to_content_by_item", Guard::JwtApp),
        (HttpMethod::Post, "/api/v1/content/group/:group_id", "content_management::create_group_content", Guard::GroupJwtApp),
        (HttpMethod::Get, "/api/v1/content/group/:group_id/all/:last_fetched_time/:last_id", "content_management::get_content_for_group", Guard::GroupJwtApp),
        (HttpMethod::Get, "/api/v1/content/group/:group_id/:cat_id/:last_fetched_time/:last_id", "content_management::get_content_for_group_from_cat", Guard::GroupJwtApp),
        (HttpMethod::Post, "/api/v1/search/group/:group_id", "content_searchable::create", Guard::GroupJwtApp),
        (HttpMethod::Delete, "/api/v1/search/group/:group_id", "content_searchable::delete", Guard::GroupJwtApp),
        (HttpMethod::Get, "/api/v1/search/group/:group_id/all/:search/:last_fetched_time/:last_id", "content_searchable::search_all", Guard::GroupJwtApp),
        (HttpMethod::Get, "/api/v1/search/group/:group_id/:cat_id/:search/:last_fetched_time/:last_id", "content_searchable::search_cat", Guard::GroupJwtApp),
        (HttpMethod::Post, "/api/v1/group", "group::create", Guard::JwtApp),
        (HttpMethod::Get, "/api/v1/group/all/:last_fetched_time/:last_group_id", "group::get_all_groups_for_user", Guard::JwtApp),
        (HttpMethod::Get, "/api/v1/group/invite/:last_fetched_time/:last_group_id", "group::get_invite_req", Guard::JwtApp),
        (HttpMethod::Get, "/api/v1/group/joins/:last_fetched_time/:last_group_id", "group::get_sent_join_req_for_user", Guard::JwtApp),
        (HttpMethod::Delete, "/api/v1/group/joins/:join_req_id", "group::delete_sent_join_req_for_user", Guard::JwtApp),
        (HttpMethod::Patch, "/api/v1/group/:group_id/invite", "group::accept_invite", Guard::JwtApp),
        (HttpMethod::Delete, "/api/v1/group/:group_id/invite", "group::reject_invite", Guard::JwtApp),
        (HttpMethod::Patch, "/api/v1/group/:group_id/join_req", "group::join_req", Guard::JwtApp),
        (HttpMethod::Get, "/api/v1/group/:group_id", "group::get_user_group_data", Guard::GroupJwtApp),
        (HttpMethod::Get, "/api/v1/group/:group_id/light", "group::get_user_group_light_data", Guard::GroupJwtApp),
        (HttpMethod::Get, "/api/v1/group/:group_id/update_check", "group::get_key_update_for_user", Guard::GroupJwtApp),
        (HttpMethod::Get, "/api/v1/group/:group_id/keys/:last_fetched_time/:last_k_id", "group::get_user_group_keys", Guard::GroupJwtApp),
        (HttpMethod::Get, "/api/v1/group/:group_id/key/:key_id", "group::get_user_group_key", Guard::GroupJwtApp),
        (HttpMethod::Get, "/api/v1/group/:group_id/member/:last_fetched_time/:last_user_id", "group::get_group_member", Guard::GroupJwtApp),
        (HttpMethod::Post, "/api/v1/group/:group_id/child", "group::create_child_group", Guard::GroupJwtApp),
        (HttpMethod::Post, "/api/v1/group/:group_id/connected", "group::create_connected_group_from_group", Guard::GroupJwtApp),
        (HttpMethod::Delete, "/api/v1/group/:group_id", "group::delete", Guard::GroupJwtApp),
        (HttpMethod::Delete, "/api/v1/group/:group_id/leave", "group::leave_group", Guard::GroupJwtApp),
        (HttpMethod::Delete, "/api/v1/group/:group_id/kick/:user_id", "group::kick_user_from_group", Guard::GroupJwtApp),
        (HttpMethod::Get, "/api/v1/group/:group_id/children/:last_fetched_time/:last_id", "group::get_all_first_level_children", Guard::GroupJwtApp),
        (HttpMethod::Get, "/api/v1/group/:group_id/all/:last_fetched_time/:last_group_id", "group::get_all_groups_for_group", Guard::GroupJwtApp),
        (HttpMethod::Get, "/api/v1/group/:group_id/invite/:last_fetched_time/:last_group_id", "group::get_invite_req_for_group", Guard::GroupJwtApp),
        (HttpMethod::Get, "/api/v1/group/:group_id/joins/:last_fetched_time/:last_group_id", "group::get_sent_join_req_for_group", Guard::GroupJwtApp),
        (HttpMethod::Delete, "/api/v1/group/:group_id/joins/:join_req_id", "group::delete_sent_join_req_for_group", Guard::GroupJwtApp),
        (HttpMethod::Delete, "/api/v1/group/:group_id/invite/:group_id_to_reject", "group::reject_invite_group", Guard::GroupJwtApp),
        (HttpMethod::Patch, "/api/v1/group/:group_id/invite/:group_id_to_join", "group::accept_invite_group", Guard::GroupJwtApp),
        (HttpMethod::Put, "/api/v1/group/:group_id/invite/:invited_user", "group::invite_request", Guard::GroupJwtApp),
        (HttpMethod::Put, "/api/v1/group/:group_id/invite_group/:invited_group", "group::invite_request_to_group", Guard::GroupJwtApp),
        (HttpMethod::Put, "/api/v1/group/:group_id/invite_auto/:invited_user", "group::invite_auto", Guard::GroupJwtApp),
        (HttpMethod::Put, "/api/v1/group/:group_id/invite_group_auto/:invited_group", "group::invite_auto_group", Guard::GroupJwtApp),
        (HttpMethod::Put, "/api/v1/group/:group_id/invite/session/:key_session_id", "group::insert_user_keys_via_session_invite", Guard::GroupJwtApp),
        (HttpMethod::Put, "/api/v1/group/:group_id/change_rank", "group::change_rank", Guard::GroupJwtApp),
        (HttpMethod::Patch, "/api/v1/group/:group_id/change_invite", "group::stop_invite", Guard::GroupJwtApp),
        (HttpMethod::Patch, "/api/v1/group/:group_id/join_req/:group_id_to_join", "group::join_req_as_group", Guard::GroupJwtApp),
        (HttpMethod::Get, "/api/v1/group/:group_id/join_req/:last_fetched_time/:last_user_id", "group::get_join_req", Guard::GroupJwtApp),
        (HttpMethod::Put, "/api/v1/group/:group_id/join_req/:join_user", "group::accept_join_req", Guard::GroupJwtApp),
        (HttpMethod::Delete, "/api/v1/group/:group_id/join_req/:join_user", "group::reject_join_req", Guard::GroupJwtApp),
        (HttpMethod::Put, "/api/v1/group/:group_id/join_req/session/:key_session_id", "group::insert_user_keys_via_session_join_req", Guard::GroupJwtApp),
        (HttpMethod::Post, "/api/v1/group/:group_id/key_rotation", "group::start_key_rotation", Guard::GroupJwtApp),
        (HttpMethod::Get, "/api/v1/group/:group_id/key_rotation", "group::get_keys_for_update", Guard::GroupJwtApp),
        (HttpMethod::Put, "/api/v1/group/:group_id/key_rotation/:key_id", "group::done_key_rotation_for_user", Guard::GroupJwtApp),
    ]
}

/// The routes of the file API: method, path, handler and guard of each.
pub open spec fn file_route_list() -> Seq<(HttpMethod, &'static str, &'static str, Guard)> {
    seq![
        (HttpMethod::Post, "/api/v1/file", "sentc_file_controller::register_file", Guard::JwtApp),
        (HttpMethod::Put, "/api/v1/file/:file_id", "sentc_file_controller::update_file_name", Guard::JwtApp),
        (HttpMethod::Delete, "/api/v1/file/:file_id", "sentc_file_controller::delete_file", Guard::JwtApp),
        (HttpMethod::Get, "/api/v1/file/:file_id", "sentc_file_controller::get_file", Guard::JwtOptionalApp),
        (HttpMethod::Get, "/api/v1/file/:file_id/part_fetch/:last_sequence", "sentc_file_controller::get_parts", Guard::App),
        (HttpMethod::Get, "/api/v1/file/part/:part_id", "sentc_file_controller::download_part", Guard::App),
        (HttpMethod::Post, "/api/v1/file/part/:session_id/:seq/:end", "sentc_file_controller::upload_part", Guard::JwtApp),
        (HttpMethod::Post, "/api/v1/group/:group_id/file", "sentc_file_controller::register_file_in_group", Guard::GroupJwtApp),
        (HttpMethod::Get, "/api/v1/group/:group_id/file/:file_id", "sentc_file_controller::get_file_in_group", Guard::GroupJwtApp),
        (HttpMethod::Delete, "/api/v1/group/:group_id/file/:file_id", "sentc_file_controller::delete_file_in_group", Guard::GroupJwtApp),
    ]
}

/// Whether a route list holds an entry answering `method` on `path` with the
/// handler `handler` behind the middleware layers `layers` (innermost first).
pub open spec fn lists_route(
    list: Seq<(HttpMethod, &'static str, &'static str, Guard)>,
    method: HttpMethod,
    path: Seq<char>,
    handler: Seq<char>,
    layers: Seq<Middleware>,
) -> bool {
    exists|i: int|
        #![trigger list[i]]
        0 <= i < list.len() && list[i].0 == method && list[i].1@ == path && list[i].2@ == handler
            && guard_layers(list[i].3) == layers
}

/// The main API answers every route of the server's router, each with its
/// handler and its middleware in the order the router adds them (the first
/// added innermost): with its 109 routes and the user deletion by id, and
/// nothing else, the table has 110 entries.
pub proof fn lemma_api_routes_as_registered()
    ensures
        api_route_list().len() == 110,
        lists_route(api_route_list(), HttpMethod::Post, "/api/v1/customer/register"@, "customer::register"@, seq![Middleware::AppTokenBaseApp]),
        lists_route(api_route_list(), HttpMethod::Post, "/api/v1/customer/prepare_login"@, "customer::prepare_login"@, seq![Middleware::AppTokenBaseApp]),
        lists_route(api_route_list(), HttpMethod::Post, "/api/v1/customer/done_login"@, "customer::done_login"@, seq![Middleware::AppTokenBaseApp]),
        lists_route(api_route_list(), HttpMethod::Get, "/api/v1/customer/captcha"@, "customer::customer_captcha"@, seq![Middleware::AppTokenBaseApp]),
        lists_route(api_route_list(), HttpMethod::Put, "/api/v1/customer/password_reset"@, "customer::prepare_reset_password"@, seq![Middleware::AppTokenBaseApp]),
        lists_route(api_route_list(), HttpMethod::Put, "/api/v1/customer/password_reset_validation"@, "customer::done_reset_password"@, seq![Middleware::AppTokenBaseApp]),
        lists_route(api_route_list(), HttpMethod::Put, "/api/v1/customer/refresh"@, "customer::refresh_jwt"@, seq![Middleware::JwtExpire, Middleware::AppTokenBaseApp]),
        lists_route(api_route_list(), HttpMethod::Post, "/api/v1/customer/register_validation"@, "customer::done_register"@, seq![Middleware::Jwt, Middleware::AppTokenBaseApp]),
        lists_route(api_route_list(), HttpMethod::Patch, "/api/v1/customer/email_resend"@, "customer::resend_email"@, seq![Middleware::Jwt, Middleware::AppTokenBaseApp]),
        lists_route(api_route_list(), HttpMethod::Put, "/api/v1/customer"@, "customer::update"@, seq![Middleware::Jwt, Middleware::AppTokenBaseApp]),
        lists_route(api_route_list(), HttpMethod::Put, "/api/v1/customer/data"@, "customer::update_data"@, seq![Middleware::Jwt, Middleware::AppTokenBaseApp]),
        lists_route(api_route_list(), HttpMethod::Put, "/api/v1/customer/password"@, "customer::change_password"@, seq![Middleware::Jwt, Middleware::AppTokenBaseApp]),
        lists_route(api_route_list(), HttpMethod::Delete, "/api/v1/customer"@, "customer::delete"@, seq![Middleware::Jwt, Middleware::AppTokenBaseApp]),
        lists_route(api_route_list(), HttpMethod::Get, "/api/v1/customer/apps/:last_fetched_time/:last_app_id"@, "customer_app::get_all_apps"@, seq![Middleware::Jwt]),
        lists_route(api_route_list(), HttpMethod::Post, "/api/v1/customer/app"@, "customer_app::create_app"@, seq![Middleware::Jwt]),
        lists_route(api_route_list(), HttpMethod::Get, "/api/v1/customer/app/:app_id"@, "customer_app::get_app_details"@, seq![Middleware::Jwt]),
        lists_route(api_route_list(), HttpMethod::Put, "/api/v1/customer/app/:app_id"@, "customer_app::update"@, seq![Middleware::Jwt]),
        lists_route(api_route_list(), HttpMethod::Put, "/api/v1/customer/app/:app_id/options"@, "customer_app::update_options"@, seq![Middleware::Jwt]),
        lists_route(api_route_list(), HttpMethod::Put, "/api/v1/customer/app/:app_id/file_options"@, "customer_app::update_file_options"@, seq![Middleware::Jwt]),
        lists_route(api_route_list(), HttpMethod::Delete, "/api/v1/customer/app/:app_id"@, "customer_app::delete"@, seq![Middleware::Jwt]),
        lists_route(api_route_list(), HttpMethod::Patch, "/api/v1/customer/app/:app_id/token_renew"@, "customer_app::renew_tokens"@, seq![Middleware::Jwt]),
        lists_route(api_route_list(), HttpMethod::Patch, "/api/v1/customer/app/:app_id/new_jwt_keys"@, "customer_app::add_jwt_keys"@, seq![Middleware::Jwt]),
        lists_route(api_route_list(), HttpMethod::Get, "/api/v1/customer/app/:app_id/jwt"@, "customer_app::get_jwt_details"@, seq![Middleware::Jwt]),
        lists_route(api_route_list(), HttpMethod::Delete, "/api/v1/customer/app/:app_id/jwt/:jwt_id"@, "customer_app::delete_jwt_keys"@, seq![Middleware::Jwt]),
        lists_route(api_route_list(), HttpMethod::Get, "/api/v1/user/:user_id/public_key"@, "user::get_public_key_data"@, seq![Middleware::AppToken]),
        lists_route(api_route_list(), HttpMethod::Get, "/api/v1/user/:user_id/public_key/:key_id"@, "user::get_public_key_by_id"@, seq![Middleware::AppToken]),
        lists_route(api_route_list(), HttpMethod::Get, "/api/v1/user/:user_id/verify_key/:key_id"@, "user::get_verify_key_by_id"@, seq![Middleware::AppToken]),
        lists_route(api_route_list(), HttpMethod::Get, "/api/v1/group/:group_id/public_key"@, "group::get_public_key_data"@, seq![Middleware::AppToken]),
        lists_route(api_route_list(), HttpMethod::Post, "/api/v1/exists"@, "user::exists"@, seq![Middleware::AppToken]),
        lists_route(api_route_list(), HttpMethod::Post, "/api/v1/register"@, "user::register"@, seq![Middleware::AppToken]),
        lists_route(api_route_list(), HttpMethod::Post, "/api/v1/prepare_login"@, "user::prepare_login"@, seq![Middleware::AppToken]),
        lists_route(api_route_list(), HttpMethod::Post, "/api/v1/done_login"@, "user::done_login"@, seq![Middleware::AppToken]),
        lists_route(api_route_list(), HttpMethod::Post, "/api/v1/user/prepare_register_device"@, "user::prepare_register_device"@, seq![Middleware::AppToken]),
        lists_route(api_route_list(), HttpMethod::Put, "/api/v1/refresh"@, "user::refresh_jwt"@, seq![Middleware::JwtExpire, Middleware::AppToken]),
        lists_route(api_route_list(), HttpMethod::Post, "/api/v1/init"@, "user::init_user"@, seq![Middleware::JwtExpire, Middleware::AppToken]),
        lists_route(api_route_list(), HttpMethod::Post, "/api/v1/keys/sym_key"@, "key_management::register_sym_key"@, seq![Middleware::Jwt, Middleware::AppToken]),
        lists_route(api_route_list(), HttpMethod::Delete, "/api/v1/keys/sym_key/:key_id"@, "key_management::delete_sym_key"@, seq![Middleware::Jwt, Middleware::AppToken]),
        lists_route(api_route_list(), HttpMethod::Get, "/api/v1/keys/sym_key/master_key/:master_key_id/:last_fetched_time/:last_key_id"@, "key_management::get_all_sym_keys_to_master_key"@, seq![Middleware::AppToken]),
        lists_route(api_route_list(), HttpMethod::Get, "/api/v1/keys/sym_key/:key_id"@, "key_management::get_sym_key_by_id"@, seq![Middleware::AppToken]),
        lists_route(api_route_list(), HttpMethod::Get, "/api/v1/user/device/:last_fetched_time/:last_id"@, "user::get_devices"@, seq![Middleware::Jwt, Middleware::AppToken]),
        lists_route(api_route_list(), HttpMethod::Put, "/api/v1/user"@, "user::update"@, seq![Middleware::Jwt, Middleware::AppToken]),
        lists_route(api_route_list(), HttpMethod::Put, "/api/v1/user/done_register_device"@, "user::done_register_device"@, seq![Middleware::Jwt, Middleware::AppToken]),
        lists_route(api_route_list(), HttpMethod::Put, "/api/v1/user/update_pw"@, "user::change_password"@, seq![Middleware::Jwt, Middleware::AppToken]),
        lists_route(api_route_list(), HttpMethod::Put, "/api/v1/user/reset_pw"@, "user::reset_password"@, seq![Middleware::Jwt, Middleware::AppToken]),
        lists_route(api_route_list(), HttpMethod::Delete, "/api/v1/user"@, "user::delete"@, seq![Middleware::Jwt, Middleware::AppToken]),
        lists_route(api_route_list(), HttpMethod::Delete, "/api/v1/user/device/:device_id"@, "user::delete_device"@, seq![Middleware::Jwt, Middleware::AppToken]),
        lists_route(api_route_list(), HttpMethod::Post, "/api/v1/user/user_keys/rotation"@, "user::user_group_key_rotation"@, seq![Middleware::Jwt, Middleware::AppToken]),
        lists_route(api_route_list(), HttpMethod::Get, "/api/v1/user/user_keys/rotation"@, "user::get_user_group_keys_for_update"@, seq![Middleware::Jwt, Middleware::AppToken]),
        lists_route(api_route_list(), HttpMethod::Put, "/api/v1/user/user_keys/rotation/:key_id"@, "user::done_key_rotation_for_device"@, seq![Middleware::Jwt, Middleware::AppToken]),
        lists_route(api_route_list(), HttpMethod::Get, "/api/v1/user/user_keys/key/:key_id"@, "user::get_user_key"@, seq![Middleware::Jwt, Middleware::AppToken]),
        lists_route(api_route_list(), HttpMethod::Get, "/api/v1/user/user_keys/keys/:last_fetched_time/:last_k_id"@, "user::get_user_keys"@, seq![Middleware::Jwt, Middleware::AppToken]),
        lists_route(api_route_list(), HttpMethod::Put, "/api/v1/user/user_keys/session/:key_session_id"@, "user::device_key_upload"@, seq![Middleware::Jwt, Middleware::AppToken]),
        lists_route(api_route_list(), HttpMethod::Post, "/api/v1/content"@, "content_management::create_non_related_content"@, seq![Middleware::Jwt, Middleware::AppToken]),
        lists_route(api_route_list(), HttpMethod::Post, "/api/v1/content/:user_id"@, "content_management::create_user_content"@, seq![Middleware::Jwt, Middleware::AppToken]),
        lists_route(api_route_list(), HttpMethod::Delete, "/api/v1/content/id/:content_id"@, "content_management::delete_content_by_id"@, seq![Middleware::Jwt, Middleware::AppToken]),
        lists_route(api_route_list(), HttpMethod::Delete, "/api/v1/content/item/:item"@, "content_management::delete_content_by_item"@, seq![Middleware::Jwt, Middleware::AppToken]),
        lists_route(api_route_list(), HttpMethod::Get, "/api/v1/content/all/:last_fetched_time/:last_id"@, "content_management::get_content_all"@, seq![Middleware::Jwt, Middleware::AppToken]),
        lists_route(api_route_list(), HttpMethod::Get, "/api/v1/content/:cat_id/:last_fetched_time/:last_id"@, "content_management::get_content_all_from_cat"@, seq![Middleware::Jwt, Middleware::AppToken]),
        lists_route(api_route_list(), HttpMethod::Get, "/api/v1/content/user/all/:last_fetched_time/:last_id"@, "content_management::get_content_for_user"@, seq![Middleware::Jwt, Middleware::AppToken]),
        lists_route(api_route_list(), HttpMethod::Get, "/api/v1/content/user/:cat_id/:last_fetched_time/:last_id"@, "content_management::get_content_for_user_from_cat"@, seq![Middleware::Jwt, Middleware::AppToken]),
        lists_route(api_route_list(), HttpMethod::Get, "/api/v1/content/access/item/:item"@, "content_management::check_access_to_content_by_item"@, seq![Middleware::Jwt, Middleware::AppToken]),
        lists_route(api_route_list(), HttpMethod::Post, "/api/v1/content/group/:group_id"@, "content_management::create_group_content"@, seq![Middleware::Group, Middleware::Jwt, Middleware::AppToken]),
        lists_route(api_route_list(), HttpMethod::Get, "/api/v1/content/group/:group_id/all/:last_fetched_time/:last_id"@, "content_management::get_content_for_group"@, seq![Middleware::Group, Middleware::Jwt, Middleware::AppToken]),
        lists_route(api_route_list(), HttpMethod::Get, "/api/v1/content/group/:group_id/:cat_id/:last_fetched_time/:last_id"@, "content_management::get_content_for_group_from_cat"@, seq![Middleware::Group, Middleware::Jwt, Middleware::AppToken]),
        lists_route(api_route_list(), HttpMethod::Post, "/api/v1/search/group/:group_id"@, "content_searchable::create"@, seq![Middleware::Group, Middleware::Jwt, Middleware::AppToken]),
        lists_route(api_route_list(), HttpMethod::Delete, "/api/v1/search/group/:group_id"@, "content_searchable::delete"@, seq![Middleware::Group, Middleware::Jwt, Middleware::AppToken]),
        lists_route(api_route_list(), HttpMethod::Get, "/api/v1/search/group/:group_id/all/:search/:last_fetched_time/:last_id"@, "content_searchable::search_all"@, seq![Middleware::Group, Middleware::Jwt, Middleware::AppToken]),
        lists_route(api_route_list(), HttpMethod::Get, "/api/v1/search/group/:group_id/:cat_id/:search/:last_fetched_time/:last_id"@, "content_searchable::search_cat"@, seq![Middleware::Group, Middleware::Jwt, Middleware::AppToken]),
        lists_route(api_route_list(), HttpMethod::Post, "/api/v1/group"@, "group::create"@, seq![Middleware::Jwt, Middleware::AppToken]),
        lists_route(api_route_list(), HttpMethod::Get, "/api/v1/group/all/:last_fetched_time/:last_group_id"@, "group::get_all_groups_for_user"@, seq![Middleware::Jwt, Middleware::AppToken]),
        lists_route(api_route_list(), HttpMethod::Get, "/api/v1/group/invite/:last_fetched_time/:last_group_id"@, "group::get_invite_req"@, seq![Middleware::Jwt, Middleware::AppToken]),
        lists_route(api_route_list(), HttpMethod::Get, "/api/v1/group/joins/:last_fetched_time/:last_group_id"@, "group::get_sent_join_req_for_user"@, seq![Middleware::Jwt, Middleware::AppToken]),
        lists_route(api_route_list(), HttpMethod::Delete, "/api/v1/group/joins/:join_req_id"@, "group::delete_sent_join_req_for_user"@, seq![Middleware::Jwt, Middleware::AppToken]),
        lists_route(api_route_list(), HttpMethod::Patch, "/api/v1/group/:group_id/invite"@, "group::accept_invite"@, seq![Middleware::Jwt, Middleware::AppToken]),
        lists_route(api_route_list(), HttpMethod::Delete, "/api/v1/group/:group_id/invite"@, "group::reject_invite"@, seq![Middleware::Jwt, Middleware::AppToken]),
        lists_route(api_route_list(), HttpMethod::Patch, "/api/v1/group/:group_id/join_req"@, "group::join_req"@, seq![Middleware::Jwt, Middleware::AppToken]),
        lists_route(api_route_list(), HttpMethod::Get, "/api/v1/group/:group_id"@, "group::get_user_group_data"@, seq![Middleware::Group, Middleware::Jwt, Middleware::AppToken]),
        lists_route(api_route_list(), HttpMethod::Get, "/api/v1/group/:group_id/light"@, "group::get_user_group_light_data"@, seq![Middleware::Group, Middleware::Jwt, Middleware::AppToken]),
        lists_route(api_route_list(), HttpMethod::Get, "/api/v1/group/:group_id/update_check"@, "group::get_key_update_for_user"@, seq![Middleware::Group, Middleware::Jwt, Middleware::AppToken]),
        lists_route(api_route_list(), HttpMethod::Get, "/api/v1/group/:group_id/keys/:last_fetched_time/:last_k_id"@, "group::get_user_group_keys"@, seq![Middleware::Group, Middleware::Jwt, Middleware::AppToken]),
        lists_route(api_route_list(), HttpMethod::Get, "/api/v1/group/:group_id/key/:key_id"@, "group::get_user_group_key"@, seq![Middleware::Group, Middleware::Jwt, Middleware::AppToken]),
        lists_route(api_route_list(), HttpMethod::Get, "/api/v1/group/:group_id/member/:last_fetched_time/:last_user_id"@, "group::get_group_member"@, seq![Middleware::Group, Middleware::Jwt, Middleware::AppToken]),
        lists_route(api_route_list(), HttpMethod::Post, "/api/v1/group/:group_id/child"@, "group::create_child_group"@, seq![Middleware::Group, Middleware::Jwt, Middleware::AppToken]),
        lists_route(api_route_list(), HttpMethod::Post, "/api/v1/group/:group_id/connected"@, "group::create_connected_group_from_group"@, seq![Middleware::Group, Middleware::Jwt, Middleware::AppToken]),
        lists_route(api_route_list(), HttpMethod::Delete, "/api/v1/group/:group_id"@, "group::delete"@, seq![Middleware::Group, Middleware::Jwt, Middleware::AppToken]),
        lists_route(api_route_list(), HttpMethod::Delete, "/api/v1/group/:group_id/leave"@, "group::leave_group"@, seq![Middleware::Group, Middleware::Jwt, Middleware::AppToken]),
        lists_route(api_route_list(), HttpMethod::Delete, "/api/v1/group/:group_id/kick/:user_id"@, "group::kick_user_from_group"@, seq![Middleware::Group, Middleware::Jwt, Middleware::AppToken]),
        lists_route(api_route_list(), HttpMethod::Get, "/api/v1/group/:group_id/children/:last_fetched_time/:last_id"@, "group::get_all_first_level_children"@, seq![Middleware::Group, Middleware::Jwt, Middleware::AppToken]),
        lists_route(api_route_list(), HttpMethod::Get, "/api/v1/group/:group_id/all/:last_fetched_time/:last_group_id"@, "group::get_all_groups_for_group"@, seq![Middleware::Group, Middleware::Jwt, Middleware::AppToken]),
        lists_route(api_route_list(), HttpMethod::Get, "/api/v1/group/:group_id/invite/:last_fetched_time/:last_group_id"@, "group::get_invite_req_for_group"@, seq![Middleware::Group, Middleware::Jwt, Middleware::AppToken]),
        lists_route(api_route_list(), HttpMethod::Get, "/api/v1/group/:group_id/joins/:last_fetched_time/:last_group_id"@, "group::get_sent_join_req_for_group"@, seq![Middleware::Group, Middleware::Jwt, Middleware::AppToken]),
        lists_route(api_route_list(), HttpMethod::Delete, "/api/v1/group/:group_id/joins/:join_req_id"@, "group::delete_sent_join_req_for_group"@, seq![Middleware::Group, Middleware::Jwt, Middleware::AppToken]),
        lists_route(api_route_list(), HttpMethod::Delete, "/api/v1/group/:group_id/invite/:group_id_to_reject"@, "group::reject_invite_group"@, seq![Middleware::Group, Middleware::Jwt, Middleware::AppToken]),
        lists_route(api_route_list(), HttpMethod::Patch, "/api/v1/group/:group_id/invite/:group_id_to_join"@, "group::accept_invite_group"@, seq![Middleware::Group, Middleware::Jwt, Middleware::AppToken]),
        lists_route(api_route_list(), HttpMethod::Put, "/api/v1/group/:group_id/invite/:invited_user"@, "group::invite_request"@, seq![Middleware::Group, Middleware::Jwt, Middleware::AppToken]),
        lists_route(api_route_list(), HttpMethod::Put, "/api/v1/group/:group_id/invite_group/:invited_group"@, "group::invite_request_to_group"@, seq![Middleware::Group, Middleware::Jwt, Middleware::AppToken]),
        lists_route(api_route_list(), HttpMethod::Put, "/api/v1/group/:group_id/invite_auto/:invited_user"@, "group::invite_auto"@, seq![Middleware::Group, Middleware::Jwt, Middleware::AppToken]),
        lists_route(api_route_list(), HttpMethod::Put, "/api/v1/group/:group_id/invite_group_auto/:invited_group"@, "group::invite_auto_group"@, seq![Middleware::Group, Middleware::Jwt, Middleware::AppToken]),
        lists_route(api_route_list(), HttpMethod::Put, "/api/v1/group/:group_id/invite/session/:key_session_id"@, "group::insert_user_keys_via_session_invite"@, seq![Middleware::Group, Middleware::Jwt, Middleware::AppToken]),
        lists_route(api_route_list(), HttpMethod::Put, "/api/v1/group/:group_id/change_rank"@, "group::change_rank"@, seq![Middleware::Group, Middleware::Jwt, Middleware::AppToken]),
        lists_route(api_route_list(), HttpMethod::Patch, "/api/v1/group/:group_id/change_invite"@, "group::stop_invite"@, seq![Middleware::Group, Middleware::Jwt, Middleware::AppToken]),
        lists_route(api_route_list(), HttpMethod::Patch, "/api/v1/group/:group_id/join_req/:group_id_to_join"@, "group::join_req_as_group"@, seq![Middleware::Group, Middleware::Jwt, Middleware::AppToken]),
        lists_route(api_route_list(), HttpMethod::Get, "/api/v1/group/:group_id/join_req/:last_fetched_time/:last_user_id"@, "group::get_join_req"@, seq![Middleware::Group, Middleware::Jwt, Middleware::AppToken]),
        lists_route(api_route_list(), HttpMethod::Put, "/api/v1/group/:group_id/join_req/:join_user"@, "group::accept_join_req"@, seq![Middleware::Group, Middleware::Jwt, Middleware::AppToken]),
        lists_route(api_route_list(), HttpMethod::Delete, "/api/v1/group/:group_id/join_req/:join_user"@, "group::reject_join_req"@, seq![Middleware::Group, Middleware::Jwt, Middleware::AppToken]),
        lists_route(api_route_list(), HttpMethod::Put, "/api/v1/group/:group_id/join_req/session/:key_session_id"@, "group::insert_user_keys_via_session_join_req"@, seq![Middleware::Group, Middleware::Jwt, Middleware::AppToken]),
        lists_route(api_route_list(), HttpMethod::Post, "/api/v1/group/:group_id/key_rotation"@, "group::start_key_rotation"@, seq![Middleware::Group, Middleware::Jwt, Middleware::AppToken]),
        lists_route(api_route_list(), HttpMethod::Get, "/api/v1/group/:group_id/key_rotation"@, "group::get_keys_for_update"@, seq![Middleware::Group, Middleware::Jwt, Middleware::AppToken]),
        lists_route(api_route_list(), HttpMethod::Put, "/api/v1/group/:group_id/key_rotation/:key_id"@, "group::done_key_rotation_for_user"@, seq![Middleware::Group, Middleware::Jwt, Middleware::AppToken]),
        lists_route(api_route_list(), HttpMethod::Delete, "/api/v1/user/:user_id"@, "user::delete"@, seq![Middleware::Jwt, Middleware::AppToken]),
{
    let l = api_route_list();
    assert(l[0].0 == HttpMethod::Post);
    assert(l[1].0 == HttpMethod::Post);
    assert(l[2].0 == HttpMethod::Post);
    assert(l[3].0 == HttpMethod::Get);
    assert(l[4].0 == HttpMethod::Put);
    assert(l[5].0 == HttpMethod::Put);
    assert(l[6].0 == HttpMethod::Put);
    assert(l[7].0 == HttpMethod::Post);
    assert(l[8].0 == HttpMethod::Patch);
    assert(l[9].0 == HttpMethod::Put);
    assert(l[10].0 == HttpMethod::Put);
    assert(l[11].0 == HttpMethod::Put);
    assert(l[12].0 == HttpMethod::Delete);
    assert(l[13].0 == HttpMethod::Get);
    assert(l[14].0 == HttpMethod::Post);
    assert(l[15].0 == HttpMethod::Get);
    assert(l[16].0 == HttpMethod::Put);
    assert(l[17].0 == HttpMethod::Put);
    assert(l[18].0 == HttpMethod::Put);
    assert(l[19].0 == HttpMethod::Delete);
    assert(l[20].0 == HttpMethod::Patch);
    assert(l[21].0 == HttpMethod::Patch);
    assert(l[22].0 == HttpMethod::Get);
    assert(l[23].0 == HttpMethod::Delete);
    assert(l[24].0 == HttpMethod::Get);
    assert(l[25].0 == HttpMethod::Get);
    assert(l[26].0 == HttpMethod::Get);
    assert(l[27].0 == HttpMethod::Get);
    assert(l[28].0 == HttpMethod::Post);
    assert(l[29].0 == HttpMethod::Post);
    assert(l[30].0 == HttpMethod::Post);
    assert(l[31].0 == HttpMethod::Post);
    assert(l[32].0 == HttpMethod::Post);
    assert(l[33].0 == HttpMethod::Put);
    assert(l[34].0 == HttpMethod::Post);
    assert(l[35].0 == HttpMethod::Post);
    assert(l[36].0 == HttpMethod::Delete);
    assert(l[37].0 == HttpMethod::Get);
    assert(l[38].0 == HttpMethod::Get);
    assert(l[39].0 == HttpMethod::Get);
    assert(l[40].0 == HttpMethod::Put);
    assert(l[41].0 == HttpMethod::Put);
    assert(l[42].0 == HttpMethod::Put);
    assert(l[43].0 == HttpMethod::Put);
    assert(l[44].0 == HttpMethod::Delete);
    assert(l[46].0 == HttpMethod::Delete);
    assert(l[47].0 == HttpMethod::Post);
    assert(l[48].0 == HttpMethod::Get);
    assert(l[49].0 == HttpMethod::Put);
    assert(l[50].0 == HttpMethod::Get);
    assert(l[51].0 == HttpMethod::Get);
    assert(l[52].0 == HttpMethod::Put);
    assert(l[53].0 == HttpMethod::Post);
    assert(l[54].0 == HttpMethod::Post);
    assert(l[55].0 == HttpMethod::Delete);
    assert(l[56].0 == HttpMethod::Delete);
    assert(l[57].0 == HttpMethod::Get);
    assert(l[58].0 == HttpMethod::Get);
    assert(l[59].0 == HttpMethod::Get);
    assert(l[60].0 == HttpMethod::Get);
    assert(l[61].0 == HttpMethod::Get);
    assert(l[62].0 == HttpMethod::Post);
    assert(l[63].0 == HttpMethod::Get);
    assert(l[64].0 == HttpMethod::Get);
    assert(l[65].0 == HttpMethod::Post);
    assert(l[66].0 == HttpMethod::Delete);
    assert(l[67].0 == HttpMethod::Get);
    assert(l[68].0 == HttpMethod::Get);
    assert(l[69].0 == HttpMethod::Post);
    assert(l[70].0 == HttpMethod::Get);
    assert(l[71].0 == HttpMethod::Get);
    assert(l[72].0 == HttpMethod::Get);
    assert(l[73].0 == HttpMethod::Delete);
    assert(l[74].0 == HttpMethod::Patch);
    assert(l[75].0 == HttpMethod::Delete);
    assert(l[76].0 == HttpMethod::Patch);
    assert(l[77].0 == HttpMethod::Get);
    assert(l[78].0 == HttpMethod::Get);
    assert(l[79].0 == HttpMethod::Get);
    assert(l[80].0 == HttpMethod::Get);
    assert(l[81].0 == HttpMethod::Get);
    assert(l[82].0 == HttpMethod::Get);
    assert(l[83].0 == HttpMethod::Post);
    assert(l[84].0 == HttpMethod::Post);
    assert(l[85].0 == HttpMethod::Delete);
    assert(l[86].0 == HttpMethod::Delete);
    assert(l[87].0 == HttpMethod::Delete);
    assert(l[88].0 == HttpMethod::Get);
    assert(l[89].0 == HttpMethod::Get);
    assert(l[90].0 == HttpMethod::Get);
    assert(l[91].0 == HttpMethod::Get);
    assert(l[92].0 == HttpMethod::Delete);
    assert(l[93].0 == HttpMethod::Delete);
    assert(l[94].0 == HttpMethod::Patch);
    assert(l[95].0 == HttpMethod::Put);
    assert(l[96].0 == HttpMethod::Put);
    assert(l[97].0 == HttpMethod::Put);
    assert(l[98].0 == HttpMethod::Put);
    assert(l[99].0 == HttpMethod::Put);
    assert(l[100].0 == HttpMethod::Put);
    assert(l[101].0 == HttpMethod::Patch);
    assert(l[102].0 == HttpMethod::Patch);
    assert(l[103].0 == HttpMethod::Get);
    assert(l[104].0 == HttpMethod::Put);
    assert(l[105].0 == HttpMethod::Delete);
    assert(l[106].0 == HttpMethod::Put);
    assert(l[107].0 == HttpMethod::Post);
    assert(l[108].0 == HttpMethod::Get);
    assert(l[109].0 == HttpMethod::Put);
    assert(l[45].0 == HttpMethod::Delete);
}

/// The file API answers every route of the file server's router, each with
/// its handler and its middleware in the order the router adds them, and
/// nothing else.
pub proof fn lemma_file_routes_as_registered()
    ensures
        file_route_list().len() == 10,
        lists_route(file_route_list(), HttpMethod::Post, "/api/v1/file"@, "sentc_file_controller::register_file"@, seq![Middleware::Jwt, Middleware::AppToken]),
        lists_route(file_route_list(), HttpMethod::Put, "/api/v1/file/:file_id"@, "sentc_file_controller::update_file_name"@, seq![Middleware::Jwt, Middleware::AppToken]),
        lists_route(file_route_list(), HttpMethod::Delete, "/api/v1/file/:file_id"@, "sentc_file_controller::delete_file"@, seq![Middleware::Jwt, Middleware::AppToken]),
        lists_route(file_route_list(), HttpMethod::Get, "/api/v1/file/:file_id"@, "sentc_file_controller::get_file"@, seq![Middleware::JwtOptional, Middleware::AppToken]),
        lists_route(file_route_list(), HttpMethod::Get, "/api/v1/file/:file_id/part_fetch/:last_sequence"@, "sentc_file_controller::get_parts"@, seq![Middleware::AppToken]),
        lists_route(file_route_list(), HttpMethod::Get, "/api/v1/file/part/:part_id"@, "sentc_file_controller::download_part"@, seq![Middleware::AppToken]),
        lists_route(file_route_list(), HttpMethod::Post, "/api/v1/file/part/:session_id/:seq/:end"@, "sentc_file_controller::upload_part"@, seq![Middleware::Jwt, Middleware::AppToken]),
        lists_route(file_route_list(), HttpMethod::Post, "/api/v1/group/:group_id/file"@, "sentc_file_controller::register_file_in_group"@, seq![Middleware::Group, Middleware::Jwt, Middleware::AppToken]),
        lists_route(file_route_list(), HttpMethod::Get, "/api/v1/group/:group_id/file/:file_id"@, "sentc_file_controller::get_file_in_group"@, seq![Middleware::Group, Middleware::Jwt, Middleware::AppToken]),
        lists_route(file_route_list(), HttpMethod::Delete, "/api/v1/group/:group_id/file/:file_id"@, "sentc_file_controller::delete_file_in_group"@, seq![Middleware::Group, Middleware::Jwt, Middleware::AppToken]),
{
    let l = file_route_list();
    assert(l[0].0 == HttpMethod::Post);
    assert(l[1].0 == HttpMethod::Put);
    assert(l[2].0 == HttpMethod::Delete);
    assert(l[3].0 == HttpMethod::Get);
    assert(l[4].0 == HttpMethod::Get);
    assert(l[5].0 == HttpMethod::Get);
    assert(l[6].0 == HttpMethod::Post);
    assert(l[7].0 == HttpMethod::Post);
    assert(l[8].0 == HttpMethod::Get);
    assert(l[9].0 == HttpMethod::Delete);
}

/// Whether two entries of a route list answer the same method on the same path.
pub open spec fn same_entry_endpoint(
    a: (HttpMethod, &'static str, &'static str, Guard),
    b: (HttpMethod, &'static str, &'static str, Guard),
) -> bool {
    a.0 == b.0 && a.1@ == b.1@
}

/// Whether no two entries of a route list answer the same method on the same path.
pub open spec fn endpoints_unique(list: Seq<(HttpMethod, &'static str, &'static str, Guard)>) -> bool {
    forall|i: int, j: int| 0 <= i < j < list.len() ==> !#[trigger] same_entry_endpoint(list[i], list[j])
}

/// No two routes of the main API answer the same method on the same path.
pub proof fn lemma_api_endpoints_unique()
    ensures
        endpoints_unique(api_route_list()),
{
    reveal_strlit("/api/v1/customer/register");
    reveal_strlit("/api/v1/customer/prepare_login");
    reveal_strlit("/api/v1/customer/done_login");
    reveal_strlit("/api/v1/customer/captcha");
    reveal_strlit("/api/v1/customer/password_reset");
    reveal_strlit("/api/v1/customer/password_reset_validation");
    reveal_strlit("/api/v1/customer/refresh");
    reveal_strlit("/api/v1/customer/register_validation");
    reveal_strlit("/api/v1/customer/email_resend");
    reveal_strlit("/api/v1/customer");
    reveal_strlit("/api/v1/customer/data");
    reveal_strlit("/api/v1/customer/password");
    reveal_strlit("/api/v1/customer/apps/:last_fetched_time/:last_app_id");
    reveal_strlit("/api/v1/customer/app");
    reveal_strlit("/api/v1/customer/app/:app_id");
    reveal_strlit("/api/v1/customer/app/:app_id/options");
    reveal_strlit("/api/v1/customer/app/:app_id/file_options");
    reveal_strlit("/api/v1/customer/app/:app_id/token_renew");
    reveal_strlit("/api/v1/customer/app/:app_id/new_jwt_keys");
    reveal_strlit("/api/v1/customer/app/:app_id/jwt");
    reveal_strlit("/api/v1/customer/app/:app_id/jwt/:jwt_id");
    reveal_strlit("/api/v1/user/:user_id/public_key");
    reveal_strlit("/api/v1/user/:user_id/public_key/:key_id");
    reveal_strlit("/api/v1/user/:user_id/verify_key/:key_id");
    reveal_strlit("/api/v1/group/:group_id/public_key");
    reveal_strlit("/api/v1/exists");
    reveal_strlit("/api/v1/register");
    reveal_strlit("/api/v1/prepare_login");
    reveal_strlit("/api/v1/done_login");
    reveal_strlit("/api/v1/user/prepare_register_device");
    reveal_strlit("/api/v1/refresh");
    reveal_strlit("/api/v1/init");
    reveal_strlit("/api/v1/keys/sym_key");
    reveal_strlit("/api/v1/keys/sym_key/:key_id");
    reveal_strlit("/api/v1/keys/sym_key/master_key/:master_key_id/:last_fetched_time/:last_key_id");
    reveal_strlit("/api/v1/user/device/:last_fetched_time/:last_id");
    reveal_strlit("/api/v1/user");
    reveal_strlit("/api/v1/user/done_register_device");
    reveal_strlit("/api/v1/user/update_pw");
    reveal_strlit("/api/v1/user/reset_pw");
    reveal_strlit("/api/v1/user/:user_id");
    reveal_strlit("/api/v1/user/device/:device_id");
    reveal_strlit("/api/v1/user/user_keys/rotation");
    reveal_strlit("/api/v1/user/user_keys/rotation/:key_id");
    reveal_strlit("/api/v1/user/user_keys/key/:key_id");
    reveal_strlit("/api/v1/user/user_keys/keys/:last_fetched_time/:last_k_id");
    reveal_strlit("/api/v1/user/user_keys/session/:key_session_id");
    reveal_strlit("/api/v1/content");
    reveal_strlit("/api/v1/content/:user_id");
    reveal_strlit("/api/v1/content/id/:content_id");
    reveal_strlit("/api/v1/content/item/:item");
    reveal_strlit("/api/v1/content/all/:last_fetched_time/:last_id");
    reveal_strlit("/api/v1/content/:cat_id/:last_fetched_time/:last_id");
    reveal_strlit("/api/v1/content/user/all/:last_fetched_time/:last_id");
    reveal_strlit("/api/v1/content/user/:cat_id/:last_fetched_time/:last_id");
    reveal_strlit("/api/v1/content/access/item/:item");
    reveal_strlit("/api/v1/content/group/:group_id");
    reveal_strlit("/api/v1/content/group/:group_id/all/:last_fetched_time/:last_id");
    reveal_strlit("/api/v1/content/group/:group_id/:cat_id/:last_fetched_time/:last_id");
    reveal_strlit("/api/v1/search/group/:group_id");
    reveal_strlit("/api/v1/search/group/:group_id/all/:search/:last_fetched_time/:last_id");
    reveal_strlit("/api/v1/search/group/:group_id/:cat_id/:search/:last_fetched_time/:last_id");
    reveal_strlit("/api/v1/group");
    reveal_strlit("/api/v1/group/all/:last_fetched_time/:last_group_id");
    reveal_strlit("/api/v1/group/invite/:last_fetched_time/:last_group_id");
    reveal_strlit("/api/v1/group/joins/:last_fetched_time/:last_group_id");
    reveal_strlit("/api/v1/group/joins/:join_req_id");
    reveal_strlit("/api/v1/group/:group_id/invite");
    reveal_strlit("/api/v1/group/:group_id/join_req");
    reveal_strlit("/api/v1/group/:group_id");
    reveal_strlit("/api/v1/group/:group_id/light");
    reveal_strlit("/api/v1/group/:group_id/update_check");
    reveal_strlit("/api/v1/group/:group_id/keys/:last_fetched_time/:last_k_id");
    reveal_strlit("/api/v1/group/:group_id/key/:key_id");
    reveal_strlit("/api/v1/group/:group_id/member/:last_fetched_time/:last_user_id");
    reveal_strlit("/api/v1/group/:group_id/child");
    reveal_strlit("/api/v1/group/:group_id/connected");
    reveal_strlit("/api/v1/group/:group_id/leave");
    reveal_strlit("/api/v1/group/:group_id/kick/:user_id");
    reveal_strlit("/api/v1/group/:group_id/children/:last_fetched_time/:last_id");
    reveal_strlit("/api/v1/group/:group_id/all/:last_fetched_time/:last_group_id");
    reveal_strlit("/api/v1/group/:group_id/invite/:last_fetched_time/:last_group_id");
    reveal_strlit("/api/v1/group/:group_id/joins/:last_fetched_time/:last_group_id");
    reveal_strlit("/api/v1/group/:group_id/joins/:join_req_id");
    reveal_strlit("/api/v1/group/:group_id/invite/:group_id_to_reject");
    reveal_strlit("/api/v1/group/:group_id/invite/:group_id_to_join");
    reveal_strlit("/api/v1/group/:group_id/invite/:invited_user");
    reveal_strlit("/api/v1/group/:group_id/invite_group/:invited_group");
    reveal_strlit("/api/v1/group/:group_id/invite_auto/:invited_user");
    reveal_strlit("/api/v1/group/:group_id/invite_group_auto/:invited_group");
    reveal_strlit("/api/v1/group/:group_id/invite/session/:key_session_id");
    reveal_strlit("/api/v1/group/:group_id/change_rank");
    reveal_strlit("/api/v1/group/:group_id/change_invite");
    reveal_strlit("/api/v1/group/:group_id/join_req/:group_id_to_join");
    reveal_strlit("/api/v1/group/:group_id/join_req/:last_fetched_time/:last_user_id");
    reveal_strlit("/api/v1/group/:group_id/join_req/:join_user");
    reveal_strlit("/api/v1/group/:group_id/join_req/session/:key_session_id");
    reveal_strlit("/api/v1/group/:group_id/key_rotation");
    reveal_strlit("/api/v1/group/:group_id/key_rotation/:key_id");
    assert("/api/v1/customer/register"@.len() == 25 && "/api/v1/customer/register"@[8] == 'c' && "/api/v1/customer/register"@[22] == 't' && "/api/v1/customer/register"@[24] == 'r');
    assert("/api/v1/customer/prepare_login"@.len() == 30 && "/api/v1/customer/prepare_login"@[8] == 'c' && "/api/v1/customer/prepare_login"@[22] == 'r' && "/api/v1/customer/prepare_login"@[24] == '_');
    assert("/api/v1/customer/done_login"@.len() == 27 && "/api/v1/customer/done_login"@[8] == 'c' && "/api/v1/customer/done_login"@[22] == 'l' && "/api/v1/customer/done_login"@[24] == 'g');
    assert("/api/v1/customer/captcha"@.len() == 24 && "/api/v1/customer/captcha"@[8] == 'c' && "/api/v1/customer/captcha"@[22] == 'h');
    assert("/api/v1/customer/password_reset"@.len() == 31 && "/api/v1/customer/password_reset"@[8] == 'c' && "/api/v1/customer/password_reset"@[22] == 'o' && "/api/v1/customer/password_reset"@[24] == 'd');
    assert("/api/v1/customer/password_reset_validation"@.len() == 42 && "/api/v1/customer/password_reset_validation"@[8] == 'c' && "/api/v1/customer/password_reset_validation"@[22] == 'o' && "/api/v1/customer/password_reset_validation"@[24] == 'd');
    assert("/api/v1/customer/refresh"@.len() == 24 && "/api/v1/customer/refresh"@[8] == 'c' && "/api/v1/customer/refresh"@[22] == 's');
    assert("/api/v1/customer/register_validation"@.len() == 36 && "/api/v1/customer/register_validation"@[8] == 'c' && "/api/v1/customer/register_validation"@[22] == 't' && "/api/v1/customer/register_validation"@[24] == 'r');
    assert("/api/v1/customer/email_resend"@.len() == 29 && "/api/v1/customer/email_resend"@[8] == 'c' && "/api/v1/customer/email_resend"@[22] == '_' && "/api/v1/customer/email_resend"@[24] == 'e');
    assert("/api/v1/customer"@.len() == 16 && "/api/v1/customer"@[8] == 'c');
    assert("/api/v1/customer/data"@.len() == 21 && "/api/v1/customer/data"@[8] == 'c');
    assert("/api/v1/customer/password"@.len() == 25 && "/api/v1/customer/password"@[8] == 'c' && "/api/v1/customer/password"@[22] == 'o' && "/api/v1/customer/password"@[24] == 'd');
    assert("/api/v1/customer/apps/:last_fetched_time/:last_app_id"@.len() == 53 && "/api/v1/customer/apps/:last_fetched_time/:last_app_id"@[8] == 'c' && "/api/v1/customer/apps/:last_fetched_time/:last_app_id"@[22] == ':' && "/api/v1/customer/apps/:last_fetched_time/:last_app_id"@[24] == 'a');
    assert("/api/v1/customer/app"@.len() == 20 && "/api/v1/customer/app"@[8] == 'c');
    assert("/api/v1/customer/app/:app_id"@.len() == 28 && "/api/v1/customer/app/:app_id"@[8] == 'c' && "/api/v1/customer/app/:app_id"@[22] == 'a' && "/api/v1/customer/app/:app_id"@[24] == 'p');
    assert("/api/v1/customer/app/:app_id/options"@.len() == 36 && "/api/v1/customer/app/:app_id/options"@[8] == 'c' && "/api/v1/customer/app/:app_id/options"@[22] == 'a' && "/api/v1/customer/app/:app_id/options"@[24] == 'p');
    assert("/api/v1/customer/app/:app_id/file_options"@.len() == 41 && "/api/v1/customer/app/:app_id/file_options"@[8] == 'c' && "/api/v1/customer/app/:app_id/file_options"@[22] == 'a' && "/api/v1/customer/app/:app_id/file_options"@[24] == 'p');
    assert("/api/v1/customer/app/:app_id/token_renew"@.len() == 40 && "/api/v1/customer/app/:app_id/token_renew"@[8] == 'c' && "/api/v1/customer/app/:app_id/token_renew"@[22] == 'a' && "/api/v1/customer/app/:app_id/token_renew"@[24] == 'p');
    assert("/api/v1/customer/app/:app_id/new_jwt_keys"@.len() == 41 && "/api/v1/customer/app/:app_id/new_jwt_keys"@[8] == 'c' && "/api/v1/customer/app/:app_id/new_jwt_keys"@[22] == 'a' && "/api/v1/customer/app/:app_id/new_jwt_keys"@[24] == 'p');
    assert("/api/v1/customer/app/:app_id/jwt"@.len() == 32 && "/api/v1/customer/app/:app_id/jwt"@[8] == 'c' && "/api/v1/customer/app/:app_id/jwt"@[22] == 'a' && "/api/v1/customer/app/:app_id/jwt"@[24] == 'p');
    assert("/api/v1/customer/app/:app_id/jwt/:jwt_id"@.len() == 40 && "/api/v1/customer/app/:app_id/jwt/:jwt_id"@[8] == 'c' && "/api/v1/customer/app/:app_id/jwt/:jwt_id"@[22] == 'a' && "/api/v1/customer/app/:app_id/jwt/:jwt_id"@[24] == 'p');
    assert("/api/v1/user/:user_id/public_key"@.len() == 32 && "/api/v1/user/:user_id/public_key"@[8] == 'u' && "/api/v1/user/:user_id/public_key"@[22] == 'p' && "/api/v1/user/:user_id/public_key"@[24] == 'b');
    assert("/api/v1/user/:user_id/public_key/:key_id"@.len() == 40 && "/api/v1/user/:user_id/public_key/:key_id"@[8] == 'u' && "/api/v1/user/:user_id/public_key/:key_id"@[22] == 'p' && "/api/v1/user/:user_id/public_key/:key_id"@[24] == 'b');
    assert("/api/v1/user/:user_id/verify_key/:key_id"@.len() == 40 && "/api/v1/user/:user_id/verify_key/:key_id"@[8] == 'u' && "/api/v1/user/:user_id/verify_key/:key_id"@[22] == 'v' && "/api/v1/user/:user_id/verify_key/:key_id"@[24] == 'r');
    assert("/api/v1/group/:group_id/public_key"@.len() == 34 && "/api/v1/group/:group_id/public_key"@[8] == 'g' && "/api/v1/group/:group_id/public_key"@[22] == 'd' && "/api/v1/group/:group_id/public_key"@[24] == 'p');
    assert("/api/v1/exists"@.len() == 14 && "/api/v1/exists"@[8] == 'e');
    assert("/api/v1/register"@.len() == 16 && "/api/v1/register"@[8] == 'r');
    assert("/api/v1/prepare_login"@.len() == 21 && "/api/v1/prepare_login"@[8] == 'p');
    assert("/api/v1/done_login"@.len() == 18 && "/api/v1/done_login"@[8] == 'd');
    assert("/api/v1/user/prepare_register_device"@.len() == 36 && "/api/v1/user/prepare_register_device"@[8] == 'u' && "/api/v1/user/prepare_register_device"@[22] == 'e' && "/api/v1/user/prepare_register_device"@[24] == 'i');
    assert("/api/v1/refresh"@.len() == 15 && "/api/v1/refresh"@[8] == 'r');
    assert("/api/v1/init"@.len() == 12 && "/api/v1/init"@[8] == 'i');
    assert("/api/v1/keys/sym_key"@.len() == 20 && "/api/v1/keys/sym_key"@[8] == 'k');
    assert("/api/v1/keys/sym_key/:key_id"@.len() == 28 && "/api/v1/keys/sym_key/:key_id"@[8] == 'k' && "/api/v1/keys/sym_key/:key_id"@[22] == 'k' && "/api/v1/keys/sym_key/:key_id"@[24] == 'y');
    assert("/api/v1/keys/sym_key/master_key/:master_key_id/:last_fetched_time/:last_key_id"@.len() == 78 && "/api/v1/keys/sym_key/master_key/:master_key_id/:last_fetched_time/:last_key_id"@[8] == 'k' && "/api/v1/keys/sym_key/master_key/:master_key_id/:last_fetched_time/:last_key_id"@[22] == 'a' && "/api/v1/keys/sym_key/master_key/:master_key_id/:last_fetched_time/:last_key_id"@[24] == 't');
    assert("/api/v1/user/device/:last_fetched_time/:last_id"@.len() == 47 && "/api/v1/user/device/:last_fetched_time/:last_id"@[8] == 'u' && "/api/v1/user/device/:last_fetched_time/:last_id"@[22] == 'a' && "/api/v1/user/device/:last_fetched_time/:last_id"@[24] == 't');
    assert("/api/v1/user"@.len() == 12 && "/api/v1/user"@[8] == 'u');
    assert("/api/v1/user/done_register_device"@.len() == 33 && "/api/v1/user/done_register_device"@[8] == 'u' && "/api/v1/user/done_register_device"@[22] == 's' && "/api/v1/user/done_register_device"@[24] == 'e');
    assert("/api/v1/user/update_pw"@.len() == 22 && "/api/v1/user/update_pw"@[8] == 'u');
    assert("/api/v1/user/reset_pw"@.len() == 21 && "/api/v1/user/reset_pw"@[8] == 'u');
    assert("/api/v1/user/:user_id"@.len() == 21 && "/api/v1/user/:user_id"@[8] == 'u');
    assert("/api/v1/user/device/:device_id"@.len() == 30 && "/api/v1/user/device/:device_id"@[8] == 'u' && "/api/v1/user/device/:device_id"@[22] == 'e' && "/api/v1/user/device/:device_id"@[24] == 'i');
    assert("/api/v1/user/user_keys/rotation"@.len() == 31 && "/api/v1/user/user_keys/rotation"@[8] == 'u' && "/api/v1/user/user_keys/rotation"@[22] == '/' && "/api/v1/user/user_keys/rotation"@[24] == 'o');
    assert("/api/v1/user/user_keys/rotation/:key_id"@.len() == 39 && "/api/v1/user/user_keys/rotation/:key_id"@[8] == 'u' && "/api/v1/user/user_keys/rotation/:key_id"@[22] == '/' && "/api/v1/user/user_keys/rotation/:key_id"@[24] == 'o');
    assert("/api/v1/user/user_keys/key/:key_id"@.len() == 34 && "/api/v1/user/user_keys/key/:key_id"@[8] == 'u' && "/api/v1/user/user_keys/key/:key_id"@[22] == '/' && "/api/v1/user/user_keys/key/:key_id"@[24] == 'e');
    assert("/api/v1/user/user_keys/keys/:last_fetched_time/:last_k_id"@.len() == 57 && "/api/v1/user/user_keys/keys/:last_fetched_time/:last_k_id"@[8] == 'u' && "/api/v1/user/user_keys/keys/:last_fetched_time/:last_k_id"@[22] == '/' && "/api/v1/user/user_keys/keys/:last_fetched_time/:last_k_id"@[24] == 'e');
    assert("/api/v1/user/user_keys/session/:key_session_id"@.len() == 46 && "/api/v1/user/user_keys/session/:key_session_id"@[8] == 'u' && "/api/v1/user/user_keys/session/:key_session_id"@[22] == '/' && "/api/v1/user/user_keys/session/:key_session_id"@[24] == 'e');
    assert("/api/v1/content"@.len() == 15 && "/api/v1/content"@[8] == 'c');
    assert("/api/v1/content/:user_id"@.len() == 24 && "/api/v1/content/:user_id"@[8] == 'c' && "/api/v1/content/:user_id"@[22] == 'i');
    assert("/api/v1/content/id/:content_id"@.len() == 30 && "/api/v1/content/id/:content_id"@[8] == 'c' && "/api/v1/content/id/:content_id"@[22] == 'n' && "/api/v1/content/id/:content_id"@[24] == 'e');
    assert("/api/v1/content/item/:item"@.len() == 26 && "/api/v1/content/item/:item"@[8] == 'c' && "/api/v1/content/item/:item"@[22] == 'i' && "/api/v1/content/item/:item"@[24] == 'e');
    assert("/api/v1/content/all/:last_fetched_time/:last_id"@.len() == 47 && "/api/v1/content/all/:last_fetched_time/:last_id"@[8] == 'c' && "/api/v1/content/all/:last_fetched_time/:last_id"@[22] == 'a' && "/api/v1/content/all/:last_fetched_time/:last_id"@[24] == 't');
    assert("/api/v1/content/:cat_id/:last_fetched_time/:last_id"@.len() == 51 && "/api/v1/content/:cat_id/:last_fetched_time/:last_id"@[8] == 'c' && "/api/v1/content/:cat_id/:last_fetched_time/:last_id"@[22] == 'd' && "/api/v1/content/:cat_id/:last_fetched_time/:last_id"@[24] == ':');
    assert("/api/v1/content/user/all/:last_fetched_time/:last_id"@.len() == 52 && "/api/v1/content/user/all/:last_fetched_time/:last_id"@[8] == 'c' && "/api/v1/content/user/all/:last_fetched_time/:last_id"@[22] == 'l' && "/api/v1/content/user/all/:last_fetched_time/:last_id"@[24] == '/');
    assert("/api/v1/content/user/:cat_id/:last_fetched_time/:last_id"@.len() == 56 && "/api/v1/content/user/:cat_id/:last_fetched_time/:last_id"@[8] == 'c' && "/api/v1/content/user/:cat_id/:last_fetched_time/:last_id"@[22] == 'c' && "/api/v1/content/user/:cat_id/:last_fetched_time/:last_id"@[24] == 't');
    assert("/api/v1/content/access/item/:item"@.len() == 33 && "/api/v1/content/access/item/:item"@[8] == 'c' && "/api/v1/content/access/item/:item"@[22] == '/' && "/api/v1/content/access/item/:item"@[24] == 't');
    assert("/api/v1/content/group/:group_id"@.len() == 31 && "/api/v1/content/group/:group_id"@[8] == 'c' && "/api/v1/content/group/:group_id"@[22] == ':' && "/api/v1/content/group/:group_id"@[24] == 'r');
    assert("/api/v1/content/group/:group_id/all/:last_fetched_time/:last_id"@.len() == 63 && "/api/v1/content/group/:group_id/all/:last_fetched_time/:last_id"@[8] == 'c' && "/api/v1/content/group/:group_id/all/:last_fetched_time/:last_id"@[22] == ':' && "/api/v1/content/group/:group_id/all/:last_fetched_time/:last_id"@[24] == 'r');
    assert("/api/v1/content/group/:group_id/:cat_id/:last_fetched_time/:last_id"@.len() == 67 && "/api/v1/content/group/:group_id/:cat_id/:last_fetched_time/:last_id"@[8] == 'c' && "/api/v1/content/group/:group_id/:cat_id/:last_fetched_time/:last_id"@[22] == ':' && "/api/v1/content/group/:group_id/:cat_id/:last_fetched_time/:last_id"@[24] == 'r');
    assert("/api/v1/search/group/:group_id"@.len() == 30 && "/api/v1/search/group/:group_id"@[8] == 's' && "/api/v1/search/group/:group_id"@[22] == 'g' && "/api/v1/search/group/:group_id"@[24] == 'o');
    assert("/api/v1/search/group/:group_id/all/:search/:last_fetched_time/:last_id"@.len() == 70 && "/api/v1/search/group/:group_id/all/:search/:last_fetched_time/:last_id"@[8] == 's' && "/api/v1/search/group/:group_id/all/:search/:last_fetched_time/:last_id"@[22] == 'g' && "/api/v1/search/group/:group_id/all/:search/:last_fetched_time/:last_id"@[24] == 'o');
    assert("/api/v1/search/group/:group_id/:cat_id/:search/:last_fetched_time/:last_id"@.len() == 74 && "/api/v1/search/group/:group_id/:cat_id/:search/:last_fetched_time/:last_id"@[8] == 's' && "/api/v1/search/group/:group_id/:cat_id/:search/:last_fetched_time/:last_id"@[22] == 'g' && "/api/v1/search/group/:group_id/:cat_id/:search/:last_fetched_time/:last_id"@[24] == 'o');
    assert("/api/v1/group"@.len() == 13 && "/api/v1/group"@[8] == 'g');
    assert("/api/v1/group/all/:last_fetched_time/:last_group_id"@.len() == 51 && "/api/v1/group/all/:last_fetched_time/:last_group_id"@[8] == 'g' && "/api/v1/group/all/:last_fetched_time/:last_group_id"@[22] == 't' && "/api/v1/group/all/:last_fetched_time/:last_group_id"@[24] == 'f');
    assert("/api/v1/group/invite/:last_fetched_time/:last_group_id"@.len() == 54 && "/api/v1/group/invite/:last_fetched_time/:last_group_id"@[8] == 'g' && "/api/v1/group/invite/:last_fetched_time/:last_group_id"@[22] == 'l' && "/api/v1/group/invite/:last_fetched_time/:last_group_id"@[24] == 's');
    assert("/api/v1/group/joins/:last_fetched_time/:last_group_id"@.len() == 53 && "/api/v1/group/joins/:last_fetched_time/:last_group_id"@[8] == 'g' && "/api/v1/group/joins/:last_fetched_time/:last_group_id"@[22] == 'a' && "/api/v1/group/joins/:last_fetched_time/:last_group_id"@[24] == 't');
    assert("/api/v1/group/joins/:join_req_id"@.len() == 32 && "/api/v1/group/joins/:join_req_id"@[8] == 'g' && "/api/v1/group/joins/:join_req_id"@[22] == 'o' && "/api/v1/group/joins/:join_req_id"@[24] == 'n');
    assert("/api/v1/group/:group_id/invite"@.len() == 30 && "/api/v1/group/:group_id/invite"@[8] == 'g' && "/api/v1/group/:group_id/invite"@[22] == 'd' && "/api/v1/group/:group_id/invite"@[24] == 'i');
    assert("/api/v1/group/:group_id/join_req"@.len() == 32 && "/api/v1/group/:group_id/join_req"@[8] == 'g' && "/api/v1/group/:group_id/join_req"@[22] == 'd' && "/api/v1/group/:group_id/join_req"@[24] == 'j');
    assert("/api/v1/group/:group_id"@.len() == 23 && "/api/v1/group/:group_id"@[8] == 'g' && "/api/v1/group/:group_id"@[22] == 'd');
    assert("/api/v1/group/:group_id/light"@.len() == 29 && "/api/v1/group/:group_id/light"@[8] == 'g' && "/api/v1/group/:group_id/light"@[22] == 'd' && "/api/v1/group/:group_id/light"@[24] == 'l');
    assert("/api/v1/group/:group_id/update_check"@.len() == 36 && "/api/v1/group/:group_id/update_check"@[8] == 'g' && "/api/v1/group/:group_id/update_check"@[22] == 'd' && "/api/v1/group/:group_id/update_check"@[24] == 'u');
    assert("/api/v1/group/:group_id/keys/:last_fetched_time/:last_k_id"@.len() == 58 && "/api/v1/group/:group_id/keys/:last_fetched_time/:last_k_id"@[8] == 'g' && "/api/v1/group/:group_id/keys/:last_fetched_time/:last_k_id"@[22] == 'd' && "/api/v1/group/:group_id/keys/:last_fetched_time/:last_k_id"@[24] == 'k');
    assert("/api/v1/group/:group_id/key/:key_id"@.len() == 35 && "/api/v1/group/:group_id/key/:key_id"@[8] == 'g' && "/api/v1/group/:group_id/key/:key_id"@[22] == 'd' && "/api/v1/group/:group_id/key/:key_id"@[24] == 'k');
    assert("/api/v1/group/:group_id/member/:last_fetched_time/:last_user_id"@.len() == 63 && "/api/v1/group/:group_id/member/:last_fetched_time/:last_user_id"@[8] == 'g' && "/api/v1/group/:group_id/member/:last_fetched_time/:last_user_id"@[22] == 'd' && "/api/v1/group/:group_id/member/:last_fetched_time/:last_user_id"@[24] == 'm');
    assert("/api/v1/group/:group_id/child"@.len() == 29 && "/api/v1/group/:group_id/child"@[8] == 'g' && "/api/v1/group/:group_id/child"@[22] == 'd' && "/api/v1/group/:group_id/child"@[24] == 'c');
    assert("/api/v1/group/:group_id/connected"@.len() == 33 && "/api/v1/group/:group_id/connected"@[8] == 'g' && "/api/v1/group/:group_id/connected"@[22] == 'd' && "/api/v1/group/:group_id/connected"@[24] == 'c');
    assert("/api/v1/group/:group_id/leave"@.len() == 29 && "/api/v1/group/:group_id/leave"@[8] == 'g' && "/api/v1/group/:group_id/leave"@[22] == 'd' && "/api/v1/group/:group_id/leave"@[24] == 'l');
    assert("/api/v1/group/:group_id/kick/:user_id"@.len() == 37 && "/api/v1/group/:group_id/kick/:user_id"@[8] == 'g' && "/api/v1/group/:group_id/kick/:user_id"@[22] == 'd' && "/api/v1/group/:group_id/kick/:user_id"@[24] == 'k');
    assert("/api/v1/group/:group_id/children/:last_fetched_time/:last_id"@.len() == 60 && "/api/v1/group/:group_id/children/:last_fetched_time/:last_id"@[8] == 'g' && "/api/v1/group/:group_id/children/:last_fetched_time/:last_id"@[22] == 'd' && "/api/v1/group/:group_id/children/:last_fetched_time/:last_id"@[24] == 'c');
    assert("/api/v1/group/:group_id/all/:last_fetched_time/:last_group_id"@.len() == 61 && "/api/v1/group/:group_id/all/:last_fetched_time/:last_group_id"@[8] == 'g' && "/api/v1/group/:group_id/all/:last_fetched_time/:last_group_id"@[22] == 'd' && "/api/v1/group/:group_id/all/:last_fetched_time/:last_group_id"@[24] == 'a');
    assert("/api/v1/group/:group_id/invite/:last_fetched_time/:last_group_id"@.len() == 64 && "/api/v1/group/:group_id/invite/:last_fetched_time/:last_group_id"@[8] == 'g' && "/api/v1/group/:group_id/invite/:last_fetched_time/:last_group_id"@[22] == 'd' && "/api/v1/group/:group_id/invite/:last_fetched_time/:last_group_id"@[24] == 'i');
    assert("/api/v1/group/:group_id/joins/:last_fetched_time/:last_group_id"@.len() == 63 && "/api/v1/group/:group_id/joins/:last_fetched_time/:last_group_id"@[8] == 'g' && "/api/v1/group/:group_id/joins/:last_fetched_time/:last_group_id"@[22] == 'd' && "/api/v1/group/:group_id/joins/:last_fetched_time/:last_group_id"@[24] == 'j');
    assert("/api/v1/group/:group_id/joins/:join_req_id"@.len() == 42 && "/api/v1/group/:group_id/joins/:join_req_id"@[8] == 'g' && "/api/v1/group/:group_id/joins/:join_req_id"@[22] == 'd' && "/api/v1/group/:group_id/joins/:join_req_id"@[24] == 'j');
    assert("/api/v1/group/:group_id/invite/:group_id_to_reject"@.len() == 50 && "/api/v1/group/:group_id/invite/:group_id_to_reject"@[8] == 'g' && "/api/v1/group/:group_id/invite/:group_id_to_reject"@[22] == 'd' && "/api/v1/group/:group_id/invite/:group_id_to_reject"@[24] == 'i');
    assert("/api/v1/group/:group_id/invite/:group_id_to_join"@.len() == 48 && "/api/v1/group/:group_id/invite/:group_id_to_join"@[8] == 'g' && "/api/v1/group/:group_id/invite/:group_id_to_join"@[22] == 'd' && "/api/v1/group/:group_id/invite/:group_id_to_join"@[24] == 'i');
    assert("/api/v1/group/:group_id/invite/:invited_user"@.len() == 44 && "/api/v1/group/:group_id/invite/:invited_user"@[8] == 'g' && "/api/v1/group/:group_id/invite/:invited_user"@[22] == 'd' && "/api/v1/group/:group_id/invite/:invited_user"@[24] == 'i');
    assert("/api/v1/group/:group_id/invite_group/:invited_group"@.len() == 51 && "/api/v1/group/:group_id/invite_group/:invited_group"@[8] == 'g' && "/api/v1/group/:group_id/invite_group/:invited_group"@[22] == 'd' && "/api/v1/group/:group_id/invite_group/:invited_group"@[24] == 'i');
    assert("/api/v1/group/:group_id/invite_auto/:invited_user"@.len() == 49 && "/api/v1/group/:group_id/invite_auto/:invited_user"@[8] == 'g' && "/api/v1/group/:group_id/invite_auto/:invited_user"@[22] == 'd' && "/api/v1/group/:group_id/invite_auto/:invited_user"@[24] == 'i');
    assert("/api/v1/group/:group_id/invite_group_auto/:invited_group"@.len() == 56 && "/api/v1/group/:group_id/invite_group_auto/:invited_group"@[8] == 'g' && "/api/v1/group/:group_id/invite_group_auto/:invited_group"@[22] == 'd' && "/api/v1/group/:group_id/invite_group_auto/:invited_group"@[24] == 'i');
    assert("/api/v1/group/:group_id/invite/session/:key_session_id"@.len() == 54 && "/api/v1/group/:group_id/invite/session/:key_session_id"@[8] == 'g' && "/api/v1/group/:group_id/invite/session/:key_session_id"@[22] == 'd' && "/api/v1/group/:group_id/invite/session/:key_session_id"@[24] == 'i');
    assert("/api/v1/group/:group_id/change_rank"@.len() == 35 && "/api/v1/group/:group_id/change_rank"@[8] == 'g' && "/api/v1/group/:group_id/change_rank"@[22] == 'd' && "/api/v1/group/:group_id/change_rank"@[24] == 'c');
    assert("/api/v1/group/:group_id/change_invite"@.len() == 37 && "/api/v1/group/:group_id/change_invite"@[8] == 'g' && "/api/v1/group/:group_id/change_invite"@[22] == 'd' && "/api/v1/group/:group_id/change_invite"@[24] == 'c');
    assert("/api/v1/group/:group_id/join_req/:group_id_to_join"@.len() == 50 && "/api/v1/group/:group_id/join_req/:group_id_to_join"@[8] == 'g' && "/api/v1/group/:group_id/join_req/:group_id_to_join"@[22] == 'd' && "/api/v1/group/:group_id/join_req/:group_id_to_join"@[24] == 'j');
    assert("/api/v1/group/:group_id/join_req/:last_fetched_time/:last_user_id"@.len() == 65 && "/api/v1/group/:group_id/join_req/:last_fetched_time/:last_user_id"@[8] == 'g' && "/api/v1/group/:group_id/join_req/:last_fetched_time/:last_user_id"@[22] == 'd' && "/api/v1/group/:group_id/join_req/:last_fetched_time/:last_user_id"@[24] == 'j');
    assert("/api/v1/group/:group_id/join_req/:join_user"@.len() == 43 && "/api/v1/group/:group_id/join_req/:join_user"@[8] == 'g' && "/api/v1/group/:group_id/join_req/:join_user"@[22] == 'd' && "/api/v1/group/:group_id/join_req/:join_user"@[24] == 'j');
    assert("/api/v1/group/:group_id/join_req/session/:key_session_id"@.len() == 56 && "/api/v1/group/:group_id/join_req/session/:key_session_id"@[8] == 'g' && "/api/v1/group/:group_id/join_req/session/:key_session_id"@[22] == 'd' && "/api/v1/group/:group_id/join_req/session/:key_session_id"@[24] == 'j');
    assert("/api/v1/group/:group_id/key_rotation"@.len() == 36 && "/api/v1/group/:group_id/key_rotation"@[8] == 'g' && "/api/v1/group/:group_id/key_rotation"@[22] == 'd' && "/api/v1/group/:group_id/key_rotation"@[24] == 'k');
    assert("/api/v1/group/:group_id/key_rotation/:key_id"@.len() == 44 && "/api/v1/group/:group_id/key_rotation/:key_id"@[8] == 'g' && "/api/v1/group/:group_id/key_rotation/:key_id"@[22] == 'd' && "/api/v1/group/:group_id/key_rotation/:key_id"@[24] == 'k');
    let l = api_route_list();
    assert forall|i: int, j: int| 0 <= i < j < l.len() implies !same_entry_endpoint(l[i], l[j]) by {
        assert(i == 0 || i == 1 || i == 2 || i == 3 || i == 4 || i == 5 || i == 6 || i == 7 || i == 8 || i == 9 || i == 10 || i == 11 || i == 12 || i == 13 || i == 14 || i == 15 || i == 16 || i == 17 || i == 18 || i == 19 || i == 20 || i == 21 || i == 22 || i == 23 || i == 24 || i == 25 || i == 26 || i == 27 || i == 28 || i == 29 || i == 30 || i == 31 || i == 32 || i == 33 || i == 34 || i == 35 || i == 36 || i == 37 || i == 38 || i == 39 || i == 40 || i == 41 || i == 42 || i == 43 || i == 44 || i == 45 || i == 46 || i == 47 || i == 48 || i == 49 || i == 50 || i == 51 || i == 52 || i == 53 || i == 54 || i == 55 || i == 56 || i == 57 || i == 58 || i == 59 || i == 60 || i == 61 || i == 62 || i == 63 || i == 64 || i == 65 || i == 66 || i == 67 || i == 68 || i == 69 || i == 70 || i == 71 || i == 72 || i == 73 || i == 74 || i == 75 || i == 76 || i == 77 || i == 78 || i == 79 || i == 80 || i == 81 || i == 82 || i == 83 || i == 84 || i == 85 || i == 86 || i == 87 || i == 88 || i == 89 || i == 90 || i == 91 || i == 92 || i == 93 || i == 94 || i == 95 || i == 96 || i == 97 || i == 98 || i == 99 || i == 100 || i == 101 || i == 102 || i == 103 || i == 104 || i == 105 || i == 106 || i == 107 || i == 108 || i == 109);
        assert(j == 0 || j == 1 || j == 2 || j == 3 || j == 4 || j == 5 || j == 6 || j == 7 || j == 8 || j == 9 || j == 10 || j == 11 || j == 12 || j == 13 || j == 14 || j == 15 || j == 16 || j == 17 || j == 18 || j == 19 || j == 20 || j == 21 || j == 22 || j == 23 || j == 24 || j == 25 || j == 26 || j == 27 || j == 28 || j == 29 || j == 30 || j == 31 || j == 32 || j == 33 || j == 34 || j == 35 || j == 36 || j == 37 || j == 38 || j == 39 || j == 40 || j == 41 || j == 42 || j == 43 || j == 44 || j == 45 || j == 46 || j == 47 || j == 48 || j == 49 || j == 50 || j == 51 || j == 52 || j == 53 || j == 54 || j == 55 || j == 56 || j == 57 || j == 58 || j == 59 || j == 60 || j == 61 || j == 62 || j == 63 || j == 64 || j == 65 || j == 66 || j == 67 || j == 68 || j == 69 || j == 70 || j == 71 || j == 72 || j == 73 || j == 74 || j == 75 || j == 76 || j == 77 || j == 78 || j == 79 || j == 80 || j == 81 || j == 82 || j == 83 || j == 84 || j == 85 || j == 86 || j == 87 || j == 88 || j == 89 || j == 90 || j == 91 || j == 92 || j == 93 || j == 94 || j == 95 || j == 96 || j == 97 || j == 98 || j == 99 || j == 100 || j == 101 || j == 102 || j == 103 || j == 104 || j == 105 || j == 106 || j == 107 || j == 108 || j == 109);
    }
}

/// No two routes of the file API answer the same method on the same path.
pub proof fn lemma_file_endpoints_unique()
    ensures
        endpoints_unique(file_route_list()),
{
    reveal_strlit("/api/v1/file");
    reveal_strlit("/api/v1/file/:file_id");
    reveal_strlit("/api/v1/file/:file_id/part_fetch/:last_sequence");
    reveal_strlit("/api/v1/file/part/:part_id");
    reveal_strlit("/api/v1/file/part/:session_id/:seq/:end");
    reveal_strlit("/api/v1/group/:group_id/file");
    reveal_strlit("/api/v1/group/:group_id/file/:file_id");
    assert("/api/v1/file"@.len() == 12 && "/api/v1/file"@[8] == 'f');
    assert("/api/v1/file/:file_id"@.len() == 21 && "/api/v1/file/:file_id"@[8] == 'f');
    assert("/api/v1/file/:file_id/part_fetch/:last_sequence"@.len() == 47 && "/api/v1/file/:file_id/part_fetch/:last_sequence"@[8] == 'f' && "/api/v1/file/:file_id/part_fetch/:last_sequence"@[22] == 'p' && "/api/v1/file/:file_id/part_fetch/:last_sequence"@[24] == 'r');
    assert("/api/v1/file/part/:part_id"@.len() == 26 && "/api/v1/file/part/:part_id"@[8] == 'f' && "/api/v1/file/part/:part_id"@[22] == 't' && "/api/v1/file/part/:part_id"@[24] == 'i');
    assert("/api/v1/file/part/:session_id/:seq/:end"@.len() == 39 && "/api/v1/file/part/:session_id/:seq/:end"@[8] == 'f' && "/api/v1/file/part/:session_id/:seq/:end"@[22] == 's' && "/api/v1/file/part/:session_id/:seq/:end"@[24] == 'o');
    assert("/api/v1/group/:group_id/file"@.len() == 28 && "/api/v1/group/:group_id/file"@[8] == 'g' && "/api/v1/group/:group_id/file"@[22] == 'd' && "/api/v1/group/:group_id/file"@[24] == 'f');
    assert("/api/v1/group/:group_id/file/:file_id"@.len() == 37 && "/api/v1/group/:group_id/file/:file_id"@[8] == 'g' && "/api/v1/group/:group_id/file/:file_id"@[22] == 'd' && "/api/v1/group/:group_id/file/:file_id"@[24] == 'f');
    let l = file_route_list();
    assert forall|i: int, j: int| 0 <= i < j < l.len() implies !same_entry_endpoint(l[i], l[j]) by {
        assert(i == 0 || i == 1 || i == 2 || i == 3 || i == 4 || i == 5 || i == 6 || i == 7 || i == 8 || i == 9);
        assert(j == 0 || j == 1 || j == 2 || j == 3 || j == 4 || j == 5 || j == 6 || j == 7 || j == 8 || j == 9);
    }
}

/// A table that holds exactly the routes of a list with unique endpoints
/// has unique endpoints too.
pub proof fn lemma_table_endpoints_unique(
    table: Seq<Route>,
    list: Seq<(HttpMethod, &'static str, &'static str, Guard)>,
)
    requires
        table_is(table, list),
        endpoints_unique(list),
    ensures
        forall|i: int, j: int| 0 <= i < j < table.len() ==> !#[trigger] same_endpoint(table, i, j),
{
    assert forall|i: int, j: int| 0 <= i < j < table.len() implies !#[trigger] same_endpoint(table, i, j) by {
        assert(route_is(table[i], list[i]));
        assert(route_is(table[j], list[j]));
        assert(!same_entry_endpoint(list[i], list[j]));
    }
}

fn build_table(entries: &[(HttpMethod, &'static str, &'static str, Guard)]) -> (table: Vec<Route>)
    ensures
        table@.len() == entries@.len(),
        forall|i: int| 0 <= i < table@.len() ==> well_layered(#[trigger] table@[i].middleware@),
        table_is(table@, entries@),
{
    let mut table: Vec<Route> = Vec::new();
    let mut i: usize = 0;
    while i < entries.len()
        invariant
            i <= entries@.len(),
            table@.len() == i,
            forall|j: int| 0 <= j < i ==> well_layered(#[trigger] table@[j].middleware@),
            forall|j: int| 0 <= j < i ==> route_is(#[trigger] table@[j], entries@[j]),
        decreases entries@.len() - i,
    {
        let (method, path, handler, guard) = entries[i];
        proof {
            lemma_guards_well_layered(guard);
        }
        table.push(Route { method, path, handler, middleware: guard_middleware(guard) });
        i = i + 1;
    }
    table
}

/// The routes of the main API.
pub fn api_routes() -> (table: Vec<Route>)
    ensures
        table@.len() == API_ROUTE_COUNT,
        table_is(table@, api_route_list()),
        forall|i: int| 0 <= i < table@.len() ==> well_layered(#[trigger] table@[i].middleware@),
        forall|i: int, j: int| 0 <= i < j < table@.len() ==> !#[trigger] same_endpoint(table@, i, j),
{
    let entries: [(HttpMethod, &'static str, &'static str, Guard); 110] = [
        (HttpMethod::Post, "/api/v1/customer/register", "customer::register", Guard::AppBase),
        (HttpMethod::Post, "/api/v1/customer/prepare_login", "customer::prepare_login", Guard::AppBase),
        (HttpMethod::Post, "/api/v1/customer/done_login", "customer::done_login", Guard::AppBase),
        (HttpMethod::Get, "/api/v1/customer/captcha", "customer::customer_captcha", Guard::AppBase),
        (HttpMethod::Put, "/api/v1/customer/password_reset", "customer::prepare_reset_password", Guard::AppBase),
        (HttpMethod::Put, "/api/v1/customer/password_reset_validation", "customer::done_reset_password", Guard::AppBase),
        (HttpMethod::Put, "/api/v1/customer/refresh", "customer::refresh_jwt", Guard::JwtExpireAppBase),
        (HttpMethod::Post, "/api/v1/customer/register_validation", "customer::done_register", Guard::JwtAppBase),
        (HttpMethod::Patch, "/api/v1/customer/email_resend", "customer::resend_email", Guard::JwtAppBase),
        (HttpMethod::Put, "/api/v1/customer", "customer::update", Guard::JwtAppBase),
        (HttpMethod::Put, "/api/v1/customer/data", "customer::update_data", Guard::JwtAppBase),
        (HttpMethod::Put, "/api/v1/customer/password", "customer::change_password", Guard::JwtAppBase),
        (HttpMethod::Delete, "/api/v1/customer", "customer::delete", Guard::JwtAppBase),
        (HttpMethod::Get, "/api/v1/customer/apps/:last_fetched_time/:last_app_id", "customer_app::get_all_apps", Guard::CustomerJwt),
        (HttpMethod::Post, "/api/v1/customer/app", "customer_app::create_app", Guard::CustomerJwt),
        (HttpMethod::Get, "/api/v1/customer/app/:app_id", "customer_app::get_app_details", Guard::CustomerJwt),
        (HttpMethod::Put, "/api/v1/customer/app/:app_id", "customer_app::update", Guard::CustomerJwt),
        (HttpMethod::Put, "/api/v1/customer/app/:app_id/options", "customer_app::update_options", Guard::CustomerJwt),
        (HttpMethod::Put, "/api/v1/customer/app/:app_id/file_options", "customer_app::update_file_options", Guard::CustomerJwt),
        (HttpMethod::Delete, "/api/v1/customer/app/:app_id", "customer_app::delete", Guard::CustomerJwt),
        (HttpMethod::Patch, "/api/v1/customer/app/:app_id/token_renew", "customer_app::renew_tokens", Guard::CustomerJwt),
        (HttpMethod::Patch, "/api/v1/customer/app/:app_id/new_jwt_keys", "customer_app::add_jwt_keys", Guard::CustomerJwt),
        (HttpMethod::Get, "/api/v1/customer/app/:app_id/jwt", "customer_app::get_jwt_details", Guard::CustomerJwt),
        (HttpMethod::Delete, "/api/v1/customer/app/:app_id/jwt/:jwt_id", "customer_app::delete_jwt_keys", Guard::CustomerJwt),
        (HttpMethod::Get, "/api/v1/user/:user_id/public_key", "user::get_public_key_data", Guard::App),
        (HttpMethod::Get, "/api/v1/user/:user_id/public_key/:key_id", "user::get_public_key_by_id", Guard::App),
        (HttpMethod::Get, "/api/v1/user/:user_id/verify_key/:key_id", "user::get_verify_key_by_id", Guard::App),
        (HttpMethod::Get, "/api/v1/group/:group_id/public_key", "group::get_public_key_data", Guard::App),
        (HttpMethod::Post, "/api/v1/exists", "user::exists", Guard::App),
        (HttpMethod::Post, "/api/v1/register", "user::register", Guard::App),
        (HttpMethod::Post, "/api/v1/prepare_login", "user::prepare_login", Guard::App),
        (HttpMethod::Post, "/api/v1/done_login", "user::done_login", Guard::App),
        (HttpMethod::Post, "/api/v1/user/prepare_register_device", "user::prepare_register_device", Guard::App),
        (HttpMethod::Put, "/api/v1/refresh", "user::refresh_jwt", Guard::JwtExpireApp),
        (HttpMethod::Post, "/api/v1/init", "user::init_user", Guard::JwtExpireApp),
        (HttpMethod::Post, "/api/v1/keys/sym_key", "key_management::register_sym_key", Guard::JwtApp),
        (HttpMethod::Delete, "/api/v1/keys/sym_key/:key_id", "key_management::delete_sym_key", Guard::JwtApp),
        (HttpMethod::Get, "/api/v1/keys/sym_key/master_key/:master_key_id/:last_fetched_time/:last_key_id", "key_management::get_all_sym_keys_to_master_key", Guard::App),
        (HttpMethod::Get, "/api/v1/keys/sym_key/:key_id", "key_management::get_sym_key_by_id", Guard::App),
        (HttpMethod::Get, "/api/v1/user/device/:last_fetched_time/:last_id", "user::get_devices", Guard::JwtApp),
        (HttpMethod::Put, "/api/v1/user", "user::update", Guard::JwtApp),
        (HttpMethod::Put, "/api/v1/user/done_register_device", "user::done_register_device", Guard::JwtApp),
        (HttpMethod::Put, "/api/v1/user/update_pw", "user::change_password", Guard::JwtApp),
        (HttpMethod::Put, "/api/v1/user/reset_pw", "user::reset_password", Guard::JwtApp),
        (HttpMethod::Delete, "/api/v1/user", "user::delete", Guard::JwtApp),
        (HttpMethod::Delete, "/api/v1/user/:user_id", "user::delete", Guard::JwtApp),
        (HttpMethod::Delete, "/api/v1/user/device/:device_id", "user::delete_device", Guard::JwtApp),
        (HttpMethod::Post, "/api/v1/user/user_keys/rotation", "user::user_group_key_rotation", Guard::JwtApp),
        (HttpMethod::Get, "/api/v1/user/user_keys/rotation", "user::get_user_group_keys_for_update", Guard::JwtApp),
        (HttpMethod::Put, "/api/v1/user/user_keys/rotation/:key_id", "user::done_key_rotation_for_device", Guard::JwtApp),
        (HttpMethod::Get, "/api/v1/user/user_keys/key/:key_id", "user::get_user_key", Guard::JwtApp),
        (HttpMethod::Get, "/api/v1/user/user_keys/keys/:last_fetched_time/:last_k_id", "user::get_user_keys", Guard::JwtApp),
        (HttpMethod::Put, "/api/v1/user/user_keys/session/:key_session_id", "user::device_key_upload", Guard::JwtApp),
        (HttpMethod::Post, "/api/v1/content", "content_management::create_non_related_content", Guard::JwtApp),
        (HttpMethod::Post, "/api/v1/content/:user_id", "content_management::create_user_content", Guard::JwtApp),
        (HttpMethod::Delete, "/api/v1/content/id/:content_id", "content_management::delete_content_by_id", Guard::JwtApp),
        (HttpMethod::Delete, "/api/v1/content/item/:item", "content_management::delete_content_by_item", Guard::JwtApp),
        (HttpMethod::Get, "/api/v1/content/all/:last_fetched_time/:last_id", "content_management::get_content_all", Guard::JwtApp),
        (HttpMethod::Get, "/api/v1/content/:cat_id/:last_fetched_time/:last_id", "content_management::get_content_all_from_cat", Guard::JwtApp),
        (HttpMethod::Get, "/api/v1/content/user/all/:last_fetched_time/:last_id", "content_management::get_content_for_user", Guard::JwtApp),
        (HttpMethod::Get, "/api/v1/content/user/:cat_id/:last_fetched_time/:last_id", "content_management::get_content_for_user_from_cat", Guard::JwtApp),
        (HttpMethod::Get, "/api/v1/content/access/item/:item", "content_management::check_access_to_content_by_item", Guard::JwtApp),
        (HttpMethod::Post, "/api/v1/content/group/:group_id", "content_management::create_group_content", Guard::GroupJwtApp),
        (HttpMethod::Get, "/api/v1/content/group/:group_id/all/:last_fetched_time/:last_id", "content_management::get_content_for_group", Guard::GroupJwtApp),
        (HttpMethod::Get, "/api/v1/content/group/:group_id/:cat_id/:last_fetched_time/:last_id", "content_management::get_content_for_group_from_cat", Guard::GroupJwtApp),
        (HttpMethod::Post, "/api/v1/search/group/:group_id", "content_searchable::create", Guard::GroupJwtApp),
        (HttpMethod::Delete, "/api/v1/search/group/:group_id", "content_searchable::delete", Guard::GroupJwtApp),
        (HttpMethod::Get, "/api/v1/search/group/:group_id/all/:search/:last_fetched_time/:last_id", "content_searchable::search_all", Guard::GroupJwtApp),
        (HttpMethod::Get, "/api/v1/search/group/:group_id/:cat_id/:search/:last_fetched_time/:last_id", "content_searchable::search_cat", Guard::GroupJwtApp),
        (HttpMethod::Post, "/api/v1/group", "group::create", Guard::JwtApp),
        (HttpMethod::Get, "/api/v1/group/all/:last_fetched_time/:last_group_id", "group::get_all_groups_for_user", Guard::JwtApp),
        (HttpMethod::Get, "/api/v1/group/invite/:last_fetched_time/:last_group_id", "group::get_invite_req", Guard::JwtApp),
        (HttpMethod::Get, "/api/v1/group/joins/:last_fetched_time/:last_group_id", "group::get_sent_join_req_for_user", Guard::JwtApp),
        (HttpMethod::Delete, "/api/v1/group/joins/:join_req_id", "group::delete_sent_join_req_for_user", Guard::JwtApp),
        (HttpMethod::Patch, "/api/v1/group/:group_id/invite", "group::accept_invite", Guard::JwtApp),
        (HttpMethod::Delete, "/api/v1/group/:group_id/invite", "group::reject_invite", Guard::JwtApp),
        (HttpMethod::Patch, "/api/v1/group/:group_id/join_req", "group::join_req", Guard::JwtApp),
        (HttpMethod::Get, "/api/v1/group/:group_id", "group::get_user_group_data", Guard::GroupJwtApp),
        (HttpMethod::Get, "/api/v1/group/:group_id/light", "group::get_user_group_light_data", Guard::GroupJwtApp),
        (HttpMethod::Get, "/api/v1/group/:group_id/update_check", "group::get_key_update_for_user", Guard::GroupJwtApp),
        (HttpMethod::Get, "/api/v1/group/:group_id/keys/:last_fetched_time/:last_k_id", "group::get_user_group_keys", Guard::GroupJwtApp),
        (HttpMethod::Get, "/api/v1/group/:group_id/key/:key_id", "group::get_user_group_key", Guard::GroupJwtApp),
        (HttpMethod::Get, "/api/v1/group/:group_id/member/:last_fetched_time/:last_user_id", "group::get_group_member", Guard::GroupJwtApp),
        (HttpMethod::Post, "/api/v1/group/:group_id/child", "group::create_child_group", Guard::GroupJwtApp),
        (HttpMethod::Post, "/api/v1/group/:group_id/connected", "group::create_connected_group_from_group", Guard::GroupJwtApp),
        (HttpMethod::Delete, "/api/v1/group/:group_id", "group::delete", Guard::GroupJwtApp),
        (HttpMethod::Delete, "/api/v1/group/:group_id/leave", "group::leave_group", Guard::GroupJwtApp),
        (HttpMethod::Delete, "/api/v1/group/:group_id/kick/:user_id", "group::kick_user_from_group", Guard::GroupJwtApp),
        (HttpMethod::Get, "/api/v1/group/:group_id/children/:last_fetched_time/:last_id", "group::get_all_first_level_children", Guard::GroupJwtApp),
        (HttpMethod::Get, "/api/v1/group/:group_id/all/:last_fetched_time/:last_group_id", "group::get_all_groups_for_group", Guard::GroupJwtApp),
        (HttpMethod::Get, "/api/v1/group/:group_id/invite/:last_fetched_time/:last_group_id", "group::get_invite_req_for_group", Guard::GroupJwtApp),
        (HttpMethod::Get, "/api/v1/group/:group_id/joins/:last_fetched_time/:last_group_id", "group::get_sent_join_req_for_group", Guard::GroupJwtApp),
        (HttpMethod::Delete, "/api/v1/group/:group_id/joins/:join_req_id", "group::delete_sent_join_req_for_group", Guard::GroupJwtApp),
        (HttpMethod::Delete, "/api/v1/group/:group_id/invite/:group_id_to_reject", "group::reject_invite_group", Guard::GroupJwtApp),
        (HttpMethod::Patch, "/api/v1/group/:group_id/invite/:group_id_to_join", "group::accept_invite_group", Guard::GroupJwtApp),
        (HttpMethod::Put, "/api/v1/group/:group_id/invite/:invited_user", "group::invite_request", Guard::GroupJwtApp),
        (HttpMethod::Put, "/api/v1/group/:group_id/invite_group/:invited_group", "group::invite_request_to_group", Guard::GroupJwtApp),
        (HttpMethod::Put, "/api/v1/group/:group_id/invite_auto/:invited_user", "group::invite_auto", Guard::GroupJwtApp),
        (HttpMethod::Put, "/api/v1/group/:group_id/invite_group_auto/:invited_group", "group::invite_auto_group", Guard::GroupJwtApp),
        (HttpMethod::Put, "/api/v1/group/:group_id/invite/session/:key_session_id", "group::insert_user_keys_via_session_invite", Guard::GroupJwtApp),
        (HttpMethod::Put, "/api/v1/group/:group_id/change_rank", "group::change_rank", Guard::GroupJwtApp),
        (HttpMethod::Patch, "/api/v1/group/:group_id/change_invite", "group::stop_invite", Guard::GroupJwtApp),
        (HttpMethod::Patch, "/api/v1/group/:group_id/join_req/:group_id_to_join", "group::join_req_as_group", Guard::GroupJwtApp),
        (HttpMethod::Get, "/api/v1/group/:group_id/join_req/:last_fetched_time/:last_user_id", "group::get_join_req", Guard::GroupJwtApp),
        (HttpMethod::Put, "/api/v1/group/:group_id/join_req/:join_user", "group::accept_join_req", Guard::GroupJwtApp),
        (HttpMethod::Delete, "/api/v1/group/:group_id/join_req/:join_user", "group::reject_join_req", Guard::GroupJwtApp),
        (HttpMethod::Put, "/api/v1/group/:group_id/join_req/session/:key_session_id", "group::insert_user_keys_via_session_join_req", Guard::GroupJwtApp),
        (HttpMethod::Post, "/api/v1/group/:group_id/key_rotation", "group::start_key_rotation", Guard::GroupJwtApp),
        (HttpMethod::Get, "/api/v1/group/:group_id/key_rotation", "group::get_keys_for_update", Guard::GroupJwtApp),
        (HttpMethod::Put, "/api/v1/group/:group_id/key_rotation/:key_id", "group::done_key_rotation_for_user", Guard::GroupJwtApp),
    ];
    assert(entries@ =~= api_route_list());
    let table = build_table(&entries);
    proof {
        lemma_api_endpoints_unique();
        lemma_table_endpoints_unique(table@, api_route_list());
    }
    table
}

/// The number of routes of the main API.
pub const API_ROUTE_COUNT: usize = 110;

/// The number of routes of the file API.
pub const FILE_ROUTE_COUNT: usize = 10;

/// The routes of the file API.
pub fn file_routes() -> (table: Vec<Route>)
    ensures
        table@.len() == FILE_ROUTE_COUNT,
        table_is(table@, file_route_list()),
        forall|i: int| 0 <= i < table@.len() ==> well_layered(#[trigger] table@[i].middleware@),
        forall|i: int, j: int| 0 <= i < j < table@.len() ==> !#[trigger] same_endpoint(table@, i, j),
{
    let entries: [(HttpMethod, &'static str, &'static str, Guard); 10] = [
        (HttpMethod::Post, "/api/v1/file", "sentc_file_controller::register_file", Guard::JwtApp),
        (HttpMethod::Put, "/api/v1/file/:file_id", "sentc_file_controller::update_file_name", Guard::JwtApp),
        (HttpMethod::Delete, "/api/v1/file/:file_id", "sentc_file_controller::delete_file", Guard::JwtApp),
        (HttpMethod::Get, "/api/v1/file/:file_id", "sentc_file_controller::get_file", Guard::JwtOptionalApp),
        (HttpMethod::Get, "/api/v1/file/:file_id/part_fetch/:last_sequence", "sentc_file_controller::get_parts", Guard::App),
        (HttpMethod::Get, "/api/v1/file/part/:part_id", "sentc_file_controller::download_part", Guard::App),
        (HttpMethod::Post, "/api/v1/file/part/:session_id/:seq/:end", "sentc_file_controller::upload_part", Guard::JwtApp),
        (HttpMethod::Post, "/api/v1/group/:group_id/file", "sentc_file_controller::register_file_in_group", Guard::GroupJwtApp),
        (HttpMethod::Get, "/api/v1/group/:group_id/file/:file_id", "sentc_file_controller::get_file_in_group", Guard::GroupJwtApp),
        (HttpMethod::Delete, "/api/v1/group/:group_id/file/:file_id", "sentc_file_controller::delete_file_in_group", Guard::GroupJwtApp),
    ];
    assert(entries@ =~= file_route_list());
    let table = build_table(&entries);
    proof {
        lemma_file_endpoints_unique();
        lemma_table_endpoints_unique(table@, file_route_list());
    }
    table
}

fn str_equal(a: &str, b: &str) -> (eq: bool)
    ensures
        eq == (a@ == b@),
{
    String::from_str(a) == String::from_str(b)
}

/// Whether two routes of a table answer the same method on the same path.
pub open spec fn same_endpoint(table: Seq<Route>, i: int, j: int) -> bool {
    table[i].method == table[j].method && table[i].path@ == table[j].path@
}

/// Looks for two routes with the same method and path, which the router
/// would refuse: the first such pair, or none where every endpoint is unique.
pub fn find_duplicate_route(table: &Vec<Route>) -> (dup: Option<(usize, usize)>)
    ensures
        match dup {
            Some((i, j)) => i < j < table@.len() && same_endpoint(table@, i as int, j as int),
            None => forall|i: int, j: int|
                0 <= i < j < table@.len() ==> !#[trigger] same_endpoint(table@, i, j),
        },
{
    let n = table.len();
    let mut i: usize = 0;
    while i < n
        invariant
            i <= n,
            n == table@.len(),
            forall|a: int, b: int| 0 <= a < i && a < b < n ==> !#[trigger] same_endpoint(table@, a, b),
        decreases n - i,
    {
        let mut j: usize = i + 1;
        while j < n
            invariant
                i < n,
                i + 1 <= j <= n,
                n == table@.len(),
                forall|a: int, b: int| 0 <= a < i && a < b < n ==> !#[trigger] same_endpoint(table@, a, b),
                forall|b: int| i < b < j ==> !#[trigger] same_endpoint(table@, i as int, b),
            decreases n - j,
        {
            if table[i].method == table[j].method && str_equal(table[i].path, table[j].path) {
                return Some((i, j));
            }
            j = j + 1;
        }
        i = i + 1;
    }
    None
}

} // verus!

use server_api::paging::paged_query;
use server_api::routes::{api_routes, file_routes, find_duplicate_route, HttpMethod, Middleware, Route};

#[test]
fn first_page_has_no_cursor() {
    let q = paged_query(
        "SELECT id FROM t WHERE a = ?",
        vec!["app".to_string()],
        " AND time >= ? AND (time > ? OR (time = ? AND id > ?)) ORDER BY time, id LIMIT 50",
        " ORDER BY time, id LIMIT 50",
        0,
        "".to_string(),
    );
    assert_eq!(q.sql, "SELECT id FROM t WHERE a = ? ORDER BY time, id LIMIT 50");
    assert_eq!(q.params, vec!["app".to_string()]);
}

#[test]
fn later_page_starts_after_last_item() {
    let q = paged_query("SELECT id FROM t WHERE a = ?", vec!["app".to_string()], " AND cursor", " ORDER", 1725029869000, "id7".to_string());
    assert_eq!(q.sql, "SELECT id FROM t WHERE a = ? AND cursor");
    assert_eq!(
        q.params,
        vec!["app", "1725029869000", "1725029869000", "1725029869000", "id7"]
    );
}

fn find<'a>(table: &'a [Route], method: HttpMethod, path: &str) -> &'a Route {
    table.iter().find(|r| r.method == method && r.path == path).unwrap()
}

#[test]
fn route_tables_have_all_routes() {
    assert_eq!(api_routes().len(), 110);
    assert_eq!(file_routes().len(), 10);
}

#[test]
fn route_endpoints_are_unique() {
    assert_eq!(find_duplicate_route(&api_routes()), None);
    assert_eq!(find_duplicate_route(&file_routes()), None);
}

#[test]
fn group_routes_are_guarded_by_group_jwt_and_app_token() {
    let t = api_routes();
    let r = find(&t, HttpMethod::Get, "/api/v1/group/:group_id/keys/:last_fetched_time/:last_k_id");
    assert_eq!(r.handler, "group::get_user_group_keys");
    assert_eq!(r.middleware, vec![Middleware::Group, Middleware::Jwt, Middleware::AppToken]);
    let r = find(&t, HttpMethod::Get, "/api/v1/customer/captcha");
    assert_eq!(r.handler, "customer::customer_captcha");
    assert_eq!(r.middleware, vec![Middleware::AppTokenBaseApp]);
    let r = find(&t, HttpMethod::Post, "/api/v1/customer/app");
    assert_eq!(r.middleware, vec![Middleware::Jwt]);
    let f = file_routes();
    let r = find(&f, HttpMethod::Get, "/api/v1/file/:file_id");
    assert_eq!(r.handler, "sentc_file_controller::get_file");
    assert_eq!(r.middleware, vec![Middleware::JwtOptional, Middleware::AppToken]);
}

#[test]
fn duplicate_endpoint_is_found() {
    let mut t = file_routes();
    let first = t.remove(0);
    let copy = Route { method: first.method, path: first.path, handler: "other", middleware: vec![Middleware::AppToken] };
    t.push(first);
    t.push(copy);
    assert_eq!(find_duplicate_route(&t), Some((9, 10)));
}

#[test]
fn login_routes_need_only_the_app_token() {
    let t = api_routes();
    for (path, handler) in [
        ("/api/v1/exists", "user::exists"),
        ("/api/v1/register", "user::register"),
        ("/api/v1/prepare_login", "user::prepare_login"),
        ("/api/v1/done_login", "user::done_login"),
    ] {
        let r = find(&t, HttpMethod::Post, path);
        assert_eq!(r.handler, handler);
        assert_eq!(r.middleware, vec![Middleware::AppToken]);
    }
}

#[test]
fn group_data_and_delete_routes_layers() {
    let t = api_routes();
    let r = find(&t, HttpMethod::Get, "/api/v1/group/:group_id");
    assert_eq!(r.handler, "group::get_user_group_data");
    assert_eq!(r.middleware, vec![Middleware::Group, Middleware::Jwt, Middleware::AppToken]);
    let r = find(&t, HttpMethod::Delete, "/api/v1/group/:group_id");
    assert_eq!(r.handler, "group::delete");
    assert_eq!(r.middleware, vec![Middleware::Group, Middleware::Jwt, Middleware::AppToken]);
    let r = find(&t, HttpMethod::Get, "/api/v1/group/:group_id/public_key");
    assert_eq!(r.middleware, vec![Middleware::AppToken]);
}

#[test]
fn file_part_download_needs_only_the_app_token() {
    let f = file_routes();
    let r = find(&f, HttpMethod::Get, "/api/v1/file/part/:part_id");
    assert_eq!(r.handler, "sentc_file_controller::download_part");
    assert_eq!(r.middleware, vec![Middleware::AppToken]);
    let r = find(&f, HttpMethod::Post, "/api/v1/group/:group_id/file");
    assert_eq!(r.middleware, vec![Middleware::Group, Middleware::Jwt, Middleware::AppToken]);
}

#[test]
fn user_can_be_deleted_by_id() {
    let t = api_routes();
    let r = find(&t, HttpMethod::Delete, "/api/v1/user/:user_id");
    assert_eq!(r.handler, "user::delete");
    assert_eq!(r.middleware, vec![Middleware::Jwt, Middleware::AppToken]);
}

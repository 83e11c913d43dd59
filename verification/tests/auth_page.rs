use relay_server::web::auth_page::render_auth_page;

#[test]
fn test_render_auth_page_contains_hostname() {
    let html = render_auth_page("test-session-id", "my-machine", "12345678");
    assert!(html.contains("my-machine"));
}

#[test]
fn test_render_auth_page_contains_otp() {
    let html = render_auth_page("test-session-id", "my-machine", "12345678");
    assert!(html.contains("12345678"));
}

#[test]
fn test_render_auth_page_contains_session_id() {
    let html = render_auth_page("test-session-id", "my-machine", "12345678");
    assert!(html.contains("test-session-id"));
}

#[test]
fn test_render_auth_page_contains_title() {
    let html = render_auth_page("test-session-id", "my-machine", "12345678");
    assert!(html.contains("<title>Astation Auth</title>"));
}

#[test]
fn test_render_auth_page_contains_grant_button() {
    let html = render_auth_page("test-session-id", "my-machine", "12345678");
    assert!(html.contains("Grant Access"));
}

#[test]
fn test_render_auth_page_contains_deny_button() {
    let html = render_auth_page("test-session-id", "my-machine", "12345678");
    assert!(html.contains("Deny"));
}

#[test]
fn test_render_auth_page_contains_download_link() {
    let html = render_auth_page("test-session-id", "my-machine", "12345678");
    assert!(html.contains("download the Astation macOS app"));
}

#[test]
fn test_render_auth_page_is_valid_html() {
    let html = render_auth_page("test-session-id", "my-machine", "12345678");
    assert!(html.starts_with("<!DOCTYPE html>"));
    assert!(html.contains("</html>"));
}

#[test]
fn render_auth_page_places_each_value() {
    let html = render_auth_page("sid-1", "host-1", "87654321");
    assert!(html.contains("<span class=\"hostname\">host-1</span>"));
    assert!(html.contains("<div class=\"otp-display\">87654321</div>"));
    assert!(html.contains("const sessionId = \"sid-1\";"));
    assert!(html.contains("const otp = \"87654321\";"));
    assert!(html.contains("fetch(`/api/sessions/${sessionId}/grant`, {"));
    assert!(html.ends_with("</html>"));
}

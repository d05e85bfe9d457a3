use poca::app_routes::{generate_app_routes, AppRoutes, RouteNode};
use poca::poca::WindowOptions;
use poca::serve::{content_type, respond, serve};

fn routes() -> AppRoutes<'static> {
    generate_app_routes(RouteNode::S(
        "public",
        b"<index>",
        Box::new(vec![
            RouteNode::E("index.html", b"<index>"),
            RouteNode::E("app.js", b"js"),
            RouteNode::S(
                "img",
                b"",
                Box::new(vec![
                    RouteNode::E("logo.png", b"png"),
                    RouteNode::E("app.js", b"other js"),
                ]),
            ),
        ]),
    ))
}

#[test]
fn an_end_point_has_no_routes_below_it() {
    let end = generate_app_routes(RouteNode::E("file", b"content"));
    assert_eq!(end.root, "file");
    assert_eq!(end.content, b"content");
    assert!(end.routes.is_empty());
    let tree = routes();
    assert_eq!(tree.root, "public");
    assert_eq!(tree.routes.len(), 3);
    assert_eq!(tree.routes[0].root, "index.html");
    assert_eq!(tree.routes[2].routes[1].content, b"other js");
}

#[test]
fn lookups_follow_the_segments() {
    let tree = routes();
    // The first lookup takes any name for the root.
    assert_eq!(tree.get_route(&["anything"], true), Some(&b"<index>"[..]));
    assert_eq!(tree.get_route(&["anything"], false), None);
    assert_eq!(tree.get_route(&["public"], false), Some(&b"<index>"[..]));
    // An empty first segment finds the content of the node itself.
    assert_eq!(tree.get_route(&[""], true), Some(&b"<index>"[..]));
    assert_eq!(tree.get_route(&["", "x"], false), Some(&b"<index>"[..]));
    let nothing: [&str; 0] = [];
    assert_eq!(tree.get_route(&nothing, true), None);
    // The first lookup hands the whole path down.
    assert_eq!(tree.get_route(&["app.js"], true), Some(&b"<index>"[..]));
    assert_eq!(tree.get_route(&["img", "logo.png"], true), Some(&b"png"[..]));
    assert_eq!(tree.get_route(&["img", "app.js"], true), Some(&b"other js"[..]));
    // An empty segment finds the content of the first node it is handed to.
    assert_eq!(tree.get_route(&["img", ""], true), Some(&b"png"[..]));
    assert_eq!(tree.get_route(&["img", "missing"], true), None);
    // Any other lookup drops the segment that named the node.
    assert_eq!(
        tree.get_route(&["public", "img", "logo.png"], false),
        Some(&b"png"[..])
    );
    assert_eq!(tree.get_route(&["public", "app.js"], false), Some(&b"js"[..]));
    assert_eq!(tree.get_route(&["other", "app.js"], false), None);
}

#[test]
fn content_types_go_by_the_extension() {
    let table = [
        ("html", "text/html"),
        ("htm", "text/html"),
        ("css", "text/css"),
        ("js", "text/javascript"),
        ("png", "image/png"),
        ("jpg", "image/jpeg"),
        ("jpeg", "image/jpeg"),
        ("gif", "image/gif"),
        ("svg", "image/svg+xml"),
        ("ico", "image/x-icon"),
        ("json", "application/json"),
        ("pdf", "application/pdf"),
        ("zip", "application/zip"),
        ("mp3", "audio/mpeg"),
        ("mp4", "video/mp4"),
        ("m4a", "video/mp4"),
        ("ogg", "audio/ogg"),
        ("ogv", "video/ogg"),
        ("webm", "video/webm"),
        ("", "text/html"),
        ("HTML", "text/html"),
        ("exe", "text/html"),
    ];
    for (extension, expected) in table {
        assert_eq!(content_type(extension), expected);
    }
}

#[test]
fn a_request_is_answered_with_content_and_type() {
    let tree = routes();
    assert_eq!(
        respond(&tree, &["img", "logo.png"], "png"),
        (&b"png"[..], "image/png")
    );
    assert_eq!(respond(&tree, &["missing", "x"], "x"), (&b""[..], "text/html"));
    assert_eq!(respond(&tree, &[""], ""), (&b"<index>"[..], "text/html"));
}

#[test]
fn a_request_path_is_cut_at_its_slashes() {
    let tree = routes();
    assert_eq!(serve(&tree, "/img/logo.png"), (&b"png"[..], "image/png"));
    assert_eq!(serve(&tree, "img/logo.png"), (&b"png"[..], "image/png"));
    assert_eq!(serve(&tree, "///img/logo.png"), (&b"png"[..], "image/png"));
    // The root itself: one empty segment.
    assert_eq!(serve(&tree, "/"), (&b"<index>"[..], "text/html"));
    assert_eq!(serve(&tree, ""), (&b"<index>"[..], "text/html"));
    // An empty segment in the middle finds the content of the node it meets.
    assert_eq!(serve(&tree, "/img//logo.png"), (&b"png"[..], "image/png"));
    assert_eq!(serve(&tree, "/img/"), (&b"png"[..], "text/html"));
    // The extension is what follows the last dot of the last segment.
    assert_eq!(serve(&tree, "/img/app.js"), (&b"other js"[..], "text/javascript"));
    assert_eq!(serve(&tree, "/no/such.min.css"), (&b""[..], "text/css"));
    assert_eq!(serve(&tree, "/a.css/img"), (&b""[..], "text/html"));
    assert_eq!(serve(&tree, "/css"), (&b"<index>"[..], "text/css"));
}

#[test]
fn window_options_keep_what_they_are_given() {
    let options = WindowOptions::new("Title", (800, 600), true);
    assert_eq!(options.title(), "Title");
    assert_eq!(options.size(), (800, 600));
    assert!(options.resizable());
    let default = WindowOptions::default();
    assert_eq!(default.title(), "Poca App");
    assert_eq!(default.size(), (640, 480));
    assert!(!default.resizable());
}

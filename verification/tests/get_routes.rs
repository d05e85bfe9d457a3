use poca::app_routes::{generate_app_routes, AppRoutes, RouteNode};

fn sample_routes() -> AppRoutes<'static> {
    generate_app_routes(RouteNode::S(
        "routes_test",
        b"<root index>",
        Box::new(vec![
            RouteNode::E("index.html", b"<root index>"),
            RouteNode::S(
                "layer1",
                b"<layer1 index>",
                Box::new(vec![
                    RouteNode::E("index.html", b"<layer1 index>"),
                    RouteNode::S(
                        "layer2",
                        b"",
                        Box::new(vec![
                            RouteNode::E("layer3-1", b"three-one"),
                            RouteNode::E("layer3-2", b"three-two"),
                        ]),
                    ),
                ]),
            ),
        ]),
    ))
}

#[test]
fn get_route() {
    let routes = sample_routes();
    let route = routes.get_route(&["layer1", "layer2", "layer3-1"], true);
    println!("{:?}", route);
    assert_eq!(route, Some(&b"three-one"[..]));
}

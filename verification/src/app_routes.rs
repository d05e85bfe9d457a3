use crate::strings::same_str;
use vstd::prelude::*;

verus! {

/// The mathematical shape of a route tree: a path segment, the bytes served
/// for it, and the subtrees below it, in order.
pub ghost struct RouteTree {
    pub root: Seq<char>,
    pub content: Seq<u8>,
    pub routes: Seq<RouteTree>,
}

/// A route tree as it is served from.
#[derive(Debug)]
pub struct AppRoutes<'a> {
    pub root: &'a str,
    pub routes: Vec<AppRoutes<'a>>,
    pub content: &'a [u8],
}

/// A route tree as it is written down: a path segment, its content, and,
/// at a split point, the nodes below it.
pub enum RouteNode<'a> {
    /// An end point.
    E(&'a str, &'a [u8]),
    /// A split point.
    S(&'a str, &'a [u8], Box<Vec<RouteNode<'a>>>),
}

impl<'a> AppRoutes<'a> {
    /// The tree this value stands for.
    pub open spec fn tree(self) -> RouteTree
        decreases self,
    {
        RouteTree {
            root: self.root@,
            content: self.content@,
            routes: Seq::new(
                self.routes@.len(),
                |i: int|
                    if 0 <= i < self.routes@.len() {
                        self.routes@[i].tree()
                    } else {
                        arbitrary()
                    },
            ),
        }
    }
}

impl<'a> RouteNode<'a> {
    /// The tree this node stands for. An end point has no subtrees.
    pub open spec fn tree(self) -> RouteTree
        decreases self,
    {
        match self {
            RouteNode::E(root, content) => RouteTree {
                root: root@,
                content: content@,
                routes: Seq::empty(),
            },
            RouteNode::S(root, content, below) => RouteTree {
                root: root@,
                content: content@,
                routes: Seq::new(
                    below@.len(),
                    |i: int|
                        if 0 <= i < below@.len() {
                            below@[i].tree()
                        } else {
                            arbitrary()
                        },
                ),
            },
        }
    }
}

/// What a lookup of `path` in `t` yields.
///
/// An empty path finds nothing. A path whose first segment is empty finds the
/// content of `t` itself. Otherwise the first segment has to name `t`, unless
/// the lookup is the `initial` one, which accepts any name; a path of one
/// segment then finds the content of `t`, and a longer one is handed to the
/// subtrees in order, the first that finds something deciding. The initial
/// lookup hands the whole path down; every other one drops its first segment.
pub open spec fn lookup(t: RouteTree, path: Seq<Seq<char>>, initial: bool) -> Option<Seq<u8>>
    decreases t, 0nat,
{
    if path.len() == 0 {
        None
    } else if path[0].len() == 0 {
        Some(t.content)
    } else if path[0] == t.root || initial {
        if path.len() == 1 {
            Some(t.content)
        } else {
            first_found(
                t.routes,
                0,
                if initial {
                    path
                } else {
                    path.subrange(1, path.len() as int)
                },
            )
        }
    } else {
        None
    }
}

/// The result of the first tree among `ts[from..]` in which a lookup of
/// `path` that is not the initial one finds something.
pub open spec fn first_found(ts: Seq<RouteTree>, from: nat, path: Seq<Seq<char>>) -> Option<
    Seq<u8>,
>
    decreases ts, ts.len() - from,
{
    if from >= ts.len() {
        None
    } else {
        match lookup(ts[from as int], path, false) {
            Some(content) => Some(content),
            None => first_found(ts, from + 1, path),
        }
    }
}

/// The segments of a path as sequences of characters.
pub open spec fn segments(path: Seq<&str>) -> Seq<Seq<char>> {
    Seq::new(path.len(), |i: int| path[i]@)
}

/// Whether an optional slice holds exactly the bytes of an optional sequence.
pub open spec fn same_content(got: Option<&[u8]>, want: Option<Seq<u8>>) -> bool {
    match (got, want) {
        (Some(g), Some(w)) => g@ == w,
        (None, None) => true,
        _ => false,
    }
}

/// Builds the tree to serve from out of its written form.
pub fn generate_app_routes<'a>(routes: RouteNode<'a>) -> (r: AppRoutes<'a>)
    ensures
        r.tree() == routes.tree(),
    decreases routes,
{
    let (root, content, sub_routes) = match routes {
        RouteNode::E(root, content) => (root, content, Vec::new()),
        RouteNode::S(root, content, sub_routes) => (root, content, *sub_routes),
    };
    let ghost below = sub_routes@;
    let mut built: Vec<AppRoutes<'a>> = Vec::new();
    let mut rest = sub_routes;
    // The nodes are taken from the back, so the built list is reversed at the end.
    while rest.len() > 0
        invariant
            rest@.len() <= below.len(),
            rest@ == below.subrange(0, rest@.len() as int),
            built@.len() == below.len() - rest@.len(),
            forall|j: int|
                0 <= j < built@.len() ==> (#[trigger] built@[j]).tree() == below[below.len() - 1
                    - j].tree(),
            forall|j: int| 0 <= j < below.len() ==> decreases_to!(routes => #[trigger] below[j]),
        decreases rest@.len(),
    {
        let ghost k = rest@.len() - 1;
        let node = rest.pop().unwrap();
        assert(node == below[k]);
        let sub = generate_app_routes(node);
        built.push(sub);
    }
    let mut ordered: Vec<AppRoutes<'a>> = Vec::new();
    while built.len() > 0
        invariant
            built@.len() + ordered@.len() == below.len(),
            forall|j: int|
                0 <= j < built@.len() ==> (#[trigger] built@[j]).tree() == below[below.len() - 1
                    - j].tree(),
            forall|j: int|
                0 <= j < ordered@.len() ==> (#[trigger] ordered@[j]).tree() == below[j].tree(),
        decreases built@.len(),
    {
        let sub = built.pop().unwrap();
        ordered.push(sub);
    }
    let r = AppRoutes { root, content, routes: ordered };
    proof {
        assert(r.tree().routes =~= routes.tree().routes);
    }
    r
}

impl<'a> AppRoutes<'a> {
    /// Looks `path` up in this tree; see [`lookup`].
    pub fn get_route(&self, path: &[&str], initial: bool) -> (r: Option<&'a [u8]>)
        ensures
            same_content(r, lookup(self.tree(), segments(path@), initial)),
        decreases self,
    {
        if path.len() == 0 {
            return None;
        }
        assert(segments(path@)[0] == path@[0]@);
        if same_str(path[0], "") {
            proof {
                reveal_strlit("");
            }
            return Some(self.content);
        }
        proof {
            reveal_strlit("");
            if path@[0]@.len() == 0 {
                assert(path@[0]@ =~= ""@);
            }
        }
        let ghost want = lookup(self.tree(), segments(path@), initial);
        if same_str(path[0], self.root) || initial {
            if path.len() == 1 {
                return Some(self.content);
            } else {
                let next_path = if initial {
                    path
                } else {
                    vstd::slice::slice_subrange(path, 1, path.len())
                };
                let ghost next = segments(next_path@);
                let ghost below = self.tree().routes;
                assert(next =~= if initial {
                    segments(path@)
                } else {
                    segments(path@).subrange(1, path@.len() as int)
                });
                assert(want == first_found(below, 0, next));
                let n: usize = self.routes.len();
                let mut i: usize = 0;
                while i < n
                    invariant
                        i <= n,
                        n == self.routes@.len(),
                        below == self.tree().routes,
                        below.len() == n,
                        next == segments(next_path@),
                        want == lookup(self.tree(), segments(path@), initial),
                        want == first_found(below, i as nat, next),
                    decreases n - i,
                {
                    let found = self.routes[i].get_route(next_path, false);
                    assert(below[i as int] == self.routes@[i as int].tree());
                    assert(first_found(below, i as nat, next) == match lookup(
                        below[i as int],
                        next,
                        false,
                    ) {
                        Some(content) => Some(content),
                        None => first_found(below, (i + 1) as nat, next),
                    });
                    if found.is_some() {
                        return found;
                    }
                    i = i + 1;
                }
                return None;
            }
        } else {
            return None;
        }
    }
}

} // verus!

use crate::text::str_eq;
use vstd::prelude::*;

verus! {

/// A node of the composite tree: a folder that holds further nodes, or a
/// plain file.
#[derive(Debug)]
pub enum Node {
    Folder(Folder),
    File(File),
}

/// A named folder holding any number of child components.
#[derive(Debug)]
pub struct Folder {
    pub name: String,
    pub components: Vec<Node>,
}

/// A named leaf.
#[derive(Debug)]
pub struct File {
    pub name: String,
}

/// The name a node answers to.
pub open spec fn spec_node_name(n: Node) -> Seq<char> {
    match n {
        Node::Folder(f) => f.name@,
        Node::File(f) => f.name@,
    }
}

/// Whether the subtree rooted at `n` holds a component with the given
/// name.
pub open spec fn spec_node_contains(n: Node, key: Seq<char>) -> bool
    decreases n,
{
    match n {
        Node::File(f) => f.name@ == key,
        Node::Folder(f) => spec_folder_contains(f, key),
    }
}

/// Whether the folder or anything below it carries the given name.
pub open spec fn spec_folder_contains(f: Folder, key: Seq<char>) -> bool
    decreases f,
{
    f.name@ == key || exists|i: int|
        0 <= i < f.components@.len() && spec_node_contains(#[trigger] f.components@[i], key)
}

/// A component of the tree that can search its subtree for a name.
pub trait Component {
    /// Whether the component's subtree holds the name.
    spec fn spec_contains(&self, key: Seq<char>) -> bool;

    /// A copy of a component of the subtree carrying the given name,
    /// searched depth first, or nothing when no component carries it.
    fn find(&self, key: &str) -> (r: Option<Node>)
        ensures
            match r {
                Some(found) => self.spec_contains(key@) && spec_node_name(found) == key@,
                None => !self.spec_contains(key@),
            },
    ;
}

impl Clone for File {
    fn clone(&self) -> (r: Self)
        ensures
            r == *self,
    {
        File { name: self.name.clone() }
    }
}

impl Clone for Node {
    /// The copy answers to the same name; its subtree is copied with it,
    /// though only the name is tracked here, which is what searching
    /// needs.
    fn clone(&self) -> (r: Self)
        ensures
            spec_node_name(r) == spec_node_name(*self),
        decreases *self,
    {
        match self {
            Node::Folder(f) => {
                proof {
                    assert(decreases_to!(*self => *f));
                }
                Node::Folder(f.clone())
            },
            Node::File(f) => Node::File(f.clone()),
        }
    }
}

fn clone_nodes(v: &Vec<Node>) -> (r: Vec<Node>)
    ensures
        r@.len() == v@.len(),
    decreases v@,
{
    let n = v.len();
    let mut out: Vec<Node> = Vec::new();
    let mut i: usize = 0;
    while i < n
        invariant
            0 <= i <= n,
            n == v@.len(),
            out@.len() == i,
        decreases n - i,
    {
        proof {
            assert(decreases_to!(v@ => v@[i as int]));
        }
        out.push(v[i].clone());
        i = i + 1;
    }
    out
}

impl Clone for Folder {
    /// The copy answers to the same name and holds as many children; the
    /// children are copied with it, though only the name is tracked
    /// here, which is what searching needs.
    fn clone(&self) -> (r: Self)
        ensures
            r.name == self.name,
            r.components@.len() == self.components@.len(),
        decreases *self,
    {
        proof {
            assert(decreases_to!(*self => self.components@));
        }
        Folder { name: self.name.clone(), components: clone_nodes(&self.components) }
    }
}

impl Folder {
    /// An empty folder with the given name.
    pub fn new(name: &str) -> (f: Folder)
        ensures
            f.name@ == name@,
            f.components@ =~= Seq::<Node>::empty(),
    {
        Folder { name: name.to_owned(), components: Vec::new() }
    }

    /// Appends one component.
    pub fn add(&mut self, component: Node)
        ensures
            final(self).name == old(self).name,
            final(self).components@ == old(self).components@.push(component),
    {
        self.components.push(component);
    }

    pub fn get_name(&self) -> (r: &str)
        ensures
            r@ == self.name@,
    {
        self.name.as_str()
    }
}

impl File {
    /// A file with the given name.
    pub fn new(name: &str) -> (f: File)
        ensures
            f.name@ == name@,
    {
        File { name: name.to_owned() }
    }
}

/// Searches one node, depth first.
fn node_find(n: &Node, key: &str) -> (r: Option<Node>)
    ensures
        match r {
            Some(found) => spec_node_contains(*n, key@) && spec_node_name(found) == key@,
            None => !spec_node_contains(*n, key@),
        },
    decreases *n,
{
    match n {
        Node::Folder(f) => {
            proof {
                assert(decreases_to!(*n => *f));
            }
            f.find(key)
        },
        Node::File(f) => f.find(key),
    }
}

impl Component for Folder {
    open spec fn spec_contains(&self, key: Seq<char>) -> bool {
        spec_folder_contains(*self, key)
    }

    fn find(&self, key: &str) -> (r: Option<Node>)
        decreases *self,
    {
        if str_eq(self.name.as_str(), key) {
            return Some(Node::Folder(self.clone()));
        }
        let n = self.components.len();
        let mut i: usize = 0;
        while i < n
            invariant
                0 <= i <= n,
                n == self.components@.len(),
                forall|k: int|
                    0 <= k < i ==> !spec_node_contains(#[trigger] self.components@[k], key@),
            decreases n - i,
        {
            proof {
                assert(decreases_to!(*self => self.components@[i as int]));
            }
            if let Some(found) = node_find(&self.components[i], key) {
                return Some(found);
            }
            i = i + 1;
        }
        None
    }
}

impl Component for File {
    open spec fn spec_contains(&self, key: Seq<char>) -> bool {
        self.name@ == key
    }

    fn find(&self, key: &str) -> (r: Option<Node>) {
        if str_eq(self.name.as_str(), key) {
            Some(Node::File(self.clone()))
        } else {
            None
        }
    }
}

impl From<Folder> for Node {
    fn from(folder: Folder) -> (r: Self) {
        Node::Folder(folder)
    }
}

impl vstd::std_specs::convert::FromSpecImpl<Folder> for Node {
    open spec fn obeys_from_spec() -> bool {
        true
    }

    open spec fn from_spec(v: Folder) -> Self {
        Node::Folder(v)
    }
}

impl From<File> for Node {
    fn from(file: File) -> (r: Self) {
        Node::File(file)
    }
}

impl vstd::std_specs::convert::FromSpecImpl<File> for Node {
    open spec fn obeys_from_spec() -> bool {
        true
    }

    open spec fn from_spec(v: File) -> Self {
        Node::File(v)
    }
}

} // verus!

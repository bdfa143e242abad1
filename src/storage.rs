use vstd::prelude::*;

verus! {

/// A node of the remote tree as one listing saw it.
pub struct RemoteNode {
    pub handle: String,
    pub name: String,
}

impl View for RemoteNode {
    type V = (Seq<char>, Seq<char>);

    open spec fn view(&self) -> Self::V {
        (self.handle@, self.name@)
    }
}

impl RemoteNode {
    pub fn new(handle: String, name: String) -> (r: RemoteNode)
        ensures
            r.handle == handle,
            r.name == name,
    {
        RemoteNode { handle, name }
    }
}

/// A point-in-time listing of the account's nodes, in listing order.
pub struct Snapshot {
    pub nodes: Vec<RemoteNode>,
}

/// Why a lookup found nothing.
#[derive(Debug, Clone, Copy, PartialEq, Eq, Structural)]
pub enum LookupError {
    NotFound,
}

/// Why an upload did not happen.
#[derive(Debug, PartialEq, Eq)]
pub enum UploadError {
    /// The local file could not be opened or measured.
    LocalIo(String),
    /// No node has the destination handle.
    NoSuchDestination(String),
    /// The transfer to the backend failed.
    TransferFailed(String),
}

/// Why a move did not happen.
#[derive(Debug, PartialEq, Eq)]
pub enum MoveError {
    /// No node has the handle of the node to move.
    NoSuchSource(String),
    /// No node has the handle of the new parent.
    NoSuchDestination(String),
    /// The backend refused or failed the move.
    Failed(String),
}

pub open spec fn nodes_view(nodes: Seq<RemoteNode>) -> Seq<(Seq<char>, Seq<char>)> {
    nodes.map_values(|n: RemoteNode| n@)
}

/// Whether `i` is the first position of a node with handle `h`.
pub open spec fn is_first_handle(nodes: Seq<(Seq<char>, Seq<char>)>, h: Seq<char>, i: int) -> bool {
    0 <= i < nodes.len() && nodes[i].0 == h && forall|j: int| 0 <= j < i ==> nodes[j].0 != h
}

/// Whether some node has handle `h`.
pub open spec fn holds_handle(nodes: Seq<(Seq<char>, Seq<char>)>, h: Seq<char>) -> bool {
    exists|i: int| 0 <= i < nodes.len() && nodes[i].0 == h
}

/// The nodes whose name is one of `names`, in listing order.
pub open spec fn named(nodes: Seq<(Seq<char>, Seq<char>)>, names: Seq<Seq<char>>) -> Seq<
    (Seq<char>, Seq<char>),
> {
    nodes.filter(|n: (Seq<char>, Seq<char>)| names.contains(n.1))
}

fn same_text(a: &String, b: &String) -> (r: bool)
    ensures
        r == (a@ == b@),
{
    a.eq(b)
}

fn same_str(a: &String, b: &str) -> (r: bool)
    ensures
        r == (a@ == b@),
{
    let b = b.to_string();
    a.eq(&b)
}

fn clone_node(n: &RemoteNode) -> (r: RemoteNode)
    ensures
        r@ == n@,
{
    RemoteNode { handle: n.handle.clone(), name: n.name.clone() }
}

impl View for Snapshot {
    type V = Seq<(Seq<char>, Seq<char>)>;

    open spec fn view(&self) -> Self::V {
        nodes_view(self.nodes@)
    }
}

impl Snapshot {
    pub fn new(nodes: Vec<RemoteNode>) -> (r: Snapshot)
        ensures
            r.nodes == nodes,
    {
        Snapshot { nodes }
    }

    /// The position of the first node with handle `handle`, if any.
    pub fn position_of_handle(&self, handle: &str) -> (r: Option<usize>)
        ensures
            r is None <==> !holds_handle(self@, handle@),
            r matches Some(i) ==> is_first_handle(self@, handle@, i as int),
    {
        let mut i: usize = 0;
        while i < self.nodes.len()
            invariant
                i <= self.nodes@.len(),
                forall|j: int| 0 <= j < i ==> self@[j].0 != handle@,
            decreases self.nodes@.len() - i,
        {
            if same_str(&self.nodes[i].handle, handle) {
                assert(self@[i as int].0 == handle@);
                return Some(i);
            }
            i += 1;
        }
        None
    }

    /// The node with handle `handle`; `NotFound` where the listing has none.
    pub fn node_by_handle(&self, handle: &str) -> (r: Result<RemoteNode, LookupError>)
        ensures
            r is Err <==> !holds_handle(self@, handle@),
            r matches Ok(n) ==> exists|i: int| is_first_handle(self@, handle@, i) && n@ == self@[i],
    {
        match self.position_of_handle(handle) {
            None => Err(LookupError::NotFound),
            Some(i) => Ok(clone_node(&self.nodes[i])),
        }
    }

    /// Every node whose name is one of `names`, in listing order; two nodes
    /// that share a name both appear.
    pub fn nodes_by_names(&self, names: &Vec<String>) -> (r: Vec<RemoteNode>)
        ensures
            nodes_view(r@) == named(self@, names@.map_values(|s: String| s@)),
    {
        let ghost wanted = names@.map_values(|s: String| s@);
        let mut r: Vec<RemoteNode> = Vec::new();
        let mut i: usize = 0;
        while i < self.nodes.len()
            invariant
                i <= self.nodes@.len(),
                wanted == names@.map_values(|s: String| s@),
                nodes_view(r@) == named(self@.subrange(0, i as int), wanted),
            decreases self.nodes@.len() - i,
        {
            proof {
                reveal_with_fuel(Seq::filter, 1);
                assert(self@.subrange(0, i + 1).drop_last() =~= self@.subrange(0, i as int));
            }
            let mut found = false;
            let mut k: usize = 0;
            while k < names.len()
                invariant
                    i < self.nodes@.len(),
                    k <= names@.len(),
                    wanted == names@.map_values(|s: String| s@),
                    found == (exists|m: int| 0 <= m < k && wanted[m] == self@[i as int].1),
                decreases names@.len() - k,
            {
                if same_text(&names[k], &self.nodes[i].name) {
                    found = true;
                }
                proof {
                    assert(wanted[k as int] == names@[k as int]@);
                    if found {
                        if !(exists|m: int| 0 <= m < k && wanted[m] == self@[i as int].1) {
                            assert(wanted[k as int] == self@[i as int].1);
                        }
                    }
                }
                k += 1;
            }
            proof {
                if wanted.contains(self@[i as int].1) {
                    let m = choose|m: int| 0 <= m < wanted.len() && wanted[m] == self@[i as int].1;
                    assert(0 <= m < names@.len() && wanted[m] == self@[i as int].1);
                }
                assert(found == wanted.contains(self@[i as int].1));
            }
            if found {
                let n = clone_node(&self.nodes[i]);
                let ghost before = r@;
                r.push(n);
                assert(nodes_view(r@) =~= nodes_view(before).push(n@));
            }
            i += 1;
        }
        assert(self@.subrange(0, self.nodes@.len() as int) =~= self@);
        r
    }

    /// The position of the upload destination `handle`.
    pub fn upload_destination(&self, handle: &str) -> (r: Result<usize, UploadError>)
        ensures
            r is Err <==> !holds_handle(self@, handle@),
            r matches Err(e) ==> e matches UploadError::NoSuchDestination(h) && h@ == handle@,
            r matches Ok(i) ==> is_first_handle(self@, handle@, i as int),
    {
        match self.position_of_handle(handle) {
            None => Err(UploadError::NoSuchDestination(handle.to_string())),
            Some(i) => Ok(i),
        }
    }

    /// The positions of the node to move and of its new parent.
    pub fn move_targets(&self, source: &str, destination: &str) -> (r: Result<(usize, usize), MoveError>)
        ensures
            r matches Ok((i, j)) ==> is_first_handle(self@, source@, i as int)
                && is_first_handle(self@, destination@, j as int),
            !holds_handle(self@, source@) <==> r matches Err(MoveError::NoSuchSource(h)),
            r matches Err(MoveError::NoSuchSource(h)) ==> h@ == source@,
            holds_handle(self@, source@) && !holds_handle(self@, destination@) <==> r matches Err(
                MoveError::NoSuchDestination(h),
            ),
            r matches Err(MoveError::NoSuchDestination(h)) ==> h@ == destination@,
            !(r matches Err(MoveError::Failed(_))),
    {
        let i = match self.position_of_handle(source) {
            None => return Err(MoveError::NoSuchSource(source.to_string())),
            Some(i) => i,
        };
        match self.position_of_handle(destination) {
            None => Err(MoveError::NoSuchDestination(destination.to_string())),
            Some(j) => Ok((i, j)),
        }
    }
}

} // verus!

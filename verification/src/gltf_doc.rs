use vstd::prelude::*;
use crate::scene::{gltf_node_role, NodeRole, SceneBook};

verus! {

/// What the library reads of a glTF file, as its JSON holds it: objects are
/// known by their index in the file's arrays.
pub struct GltfDocument {
    /// Each scene's name, if it has one, and the indices of its nodes.
    pub scenes: Vec<(Option<String>, Vec<usize>)>,
    /// Each node: whether it has a camera, whether it has a mesh, and the
    /// indices of its children.
    pub nodes: Vec<(bool, bool, Vec<usize>)>,
    /// The binary chunk of a binary glTF file.
    pub blob: Option<Vec<u8>>,
}

/// A glTF document as plain values.
pub struct GltfDocumentView {
    pub scene_names: Seq<Option<Seq<char>>>,
    pub scene_nodes: Seq<Seq<usize>>,
    pub nodes: Seq<(bool, bool, Seq<usize>)>,
    pub blob: Option<Seq<u8>>,
}

/// The text of an optional name.
pub open spec fn name_view(n: Option<String>) -> Option<Seq<char>> {
    match n {
        Some(s) => Some(s@),
        None => None,
    }
}

impl GltfDocument {
    pub open spec fn view(&self) -> GltfDocumentView {
        GltfDocumentView {
            scene_names: self.scenes@.map_values(|s: (Option<String>, Vec<usize>)| name_view(s.0)),
            scene_nodes: self.scenes@.map_values(|s: (Option<String>, Vec<usize>)| s.1@),
            nodes: self.nodes@.map_values(|n: (bool, bool, Vec<usize>)| (n.0, n.1, n.2@)),
            blob: match self.blob {
                Some(b) => Some(b@),
                None => None,
            },
        }
    }
}

/// The little-endian `u32` at `i` of `b`.
pub open spec fn spec_u32_le(b: Seq<u8>, i: int) -> int {
    b[i] + b[i + 1] * 0x100 + b[i + 2] * 0x1_0000 + b[i + 3] * 0x100_0000
}

/// Whether `bytes` start with a binary glTF header whose length field is
/// below the header's own 12 bytes: the `gltf` crate's binary reader
/// subtracts 12 from that field unchecked, so it panics on such bytes where
/// overflow is checked, and fails where it is not.
pub open spec fn spec_glb_length_below_header(bytes: Seq<u8>) -> bool {
    &&& bytes.len() >= 12
    &&& bytes[0] == 0x67 && bytes[1] == 0x6c && bytes[2] == 0x54 && bytes[3] == 0x46
    &&& spec_u32_le(bytes, 8) < 12
}

/// The document that the `gltf` crate reads from the bytes of a glTF file
/// (JSON or binary glTF), without validating it; `None` when the bytes are
/// no glTF file it can read.
pub uninterp spec fn gltf_document(bytes: Seq<u8>) -> Option<GltfDocumentView>;

/// `gltf::Gltf::from_slice_without_validation`, then the scenes and nodes
/// of its JSON root and its binary chunk, copied one for one. The contract
/// claims only that the result is a function of the bytes. Bytes with a
/// binary header whose length field is below 12 are left out: the crate's
/// binary reader panics on them. That it returns rather than panics on
/// other malformed bytes is assumed, as its documentation does not say it.
#[verifier::external_body]
fn parse_gltf(bytes: &[u8]) -> (r: Option<GltfDocument>)
    requires
        !spec_glb_length_below_header(bytes@),
    ensures
        r is None <==> gltf_document(bytes@) is None,
        r matches Some(d) ==> gltf_document(bytes@) == Some(d.view()),
{
    let g = gltf::Gltf::from_slice_without_validation(bytes).ok()?;
    let j = g.document.as_json();
    Some(GltfDocument {
        scenes: j.scenes.iter().map(|s| (s.name.clone(), s.nodes.iter().map(|n| n.value()).collect())).collect(),
        nodes: j.nodes.iter().map(|n| (n.camera.is_some(), n.mesh.is_some(), n.children.iter().flatten().map(|c| c.value()).collect())).collect(),
        blob: g.blob.clone(),
    })
}

/// Reads the glTF document held in `bytes`: `None` when they are no glTF
/// file, and so when they start with a binary header whose length field is
/// below 12, which the `gltf` crate cannot read.
pub fn read_gltf(bytes: &[u8]) -> (r: Option<GltfDocument>)
    ensures
        spec_glb_length_below_header(bytes@) ==> r is None,
        !spec_glb_length_below_header(bytes@) ==> (r is None <==> gltf_document(bytes@) is None),
        !spec_glb_length_below_header(bytes@) ==> (r matches Some(d) ==> gltf_document(bytes@) == Some(d.view())),
{
    let n = bytes.len();
    if n >= 12 && bytes[0] == 0x67 && bytes[1] == 0x6c && bytes[2] == 0x54 && bytes[3] == 0x46 {
        let length: u64 = bytes[8] as u64 + bytes[9] as u64 * 0x100 + bytes[10] as u64 * 0x1_0000
            + bytes[11] as u64 * 0x100_0000;
        if length < 12 {
            return None;
        }
    }
    parse_gltf(bytes)
}

/// The index of the scene called `name`, looking at the scenes in order:
/// `None` when a scene without a name comes first, or no scene has that
/// name, on which reading the file fails.
pub open spec fn spec_scene_index(names: Seq<Option<Seq<char>>>, name: Seq<char>) -> Option<int>
    decreases names.len(),
{
    if names.len() == 0 {
        None
    } else {
        match names[0] {
            None => None,
            Some(n) => if n == name {
                Some(0)
            } else {
                match spec_scene_index(names.drop_first(), name) {
                    Some(k) => Some(k + 1),
                    None => None,
                }
            },
        }
    }
}

/// The role of the node at `index` of `nodes`.
pub open spec fn spec_node_role(nodes: Seq<(bool, bool, Seq<usize>)>, index: usize) -> NodeRole {
    if nodes[index as int].0 {
        NodeRole::Camera
    } else if nodes[index as int].1 {
        NodeRole::Model
    } else {
        NodeRole::Ignored
    }
}

/// The descendant mesh nodes, as ids, of the nodes `cs` and theirs, in
/// depth-first order, going at most `depth` more levels down below `cs`:
/// each node of `cs` in order, if it has a mesh, then its own descendants.
/// `None` when a child index names no node.
pub open spec fn spec_descendants(nodes: Seq<(bool, bool, Seq<usize>)>, cs: Seq<usize>, depth: nat) -> Option<Seq<u64>>
    decreases depth, cs.len(),
{
    if cs.len() == 0 {
        Some(seq![])
    } else {
        match spec_descendants(nodes, cs.drop_last(), depth) {
            None => None,
            Some(rest) => {
                let c = cs.last();
                if c >= nodes.len() {
                    None
                } else {
                    let own: Seq<u64> = if nodes[c as int].1 { seq![c as u64] } else { seq![] };
                    if depth == 0 {
                        Some(rest + own)
                    } else {
                        match spec_descendants(nodes, nodes[c as int].2, (depth - 1) as nat) {
                            None => None,
                            Some(d) => Some(rest + own + d),
                        }
                    }
                }
            },
        }
    }
}

/// The cameras and the models (each with its descendant mesh nodes, as
/// `spec_descendants` gives them, down to as many levels as there are
/// nodes, so reaching every descendant) of the scene whose nodes are
/// `indices`, in node order, as ids; `None` when a node index names no
/// node.
pub open spec fn spec_scene_parts(nodes: Seq<(bool, bool, Seq<usize>)>, indices: Seq<usize>) -> Option<(Seq<u64>, Seq<(u64, Seq<u64>)>)>
    decreases indices.len(),
{
    if indices.len() == 0 {
        Some((seq![], seq![]))
    } else {
        match spec_scene_parts(nodes, indices.drop_last()) {
            None => None,
            Some((cs, ms)) => {
                let n = indices.last();
                if n >= nodes.len() {
                    None
                } else {
                    match spec_node_role(nodes, n) {
                        NodeRole::Camera => Some((cs.push(n as u64), ms)),
                        NodeRole::Model => match spec_descendants(nodes, nodes[n as int].2, nodes.len()) {
                            None => None,
                            Some(d) => Some((cs, ms.push((n as u64, d)))),
                        },
                        NodeRole::Ignored => Some((cs, ms)),
                    }
                }
            },
        }
    }
}

proof fn lemma_scene_index_skip(names: Seq<Option<Seq<char>>>, name: Seq<char>, i: int)
    requires
        0 <= i <= names.len(),
        forall|j: int| 0 <= j < i ==> (#[trigger] names[j] matches Some(n) && n != name),
    ensures
        spec_scene_index(names, name) == (match spec_scene_index(names.skip(i), name) {
            Some(k) => Some(k + i),
            None => None,
        }),
    decreases i,
{
    if i == 0 {
        assert(names.skip(0) =~= names);
        match spec_scene_index(names, name) {
            Some(k) => {},
            None => {},
        }
    } else {
        let d = names.drop_first();
        assert forall|j: int| 0 <= j < i - 1 implies (#[trigger] d[j] matches Some(n) && n != name) by {
            assert(d[j] == names[j + 1]);
        }
        lemma_scene_index_skip(d, name, i - 1);
        assert(d.skip(i - 1) =~= names.skip(i));
        assert(names[0] matches Some(n) && n != name);
    }
}

/// The index of the scene called `name` in `doc`, as `spec_scene_index`
/// says.
fn scene_index(doc: &GltfDocument, name: &str) -> (r: Option<usize>)
    ensures
        match r {
            Some(k) => spec_scene_index(doc.view().scene_names, name@) == Some(k as int),
            None => spec_scene_index(doc.view().scene_names, name@) is None,
        },
{
    let ghost names = doc.view().scene_names;
    let wanted = name.to_owned();
    let mut i: usize = 0;
    while i < doc.scenes.len()
        invariant
            0 <= i <= doc.scenes@.len(),
            names == doc.view().scene_names,
            names.len() == doc.scenes@.len(),
            wanted@ == name@,
            forall|j: int| 0 <= j < i ==> (#[trigger] names[j] matches Some(n) && n != name@),
        decreases doc.scenes.len() - i,
    {
        assert(names[i as int] == name_view(doc.scenes@[i as int].0));
        match &doc.scenes[i].0 {
            None => {
                proof {
                    lemma_scene_index_skip(names, name@, i as int);
                    assert(names.skip(i as int)[0] == names[i as int]);
                }
                return None;
            },
            Some(n) => {
                if *n == wanted {
                    proof {
                        lemma_scene_index_skip(names, name@, i as int);
                        assert(names.skip(i as int)[0] == names[i as int]);
                    }
                    return Some(i);
                }
            },
        }
        i = i + 1;
    }
    proof {
        lemma_scene_index_skip(names, name@, i as int);
        assert(names.skip(i as int).len() == 0);
    }
    None
}

proof fn lemma_scene_index_range(names: Seq<Option<Seq<char>>>, name: Seq<char>)
    ensures
        spec_scene_index(names, name) matches Some(k) ==> 0 <= k < names.len() && names[k] == Some(name),
    decreases names.len(),
{
    if names.len() > 0 {
        lemma_scene_index_range(names.drop_first(), name);
    }
}

/// `path` is a walk down the node tree: every step goes from a node to one
/// of its children, and every index names a node.
pub open spec fn spec_child_path(nodes: Seq<(bool, bool, Seq<usize>)>, path: Seq<usize>) -> bool {
    &&& path.len() >= 1
    &&& forall|i: int| 0 <= i < path.len() ==> #[trigger] path[i] < nodes.len()
    &&& forall|i: int|
        #![trigger path[i]]
        0 <= i < path.len() - 1 ==> nodes[path[i] as int].2.contains(path[i + 1])
}

proof fn lemma_distinct_nodes_bounded(nodes: Seq<(bool, bool, Seq<usize>)>, path: Seq<usize>)
    requires
        path.no_duplicates(),
        forall|i: int| 0 <= i < path.len() ==> #[trigger] path[i] < nodes.len(),
    ensures
        path.len() <= nodes.len(),
{
    let ip = path.map_values(|x: usize| x as int);
    assert forall|i: int, j: int| 0 <= i < ip.len() && 0 <= j < ip.len() && i != j implies ip[i] != ip[j] by {
        assert(path[i] != path[j]);
    }
    assert(ip.no_duplicates());
    let range = vstd::set_lib::set_int_range(0, nodes.len() as int);
    assert forall|x: int| ip.to_set().contains(x) implies range.contains(x) by {
        let k = choose|k: int| 0 <= k < ip.len() && ip[k] == x;
        assert(path[k] < nodes.len());
    }
    vstd::set_lib::lemma_int_range(0, nodes.len() as int);
    vstd::set_lib::lemma_len_subset(ip.to_set(), range);
    ip.unique_seq_to_set();
}

/// A walk down the node tree can be cut to one of at most as many nodes as
/// the file has, with the same first and last node.
proof fn lemma_shorten_path(nodes: Seq<(bool, bool, Seq<usize>)>, path: Seq<usize>) -> (p: Seq<usize>)
    requires
        spec_child_path(nodes, path),
    ensures
        spec_child_path(nodes, p),
        p[0] == path[0],
        p.last() == path.last(),
        p.len() <= nodes.len(),
    decreases path.len(),
{
    if path.no_duplicates() {
        lemma_distinct_nodes_bounded(nodes, path);
        path
    } else {
        let (i, j) = choose|i: int, j: int| 0 <= i < path.len() && 0 <= j < path.len() && i != j && path[i] == path[j];
        let (a, b) = if i < j { (i, j) } else { (j, i) };
        let q = path.take(a) + path.skip(b);
        assert(q.len() == path.len() - (b - a));
        assert forall|k: int| 0 <= k < q.len() implies #[trigger] q[k] < nodes.len() by {
            if k < a {
                assert(q[k] == path[k]);
            } else {
                assert(q[k] == path[k + b - a]);
            }
        }
        assert forall|k: int| #![trigger q[k]] 0 <= k < q.len() - 1 implies nodes[q[k] as int].2.contains(q[k + 1]) by {
            if k < a - 1 {
                assert(q[k] == path[k] && q[k + 1] == path[k + 1]);
            } else if k == a - 1 {
                assert(q[k] == path[k] && q[k + 1] == path[b] && path[b] == path[a]);
                assert(path[k + 1] == path[a]);
            } else {
                assert(q[k] == path[k + b - a] && q[k + 1] == path[k + 1 + b - a]);
            }
        }
        if a == 0 {
            assert(q[0] == path[b]);
        } else {
            assert(q[0] == path[0]);
        }
        assert(q.last() == path.last());
        lemma_shorten_path(nodes, q)
    }
}

proof fn lemma_contains_concat(a: Seq<u64>, b: Seq<u64>, x: u64)
    ensures
        a.contains(x) ==> (a + b).contains(x),
        b.contains(x) ==> (a + b).contains(x),
{
    if a.contains(x) {
        let k = choose|k: int| 0 <= k < a.len() && a[k] == x;
        assert((a + b)[k] == x);
    }
    if b.contains(x) {
        let k = choose|k: int| 0 <= k < b.len() && b[k] == x;
        assert((a + b)[a.len() + k] == x);
    }
}

/// A mesh node reached by a walk of at most `depth` steps from a node of
/// `cs` is among the descendants collected from `cs`.
proof fn lemma_descendants_reach(nodes: Seq<(bool, bool, Seq<usize>)>, cs: Seq<usize>, depth: nat, path: Seq<usize>)
    requires
        spec_descendants(nodes, cs, depth) is Some,
        spec_child_path(nodes, path),
        cs.contains(path[0]),
        path.len() - 1 <= depth,
        nodes[path.last() as int].1,
    ensures
        spec_descendants(nodes, cs, depth)->0.contains(path.last() as u64),
    decreases depth, cs.len(),
{
    let c = cs.last();
    let front = cs.drop_last();
    let rest = spec_descendants(nodes, front, depth);
    let own: Seq<u64> = if nodes[c as int].1 { seq![c as u64] } else { seq![] };
    if path[0] != c {
        let k = choose|k: int| 0 <= k < cs.len() && cs[k] == path[0];
        assert(front[k] == path[0]);
        lemma_descendants_reach(nodes, front, depth, path);
        lemma_contains_concat(rest->0, own, path.last() as u64);
        if depth > 0 {
            let d = spec_descendants(nodes, nodes[c as int].2, (depth - 1) as nat);
            lemma_contains_concat(rest->0 + own, d->0, path.last() as u64);
        }
    } else if path.len() == 1 {
        assert(own[0] == path.last() as u64);
        lemma_contains_concat(rest->0, own, path.last() as u64);
        if depth > 0 {
            let d = spec_descendants(nodes, nodes[c as int].2, (depth - 1) as nat);
            lemma_contains_concat(rest->0 + own, d->0, path.last() as u64);
        }
    } else {
        let p = path.drop_first();
        assert forall|i: int| 0 <= i < p.len() implies #[trigger] p[i] < nodes.len() by {
            assert(p[i] == path[i + 1]);
        }
        assert forall|i: int| #![trigger p[i]] 0 <= i < p.len() - 1 implies nodes[p[i] as int].2.contains(p[i + 1]) by {
            assert(p[i] == path[i + 1] && p[i + 1] == path[i + 2]);
            assert(nodes[path[i + 1] as int].2.contains(path[i + 2]));
        }
        assert(nodes[path[0] as int].2.contains(path[1]));
        assert(p.last() == path.last());
        let sub = nodes[c as int].2;
        lemma_descendants_reach(nodes, sub, (depth - 1) as nat, p);
        let d = spec_descendants(nodes, sub, (depth - 1) as nat);
        lemma_contains_concat(rest->0 + own, d->0, path.last() as u64);
    }
}

/// Each model of a scene's parts is a node of the file together with the
/// descendants collected from its children.
proof fn lemma_parts_models(nodes: Seq<(bool, bool, Seq<usize>)>, indices: Seq<usize>, i: int)
    requires
        spec_scene_parts(nodes, indices) is Some,
        0 <= i < (spec_scene_parts(nodes, indices)->0).1.len(),
    ensures
        ({
            let m = (spec_scene_parts(nodes, indices)->0).1[i];
            exists|n: usize|
                #![trigger nodes[n as int]]
                n < nodes.len() && m.0 == n as u64 && spec_descendants(nodes, nodes[n as int].2, nodes.len())
                    == Some(m.1)
        }),
    decreases indices.len(),
{
    let prev = spec_scene_parts(nodes, indices.drop_last());
    let ms = (spec_scene_parts(nodes, indices)->0).1;
    let n = indices.last();
    if i < (prev->0).1.len() {
        lemma_parts_models(nodes, indices.drop_last(), i);
    } else {
        let m = ms[i];
        assert(m.0 == n as u64);
        assert(nodes[n as int] == nodes[n as int]);
    }
}

/// Every mesh node that a walk down the node tree reaches from a model of a
/// scene, at any depth, is rendered with that model: it is the model itself
/// or one of the descendants it is loaded with.
pub proof fn law_scene_models_reach_descendants(nodes: Seq<(bool, bool, Seq<usize>)>, indices: Seq<usize>, i: int, path: Seq<usize>)
    requires
        spec_scene_parts(nodes, indices) is Some,
        0 <= i < (spec_scene_parts(nodes, indices)->0).1.len(),
        spec_child_path(nodes, path),
        (spec_scene_parts(nodes, indices)->0).1[i].0 == path[0] as u64,
        nodes[path.last() as int].1,
    ensures
        ({
            let m = (spec_scene_parts(nodes, indices)->0).1[i];
            m.0 == path.last() as u64 || m.1.contains(path.last() as u64)
        }),
{
    let m = (spec_scene_parts(nodes, indices)->0).1[i];
    lemma_parts_models(nodes, indices, i);
    let n = choose|n: usize|
        #![trigger nodes[n as int]]
        n < nodes.len() && m.0 == n as u64 && spec_descendants(nodes, nodes[n as int].2, nodes.len())
            == Some(m.1);
    assert(n == path[0]);
    if path.len() > 1 {
        let p = path.drop_first();
        assert forall|k: int| 0 <= k < p.len() implies #[trigger] p[k] < nodes.len() by {
            assert(p[k] == path[k + 1]);
        }
        assert forall|k: int| #![trigger p[k]] 0 <= k < p.len() - 1 implies nodes[p[k] as int].2.contains(p[k + 1]) by {
            assert(p[k] == path[k + 1] && p[k + 1] == path[k + 2]);
            assert(nodes[path[k + 1] as int].2.contains(path[k + 2]));
        }
        assert(nodes[path[0] as int].2.contains(path[1]));
        let q = lemma_shorten_path(nodes, p);
        assert(q.last() == path.last());
        lemma_descendants_reach(nodes, nodes[n as int].2, nodes.len(), q);
    }
}

/// Appends to `out` the descendant mesh nodes of the children `cs`, as
/// `spec_descendants` says; `false`, with `out` then unspecified, when a
/// child index names no node.
fn push_descendants(nodes: &Vec<(bool, bool, Vec<usize>)>, cs: &Vec<usize>, depth: usize, out: &mut Vec<u64>) -> (ok: bool)
    ensures
        ok <==> spec_descendants(nodes@.map_values(|n: (bool, bool, Vec<usize>)| (n.0, n.1, n.2@)), cs@, depth as nat) is Some,
        ok ==> final(out)@ == old(out)@ + spec_descendants(
            nodes@.map_values(|n: (bool, bool, Vec<usize>)| (n.0, n.1, n.2@)),
            cs@,
            depth as nat,
        )->0,
    decreases depth,
{
    let ghost vn = nodes@.map_values(|n: (bool, bool, Vec<usize>)| (n.0, n.1, n.2@));
    let ghost start = out@;
    let mut i: usize = 0;
    while i < cs.len()
        invariant
            0 <= i <= cs@.len(),
            vn == nodes@.map_values(|n: (bool, bool, Vec<usize>)| (n.0, n.1, n.2@)),
            vn.len() == nodes@.len(),
            spec_descendants(vn, cs@.take(i as int), depth as nat) is Some,
            out@ == start + spec_descendants(vn, cs@.take(i as int), depth as nat)->0,
        decreases cs.len() - i,
    {
        let c = cs[i];
        proof {
            assert(cs@.take(i + 1).drop_last() =~= cs@.take(i as int));
            assert(cs@.take(i + 1).last() == c);
        }
        if c >= nodes.len() {
            proof {
                lemma_descendants_none_extends(vn, cs@, i as int + 1, depth as nat);
            }
            return false;
        }
        assert(vn[c as int] == (nodes@[c as int].0, nodes@[c as int].1, nodes@[c as int].2@));
        let ghost before = out@;
        if nodes[c].1 {
            out.push(c as u64);
        }
        if depth > 0 {
            let ok = push_descendants(nodes, &nodes[c].2, depth - 1, out);
            if !ok {
                proof {
                    lemma_descendants_none_extends(vn, cs@, i as int + 1, depth as nat);
                }
                return false;
            }
        }
        proof {
            let rest = spec_descendants(vn, cs@.take(i as int), depth as nat)->0;
            let own: Seq<u64> = if vn[c as int].1 { seq![c as u64] } else { seq![] };
            if depth > 0 {
                let d = spec_descendants(vn, vn[c as int].2, (depth - 1) as nat)->0;
                assert(out@ =~= start + (rest + own + d));
            } else {
                assert(out@ =~= start + (rest + own));
            }
        }
        i = i + 1;
    }
    assert(cs@.take(cs.len() as int) =~= cs@);
    true
}

/// A prefix of the children that fails makes the whole fail.
proof fn lemma_descendants_none_extends(nodes: Seq<(bool, bool, Seq<usize>)>, cs: Seq<usize>, n: int, depth: nat)
    requires
        0 <= n <= cs.len(),
        spec_descendants(nodes, cs.take(n), depth) is None,
    ensures
        spec_descendants(nodes, cs, depth) is None,
    decreases cs.len() - n,
{
    if n < cs.len() {
        assert(cs.take(n + 1).drop_last() =~= cs.take(n));
        lemma_descendants_none_extends(nodes, cs, n + 1, depth);
    } else {
        assert(cs.take(n) =~= cs);
    }
}

/// A prefix of the scene's nodes that fails makes the whole fail.
proof fn lemma_parts_none_extends(nodes: Seq<(bool, bool, Seq<usize>)>, indices: Seq<usize>, n: int)
    requires
        0 <= n <= indices.len(),
        spec_scene_parts(nodes, indices.take(n)) is None,
    ensures
        spec_scene_parts(nodes, indices) is None,
    decreases indices.len() - n,
{
    if n < indices.len() {
        assert(indices.take(n + 1).drop_last() =~= indices.take(n));
        lemma_parts_none_extends(nodes, indices, n + 1);
    } else {
        assert(indices.take(n) =~= indices);
    }
}

/// The scene called `name` of the glTF document `doc`, as a scene book with
/// the id `id`: its camera nodes (the last one active) and its mesh nodes,
/// each with its descendant mesh nodes, all known by their node index.
/// `None` when the file fails to give that scene: a scene without a name
/// comes before it, no scene has that name, or a node index of the scene or
/// of a model's descendants names no node.
pub fn load_gltf_scene(doc: &GltfDocument, name: &str, id: u64) -> (r: Option<SceneBook>)
    ensures
        r is Some <==> (spec_scene_index(doc.view().scene_names, name@) matches Some(k)
            && spec_scene_parts(doc.view().nodes, doc.view().scene_nodes[k]) is Some),
        r matches Some(s) ==> ({
            let k = spec_scene_index(doc.view().scene_names, name@)->0;
            let parts = spec_scene_parts(doc.view().nodes, doc.view().scene_nodes[k])->0;
            let cameras = parts.0;
            let models = parts.1;
            &&& s.id == id
            &&& !s.has_skybox
            &&& s.kernels_count >= 1
            &&& s.cameras@ == cameras.to_set()
            &&& s.active_camera == (if cameras.len() > 0 { Some(cameras.last()) } else { None })
            &&& (forall|x: u64| #[trigger] s.models@.contains(x) <==> exists|i: int|
                0 <= i < models.len() && models[i].0 == x)
            &&& (forall|x: u64| #[trigger] s.all_models@.contains(x) <==> exists|i: int|
                0 <= i < models.len() && (models[i].0 == x || models[i].1.contains(x)))
            &&& s.lights@ == Set::<u64>::empty()
            &&& s.shadow_maker_lights@ == Set::<u64>::empty()
        }),
        r matches Some(s) ==> forall|path: Seq<usize>|
            #![trigger spec_child_path(doc.view().nodes, path)]
            spec_child_path(doc.view().nodes, path) && s.models@.contains(path[0] as u64)
                && doc.view().nodes[path.last() as int].1 ==> s.all_models@.contains(path.last() as u64),
{
    let k = match scene_index(doc, name) {
        Some(k) => k,
        None => return None,
    };
    let ghost v = doc.view();
    proof {
        lemma_scene_index_range(v.scene_names, name@);
    }
    let indices = &doc.scenes[k].1;
    assert(indices@ == v.scene_nodes[k as int]);
    let count = doc.nodes.len();
    let mut camera_ids: Vec<u64> = Vec::new();
    let mut models: Vec<(u64, Vec<u64>)> = Vec::new();
    let mut i: usize = 0;
    while i < indices.len()
        invariant
            0 <= i <= indices@.len(),
            v == doc.view(),
            count == doc.nodes@.len(),
            v.nodes.len() == count,
            indices@ == v.scene_nodes[k as int],
            spec_scene_index(v.scene_names, name@) == Some(k as int),
            spec_scene_parts(v.nodes, indices@.take(i as int)) is Some,
            camera_ids@ == (spec_scene_parts(v.nodes, indices@.take(i as int))->0).0,
            models@.len() == (spec_scene_parts(v.nodes, indices@.take(i as int))->0).1.len(),
            forall|j: int| 0 <= j < models@.len() ==> (#[trigger] models@[j]).0 == (spec_scene_parts(v.nodes, indices@.take(i as int))->0).1[j].0
                && models@[j].1@ == (spec_scene_parts(v.nodes, indices@.take(i as int))->0).1[j].1,
        decreases indices.len() - i,
    {
        let n = indices[i];
        proof {
            assert(indices@.take(i + 1).drop_last() =~= indices@.take(i as int));
            assert(indices@.take(i + 1).last() == n);
        }
        if n >= count {
            proof {
                lemma_parts_none_extends(v.nodes, indices@, i as int + 1);
            }
            return None;
        }
        assert(v.nodes[n as int] == (doc.nodes@[n as int].0, doc.nodes@[n as int].1, doc.nodes@[n as int].2@));
        let ghost prev = spec_scene_parts(v.nodes, indices@.take(i as int))->0;
        match gltf_node_role(doc.nodes[n].0, doc.nodes[n].1) {
            NodeRole::Camera => {
                camera_ids.push(n as u64);
            },
            NodeRole::Model => {
                let mut descendants: Vec<u64> = Vec::new();
                let ok = push_descendants(&doc.nodes, &doc.nodes[n].2, count, &mut descendants);
                if !ok {
                    proof {
                        lemma_parts_none_extends(v.nodes, indices@, i as int + 1);
                    }
                    return None;
                }
                assert(descendants@ =~= spec_descendants(v.nodes, v.nodes[n as int].2, count as nat)->0);
                models.push((n as u64, descendants));
            },
            NodeRole::Ignored => {},
        }
        proof {
            let now = spec_scene_parts(v.nodes, indices@.take(i + 1))->0;
            assert forall|j: int| 0 <= j < models@.len() implies (#[trigger] models@[j]).0 == now.1[j].0
                && models@[j].1@ == now.1[j].1 by {
                if j < prev.1.len() {
                    assert(now.1[j] == prev.1[j]);
                }
            }
        }
        i = i + 1;
    }
    assert(indices@.take(indices.len() as int) =~= indices@);
    let s = SceneBook::from_gltf_parts(id, &camera_ids, &models);
    proof {
        let ms = (spec_scene_parts(v.nodes, indices@)->0).1;
        assert forall|x: u64| #[trigger] s.models@.contains(x) <==> exists|j: int| 0 <= j < ms.len() && ms[j].0 == x by {
            if s.models@.contains(x) {
                let j = choose|j: int| 0 <= j < models@.len() && models@[j].0 == x;
                assert(ms[j].0 == models@[j].0);
            }
            if exists|j: int| 0 <= j < ms.len() && ms[j].0 == x {
                let j = choose|j: int| 0 <= j < ms.len() && ms[j].0 == x;
                assert(models@[j].0 == x);
            }
        }
        assert forall|x: u64| #[trigger] s.all_models@.contains(x) <==> exists|j: int|
            0 <= j < ms.len() && (ms[j].0 == x || ms[j].1.contains(x)) by {
            if s.all_models@.contains(x) {
                let j = choose|j: int| 0 <= j < models@.len() && (models@[j].0 == x || models@[j].1@.contains(x));
                assert(ms[j].0 == models@[j].0 && ms[j].1 == models@[j].1@);
            }
            if exists|j: int| 0 <= j < ms.len() && (ms[j].0 == x || ms[j].1.contains(x)) {
                let j = choose|j: int| 0 <= j < ms.len() && (ms[j].0 == x || ms[j].1.contains(x));
                assert(models@[j].0 == ms[j].0 && models@[j].1@ == ms[j].1);
            }
        }
        assert forall|path: Seq<usize>|
            #![trigger spec_child_path(doc.view().nodes, path)]
            spec_child_path(doc.view().nodes, path) && s.models@.contains(path[0] as u64)
                && doc.view().nodes[path.last() as int].1 implies s.all_models@.contains(path.last() as u64) by {
            let j = choose|j: int| 0 <= j < ms.len() && ms[j].0 == path[0] as u64;
            assert(indices@ == v.scene_nodes[k as int]);
            law_scene_models_reach_descendants(v.nodes, indices@, j, path);
            assert(ms[j].0 == path.last() as u64 || ms[j].1.contains(path.last() as u64));
        }
    }
    Some(s)
}

} // verus!

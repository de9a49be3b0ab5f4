use vstd::prelude::*;
use vstd::slice::{slice_subrange, slice_to_vec};
use vstd::string::StringSliceAdditionalSpecFns;

verus! {

/// The byte that separates directories in an asset path.
pub const SLASH: u8 = 0x2f;

/// The byte that separates a file's name from its type.
pub const DOT: u8 = 0x2e;

/// The index of the last `b` in `s`, or -1 when there is none.
pub open spec fn spec_last_index(s: Seq<u8>, b: u8) -> int
    decreases s.len(),
{
    if s.len() == 0 {
        -1
    } else if s.last() == b {
        s.len() - 1
    } else {
        spec_last_index(s.drop_last(), b)
    }
}

/// The index of the first `b` in `s`, or -1 when there is none.
pub open spec fn spec_first_index(s: Seq<u8>, b: u8) -> int
    decreases s.len(),
{
    if s.len() == 0 {
        -1
    } else {
        let r = spec_first_index(s.drop_last(), b);
        if r >= 0 {
            r
        } else if s.last() == b {
            s.len() - 1
        } else {
            -1
        }
    }
}

/// The directory part of an asset path: what comes before its last slash,
/// or nothing when it has none.
pub open spec fn spec_directory(path: Seq<u8>) -> Seq<u8> {
    let k = spec_last_index(path, SLASH);
    if k < 0 {
        seq![]
    } else {
        path.subrange(0, k)
    }
}

/// The file part of an asset path: what comes after its last slash.
pub open spec fn spec_file_part(path: Seq<u8>) -> Seq<u8> {
    path.subrange(spec_last_index(path, SLASH) + 1, path.len() as int)
}

/// The name of the file: its file part up to the first dot.
pub open spec fn spec_name(path: Seq<u8>) -> Seq<u8> {
    let f = spec_file_part(path);
    let d = spec_first_index(f, DOT);
    if d < 0 {
        f
    } else {
        f.subrange(0, d)
    }
}

/// The type of the file: its file part after the first dot, or nothing
/// when it has none.
pub open spec fn spec_file_type(path: Seq<u8>) -> Seq<u8> {
    let f = spec_file_part(path);
    let d = spec_first_index(f, DOT);
    if d < 0 {
        seq![]
    } else {
        f.subrange(d + 1, f.len() as int)
    }
}

proof fn lemma_last_index(s: Seq<u8>, b: u8)
    ensures
        -1 <= spec_last_index(s, b) < s.len(),
        spec_last_index(s, b) >= 0 ==> s[spec_last_index(s, b)] == b,
        forall|j: int| spec_last_index(s, b) < j < s.len() ==> s[j] != b,
    decreases s.len(),
{
    if s.len() > 0 {
        let p = s.drop_last();
        lemma_last_index(p, b);
        assert forall|j: int| spec_last_index(s, b) < j < s.len() implies s[j] != b by {
            if j < p.len() {
                assert(s[j] == p[j]);
            }
        }
    }
}

proof fn lemma_first_index(s: Seq<u8>, b: u8)
    ensures
        -1 <= spec_first_index(s, b) < s.len(),
        spec_first_index(s, b) >= 0 ==> s[spec_first_index(s, b)] == b,
        spec_first_index(s, b) < 0 ==> forall|j: int| 0 <= j < s.len() ==> s[j] != b,
        forall|j: int| 0 <= j < spec_first_index(s, b) ==> s[j] != b,
    decreases s.len(),
{
    if s.len() > 0 {
        let p = s.drop_last();
        lemma_first_index(p, b);
        assert forall|j: int| 0 <= j < spec_first_index(s, b) implies s[j] != b by {
            assert(s[j] == p[j]);
        }
        assert forall|j: int| spec_first_index(s, b) < 0 && 0 <= j < s.len() implies s[j] != b by {
            if j < p.len() {
                assert(s[j] == p[j]);
            }
        }
    }
}

/// The index of the last `b` in `s`, if any.
fn last_index_of(s: &[u8], b: u8) -> (r: Option<usize>)
    ensures
        match r {
            Some(i) => i == spec_last_index(s@, b),
            None => spec_last_index(s@, b) == -1,
        },
{
    let mut found: Option<usize> = None;
    let mut i: usize = 0;
    while i < s.len()
        invariant
            0 <= i <= s.len(),
            match found {
                Some(k) => k == spec_last_index(s@.take(i as int), b),
                None => spec_last_index(s@.take(i as int), b) == -1,
            },
        decreases s.len() - i,
    {
        assert(s@.take(i + 1).drop_last() =~= s@.take(i as int));
        if s[i] == b {
            found = Some(i);
        }
        i = i + 1;
    }
    assert(s@.take(s.len() as int) =~= s@);
    found
}

/// The index of the first `b` in `s`, if any.
fn first_index_of(s: &[u8], b: u8) -> (r: Option<usize>)
    ensures
        match r {
            Some(i) => i == spec_first_index(s@, b),
            None => spec_first_index(s@, b) == -1,
        },
{
    let mut i: usize = 0;
    while i < s.len()
        invariant
            0 <= i <= s.len(),
            spec_first_index(s@.take(i as int), b) == -1,
        decreases s.len() - i,
    {
        assert(s@.take(i + 1).drop_last() =~= s@.take(i as int));
        if s[i] == b {
            proof {
                lemma_first_index_extends(s@, i as int + 1, b);
            }
            return Some(i);
        }
        i = i + 1;
    }
    assert(s@.take(s.len() as int) =~= s@);
    None
}

/// Once a prefix holds `b`, its first `b` is the first of the whole.
proof fn lemma_first_index_extends(s: Seq<u8>, n: int, b: u8)
    requires
        0 <= n <= s.len(),
        spec_first_index(s.take(n), b) >= 0,
    ensures
        spec_first_index(s, b) == spec_first_index(s.take(n), b),
    decreases s.len() - n,
{
    if n < s.len() {
        assert(s.take(n + 1).drop_last() =~= s.take(n));
        lemma_first_index_extends(s, n + 1, b);
    } else {
        assert(s.take(n) =~= s);
    }
}

/// An asset path cut into the parts that a bundle lookup takes: the
/// directory, the file's name and the file's type, as UTF-8 bytes.
pub struct ResourcePath {
    pub directory: Vec<u8>,
    pub name: Vec<u8>,
    pub file_type: Vec<u8>,
}

/// Cuts an asset path such as `"data/models/car.gltf"` into its directory
/// (`"data/models"`), the file's name (`"car"`) and its type (`"gltf"`).
/// The directory is everything before the last slash; the name and the
/// type are the rest, cut at its first dot.
pub fn split_resource_path(path: &str) -> (r: ResourcePath)
    ensures
        r.directory@ == spec_directory(path.spec_bytes()),
        r.name@ == spec_name(path.spec_bytes()),
        r.file_type@ == spec_file_type(path.spec_bytes()),
{
    let bytes = path.as_bytes();
    let ghost s = bytes@;
    proof {
        lemma_last_index(s, SLASH);
    }
    let (directory, file_part) = match last_index_of(bytes, SLASH) {
        Some(k) => {
            let n = bytes.len();
            assert(k < n);
            (slice_to_vec(slice_subrange(bytes, 0, k)), slice_subrange(bytes, k + 1, n))
        },
        None => (Vec::new(), bytes),
    };
    assert(file_part@ =~= spec_file_part(s));
    proof {
        lemma_first_index(file_part@, DOT);
    }
    let (name, file_type) = match first_index_of(file_part, DOT) {
        Some(d) => {
            let n = file_part.len();
            assert(d < n);
            (
            slice_to_vec(slice_subrange(file_part, 0, d)),
            slice_to_vec(slice_subrange(file_part, d + 1, n)),
        )
        },
        None => (slice_to_vec(file_part), Vec::new()),
    };
    ResourcePath { directory, name, file_type }
}

proof fn lemma_file_part_reassembles(f: Seq<u8>)
    ensures
        ({
            let d = spec_first_index(f, DOT);
            let name = if d < 0 { f } else { f.subrange(0, d) };
            let ft = if d < 0 { Seq::<u8>::empty() } else { f.subrange(d + 1, f.len() as int) };
            &&& f == name + (if d >= 0 { seq![DOT] } else { Seq::<u8>::empty() }) + ft
            &&& !name.contains(DOT)
        }),
{
    lemma_first_index(f, DOT);
    let d = spec_first_index(f, DOT);
    if d >= 0 {
        assert(f =~= f.subrange(0, d) + seq![DOT] + f.subrange(d + 1, f.len() as int));
    } else {
        assert(f =~= f + Seq::<u8>::empty() + Seq::<u8>::empty());
    }
}

proof fn lemma_path_reassembles(path: Seq<u8>)
    ensures
        ({
            let k = spec_last_index(path, SLASH);
            let f = spec_file_part(path);
            &&& path == spec_directory(path) + (if k >= 0 { seq![SLASH] } else { Seq::<u8>::empty() }) + f
            &&& !f.contains(SLASH)
        }),
{
    lemma_last_index(path, SLASH);
    let k = spec_last_index(path, SLASH);
    let f = spec_file_part(path);
    if k >= 0 {
        assert(path =~= path.subrange(0, k) + seq![SLASH] + f);
    } else {
        assert(path =~= Seq::<u8>::empty() + Seq::<u8>::empty() + f);
    }
    assert forall|j: int| 0 <= j < f.len() implies f[j] != SLASH by {
        assert(f[j] == path[k + 1 + j]);
    }
}

/// Cutting loses nothing: the directory, a slash when the path has one,
/// the name, a dot when the file part has one, and the type give the path
/// back; the name holds no slash and no dot, and the type no slash.
pub proof fn law_split_reassembles(path: Seq<u8>)
    ensures
        ({
            let has_slash = spec_last_index(path, SLASH) >= 0;
            let has_dot = spec_first_index(spec_file_part(path), DOT) >= 0;
            &&& path == spec_directory(path) + (if has_slash { seq![SLASH] } else { seq![] })
                + spec_name(path) + (if has_dot { seq![DOT] } else { seq![] })
                + spec_file_type(path)
            &&& !spec_name(path).contains(SLASH)
            &&& !spec_name(path).contains(DOT)
            &&& !spec_file_type(path).contains(SLASH)
        }),
{
    let f = spec_file_part(path);
    lemma_path_reassembles(path);
    lemma_file_part_reassembles(f);
    let dir = spec_directory(path);
    let sl: Seq<u8> = if spec_last_index(path, SLASH) >= 0 { seq![SLASH] } else { seq![] };
    let dt: Seq<u8> = if spec_first_index(f, DOT) >= 0 { seq![DOT] } else { seq![] };
    let name = spec_name(path);
    let ft = spec_file_type(path);
    assert(dir + sl + name + dt + ft =~= dir + sl + (name + dt + ft));
    let d = spec_first_index(f, DOT);
    lemma_first_index(f, DOT);
    assert forall|j: int| 0 <= j < name.len() implies name[j] != SLASH by {
        assert(name[j] == f[j]);
    }
    if d >= 0 {
        assert forall|j: int| 0 <= j < ft.len() implies ft[j] != SLASH by {
            assert(ft[j] == f[d + 1 + j]);
        }
    }
}

} // verus!

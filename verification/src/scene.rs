use vstd::prelude::*;
use std::collections::BTreeSet;
use vstd::std_specs::iter::IteratorSpec;

verus! {

broadcast use vstd::std_specs::btree::group_btree_axioms;

/// The kinds of scene a gx3d asset file holds.
#[derive(PartialEq, Eq, Structural, Clone, Copy, Debug)]
pub enum TypeId {
    GAME,
    UI,
}

impl TypeId {
    /// The value that stands for the variant in a gx3d file.
    pub open spec fn spec_value(self) -> u8 {
        match self {
            TypeId::GAME => 1,
            TypeId::UI => 2,
        }
    }

    /// The value that stands for the variant in a gx3d file.
    pub fn value(&self) -> (v: u8)
        ensures
            v == self.spec_value(),
    {
        match self {
            TypeId::GAME => 1,
            TypeId::UI => 2,
        }
    }

    /// The kind of scene that a type value read from a gx3d file stands
    /// for; `None` for a value that stands for no scene kind, which the
    /// scene manager does not load.
    pub fn from_value(v: u8) -> (t: Option<TypeId>)
        ensures
            t == (if v == 1 {
                Some(TypeId::GAME)
            } else if v == 2 {
                Some(TypeId::UI)
            } else {
                None
            }),
    {
        if v == 1 {
            Some(TypeId::GAME)
        } else if v == 2 {
            Some(TypeId::UI)
        } else {
            None
        }
    }
}

/// What a scene holds, by the ids of its objects: its cameras and the
/// active one, its top-level models, every model it renders (top-level
/// ones and their descendants), and its lights, the shadow-making ones
/// apart.
pub struct SceneBook {
    pub cameras: BTreeSet<u64>,
    pub active_camera: Option<u64>,
    pub models: BTreeSet<u64>,
    pub all_models: BTreeSet<u64>,
    pub lights: BTreeSet<u64>,
    pub shadow_maker_lights: BTreeSet<u64>,
    /// How many kernels share the rendering of the scene's models.
    pub kernels_count: usize,
    /// The scene's own id.
    pub id: u64,
    /// Whether the scene has a skybox.
    pub has_skybox: bool,
}

/// `num_cpus::get`: the number of CPUs the current thread may run on. Its
/// documentation promises at least one; the number depends on the machine.
#[verifier::external_body]
fn available_kernels() -> (n: usize)
    ensures
        n >= 1,
{
    num_cpus::get()
}

proof fn lemma_push_to_set(s: Seq<u64>, x: u64)
    ensures
        s.push(x).to_set() == s.to_set().insert(x),
{
    assert forall|a: u64| #[trigger] s.push(x).to_set().contains(a) <==> s.to_set().insert(x).contains(a) by {
        if s.contains(a) {
            let k = choose|k: int| 0 <= k < s.len() && s[k] == a;
            assert(s.push(x)[k] == a);
        }
        if a == x {
            assert(s.push(x)[s.len() as int] == x);
        }
        if s.push(x).contains(a) {
            let k = choose|k: int| 0 <= k < s.len() + 1 && s.push(x)[k] == a;
            if k < s.len() {
                assert(s[k] == a);
            }
        }
    }
    assert(s.push(x).to_set() =~= s.to_set().insert(x));
}

/// `ids` lists the members of `set` once each, in increasing order.
pub open spec fn spec_in_id_order(ids: Seq<u64>, set: Set<u64>) -> bool {
    &&& ids.to_set() == set
    &&& ids.no_duplicates()
    &&& forall|i: int, j: int| 0 <= i < j < ids.len() ==> ids[i] < ids[j]
}

proof fn lemma_in_order_len(ids: Seq<u64>, set: Set<u64>)
    requires
        spec_in_id_order(ids, set),
    ensures
        ids.len() == set.len(),
{
    ids.unique_seq_to_set();
}

/// The members of `set` in increasing order.
fn ids_in_order(set: &BTreeSet<u64>) -> (ids: Vec<u64>)
    ensures
        spec_in_id_order(ids@, set@),
{
    let mut ids: Vec<u64> = Vec::new();
    let ghost keys = vstd::std_specs::btree::spec_btree_keys_iter(set).remaining();
    proof {
        vstd::std_specs::btree::axiom_spec_btree_keys_iter(set);
    }
    for x in it: set.iter()
        invariant
            it.seq() == keys,
            ids@ == it.seq().take(it.index() as int).map_values(|r: &u64| *r),
    {
        ids.push(*x);
        proof {
            assert(it.seq().take(it.index() + 1).map_values(|r: &u64| *r) =~= ids@);
        }
    }
    proof {
        assert(ids@ =~= keys.unref());
        crate::order::lemma_increasing_keys(keys);
    }
    ids
}

impl SceneBook {
    /// The book of an empty scene, whose models are shared out between as
    /// many kernels as the machine has CPUs for the current thread.
    pub fn new(id: u64) -> (s: SceneBook)
        ensures
            s.kernels_count >= 1,
            s.id == id,
            !s.has_skybox,
            s.cameras@ == Set::<u64>::empty(),
            s.active_camera is None,
            s.models@ == Set::<u64>::empty(),
            s.all_models@ == Set::<u64>::empty(),
            s.lights@ == Set::<u64>::empty(),
            s.shadow_maker_lights@ == Set::<u64>::empty(),
    {
        SceneBook::with_kernels(id, available_kernels())
    }

    /// The book of an empty scene, with the id `id` and no skybox, whose
    /// models are shared out between `kernels_count` kernels.
    pub fn with_kernels(id: u64, kernels_count: usize) -> (s: SceneBook)
        ensures
            s.kernels_count == kernels_count,
            s.id == id,
            !s.has_skybox,
            s.cameras@ == Set::<u64>::empty(),
            s.active_camera is None,
            s.models@ == Set::<u64>::empty(),
            s.all_models@ == Set::<u64>::empty(),
            s.lights@ == Set::<u64>::empty(),
            s.shadow_maker_lights@ == Set::<u64>::empty(),
    {
        SceneBook {
            cameras: BTreeSet::new(),
            active_camera: None,
            models: BTreeSet::new(),
            all_models: BTreeSet::new(),
            lights: BTreeSet::new(),
            shadow_maker_lights: BTreeSet::new(),
            kernels_count,
            id,
            has_skybox: false,
        }
    }

    /// The book of a scene read from a gx3d asset file: its id, whether the
    /// file's skybox flag is set, its cameras (the first one active), its
    /// top-level models, each with the ids of all its descendants, and its
    /// lights, each with whether it makes shadows.
    pub fn from_parts(
        id: u64,
        has_skybox: bool,
        camera_ids: &Vec<u64>,
        models: &Vec<(u64, Vec<u64>)>,
        lights: &Vec<(u64, bool)>,
    ) -> (s: SceneBook)
        ensures
            s.kernels_count >= 1,
            s.id == id,
            s.has_skybox == has_skybox,
            s.cameras@ == camera_ids@.to_set(),
            s.active_camera == (if camera_ids@.len() > 0 {
                Some(camera_ids@[0])
            } else {
                None
            }),
            forall|x: u64| #[trigger] s.models@.contains(x) <==> exists|i: int| 0 <= i < models@.len() && models@[i].0 == x,
            forall|x: u64| #[trigger] s.all_models@.contains(x) <==> exists|i: int| 0 <= i < models@.len() && (models@[i].0 == x || models@[i].1@.contains(x)),
            forall|x: u64| #[trigger] s.shadow_maker_lights@.contains(x) <==> exists|i: int| 0 <= i < lights@.len() && lights@[i] == (x, true),
            forall|x: u64| #[trigger] s.lights@.contains(x) <==> exists|i: int| 0 <= i < lights@.len() && lights@[i] == (x, false),
    {
        let mut s = SceneBook::new(id);
        s.has_skybox = has_skybox;
        let mut i: usize = 0;
        while i < camera_ids.len()
            invariant
                0 <= i <= camera_ids.len(),
                s.cameras@ == camera_ids@.take(i as int).to_set(),
                s.active_camera == (if i > 0 { Some(camera_ids@[0]) } else { None::<u64> }),
                s.models@ == Set::<u64>::empty(),
                s.all_models@ == Set::<u64>::empty(),
                s.lights@ == Set::<u64>::empty(),
                s.shadow_maker_lights@ == Set::<u64>::empty(),
                s.kernels_count >= 1,
                s.id == id,
                s.has_skybox == has_skybox,
            decreases camera_ids.len() - i,
        {
            s.add_camera(camera_ids[i]);
            proof {
                assert(camera_ids@.take(i + 1) =~= camera_ids@.take(i as int).push(camera_ids@[i as int]));
                lemma_push_to_set(camera_ids@.take(i as int), camera_ids@[i as int]);
            }
            i = i + 1;
        }
        assert(camera_ids@.take(camera_ids.len() as int) =~= camera_ids@);
        let mut j: usize = 0;
        while j < models.len()
            invariant
                0 <= j <= models.len(),
                s.cameras@ == camera_ids@.to_set(),
                s.active_camera == (if camera_ids@.len() > 0 { Some(camera_ids@[0]) } else { None::<u64> }),
                forall|x: u64| #[trigger] s.models@.contains(x) <==> exists|i: int| 0 <= i < j && models@[i].0 == x,
                forall|x: u64| #[trigger] s.all_models@.contains(x) <==> exists|i: int| 0 <= i < j && (models@[i].0 == x || models@[i].1@.contains(x)),
                s.lights@ == Set::<u64>::empty(),
                s.shadow_maker_lights@ == Set::<u64>::empty(),
                s.kernels_count >= 1,
                s.id == id,
                s.has_skybox == has_skybox,
            decreases models.len() - j,
        {
            let ghost prev = s;
            s.add_model(models[j].0, &models[j].1);
            proof {
                assert forall|x: u64| #[trigger] s.models@.contains(x) <==> exists|i: int| 0 <= i < j + 1 && models@[i].0 == x by {
                    if s.models@.contains(x) && x != models@[j as int].0 {
                        assert(prev.models@.contains(x));
                    }
                    if x == models@[j as int].0 {
                        assert(0 <= j < j + 1 && models@[j as int].0 == x);
                    }
                }
                assert forall|x: u64| #[trigger] s.all_models@.contains(x) <==> exists|i: int| 0 <= i < j + 1 && (models@[i].0 == x || models@[i].1@.contains(x)) by {
                    if models@[j as int].1@.contains(x) {
                        assert(models@[j as int].1@.to_set().contains(x));
                    }
                    if s.all_models@.contains(x) && x != models@[j as int].0 && !models@[j as int].1@.contains(x) {
                        assert(prev.all_models@.contains(x));
                    }
                    if exists|i: int| 0 <= i < j && (models@[i].0 == x || models@[i].1@.contains(x)) {
                        assert(prev.all_models@.contains(x));
                    }
                }
            }
            j = j + 1;
        }
        let mut k: usize = 0;
        while k < lights.len()
            invariant
                0 <= k <= lights.len(),
                s.cameras@ == camera_ids@.to_set(),
                s.active_camera == (if camera_ids@.len() > 0 { Some(camera_ids@[0]) } else { None::<u64> }),
                forall|x: u64| #[trigger] s.models@.contains(x) <==> exists|i: int| 0 <= i < models@.len() && models@[i].0 == x,
                forall|x: u64| #[trigger] s.all_models@.contains(x) <==> exists|i: int| 0 <= i < models@.len() && (models@[i].0 == x || models@[i].1@.contains(x)),
                forall|x: u64| #[trigger] s.shadow_maker_lights@.contains(x) <==> exists|i: int| 0 <= i < k && lights@[i] == (x, true),
                forall|x: u64| #[trigger] s.lights@.contains(x) <==> exists|i: int| 0 <= i < k && lights@[i] == (x, false),
                s.kernels_count >= 1,
                s.id == id,
                s.has_skybox == has_skybox,
            decreases lights.len() - k,
        {
            let ghost prev = s;
            let (id, makes_shadow) = lights[k];
            s.add_light(id, makes_shadow);
            proof {
                assert forall|x: u64| #[trigger] s.shadow_maker_lights@.contains(x) <==> exists|i: int| 0 <= i < k + 1 && lights@[i] == (x, true) by {
                    if s.shadow_maker_lights@.contains(x) && !(makes_shadow && x == id) {
                        assert(prev.shadow_maker_lights@.contains(x));
                    }
                    if makes_shadow && x == id {
                        assert(lights@[k as int] == (x, true));
                    }
                }
                assert forall|x: u64| #[trigger] s.lights@.contains(x) <==> exists|i: int| 0 <= i < k + 1 && lights@[i] == (x, false) by {
                    if s.lights@.contains(x) && !(!makes_shadow && x == id) {
                        assert(prev.lights@.contains(x));
                    }
                    if !makes_shadow && x == id {
                        assert(lights@[k as int] == (x, false));
                    }
                }
            }
            k = k + 1;
        }
        s
    }

    /// The book of a scene read from a glTF file: its id, its cameras in
    /// node order (the last one active) and its top-level models, each with
    /// the ids of all its descendants. Lights and skyboxes are not read from
    /// glTF files.
    pub fn from_gltf_parts(id: u64, camera_ids: &Vec<u64>, models: &Vec<(u64, Vec<u64>)>) -> (s: SceneBook)
        ensures
            s.kernels_count >= 1,
            s.id == id,
            !s.has_skybox,
            s.cameras@ == camera_ids@.to_set(),
            s.active_camera == (if camera_ids@.len() > 0 {
                Some(camera_ids@.last())
            } else {
                None
            }),
            forall|x: u64| #[trigger] s.models@.contains(x) <==> exists|i: int| 0 <= i < models@.len() && models@[i].0 == x,
            forall|x: u64| #[trigger] s.all_models@.contains(x) <==> exists|i: int| 0 <= i < models@.len() && (models@[i].0 == x || models@[i].1@.contains(x)),
            s.lights@ == Set::<u64>::empty(),
            s.shadow_maker_lights@ == Set::<u64>::empty(),
    {
        let no_lights: Vec<(u64, bool)> = Vec::new();
        let mut s = SceneBook::from_parts(id, false, camera_ids, models, &no_lights);
        let n = camera_ids.len();
        if n > 0 {
            s.active_camera = Some(camera_ids[n - 1]);
        }
        assert(s.lights@ =~= Set::<u64>::empty());
        assert(s.shadow_maker_lights@ =~= Set::<u64>::empty());
        s
    }

    /// Adds a camera; the first camera added becomes the active one.
    pub fn add_camera(&mut self, id: u64)
        ensures
            final(self).cameras@ == old(self).cameras@.insert(id),
            final(self).active_camera == (match old(self).active_camera {
                Some(c) => Some(c),
                None => Some(id),
            }),
            final(self).models == old(self).models,
            final(self).all_models == old(self).all_models,
            final(self).lights == old(self).lights,
            final(self).shadow_maker_lights == old(self).shadow_maker_lights,
            final(self).kernels_count == old(self).kernels_count,
            final(self).id == old(self).id,
            final(self).has_skybox == old(self).has_skybox,
    {
        if self.active_camera.is_none() {
            self.active_camera = Some(id);
        }
        self.cameras.insert(id);
    }

    /// Adds a top-level model, given its id and the ids of all its
    /// descendants; all of them are rendered.
    pub fn add_model(&mut self, id: u64, descendants: &Vec<u64>)
        ensures
            final(self).models@ == old(self).models@.insert(id),
            final(self).all_models@ == old(self).all_models@.union(descendants@.to_set()).insert(id),
            final(self).cameras == old(self).cameras,
            final(self).active_camera == old(self).active_camera,
            final(self).lights == old(self).lights,
            final(self).shadow_maker_lights == old(self).shadow_maker_lights,
            final(self).kernels_count == old(self).kernels_count,
            final(self).id == old(self).id,
            final(self).has_skybox == old(self).has_skybox,
    {
        let mut i: usize = 0;
        while i < descendants.len()
            invariant
                0 <= i <= descendants.len(),
                self.all_models@ == old(self).all_models@.union(descendants@.take(i as int).to_set()),
                self.models == old(self).models,
                self.cameras == old(self).cameras,
                self.active_camera == old(self).active_camera,
                self.lights == old(self).lights,
                self.shadow_maker_lights == old(self).shadow_maker_lights,
                self.kernels_count == old(self).kernels_count,
                self.id == old(self).id,
                self.has_skybox == old(self).has_skybox,
            decreases descendants.len() - i,
        {
            let d = descendants[i];
            self.all_models.insert(d);
            proof {
                assert(descendants@.take(i + 1) =~= descendants@.take(i as int).push(d));
                lemma_push_to_set(descendants@.take(i as int), d);
            }
            i = i + 1;
        }
        assert(descendants@.take(descendants.len() as int) =~= descendants@);
        self.all_models.insert(id);
        self.models.insert(id);
        assert(self.all_models@ =~= old(self).all_models@.union(descendants@.to_set()).insert(id));
    }

    /// Adds a light, to the shadow makers when it makes shadows.
    pub fn add_light(&mut self, id: u64, is_shadow_maker: bool)
        ensures
            is_shadow_maker ==> final(self).shadow_maker_lights@ == old(self).shadow_maker_lights@.insert(id)
                && final(self).lights == old(self).lights,
            !is_shadow_maker ==> final(self).lights@ == old(self).lights@.insert(id)
                && final(self).shadow_maker_lights == old(self).shadow_maker_lights,
            final(self).cameras == old(self).cameras,
            final(self).active_camera == old(self).active_camera,
            final(self).models == old(self).models,
            final(self).all_models == old(self).all_models,
            final(self).kernels_count == old(self).kernels_count,
            final(self).id == old(self).id,
            final(self).has_skybox == old(self).has_skybox,
    {
        if is_shadow_maker {
            self.shadow_maker_lights.insert(id);
        } else {
            self.lights.insert(id);
        }
    }

    /// The rendered models in increasing id order: the order in which they
    /// are dealt out to the kernels.
    pub fn rendered_models_in_order(&self) -> (ids: Vec<u64>)
        ensures
            spec_in_id_order(ids@, self.all_models@),
    {
        ids_in_order(&self.all_models)
    }

    /// The lights in the order the scene's update writes them to its
    /// uniform block: the shadow makers in increasing id order, then the
    /// other lights in increasing id order. `update_light_slots` takes what
    /// it reads of each light in this order.
    pub fn lights_in_update_order(&self) -> (ids: Vec<u64>)
        ensures
            ids@.len() == self.shadow_maker_lights@.len() + self.lights@.len(),
            spec_in_id_order(ids@.take(self.shadow_maker_lights@.len() as int), self.shadow_maker_lights@),
            spec_in_id_order(ids@.skip(self.shadow_maker_lights@.len() as int), self.lights@),
    {
        let mut ids = ids_in_order(&self.shadow_maker_lights);
        let mut rest = ids_in_order(&self.lights);
        let ghost a = ids@;
        let ghost b = rest@;
        proof {
            lemma_in_order_len(a, self.shadow_maker_lights@);
            lemma_in_order_len(b, self.lights@);
        }
        ids.append(&mut rest);
        assert(ids@.take(a.len() as int) =~= a);
        assert(ids@.skip(a.len() as int) =~= b);
        ids
    }

    /// The rendered models that kernel `kernel_index` renders, in order.
    pub fn tasks_of_kernel(&self, kernel_index: usize) -> (tasks: Vec<u64>)
        requires
            self.kernels_count >= 1,
        ensures
            exists|order: Seq<u64>|
                order.to_set() == self.all_models@ && order.no_duplicates() && (forall|i: int, j: int|
                    0 <= i < j < order.len() ==> order[i] < order[j]) && tasks@ == spec_kernel_tasks(
                    order,
                    self.kernels_count as int,
                    kernel_index as int,
                ),
    {
        let order = self.rendered_models_in_order();
        kernel_tasks(&order, self.kernels_count, kernel_index)
    }

    /// The rendered models that kernel `kernel_index` renders this frame, in
    /// order, when the scene is renderable (see `is_renderable`); `None`
    /// when it is not, and the kernel renders nothing.
    pub fn frame_tasks_of_kernel(&self, obj_renderable: bool, camera: Option<bool>, kernel_index: usize) -> (tasks: Option<Vec<u64>>)
        requires
            self.kernels_count >= 1,
        ensures
            !spec_is_renderable(obj_renderable, camera) ==> tasks is None,
            spec_is_renderable(obj_renderable, camera) ==> (tasks matches Some(t) && exists|order: Seq<u64>|
                order.to_set() == self.all_models@ && order.no_duplicates() && (forall|i: int, j: int|
                    0 <= i < j < order.len() ==> order[i] < order[j]) && t@ == spec_kernel_tasks(
                    order,
                    self.kernels_count as int,
                    kernel_index as int,
                )),
    {
        if !is_renderable(obj_renderable, camera) {
            return None;
        }
        Some(self.tasks_of_kernel(kernel_index))
    }

    /// Forgets the rendered models that no longer exist.
    pub fn clean(&mut self, gone: &Vec<u64>)
        ensures
            final(self).all_models@ == old(self).all_models@.difference(gone@.to_set()),
            final(self).models == old(self).models,
            final(self).cameras == old(self).cameras,
            final(self).active_camera == old(self).active_camera,
            final(self).lights == old(self).lights,
            final(self).shadow_maker_lights == old(self).shadow_maker_lights,
            final(self).kernels_count == old(self).kernels_count,
            final(self).id == old(self).id,
            final(self).has_skybox == old(self).has_skybox,
    {
        let mut i: usize = 0;
        while i < gone.len()
            invariant
                0 <= i <= gone.len(),
                self.all_models@ == old(self).all_models@.difference(gone@.take(i as int).to_set()),
                self.models == old(self).models,
                self.cameras == old(self).cameras,
                self.active_camera == old(self).active_camera,
                self.lights == old(self).lights,
                self.shadow_maker_lights == old(self).shadow_maker_lights,
                self.kernels_count == old(self).kernels_count,
                self.id == old(self).id,
                self.has_skybox == old(self).has_skybox,
            decreases gone.len() - i,
        {
            let g = gone[i];
            self.all_models.remove(&g);
            proof {
                assert(gone@.take(i + 1) =~= gone@.take(i as int).push(g));
                lemma_push_to_set(gone@.take(i as int), g);
                assert(self.all_models@ =~= old(self).all_models@.difference(gone@.take(i + 1).to_set()));
            }
            i = i + 1;
        }
        assert(gone@.take(gone.len() as int) =~= gone@);
    }
}

/// What a node of a glTF scene becomes in the scene: a camera when it has
/// one, else a model when it has a mesh; other nodes are not read.
#[derive(PartialEq, Eq, Structural, Clone, Copy, Debug)]
pub enum NodeRole {
    Camera,
    Model,
    Ignored,
}

/// The role of a glTF node that has a camera (`has_camera`) and a mesh
/// (`has_mesh`) or not.
pub fn gltf_node_role(has_camera: bool, has_mesh: bool) -> (r: NodeRole)
    ensures
        r == (if has_camera {
            NodeRole::Camera
        } else if has_mesh {
            NodeRole::Model
        } else {
            NodeRole::Ignored
        }),
{
    if has_camera {
        NodeRole::Camera
    } else if has_mesh {
        NodeRole::Model
    } else {
        NodeRole::Ignored
    }
}

/// Whether a scene is rendered: the scene itself is renderable
/// (`obj_renderable`) and its active camera is alive and renderable.
/// `camera` is `None` when the scene has no active camera or it is gone,
/// and otherwise whether that camera is renderable.
pub open spec fn spec_is_renderable(obj_renderable: bool, camera: Option<bool>) -> bool {
    obj_renderable && camera == Some(true)
}

/// Whether a scene is rendered; a scene that is not renderable is neither
/// updated, nor rendered, nor submitted.
pub fn is_renderable(obj_renderable: bool, camera: Option<bool>) -> (b: bool)
    ensures
        b == spec_is_renderable(obj_renderable, camera),
{
    if obj_renderable {
        match camera {
            Some(r) => r,
            None => false,
        }
    } else {
        false
    }
}

/// The kernel that renders the model at `position` (counting from zero) in
/// the increasing id order of the rendered models, when `kernels_count`
/// kernels share the work: the models are dealt out in turn, starting with
/// kernel 1.
pub open spec fn spec_model_kernel(position: int, kernels_count: int) -> int {
    (position + 1) % kernels_count
}

/// The models, out of `ids` in that order, that kernel `kernel_index` renders.
pub open spec fn spec_kernel_tasks(ids: Seq<u64>, kernels_count: int, kernel_index: int) -> Seq<u64>
    decreases ids.len(),
{
    if ids.len() == 0 {
        seq![]
    } else {
        let rest = spec_kernel_tasks(ids.drop_last(), kernels_count, kernel_index);
        if spec_model_kernel(ids.len() - 1, kernels_count) == kernel_index {
            rest.push(ids.last())
        } else {
            rest
        }
    }
}

/// The models, out of `ids` in that order, that kernel `kernel_index` of
/// `kernels_count` renders.
pub fn kernel_tasks(ids: &Vec<u64>, kernels_count: usize, kernel_index: usize) -> (tasks: Vec<u64>)
    requires
        kernels_count > 0,
    ensures
        tasks@ == spec_kernel_tasks(ids@, kernels_count as int, kernel_index as int),
{
    let mut tasks: Vec<u64> = Vec::new();
    let mut task_index: usize = 0;
    let mut i: usize = 0;
    while i < ids.len()
        invariant
            kernels_count > 0,
            0 <= i <= ids.len(),
            task_index == i % kernels_count,
            tasks@ == spec_kernel_tasks(ids@.take(i as int), kernels_count as int, kernel_index as int),
        decreases ids.len() - i,
    {
        task_index = (task_index + 1) % kernels_count;
        proof {
            vstd::arithmetic::div_mod::lemma_add_mod_noop_right(1, i as int, kernels_count as int);
            assert(task_index == (i + 1) % (kernels_count as int));
            assert(ids@.take(i + 1).drop_last() =~= ids@.take(i as int));
            assert(ids@.take(i + 1).last() == ids@[i as int]);
        }
        if task_index == kernel_index {
            tasks.push(ids[i]);
        }
        i = i + 1;
    }
    assert(ids@.take(ids.len() as int) =~= ids@);
    tasks
}

/// Kernel `kernel_index` renders a model exactly when the model stands at a
/// position that is dealt to that kernel; so when no id repeats, every model
/// is rendered by exactly one kernel.
pub proof fn law_kernel_tasks_members(ids: Seq<u64>, kernels_count: int, kernel_index: int, x: u64)
    requires
        kernels_count > 0,
    ensures
        spec_kernel_tasks(ids, kernels_count, kernel_index).contains(x) <==> exists|p: int|
            0 <= p < ids.len() && ids[p] == x && spec_model_kernel(p, kernels_count) == kernel_index,
    decreases ids.len(),
{
    if ids.len() > 0 {
        let rest = ids.drop_last();
        law_kernel_tasks_members(rest, kernels_count, kernel_index, x);
        let last = ids.len() - 1;
        if spec_kernel_tasks(ids, kernels_count, kernel_index).contains(x) {
            if spec_kernel_tasks(rest, kernels_count, kernel_index).contains(x) {
                let p = choose|p: int|
                    0 <= p < rest.len() && rest[p] == x && spec_model_kernel(p, kernels_count)
                        == kernel_index;
                assert(ids[p] == x);
            } else {
                let t = spec_kernel_tasks(ids, kernels_count, kernel_index);
                let k = choose|k: int| 0 <= k < t.len() && t[k] == x;
                assert(spec_model_kernel(last, kernels_count) == kernel_index);
                assert(ids[last] == x);
            }
        }
        if exists|p: int|
            0 <= p < ids.len() && ids[p] == x && spec_model_kernel(p, kernels_count) == kernel_index {
            let p = choose|p: int|
                0 <= p < ids.len() && ids[p] == x && spec_model_kernel(p, kernels_count)
                    == kernel_index;
            let t = spec_kernel_tasks(ids, kernels_count, kernel_index);
            if p < last {
                assert(rest[p] == x);
                let r = spec_kernel_tasks(rest, kernels_count, kernel_index);
                let k = choose|k: int| 0 <= k < r.len() && r[k] == x;
                assert(t[k] == x);
            } else {
                assert(t[t.len() - 1] == x);
            }
        }
    }
}

/// The kernel a position is dealt to is one of the kernels.
pub proof fn law_model_kernel_in_range(position: int, kernels_count: int)
    requires
        kernels_count > 0,
    ensures
        0 <= spec_model_kernel(position, kernels_count) < kernels_count,
{
}

/// The kinds of light the scene's uniform block has slots for.
#[derive(PartialEq, Eq, Structural, Clone, Copy, Debug)]
pub enum LightKind {
    Directional,
    Point,
    Other,
}

/// What the slot assignment reads of a light.
#[derive(PartialEq, Eq, Structural, Clone, Copy, Debug)]
pub struct LightInfo {
    pub kind: LightKind,
    pub renderable: bool,
}

/// The slot of the scene's uniform block that a light's data goes to.
#[derive(PartialEq, Eq, Structural, Clone, Copy, Debug)]
pub enum LightSlot {
    Directional(usize),
    Point(usize),
}

/// The number of renderable lights of `kind` in `lights`.
pub open spec fn spec_light_count(lights: Seq<LightInfo>, kind: LightKind) -> nat
    decreases lights.len(),
{
    if lights.len() == 0 {
        0
    } else {
        spec_light_count(lights.drop_last(), kind) + if lights.last().renderable
            && lights.last().kind == kind {
            1nat
        } else {
            0nat
        }
    }
}

/// The slot of the `i`th light: renderable directional and point lights get
/// the next free slot of their kind, in order; the others get none.
pub open spec fn spec_light_slot(lights: Seq<LightInfo>, i: int) -> Option<LightSlot> {
    let l = lights[i];
    if !l.renderable {
        None
    } else {
        match l.kind {
            LightKind::Directional => Some(
                LightSlot::Directional(spec_light_count(lights.take(i), LightKind::Directional) as usize),
            ),
            LightKind::Point => Some(
                LightSlot::Point(spec_light_count(lights.take(i), LightKind::Point) as usize),
            ),
            LightKind::Other => None,
        }
    }
}

proof fn lemma_light_count_bounded(lights: Seq<LightInfo>, kind: LightKind)
    ensures
        spec_light_count(lights, kind) <= lights.len(),
    decreases lights.len(),
{
    if lights.len() > 0 {
        lemma_light_count_bounded(lights.drop_last(), kind);
    }
}

proof fn lemma_light_count_prefix(lights: Seq<LightInfo>, i: int, j: int, kind: LightKind)
    requires
        0 <= i <= j <= lights.len(),
    ensures
        spec_light_count(lights.take(i), kind) <= spec_light_count(lights.take(j), kind),
    decreases j - i,
{
    if i < j {
        lemma_light_count_prefix(lights, i, j - 1, kind);
        assert(lights.take(j).drop_last() =~= lights.take(j - 1));
    }
}

/// Assigns the uniform-block slots of a scene's lights, taken in order (the
/// shadow makers first, then the others), and counts the directional and
/// point lights placed. The uniform block has `max_directional` and
/// `max_point` slots.
pub fn assign_light_slots(lights: &Vec<LightInfo>, max_directional: usize, max_point: usize) -> (r: (
    Vec<Option<LightSlot>>,
    usize,
    usize,
))
    requires
        spec_light_count(lights@, LightKind::Directional) <= max_directional,
        spec_light_count(lights@, LightKind::Point) <= max_point,
    ensures
        r.0@.len() == lights@.len(),
        forall|i: int| 0 <= i < lights@.len() ==> r.0@[i] == spec_light_slot(lights@, i),
        r.1 == spec_light_count(lights@, LightKind::Directional),
        r.2 == spec_light_count(lights@, LightKind::Point),
{
    let mut slots: Vec<Option<LightSlot>> = Vec::new();
    let mut directional: usize = 0;
    let mut point: usize = 0;
    let mut i: usize = 0;
    while i < lights.len()
        invariant
            0 <= i <= lights.len(),
            slots@.len() == i,
            forall|j: int| 0 <= j < i ==> slots@[j] == spec_light_slot(lights@, j),
            directional == spec_light_count(lights@.take(i as int), LightKind::Directional),
            point == spec_light_count(lights@.take(i as int), LightKind::Point),
            spec_light_count(lights@, LightKind::Directional) <= max_directional,
            spec_light_count(lights@, LightKind::Point) <= max_point,
        decreases lights.len() - i,
    {
        let l = lights[i];
        proof {
            assert(lights@.take(i + 1).drop_last() =~= lights@.take(i as int));
            assert(lights@.take(i + 1).last() == l);
            lemma_light_count_prefix(lights@, i + 1, lights@.len() as int, LightKind::Directional);
            lemma_light_count_prefix(lights@, i + 1, lights@.len() as int, LightKind::Point);
            assert(lights@.take(lights@.len() as int) =~= lights@);
        }
        let slot = if !l.renderable {
            None
        } else {
            match l.kind {
                LightKind::Directional => {
                    let s = Some(LightSlot::Directional(directional));
                    directional = directional + 1;
                    s
                },
                LightKind::Point => {
                    let s = Some(LightSlot::Point(point));
                    point = point + 1;
                    s
                },
                LightKind::Other => None,
            }
        };
        slots.push(slot);
        i = i + 1;
    }
    assert(lights@.take(lights.len() as int) =~= lights@);
    (slots, directional, point)
}

/// Two renderable lights of the same kind never share a slot.
pub proof fn law_light_slots_distinct(lights: Seq<LightInfo>, i: int, j: int)
    requires
        0 <= i < j < lights.len(),
        lights.len() <= usize::MAX,
        spec_light_slot(lights, i) is Some,
    ensures
        spec_light_slot(lights, i) != spec_light_slot(lights, j),
{
    let kind = lights[i].kind;
    lemma_light_count_prefix(lights, i + 1, j, kind);
    assert(lights.take(i + 1).drop_last() =~= lights.take(i));
    assert(lights.take(i + 1).last() == lights[i]);
    lemma_light_count_bounded(lights.take(j), kind);
    lemma_light_count_bounded(lights.take(i), kind);
    let ci = spec_light_count(lights.take(i), kind);
    let cj = spec_light_count(lights.take(j), kind);
    assert(ci < cj);
    assert(cj <= usize::MAX);
    assert((ci as usize) != (cj as usize));
}


/// The light part of a scene's update, given what it reads of the scene's
/// lights in `SceneBook::lights_in_update_order`: when the scene is
/// renderable (see `is_renderable`), the uniform-block slots of its lights
/// and the counts
/// of directional and point lights written to the block; `None` when it is
/// not, and the update leaves everything unchanged.
pub fn update_light_slots(
    obj_renderable: bool,
    camera: Option<bool>,
    lights: &Vec<LightInfo>,
    max_directional: usize,
    max_point: usize,
) -> (r: Option<(Vec<Option<LightSlot>>, usize, usize)>)
    requires
        spec_is_renderable(obj_renderable, camera) ==> spec_light_count(lights@, LightKind::Directional)
            <= max_directional,
        spec_is_renderable(obj_renderable, camera) ==> spec_light_count(lights@, LightKind::Point)
            <= max_point,
    ensures
        !spec_is_renderable(obj_renderable, camera) ==> r is None,
        spec_is_renderable(obj_renderable, camera) ==> (r matches Some(t) && t.0@.len() == lights@.len()
            && (forall|i: int| 0 <= i < lights@.len() ==> t.0@[i] == spec_light_slot(lights@, i))
            && t.1 == spec_light_count(lights@, LightKind::Directional) && t.2 == spec_light_count(
            lights@,
            LightKind::Point,
        )),
{
    if !is_renderable(obj_renderable, camera) {
        return None;
    }
    Some(assign_light_slots(lights, max_directional, max_point))
}

} // verus!

use std::collections::BTreeSet;
use vulkust::scene::{
    assign_light_slots, gltf_node_role, is_renderable, kernel_tasks,
    update_light_slots, LightInfo, LightKind, LightSlot, NodeRole, SceneBook, TypeId,
};

fn set(v: &[u64]) -> BTreeSet<u64> {
    v.iter().cloned().collect()
}

#[test]
fn scene_type_values() {
    assert_eq!(TypeId::GAME.value(), 1);
    assert_eq!(TypeId::UI.value(), 2);
    assert_eq!(TypeId::from_value(1), Some(TypeId::GAME));
    assert_eq!(TypeId::from_value(2), Some(TypeId::UI));
    assert_eq!(TypeId::from_value(0), None);
    assert_eq!(TypeId::from_value(3), None);
}

#[test]
fn new_scene_is_empty_and_uses_the_cpus() {
    let s = SceneBook::new(1);
    assert!(s.cameras.is_empty() && s.models.is_empty() && s.all_models.is_empty());
    assert!(s.lights.is_empty() && s.shadow_maker_lights.is_empty());
    assert_eq!(s.active_camera, None);
    assert!(s.kernels_count >= 1);
    assert_eq!(s.kernels_count, num_cpus::get());
    assert_eq!((s.id, s.has_skybox), (1, false));
}

#[test]
fn first_camera_is_active() {
    let mut s = SceneBook::new(1);
    s.add_camera(9);
    s.add_camera(4);
    assert_eq!(s.active_camera, Some(9));
    assert_eq!(s.cameras, set(&[4, 9]));
}

#[test]
fn models_bring_their_descendants() {
    let mut s = SceneBook::new(1);
    s.add_model(10, &vec![11, 12]);
    s.add_model(20, &vec![]);
    assert_eq!(s.models, set(&[10, 20]));
    assert_eq!(s.all_models, set(&[10, 11, 12, 20]));
    s.clean(&vec![11, 20, 99]);
    assert_eq!(s.all_models, set(&[10, 12]));
    assert_eq!(s.models, set(&[10, 20]));
}

#[test]
fn lights_are_split_by_shadows() {
    let mut s = SceneBook::new(1);
    s.add_light(1, true);
    s.add_light(2, false);
    s.add_light(3, true);
    assert_eq!(s.shadow_maker_lights, set(&[1, 3]));
    assert_eq!(s.lights, set(&[2]));
}

#[test]
fn scene_from_parts() {
    let s = SceneBook::from_parts(
        40,
        true,
        &vec![5, 3],
        &vec![(100, vec![101]), (200, vec![201, 202])],
        &vec![(7, true), (8, false)],
    );
    assert_eq!(s.cameras, set(&[3, 5]));
    assert_eq!(s.active_camera, Some(5));
    assert_eq!(s.models, set(&[100, 200]));
    assert_eq!(s.all_models, set(&[100, 101, 200, 201, 202]));
    assert_eq!(s.shadow_maker_lights, set(&[7]));
    assert_eq!(s.lights, set(&[8]));
    assert_eq!((s.id, s.has_skybox), (40, true));
    let empty = SceneBook::from_parts(41, false, &vec![], &vec![], &vec![]);
    assert_eq!(empty.active_camera, None);
    assert_eq!((empty.id, empty.has_skybox), (41, false));
}

#[test]
fn models_in_id_order() {
    let mut s = SceneBook::new(1);
    s.add_model(30, &vec![5, 17]);
    s.add_model(2, &vec![]);
    assert_eq!(s.rendered_models_in_order(), vec![2, 5, 17, 30]);
}

#[test]
fn kernels_take_turns() {
    let ids = vec![10, 11, 12, 13, 14];
    assert_eq!(kernel_tasks(&ids, 2, 0), vec![11, 13]);
    assert_eq!(kernel_tasks(&ids, 2, 1), vec![10, 12, 14]);
    assert_eq!(kernel_tasks(&ids, 1, 0), ids);
    assert_eq!(kernel_tasks(&ids, 3, 1), vec![10, 13]);
    assert_eq!(kernel_tasks(&ids, 3, 2), vec![11, 14]);
    assert_eq!(kernel_tasks(&ids, 3, 0), vec![12]);
    assert_eq!(kernel_tasks(&ids, 3, 5), Vec::<u64>::new());
}

#[test]
fn every_model_rendered_once() {
    let ids: Vec<u64> = (0..23).collect();
    for k in 1..6usize {
        let mut all: Vec<u64> = Vec::new();
        for ki in 0..k {
            all.extend(kernel_tasks(&ids, k, ki));
        }
        all.sort();
        assert_eq!(all, ids);
    }
}

#[test]
fn tasks_of_a_scene_kernel() {
    let mut s = SceneBook::new(1);
    s.add_model(3, &vec![1, 2]);
    s.kernels_count = 2;
    assert_eq!(s.tasks_of_kernel(0), vec![2]);
    assert_eq!(s.tasks_of_kernel(1), vec![1, 3]);
}

#[test]
fn light_slots() {
    let l = |kind: LightKind, renderable: bool| LightInfo { kind, renderable };
    let lights = vec![
        l(LightKind::Directional, true),
        l(LightKind::Point, true),
        l(LightKind::Directional, false),
        l(LightKind::Other, true),
        l(LightKind::Directional, true),
        l(LightKind::Point, true),
    ];
    let (slots, d, p) = assign_light_slots(&lights, 4, 2);
    assert_eq!(
        slots,
        vec![
            Some(LightSlot::Directional(0)),
            Some(LightSlot::Point(0)),
            None,
            None,
            Some(LightSlot::Directional(1)),
            Some(LightSlot::Point(1)),
        ]
    );
    assert_eq!((d, p), (2, 2));
    let (slots, d, p) = assign_light_slots(&vec![], 0, 0);
    assert!(slots.is_empty());
    assert_eq!((d, p), (0, 0));
}

#[test]
fn gltf_nodes_camera_wins_over_mesh() {
    assert_eq!(gltf_node_role(true, true), NodeRole::Camera);
    assert_eq!(gltf_node_role(true, false), NodeRole::Camera);
    assert_eq!(gltf_node_role(false, true), NodeRole::Model);
    assert_eq!(gltf_node_role(false, false), NodeRole::Ignored);
}

#[test]
fn gltf_scene_makes_last_camera_active() {
    let s = SceneBook::from_gltf_parts(50, &vec![3, 5], &vec![(7, vec![8, 9])]);
    assert_eq!(s.active_camera, Some(5));
    assert_eq!(s.cameras, set(&[3, 5]));
    assert_eq!(s.models, set(&[7]));
    assert_eq!(s.all_models, set(&[7, 8, 9]));
    assert!(s.lights.is_empty() && s.shadow_maker_lights.is_empty());
    assert_eq!((s.id, s.has_skybox), (50, false));
    let none = SceneBook::from_gltf_parts(51, &vec![], &vec![]);
    assert_eq!(none.active_camera, None);
}

#[test]
fn scene_with_given_kernels() {
    let mut s = SceneBook::with_kernels(60, 3);
    assert_eq!(s.kernels_count, 3);
    assert!(s.cameras.is_empty() && s.all_models.is_empty() && s.active_camera.is_none());
    s.add_model(4, &vec![1, 2, 3]);
    assert_eq!(s.tasks_of_kernel(0), vec![3]);
    assert_eq!(s.tasks_of_kernel(1), vec![1, 4]);
    assert_eq!(s.tasks_of_kernel(2), vec![2]);
}

#[test]
fn renderability_gates_update_and_rendering() {
    assert!(is_renderable(true, Some(true)));
    assert!(!is_renderable(true, Some(false)));
    assert!(!is_renderable(true, None));
    assert!(!is_renderable(false, Some(true)));
    let lights = vec![
        LightInfo { kind: LightKind::Directional, renderable: true },
        LightInfo { kind: LightKind::Point, renderable: true },
    ];
    assert!(update_light_slots(false, Some(true), &lights, 0, 0).is_none());
    assert!(update_light_slots(true, None, &lights, 0, 0).is_none());
    let (slots, d, p) = update_light_slots(true, Some(true), &lights, 4, 4).unwrap();
    assert_eq!(slots, vec![Some(LightSlot::Directional(0)), Some(LightSlot::Point(0))]);
    assert_eq!((d, p), (1, 1));
    let mut s = SceneBook::with_kernels(2, 2);
    s.add_model(4, &vec![5]);
    assert_eq!(s.frame_tasks_of_kernel(true, Some(false), 1), None);
    assert_eq!(s.frame_tasks_of_kernel(true, Some(true), 1), Some(vec![4]));
    assert_eq!(s.frame_tasks_of_kernel(true, Some(true), 0), Some(vec![5]));
}

#[test]
fn lights_in_update_order_shadow_makers_first() {
    let mut s = SceneBook::with_kernels(1, 1);
    s.add_light(9, false);
    s.add_light(4, true);
    s.add_light(2, false);
    s.add_light(7, true);
    assert_eq!(s.lights_in_update_order(), vec![4, 7, 2, 9]);
}

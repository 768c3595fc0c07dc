//! Grouping the visible objects of a frame into batches.

use vstd::prelude::*;
use crate::culling::{
    batch_members, frame_batch, frame_batches, frame_instances, frame_keys, frame_members,
    instances_before, is_visible, keys_before, material_order, mesh_keys, mesh_order, BatchKey,
    DrawBatch, HostDrawList,
};
use crate::frustum::Frustum;
use crate::handles::{MaterialHandle, MeshHandle};
use crate::resources::InternalObject;

verus! {

/// A batch while it is being collected.
struct Batch {
    material: MaterialHandle,
    members: Vec<usize>,
}

/// The batches of one mesh while they are being collected.
struct MeshGroup {
    mesh: MeshHandle,
    batches: Vec<Batch>,
}

/// The group holds the batches that the first `n` objects give its mesh.
spec fn group_holds(
    group: MeshGroup,
    frustum: Frustum,
    objects: Seq<InternalObject>,
    n: nat,
) -> bool {
    let materials = material_order(frustum, objects, group.mesh, n);
    &&& group.batches@.len() == materials.len()
    &&& forall|k: int|
        0 <= k < group.batches@.len() ==> (#[trigger] group.batches@[k]).material == materials[k]
            && group.batches@[k].members@ == batch_members(
            frustum,
            objects,
            BatchKey { mesh: group.mesh, material: materials[k] },
            n,
        )
}

/// The groups hold the batches of the first `n` objects.
spec fn groups_hold(
    groups: Seq<MeshGroup>,
    frustum: Frustum,
    objects: Seq<InternalObject>,
    n: nat,
) -> bool {
    let meshes = mesh_order(frustum, objects, n);
    &&& groups.len() == meshes.len()
    &&& forall|j: int|
        0 <= j < groups.len() ==> (#[trigger] groups[j]).mesh == meshes[j] && group_holds(
            groups[j],
            frustum,
            objects,
            n,
        )
}

/// No mesh stands twice in the mesh order.
pub proof fn lemma_meshes_distinct(frustum: Frustum, objects: Seq<InternalObject>, n: nat)
    ensures
        mesh_order(frustum, objects, n).no_duplicates(),
    decreases n,
{
    if n > 0 {
        lemma_meshes_distinct(frustum, objects, (n - 1) as nat);
    }
}

/// No material stands twice in the material order of a mesh.
pub proof fn lemma_materials_distinct(
    frustum: Frustum,
    objects: Seq<InternalObject>,
    mesh: MeshHandle,
    n: nat,
)
    ensures
        material_order(frustum, objects, mesh, n).no_duplicates(),
    decreases n,
{
    if n > 0 {
        lemma_materials_distinct(frustum, objects, mesh, (n - 1) as nat);
    }
}

/// A mesh that is not in the mesh order has no materials.
pub proof fn lemma_absent_mesh_has_no_materials(
    frustum: Frustum,
    objects: Seq<InternalObject>,
    mesh: MeshHandle,
    n: nat,
)
    requires
        !mesh_order(frustum, objects, n).contains(mesh),
    ensures
        material_order(frustum, objects, mesh, n) == Seq::<MaterialHandle>::empty(),
    decreases n,
{
    if n > 0 {
        let before = mesh_order(frustum, objects, (n - 1) as nat);
        let object = objects[n - 1];
        if before.contains(mesh) {
            let w = choose|i: int| 0 <= i < before.len() && before[i] == mesh;
            assert(mesh_order(frustum, objects, n)[w] == mesh);
        }
        if is_visible(frustum, object) && object.mesh == mesh {
            assert(before.push(mesh).last() == mesh);
        }
        lemma_absent_mesh_has_no_materials(frustum, objects, mesh, (n - 1) as nat);
    }
}

/// A material that is not in the material order of a mesh has no members
/// under that mesh.
pub proof fn lemma_absent_material_has_no_members(
    frustum: Frustum,
    objects: Seq<InternalObject>,
    key: BatchKey,
    n: nat,
)
    requires
        !material_order(frustum, objects, key.mesh, n).contains(key.material),
    ensures
        batch_members(frustum, objects, key, n) == Seq::<usize>::empty(),
    decreases n,
{
    if n > 0 {
        let before = material_order(frustum, objects, key.mesh, (n - 1) as nat);
        let object = objects[n - 1];
        if before.contains(key.material) {
            let w = choose|i: int| 0 <= i < before.len() && before[i] == key.material;
            assert(material_order(frustum, objects, key.mesh, n)[w] == key.material);
        }
        if is_visible(frustum, object) && object.mesh == key.mesh && object.material
            == key.material {
            assert(before.push(key.material).last() == key.material);
        }
        lemma_absent_material_has_no_members(frustum, objects, key, (n - 1) as nat);
    }
}

/// An object that is culled, or that has another mesh, leaves a group as it
/// is.
proof fn lemma_group_untouched(
    group: MeshGroup,
    frustum: Frustum,
    objects: Seq<InternalObject>,
    n: nat,
)
    requires
        group_holds(group, frustum, objects, n),
        !(is_visible(frustum, objects[n as int]) && objects[n as int].mesh == group.mesh),
    ensures
        group_holds(group, frustum, objects, n + 1),
{
    assert(material_order(frustum, objects, group.mesh, n + 1) == material_order(
        frustum,
        objects,
        group.mesh,
        n,
    ));
}

/// The keys of the first `j` meshes are the start of the keys of any more
/// meshes.
pub proof fn lemma_keys_prefix(frustum: Frustum, objects: Seq<InternalObject>, j: nat, k: nat)
    requires
        j <= k,
    ensures
        keys_before(frustum, objects, j).len() <= keys_before(frustum, objects, k).len(),
        keys_before(frustum, objects, j) == keys_before(frustum, objects, k).take(
            keys_before(frustum, objects, j).len() as int,
        ),
    decreases k,
{
    if j < k {
        lemma_keys_prefix(frustum, objects, j, (k - 1) as nat);
    }
}

/// The position of the group of the given mesh, if there is one.
fn find_mesh(groups: &Vec<MeshGroup>, mesh: MeshHandle) -> (found: Option<usize>)
    ensures
        match found {
            Some(j) => j < groups.len() && groups[j as int].mesh == mesh,
            None => forall|j: int| 0 <= j < groups.len() ==> groups[j].mesh != mesh,
        },
{
    let mut j: usize = 0;
    while j < groups.len()
        invariant
            j <= groups.len(),
            forall|k: int| 0 <= k < j ==> groups[k].mesh != mesh,
        decreases groups.len() - j,
    {
        if groups[j].mesh == mesh {
            return Some(j);
        }
        j += 1;
    }
    None
}

/// The position of the batch of the given material, if there is one.
fn find_material(batches: &Vec<Batch>, material: MaterialHandle) -> (found: Option<usize>)
    ensures
        match found {
            Some(k) => k < batches.len() && batches[k as int].material == material,
            None => forall|k: int| 0 <= k < batches.len() ==> batches[k].material != material,
        },
{
    let mut k: usize = 0;
    while k < batches.len()
        invariant
            k <= batches.len(),
            forall|j: int| 0 <= j < k ==> batches[j].material != material,
        decreases batches.len() - k,
    {
        if batches[k].material == material {
            return Some(k);
        }
        k += 1;
    }
    None
}

/// Adds a visible object to the group of its mesh and material, and opens
/// the group where the object is the first of its kind.
fn add_object(
    groups: &mut Vec<MeshGroup>,
    frustum: &Frustum,
    objects: &[InternalObject],
    i: usize,
)
    requires
        i < objects@.len(),
        is_visible(*frustum, objects@[i as int]),
        groups_hold(old(groups)@, *frustum, objects@, i as nat),
    ensures
        groups_hold(final(groups)@, *frustum, objects@, (i + 1) as nat),
{
    let object = objects[i];
    let ghost n = i as nat;
    let ghost meshes = mesh_order(*frustum, objects@, n);
    let ghost materials = material_order(*frustum, objects@, object.mesh, n);
    let ghost old_groups = groups@;
    proof {
        lemma_meshes_distinct(*frustum, objects@, n);
        lemma_materials_distinct(*frustum, objects@, object.mesh, n);
    }
    match find_mesh(&groups, object.mesh) {
        Some(j) => {
            let ghost old_group = old_groups[j as int];
            proof {
                assert(meshes[j as int] == object.mesh);
                assert(meshes.contains(object.mesh));
                assert(mesh_order(*frustum, objects@, n + 1) == meshes);
                assert(group_holds(old_group, *frustum, objects@, n));
            }
            match find_material(&groups[j].batches, object.material) {
                Some(k) => {
                    groups[j].batches[k].members.push(i);
                    proof {
                        assert(materials[k as int] == object.material);
                        assert(materials.contains(object.material));
                        assert(material_order(*frustum, objects@, object.mesh, n + 1)
                            == materials);
                        let group = groups@[j as int];
                        assert forall|q: int| 0 <= q < group.batches@.len() implies (
                        #[trigger] group.batches@[q]).material == materials[q]
                            && group.batches@[q].members@ == batch_members(
                            *frustum,
                            objects@,
                            BatchKey { mesh: group.mesh, material: materials[q] },
                            n + 1,
                        ) by {
                            if q != k {
                                assert(group.batches@[q] == old_group.batches@[q]);
                                assert(materials[q] != materials[k as int]);
                            }
                        }
                        assert(group_holds(group, *frustum, objects@, n + 1));
                    }
                },
                None => {
                    let mut members: Vec<usize> = Vec::new();
                    members.push(i);
                    groups[j].batches.push(Batch { material: object.material, members });
                    proof {
                        assert(!materials.contains(object.material)) by {
                            if materials.contains(object.material) {
                                let w = choose|w: int|
                                    0 <= w < materials.len() && materials[w]
                                        == object.material;
                                assert(old_group.batches@[w].material == object.material);
                            }
                        }
                        lemma_absent_material_has_no_members(
                            *frustum,
                            objects@,
                            BatchKey { mesh: object.mesh, material: object.material },
                            n,
                        );
                        let now = materials.push(object.material);
                        assert(material_order(*frustum, objects@, object.mesh, n + 1) == now);
                        assert(members@ == Seq::<usize>::empty().push(i));
                        let group = groups@[j as int];
                        assert forall|q: int| 0 <= q < group.batches@.len() implies (
                        #[trigger] group.batches@[q]).material == now[q]
                            && group.batches@[q].members@ == batch_members(
                            *frustum,
                            objects@,
                            BatchKey { mesh: group.mesh, material: now[q] },
                            n + 1,
                        ) by {
                            if q < old_group.batches@.len() {
                                assert(group.batches@[q] == old_group.batches@[q]);
                                assert(materials[q] != object.material);
                            }
                        }
                        assert(group_holds(group, *frustum, objects@, n + 1));
                    }
                },
            }
            proof {
                assert forall|q: int| 0 <= q < groups@.len() implies (#[trigger] groups@[q]).mesh
                    == meshes[q] && group_holds(groups@[q], *frustum, objects@, n + 1) by {
                    if q != j {
                        assert(groups@[q] == old_groups[q]);
                        assert(meshes[q] != meshes[j as int]);
                        lemma_group_untouched(old_groups[q], *frustum, objects@, n);
                    }
                }
            }
        },
        None => {
            let mut members: Vec<usize> = Vec::new();
            members.push(i);
            let mut batches: Vec<Batch> = Vec::new();
            batches.push(Batch { material: object.material, members });
            groups.push(MeshGroup { mesh: object.mesh, batches });
            proof {
                assert(!meshes.contains(object.mesh)) by {
                    if meshes.contains(object.mesh) {
                        let w = choose|w: int| 0 <= w < meshes.len() && meshes[w] == object.mesh;
                        assert(old_groups[w].mesh == object.mesh);
                    }
                }
                lemma_absent_mesh_has_no_materials(*frustum, objects@, object.mesh, n);
                lemma_absent_material_has_no_members(
                    *frustum,
                    objects@,
                    BatchKey { mesh: object.mesh, material: object.material },
                    n,
                );
                let now = meshes.push(object.mesh);
                assert(mesh_order(*frustum, objects@, n + 1) == now);
                assert(material_order(*frustum, objects@, object.mesh, n + 1) == Seq::<
                    MaterialHandle,
                >::empty().push(object.material));
                assert(members@ == Seq::<usize>::empty().push(i));
                assert forall|q: int| 0 <= q < groups@.len() implies (#[trigger] groups@[q]).mesh
                    == now[q] && group_holds(groups@[q], *frustum, objects@, n + 1) by {
                    if q < old_groups.len() {
                        assert(groups@[q] == old_groups[q]);
                        assert(meshes[q] != object.mesh);
                        lemma_group_untouched(old_groups[q], *frustum, objects@, n);
                    }
                }
            }
        },
    }
}

/// Tests every object against the frustum and collects the visible ones by
/// mesh and material.
fn collect_groups(frustum: &Frustum, objects: &[InternalObject]) -> (groups: Vec<MeshGroup>)
    ensures
        groups_hold(groups@, *frustum, objects@, objects@.len()),
{
    let mut groups: Vec<MeshGroup> = Vec::new();
    for i in 0..objects.len()
        invariant
            groups_hold(groups@, *frustum, objects@, i as nat),
    {
        if frustum.contains_sphere(&objects[i].bounds) {
            add_object(&mut groups, frustum, objects, i);
        } else {
            proof {
                let n = i as nat;
                assert(mesh_order(*frustum, objects@, n + 1) == mesh_order(*frustum, objects@, n));
                assert forall|j: int| 0 <= j < groups@.len() implies group_holds(
                    #[trigger] groups@[j],
                    *frustum,
                    objects@,
                    n + 1,
                ) by {
                    lemma_group_untouched(groups@[j], *frustum, objects@, n);
                }
            }
        }
    }
    groups
}

/// Culls the objects against the frustum and groups the visible ones into
/// batches.
#[verifier::loop_isolation(false)]
pub fn build_draw_list(frustum: &Frustum, objects: &[InternalObject]) -> (list: HostDrawList)
    ensures
        list.batches@ == frame_batches(*frustum, objects@),
        list.instances@ == frame_instances(*frustum, objects@),
{
    let groups = collect_groups(frustum, objects);
    let ghost meshes = mesh_order(*frustum, objects@, objects@.len());
    let mut batches: Vec<DrawBatch> = Vec::new();
    let mut instances: Vec<usize> = Vec::new();
    for j in 0..groups.len()
        invariant
            batches@.len() == keys_before(*frustum, objects@, j as nat).len(),
            instances@ == instances_before(*frustum, objects@, batches@.len()),
            forall|t: int| 0 <= t < batches@.len() ==> batches@[t] == frame_batch(*frustum, objects@, t),
    {
        let group = &groups[j];
        let ghost keys = mesh_keys(*frustum, objects@, group.mesh);
        proof {
            lemma_keys_prefix(*frustum, objects@, (j + 1) as nat, meshes.len());
            assert(group_holds(*group, *frustum, objects@, objects@.len()));
        }
        for k in 0..group.batches.len()
            invariant
                batches@.len() == keys_before(*frustum, objects@, j as nat).len() + k,
                instances@ == instances_before(*frustum, objects@, batches@.len()),
                forall|t: int|
                    0 <= t < batches@.len() ==> batches@[t] == frame_batch(*frustum, objects@, t),
        {
            let batch = &group.batches[k];
            let ghost t = batches@.len() as int;
            let ghost start = instances@;
            proof {
                assert(keys_before(*frustum, objects@, (j + 1) as nat)[t] == keys[k as int]);
                assert(frame_keys(*frustum, objects@)[t] == keys[k as int]);
                assert(batch.members@ == frame_members(*frustum, objects@, t));
            }
            batches.push(
                DrawBatch {
                    mesh: group.mesh,
                    material: batch.material,
                    first_instance: instances.len(),
                    instance_count: batch.members.len(),
                },
            );
            for m in 0..batch.members.len()
                invariant
                    instances@ == start + batch.members@.take(m as int),
            {
                instances.push(batch.members[m]);
                proof {
                    assert(batch.members@.take(m + 1) == batch.members@.take(m as int).push(
                        batch.members@[m as int],
                    ));
                }
            }
            proof {
                assert(batch.members@.take(batch.members@.len() as int) == batch.members@);
            }
        }
    }
    proof {
        assert(batches@ =~= frame_batches(*frustum, objects@));
    }
    HostDrawList { batches, instances }
}

} // verus!

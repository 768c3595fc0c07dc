//! Lemmas on the order of the batches and on the members of a batch, from
//! which the laws of a culled frame follow.

use vstd::prelude::*;
use vstd::seq_lib::lemma_no_dup_in_concat;
use crate::culling::batch::lemma_keys_prefix;
use crate::culling::laws::{
    key_appears_first, key_is_used, lemma_keys_distinct, mesh_appears_first, mesh_is_used,
    total_instances,
};
use crate::culling::{
    batch_members, frame_batch, frame_batches, frame_keys, frame_members, instances_before,
    is_visible, key_of, keys_before, material_order, mesh_keys, mesh_order, BatchKey,
};
use crate::frustum::Frustum;
use crate::handles::MeshHandle;
use crate::resources::InternalObject;

verus! {

/// The members of a key among the first `n` objects are exactly the visible
/// objects with that key among them, in ascending order.
pub proof fn lemma_members(frustum: Frustum, objects: Seq<InternalObject>, key: BatchKey, n: nat)
    requires
        n <= objects.len() <= usize::MAX,
    ensures
        batch_members(frustum, objects, key, n).len() <= n,
        forall|p: int|
            0 <= p < batch_members(frustum, objects, key, n).len() ==> {
                let x = #[trigger] batch_members(frustum, objects, key, n)[p];
                x < n && is_visible(frustum, objects[x as int]) && key_of(objects[x as int]) == key
            },
        forall|p: int, q: int|
            0 <= p < q < batch_members(frustum, objects, key, n).len() ==> batch_members(
                frustum,
                objects,
                key,
                n,
            )[p] < batch_members(frustum, objects, key, n)[q],
        forall|i: usize|
            i < n && is_visible(frustum, objects[i as int]) && key_of(objects[i as int]) == key
                ==> #[trigger] batch_members(frustum, objects, key, n).contains(i),
    decreases n,
{
    if n > 0 {
        let before = batch_members(frustum, objects, key, (n - 1) as nat);
        let now = batch_members(frustum, objects, key, n);
        lemma_members(frustum, objects, key, (n - 1) as nat);
        assert forall|i: usize|
            i < n && is_visible(frustum, objects[i as int]) && key_of(objects[i as int])
                == key implies #[trigger] now.contains(i) by {
            if i < n - 1 {
                assert(before.contains(i));
                let w = choose|w: int| 0 <= w < before.len() && before[w] == i;
                assert(now[w] == i);
            } else {
                assert(now.last() == i);
            }
        }
    }
}

/// The mesh of every visible object is in the mesh order.
pub(crate) proof fn lemma_visible_mesh_is_listed(
    frustum: Frustum,
    objects: Seq<InternalObject>,
    i: int,
    n: nat,
)
    requires
        0 <= i < n <= objects.len(),
        is_visible(frustum, objects[i]),
    ensures
        mesh_order(frustum, objects, n).contains(objects[i].mesh),
    decreases n,
{
    let before = mesh_order(frustum, objects, (n - 1) as nat);
    let now = mesh_order(frustum, objects, n);
    let mesh = objects[i].mesh;
    if i < n - 1 {
        lemma_visible_mesh_is_listed(frustum, objects, i, (n - 1) as nat);
        let w = choose|w: int| 0 <= w < before.len() && before[w] == mesh;
        assert(now[w] == mesh);
    } else if before.contains(mesh) {
    } else {
        assert(now.last() == mesh);
    }
}

/// The material of every visible object is in the material order of the
/// object's mesh.
pub(crate) proof fn lemma_visible_material_is_listed(
    frustum: Frustum,
    objects: Seq<InternalObject>,
    i: int,
    n: nat,
)
    requires
        0 <= i < n <= objects.len(),
        is_visible(frustum, objects[i]),
    ensures
        material_order(frustum, objects, objects[i].mesh, n).contains(objects[i].material),
    decreases n,
{
    let mesh = objects[i].mesh;
    let material = objects[i].material;
    let before = material_order(frustum, objects, mesh, (n - 1) as nat);
    let now = material_order(frustum, objects, mesh, n);
    if i < n - 1 {
        lemma_visible_material_is_listed(frustum, objects, i, (n - 1) as nat);
        let w = choose|w: int| 0 <= w < before.len() && before[w] == material;
        assert(now[w] == material);
    } else if before.contains(material) {
    } else {
        assert(now.last() == material);
    }
}

/// Every material in the material order of a mesh is the material of some
/// visible object with that mesh.
pub(crate) proof fn lemma_listed_material_is_used(
    frustum: Frustum,
    objects: Seq<InternalObject>,
    mesh: MeshHandle,
    n: nat,
)
    requires
        n <= objects.len(),
    ensures
        forall|k: int|
            0 <= k < material_order(frustum, objects, mesh, n).len() ==> key_is_used(
                frustum,
                objects,
                BatchKey { mesh, material: #[trigger] material_order(frustum, objects, mesh, n)[k] },
                n,
            ),
    decreases n,
{
    if n > 0 {
        let before = material_order(frustum, objects, mesh, (n - 1) as nat);
        let now = material_order(frustum, objects, mesh, n);
        lemma_listed_material_is_used(frustum, objects, mesh, (n - 1) as nat);
        assert forall|k: int| 0 <= k < now.len() implies key_is_used(
            frustum,
            objects,
            BatchKey { mesh, material: #[trigger] now[k] },
            n,
        ) by {
            let key = BatchKey { mesh, material: now[k] };
            if k < before.len() {
                assert(key_is_used(frustum, objects, BatchKey { mesh, material: before[k] }, (n - 1) as nat));
                let i = choose|i: int|
                    0 <= i < n - 1 && is_visible(frustum, objects[i]) && key_of(
                        #[trigger] objects[i],
                    ) == key;
                assert(key_of(objects[i]) == key);
            } else {
                assert(key_of(objects[n - 1]) == key);
            }
        }
    }
}

/// Where a batch stands among the meshes: the position of its mesh in the
/// mesh order. The batches of that mesh fill the positions from
/// `keys_before(i)` up to `keys_before(i + 1)`, one for each material of the
/// mesh, in the order of the materials.
pub proof fn lemma_batch_has_its_mesh(frustum: Frustum, objects: Seq<InternalObject>, t: int) -> (i:
    int)
    requires
        0 <= t < frame_keys(frustum, objects).len(),
    ensures
        0 <= i < mesh_order(frustum, objects, objects.len()).len(),
        keys_before(frustum, objects, i as nat).len() <= t < keys_before(
            frustum,
            objects,
            (i + 1) as nat,
        ).len(),
        keys_before(frustum, objects, (i + 1) as nat).len() == keys_before(
            frustum,
            objects,
            i as nat,
        ).len() + material_order(
            frustum,
            objects,
            mesh_order(frustum, objects, objects.len())[i],
            objects.len(),
        ).len(),
        frame_keys(frustum, objects)[t].mesh == mesh_order(frustum, objects, objects.len())[i],
        frame_keys(frustum, objects)[t].material == material_order(
            frustum,
            objects,
            mesh_order(frustum, objects, objects.len())[i],
            objects.len(),
        )[t - keys_before(frustum, objects, i as nat).len()],
{
    let meshes = mesh_order(frustum, objects, objects.len());
    let i = lemma_batch_within(frustum, objects, t, meshes.len());
    lemma_keys_prefix(frustum, objects, (i + 1) as nat, meshes.len());
    let upto = keys_before(frustum, objects, (i + 1) as nat);
    assert(upto[t] == frame_keys(frustum, objects)[t]);
    let base = keys_before(frustum, objects, i as nat).len();
    assert(upto[t] == mesh_keys(frustum, objects, meshes[i])[t - base]);
    i
}

/// The mesh under which position `t` falls, among the first `j` meshes.
pub(crate) proof fn lemma_batch_within(frustum: Frustum, objects: Seq<InternalObject>, t: int, j: nat) -> (i:
    int)
    requires
        0 <= t < keys_before(frustum, objects, j).len(),
    ensures
        0 <= i < j,
        keys_before(frustum, objects, i as nat).len() <= t < keys_before(
            frustum,
            objects,
            (i + 1) as nat,
        ).len(),
    decreases j,
{
    if t >= keys_before(frustum, objects, (j - 1) as nat).len() {
        j - 1
    } else {
        lemma_batch_within(frustum, objects, t, (j - 1) as nat)
    }
}

/// The batch of the material at position `k` under the mesh at position `i`
/// stands at position `keys_before(i) + k`.
pub(crate) proof fn lemma_batch_position(frustum: Frustum, objects: Seq<InternalObject>, i: int, k: int)
    requires
        0 <= i < mesh_order(frustum, objects, objects.len()).len(),
        0 <= k < material_order(
            frustum,
            objects,
            mesh_order(frustum, objects, objects.len())[i],
            objects.len(),
        ).len(),
    ensures
        keys_before(frustum, objects, i as nat).len() + k < frame_keys(frustum, objects).len(),
        frame_keys(frustum, objects)[keys_before(frustum, objects, i as nat).len() + k]
            == (BatchKey {
            mesh: mesh_order(frustum, objects, objects.len())[i],
            material: material_order(
                frustum,
                objects,
                mesh_order(frustum, objects, objects.len())[i],
                objects.len(),
            )[k],
        }),
{
    let meshes = mesh_order(frustum, objects, objects.len());
    lemma_keys_prefix(frustum, objects, (i + 1) as nat, meshes.len());
    let upto = keys_before(frustum, objects, (i + 1) as nat);
    let base = keys_before(frustum, objects, i as nat).len();
    assert(upto[base + k] == mesh_keys(frustum, objects, meshes[i])[k]);
    assert(upto[base + k] == frame_keys(frustum, objects)[base + k]);
}

/// The positions of the meshes grow with the positions of their batches.
pub(crate) proof fn lemma_meshes_in_batch_order(
    frustum: Frustum,
    objects: Seq<InternalObject>,
    s: int,
    t: int,
    i: int,
    j: int,
)
    requires
        s <= t,
        0 <= i,
        0 <= j,
        keys_before(frustum, objects, i as nat).len() <= s < keys_before(
            frustum,
            objects,
            (i + 1) as nat,
        ).len(),
        keys_before(frustum, objects, j as nat).len() <= t < keys_before(
            frustum,
            objects,
            (j + 1) as nat,
        ).len(),
    ensures
        i <= j,
{
    if j < i {
        lemma_keys_prefix(frustum, objects, (j + 1) as nat, i as nat);
    }
}

/// The mesh and material of every visible object have their batch.
pub proof fn lemma_visible_key_is_batched(
    frustum: Frustum,
    objects: Seq<InternalObject>,
    i: int,
)
    requires
        0 <= i < objects.len(),
        is_visible(frustum, objects[i]),
    ensures
        frame_keys(frustum, objects).contains(key_of(objects[i])),
{
    let n = objects.len();
    let meshes = mesh_order(frustum, objects, n);
    let materials = material_order(frustum, objects, objects[i].mesh, n);
    lemma_visible_mesh_is_listed(frustum, objects, i, n);
    lemma_visible_material_is_listed(frustum, objects, i, n);
    let w = choose|w: int| 0 <= w < meshes.len() && meshes[w] == objects[i].mesh;
    let k = choose|k: int| 0 <= k < materials.len() && materials[k] == objects[i].material;
    lemma_batch_position(frustum, objects, w, k);
}

/// Every batch has the mesh and material of some visible object.
pub proof fn lemma_keys_come_from_visible(frustum: Frustum, objects: Seq<InternalObject>)
    ensures
        forall|t: int|
            0 <= t < frame_keys(frustum, objects).len() ==> key_is_used(
                frustum,
                objects,
                #[trigger] frame_keys(frustum, objects)[t],
                objects.len(),
            ),
{
    let keys = frame_keys(frustum, objects);
    let meshes = mesh_order(frustum, objects, objects.len());
    assert forall|t: int| 0 <= t < keys.len() implies key_is_used(
        frustum,
        objects,
        #[trigger] keys[t],
        objects.len(),
    ) by {
        let i = lemma_batch_has_its_mesh(frustum, objects, t);
        lemma_listed_material_is_used(frustum, objects, meshes[i], objects.len());
        let materials = material_order(frustum, objects, meshes[i], objects.len());
        let k = t - keys_before(frustum, objects, i as nat).len();
        assert(keys[t] == BatchKey { mesh: meshes[i], material: materials[k] });
    }
}

/// Every mesh in the mesh order is the mesh of some visible object.
pub(crate) proof fn lemma_listed_mesh_is_used(frustum: Frustum, objects: Seq<InternalObject>, n: nat)
    requires
        n <= objects.len(),
    ensures
        forall|k: int|
            0 <= k < mesh_order(frustum, objects, n).len() ==> mesh_is_used(
                frustum,
                objects,
                #[trigger] mesh_order(frustum, objects, n)[k],
                n,
            ),
    decreases n,
{
    if n > 0 {
        let before = mesh_order(frustum, objects, (n - 1) as nat);
        let now = mesh_order(frustum, objects, n);
        lemma_listed_mesh_is_used(frustum, objects, (n - 1) as nat);
        assert forall|k: int| 0 <= k < now.len() implies mesh_is_used(
            frustum,
            objects,
            #[trigger] now[k],
            n,
        ) by {
            if k < before.len() {
                assert(mesh_is_used(frustum, objects, before[k], (n - 1) as nat));
                let i = choose|i: int|
                    0 <= i < n - 1 && is_visible(frustum, objects[i]) && (#[trigger] objects[i]).mesh
                        == before[k];
                assert(objects[i].mesh == now[k]);
            } else {
                assert(objects[n - 1].mesh == now[k]);
            }
        }
    }
}

/// The mesh order is the order of first appearance: of two meshes in it, the
/// earlier one is seen on a visible object before the later one is.
pub(crate) proof fn lemma_meshes_by_first_appearance(
    frustum: Frustum,
    objects: Seq<InternalObject>,
    a: int,
    b: int,
    n: nat,
)
    requires
        n <= objects.len(),
        0 <= a < b < mesh_order(frustum, objects, n).len(),
    ensures
        mesh_appears_first(
            frustum,
            objects,
            mesh_order(frustum, objects, n)[a],
            mesh_order(frustum, objects, n)[b],
            n,
        ),
    decreases n,
{
    let before = mesh_order(frustum, objects, (n - 1) as nat);
    let now = mesh_order(frustum, objects, n);
    if b < before.len() {
        lemma_meshes_by_first_appearance(frustum, objects, a, b, (n - 1) as nat);
        let i = choose|i: int|
            0 <= i < n - 1 && is_visible(frustum, objects[i]) && (#[trigger] objects[i]).mesh
                == before[a] && !mesh_is_used(frustum, objects, before[b], (i + 1) as nat);
        assert(objects[i].mesh == now[a]);
    } else {
        lemma_listed_mesh_is_used(frustum, objects, (n - 1) as nat);
        assert(mesh_is_used(frustum, objects, before[a], (n - 1) as nat));
        let i = choose|i: int|
            0 <= i < n - 1 && is_visible(frustum, objects[i]) && (#[trigger] objects[i]).mesh
                == before[a];
        if mesh_is_used(frustum, objects, now[b], (i + 1) as nat) {
            let x = choose|x: int|
                0 <= x < i + 1 && is_visible(frustum, objects[x]) && (#[trigger] objects[x]).mesh
                    == now[b];
            lemma_visible_mesh_is_listed(frustum, objects, x, (n - 1) as nat);
        }
        assert(objects[i].mesh == now[a]);
    }
}

/// The material order of a mesh is the order of first appearance: of two
/// materials in it, the earlier one is seen on a visible object with the mesh
/// before the later one is.
pub(crate) proof fn lemma_materials_by_first_appearance(
    frustum: Frustum,
    objects: Seq<InternalObject>,
    mesh: MeshHandle,
    a: int,
    b: int,
    n: nat,
)
    requires
        n <= objects.len(),
        0 <= a < b < material_order(frustum, objects, mesh, n).len(),
    ensures
        key_appears_first(
            frustum,
            objects,
            BatchKey { mesh, material: material_order(frustum, objects, mesh, n)[a] },
            BatchKey { mesh, material: material_order(frustum, objects, mesh, n)[b] },
            n,
        ),
    decreases n,
{
    let before = material_order(frustum, objects, mesh, (n - 1) as nat);
    let now = material_order(frustum, objects, mesh, n);
    let first = BatchKey { mesh, material: now[a] };
    let second = BatchKey { mesh, material: now[b] };
    if b < before.len() {
        lemma_materials_by_first_appearance(frustum, objects, mesh, a, b, (n - 1) as nat);
        let i = choose|i: int|
            0 <= i < n - 1 && is_visible(frustum, objects[i]) && key_of(#[trigger] objects[i])
                == first && !key_is_used(frustum, objects, second, (i + 1) as nat);
        assert(key_of(objects[i]) == first);
    } else {
        lemma_listed_material_is_used(frustum, objects, mesh, (n - 1) as nat);
        assert(key_is_used(frustum, objects, BatchKey { mesh, material: before[a] }, (n - 1) as nat));
        let i = choose|i: int|
            0 <= i < n - 1 && is_visible(frustum, objects[i]) && key_of(#[trigger] objects[i])
                == first;
        if key_is_used(frustum, objects, second, (i + 1) as nat) {
            let x = choose|x: int|
                0 <= x < i + 1 && is_visible(frustum, objects[x]) && key_of(#[trigger] objects[x])
                    == second;
            lemma_visible_material_is_listed(frustum, objects, x, (n - 1) as nat);
        }
        assert(key_of(objects[i]) == first);
    }
}

/// A sequence without repetition whose entries are all below `n` has at most
/// `n` entries.
pub(crate) proof fn lemma_bounded_distinct_len(s: Seq<usize>, n: nat)
    requires
        s.no_duplicates(),
        forall|p: int| 0 <= p < s.len() ==> s[p] < n,
    ensures
        s.len() <= n,
    decreases n,
{
    if s.len() > 0 {
        if n == 0 {
            assert(s[0] < n);
        } else if exists|p: int| 0 <= p < s.len() && s[p] == n - 1 {
            let p = choose|p: int| 0 <= p < s.len() && s[p] == n - 1;
            let rest = s.remove(p);
            assert forall|q: int| 0 <= q < rest.len() implies rest[q] < n - 1 by {
                if q < p {
                    assert(rest[q] == s[q]);
                } else {
                    assert(rest[q] == s[q + 1]);
                }
            }
            assert(rest.no_duplicates()) by {
                assert forall|a: int, b: int|
                    0 <= a < rest.len() && 0 <= b < rest.len() && a != b implies rest[a]
                    != rest[b] by {
                    let a2 = if a < p { a } else { a + 1 };
                    let b2 = if b < p { b } else { b + 1 };
                    assert(rest[a] == s[a2] && rest[b] == s[b2]);
                }
            }
            lemma_bounded_distinct_len(rest, (n - 1) as nat);
        } else {
            assert forall|q: int| 0 <= q < s.len() implies s[q] < n - 1 by {
                assert(s[q] < n);
            }
            lemma_bounded_distinct_len(s, (n - 1) as nat);
        }
    }
}

/// The instance list up to batch `j` holds exactly the members of the
/// batches before `j`, nothing twice, and every entry under the key of its
/// batch.
pub proof fn lemma_instances_before(frustum: Frustum, objects: Seq<InternalObject>, j: nat)
    requires
        objects.len() <= usize::MAX,
        j <= frame_keys(frustum, objects).len(),
    ensures
        instances_before(frustum, objects, j).no_duplicates(),
        j <= instances_before(frustum, objects, j).len() <= objects.len(),
        forall|x: usize| #[trigger]
            instances_before(frustum, objects, j).contains(x) <==> exists|k: int|
                0 <= k < j && #[trigger] frame_members(frustum, objects, k).contains(x),
        forall|x: usize| #[trigger]
            instances_before(frustum, objects, j).contains(x) ==> x < objects.len() && is_visible(
                frustum,
                objects[x as int],
            ),
    decreases j,
{
    let keys = frame_keys(frustum, objects);
    let n = objects.len();
    if j > 0 {
        let a = instances_before(frustum, objects, (j - 1) as nat);
        let b = frame_members(frustum, objects, j - 1);
        let now = instances_before(frustum, objects, j);
        lemma_instances_before(frustum, objects, (j - 1) as nat);
        lemma_members(frustum, objects, keys[j - 1], n);
        lemma_keys_distinct(frustum, objects);
        assert(b.len() >= 1) by {
            lemma_keys_come_from_visible(frustum, objects);
            assert(key_is_used(frustum, objects, keys[j - 1], n));
            let i = choose|i: int|
                0 <= i < n && is_visible(frustum, objects[i]) && key_of(#[trigger] objects[i])
                    == keys[j - 1];
            assert(b.contains(i as usize));
        }
        vstd::seq_lib::lemma_seq_concat_contains_all_elements::<usize>(a, b, 0);
        assert forall|x: usize| #[trigger]
            now.contains(x) <==> exists|k: int|
                0 <= k < j && #[trigger] frame_members(frustum, objects, k).contains(x) by {
            vstd::seq_lib::lemma_seq_concat_contains_all_elements(a, b, x);
            if now.contains(x) {
                if a.contains(x) {
                    let k = choose|k: int|
                        0 <= k < j - 1 && #[trigger] frame_members(frustum, objects, k).contains(x);
                    assert(0 <= k < j && frame_members(frustum, objects, k).contains(x));
                } else {
                    assert(frame_members(frustum, objects, j - 1).contains(x));
                }
            }
            if exists|k: int|
                0 <= k < j && #[trigger] frame_members(frustum, objects, k).contains(x) {
                let k = choose|k: int|
                    0 <= k < j && #[trigger] frame_members(frustum, objects, k).contains(x);
                if k < j - 1 {
                    assert(a.contains(x));
                } else {
                    assert(b.contains(x));
                }
            }
        }
        assert forall|x: usize| #[trigger] now.contains(x) implies x < objects.len() && is_visible(
            frustum,
            objects[x as int],
        ) by {
            vstd::seq_lib::lemma_seq_concat_contains_all_elements(a, b, x);
            if !a.contains(x) {
                let w = choose|w: int| 0 <= w < b.len() && b[w] == x;
                assert(b[w] < n);
            }
        }
        assert forall|p: int, q: int| 0 <= p < a.len() && 0 <= q < b.len() implies a[p] != b[q] by {
            if a[p] == b[q] {
                let x = a[p];
                assert(a.contains(x));
                let k = choose|k: int|
                    0 <= k < j - 1 && #[trigger] frame_members(frustum, objects, k).contains(x);
                lemma_members(frustum, objects, keys[k], n);
                let m = frame_members(frustum, objects, k);
                let w = choose|w: int| 0 <= w < m.len() && m[w] == x;
                assert(key_of(objects[m[w] as int]) == keys[k]);
                assert(key_of(objects[b[q] as int]) == keys[j - 1]);
                assert(keys[k] != keys[j - 1]);
            }
        }
        lemma_no_dup_in_concat(a, b);
        assert forall|p: int| 0 <= p < now.len() implies now[p] < n by {
            assert(now.contains(now[p]));
        }
        lemma_bounded_distinct_len(now, n);
    }
}

/// The batches before `j` draw as many instances as the instance list holds
/// up to batch `j`.
pub(crate) proof fn lemma_total_before(frustum: Frustum, objects: Seq<InternalObject>, j: nat)
    requires
        objects.len() <= usize::MAX,
        j <= frame_keys(frustum, objects).len(),
    ensures
        total_instances(frame_batches(frustum, objects).take(j as int)) == instances_before(
            frustum,
            objects,
            j,
        ).len(),
    decreases j,
{
    let batches = frame_batches(frustum, objects);
    if j > 0 {
        lemma_total_before(frustum, objects, (j - 1) as nat);
        lemma_members(frustum, objects, frame_keys(frustum, objects)[j - 1], objects.len());
        assert(batches.take(j as int).drop_last() == batches.take(j - 1));
        assert(batches.take(j as int).last() == frame_batch(frustum, objects, j - 1));
    }
}

/// The instance list up to batch `j` is the start of the instance list up to
/// any later batch.
pub(crate) proof fn lemma_prefix(frustum: Frustum, objects: Seq<InternalObject>, j: nat, k: nat)
    requires
        j <= k,
    ensures
        instances_before(frustum, objects, j).len() <= instances_before(frustum, objects, k).len(),
        instances_before(frustum, objects, j) == instances_before(frustum, objects, k).take(
            instances_before(frustum, objects, j).len() as int,
        ),
    decreases k,
{
    if j < k {
        lemma_prefix(frustum, objects, j, (k - 1) as nat);
    }
}

} // verus!

use vstd::prelude::*;
use vstd::utf8::{encode_utf8, encode_utf8_decode_utf8};

use crate::renderer::entities::{compare_bytes, Order, Renderable};

verus! {

/// Whether `a` is a power of two.
pub open spec fn is_power_of_two(a: u64) -> bool {
    a > 0 && a & ((a - 1) as u64) == 0
}

/// The padded size of a uniform buffer: the size rounded up with the alignment mask, or the
/// size itself when the device asks for no alignment.
pub open spec fn padded_ubo_size(min_ubo_alignment: u64, ubo_size: u64) -> u64 {
    if min_ubo_alignment > 0 {
        ((ubo_size + min_ubo_alignment - 1) as u64) & !((min_ubo_alignment - 1) as u64)
    } else {
        ubo_size
    }
}

proof fn lemma_align_up(a: u64, x: u64)
    requires
        a > 0,
        a & ((a - 1) as u64) == 0,
        x + a <= u64::MAX,
    ensures
        (((x + a - 1) as u64) & !((a - 1) as u64)) & ((a - 1) as u64) == 0,
        x <= (((x + a - 1) as u64) & !((a - 1) as u64)),
        (((x + a - 1) as u64) & !((a - 1) as u64)) < x + a,
{
    assert((((x + a - 1) as u64) & !((a - 1) as u64)) & ((a - 1) as u64) == 0) by (bit_vector);
    assert(x <= (((x + a - 1) as u64) & !((a - 1) as u64))) by (bit_vector)
        requires
            a > 0,
            a & ((a - 1) as u64) == 0,
            x + a <= 0xffff_ffff_ffff_ffff,
    ;
    assert((((x + a - 1) as u64) & !((a - 1) as u64)) < x + a) by (bit_vector)
        requires
            a > 0,
            a & ((a - 1) as u64) == 0,
            x + a <= 0xffff_ffff_ffff_ffff,
    ;
}

/// Pads a uniform buffer size to the device's minimum uniform buffer offset alignment. For the
/// power-of-two alignments that devices report, the result is the smallest size that holds the
/// buffer and has the alignment's low bits clear.
pub fn pad_ubo_size(min_ubo_alignment: u64, ubo_size: usize) -> (r: u64)
    requires
        min_ubo_alignment > 0 ==> ubo_size + min_ubo_alignment <= u64::MAX,
    ensures
        r == padded_ubo_size(min_ubo_alignment, ubo_size as u64),
        min_ubo_alignment == 0 ==> r == ubo_size,
        is_power_of_two(min_ubo_alignment) ==> {
            &&& r & ((min_ubo_alignment - 1) as u64) == 0
            &&& ubo_size <= r < ubo_size + min_ubo_alignment
        },
{
    let mut aligned_size = ubo_size as u64;
    if min_ubo_alignment > 0 {
        proof {
            if is_power_of_two(min_ubo_alignment) {
                lemma_align_up(min_ubo_alignment, aligned_size);
            }
        }
        aligned_size = (aligned_size + min_ubo_alignment - 1) & !(min_ubo_alignment - 1);
    }
    aligned_size
}

/// For an alignment of 2^n, clear low bits mean divisibility, so padded sizes are multiples of
/// the alignment.
pub proof fn lemma_aligned_means_multiple(n: nat, r: u64)
    requires
        n < 64,
    ensures
        r & ((vstd::arithmetic::power2::pow2(n) - 1) as u64) == 0 <==> r % (
        vstd::arithmetic::power2::pow2(n) as u64) == 0,
{
    vstd::bits::lemma_u64_low_bits_mask_is_mod(r, n);
    vstd::bits::lemma_u64_pow2_no_overflow(n);
    vstd::arithmetic::power2::lemma_pow2_pos(n);
}

/// Padding an already padded size changes nothing (for power-of-two alignments).
pub proof fn lemma_pad_ubo_size_idempotent(a: u64, x: u64)
    requires
        is_power_of_two(a),
        x + 2 * a <= u64::MAX,
    ensures
        padded_ubo_size(a, padded_ubo_size(a, x)) == padded_ubo_size(a, x),
{
    let p = padded_ubo_size(a, x);
    lemma_align_up(a, x);
    assert(p & ((a - 1) as u64) == 0);
    assert(p + a <= u64::MAX);
    assert((((p + a - 1) as u64) & !((a - 1) as u64)) == p) by (bit_vector)
        requires
            a > 0,
            a & ((a - 1) as u64) == 0,
            p & ((a - 1) as u64) == 0,
            p + a <= 0xffff_ffff_ffff_ffff,
    ;
}

/// The frame slot that a frame number uses: frames cycle through the available slots.
pub fn get_current_frame_number(frame_number: usize, frame_count: usize) -> (r: usize)
    requires
        frame_count > 0,
    ensures
        r == frame_number % frame_count,
        r < frame_count,
{
    frame_number % frame_count
}

/// Frame numbers that differ by the number of slots use the same slot.
pub proof fn lemma_frame_slots_cycle(frame_number: nat, frame_count: nat)
    requires
        frame_count > 0,
    ensures
        (frame_number + frame_count) % frame_count == frame_number % frame_count,
{
    vstd::arithmetic::div_mod::lemma_mod_add_multiples_vanish(
        frame_number as int,
        frame_count as int,
    );
}

/// The byte offset of a frame's scene data in the scene buffer: the padded size times the frame
/// slot, cut to 32 bits.
pub fn scene_ubo_offset(padded_size: u64, frame_index: usize) -> (r: u32)
    requires
        padded_size * frame_index <= u64::MAX,
    ensures
        r == (padded_size * frame_index) as u32,
{
    let offset = padded_size * frame_index as u64;
    #[verifier::truncate]
    (offset as u32)
}

/// A step of recording the draws of a frame.
#[derive(Clone, Debug)]
pub enum DrawCommand {
    /// Bind the pipeline and descriptor sets of the named material.
    BindMaterial { material: String },
    /// Bind the vertex buffer of the named mesh.
    BindMesh { mesh: String },
    /// Draw the vertices of the renderable at this position, as instance `first_instance`.
    Draw { renderable: usize, first_instance: u32 },
}

/// What a draw command does, with names as character sequences.
pub enum DrawStep {
    BindMaterial(Seq<char>),
    BindMesh(Seq<char>),
    Draw(int, u32),
}

pub open spec fn draw_step(c: DrawCommand) -> DrawStep {
    match c {
        DrawCommand::BindMaterial { material } => DrawStep::BindMaterial(material@),
        DrawCommand::BindMesh { mesh } => DrawStep::BindMesh(mesh@),
        DrawCommand::Draw { renderable, first_instance } => DrawStep::Draw(
            renderable as int,
            first_instance,
        ),
    }
}

/// The steps that draw the renderable at position `i`: its material is bound when it differs
/// from the previous renderable's, then its mesh likewise, then it is drawn as instance `i`.
pub open spec fn steps_for(rs: Seq<Renderable>, i: int) -> Seq<DrawStep> {
    (if i == 0 || rs[i].material_name@ != rs[i - 1].material_name@ {
        seq![DrawStep::BindMaterial(rs[i].material_name@)]
    } else {
        Seq::empty()
    }) + (if i == 0 || rs[i].mesh_name@ != rs[i - 1].mesh_name@ {
        seq![DrawStep::BindMesh(rs[i].mesh_name@)]
    } else {
        Seq::empty()
    }) + seq![DrawStep::Draw(i, i as u32)]
}

/// The steps that draw the first `n` renderables.
pub open spec fn draw_plan(rs: Seq<Renderable>, n: int) -> Seq<DrawStep>
    decreases n,
{
    if n <= 0 {
        Seq::empty()
    } else {
        draw_plan(rs, n - 1) + steps_for(rs, n - 1)
    }
}

/// Plans the commands that draw the renderables in order, binding a material or a mesh only when
/// it changes from one renderable to the next.
pub fn plan_draw_calls(renderables: &Vec<Renderable>) -> (r: Vec<DrawCommand>)
    ensures
        r@.map_values(|c: DrawCommand| draw_step(c)) == draw_plan(renderables@, renderables@.len() as int),
{
    let mut commands: Vec<DrawCommand> = Vec::new();
    let mut last_material: Option<String> = None;
    let mut last_mesh: Option<String> = None;
    let mut i: usize = 0;
    while i < renderables.len()
        invariant
            i <= renderables@.len(),
            commands@.map_values(|c: DrawCommand| draw_step(c)) == draw_plan(renderables@, i as int),
            i == 0 ==> last_material is None && last_mesh is None,
            i > 0 ==> (last_material matches Some(m) && m@ == renderables@[i - 1].material_name@),
            i > 0 ==> (last_mesh matches Some(m) && m@ == renderables@[i - 1].mesh_name@),
        decreases renderables@.len() - i,
    {
        let renderable = &renderables[i];
        let ghost before = commands@;
        let material_changed = match &last_material {
            Some(m) => *m != renderable.material_name,
            None => true,
        };
        if material_changed {
            last_material = Some(renderable.material_name.clone());
            commands.push(DrawCommand::BindMaterial { material: renderable.material_name.clone() });
        }
        let ghost mid = commands@;
        let mesh_changed = match &last_mesh {
            Some(m) => *m != renderable.mesh_name,
            None => true,
        };
        if mesh_changed {
            last_mesh = Some(renderable.mesh_name.clone());
            commands.push(DrawCommand::BindMesh { mesh: renderable.mesh_name.clone() });
        }
        let ghost mid2 = commands@;
        #[verifier::truncate]
        let instance = i as u32;
        commands.push(DrawCommand::Draw { renderable: i, first_instance: instance });
        proof {
            let f = |c: DrawCommand| draw_step(c);
            let rs = renderables@;
            let k = i as int;
            assert(mid.map_values(f) =~= before.map_values(f) + (if k == 0 || rs[k].material_name@
                != rs[k - 1].material_name@ {
                seq![DrawStep::BindMaterial(rs[k].material_name@)]
            } else {
                Seq::empty()
            }));
            assert(mid2.map_values(f) =~= mid.map_values(f) + (if k == 0 || rs[k].mesh_name@
                != rs[k - 1].mesh_name@ {
                seq![DrawStep::BindMesh(rs[k].mesh_name@)]
            } else {
                Seq::empty()
            }));
            assert(commands@.map_values(f) =~= mid2.map_values(f) + seq![DrawStep::Draw(k, k as u32)]);
            assert(draw_plan(rs, k + 1) == draw_plan(rs, k) + steps_for(rs, k));
            assert(commands@.map_values(f) =~= draw_plan(rs, k + 1));
        }
        i = i + 1;
    }
    commands
}

/// The material bound after the steps, if any.
pub open spec fn bound_material(steps: Seq<DrawStep>) -> Option<Seq<char>>
    decreases steps.len(),
{
    if steps.len() == 0 {
        None
    } else {
        match steps.last() {
            DrawStep::BindMaterial(m) => Some(m),
            _ => bound_material(steps.drop_last()),
        }
    }
}

/// The mesh bound after the steps, if any.
pub open spec fn bound_mesh(steps: Seq<DrawStep>) -> Option<Seq<char>>
    decreases steps.len(),
{
    if steps.len() == 0 {
        None
    } else {
        match steps.last() {
            DrawStep::BindMesh(m) => Some(m),
            _ => bound_mesh(steps.drop_last()),
        }
    }
}

proof fn lemma_bound_after_concat(a: Seq<DrawStep>, b: Seq<DrawStep>)
    ensures
        bound_material(b) is Some ==> bound_material(a + b) == bound_material(b),
        bound_material(b) is None ==> bound_material(a + b) == bound_material(a),
        bound_mesh(b) is Some ==> bound_mesh(a + b) == bound_mesh(b),
        bound_mesh(b) is None ==> bound_mesh(a + b) == bound_mesh(a),
    decreases b.len(),
{
    if b.len() == 0 {
        assert(a + b =~= a);
    } else {
        assert((a + b).drop_last() =~= a + b.drop_last());
        assert((a + b).last() == b.last());
        lemma_bound_after_concat(a, b.drop_last());
    }
}

/// When a renderable is drawn, its own material and mesh are the ones bound: the plan for the
/// first `n` renderables ends by drawing renderable `n - 1`, with its material and mesh bound.
pub proof fn lemma_draw_plan_binds_what_it_draws(rs: Seq<Renderable>, n: int)
    requires
        0 < n <= rs.len(),
    ensures
        draw_plan(rs, n).last() == DrawStep::Draw(n - 1, (n - 1) as u32),
        bound_material(draw_plan(rs, n)) == Some(rs[n - 1].material_name@),
        bound_mesh(draw_plan(rs, n)) == Some(rs[n - 1].mesh_name@),
    decreases n,
{
    let k = n - 1;
    let prefix = draw_plan(rs, k);
    let st = steps_for(rs, k);
    assert(draw_plan(rs, n) == prefix + st);
    lemma_bound_after_concat(prefix, st);
    if k > 0 {
        lemma_draw_plan_binds_what_it_draws(rs, k);
    }
    let mat_changed = k == 0 || rs[k].material_name@ != rs[k - 1].material_name@;
    let mesh_changed = k == 0 || rs[k].mesh_name@ != rs[k - 1].mesh_name@;
    let m1: Seq<DrawStep> = if mat_changed {
        seq![DrawStep::BindMaterial(rs[k].material_name@)]
    } else {
        Seq::empty()
    };
    let m2: Seq<DrawStep> = if mesh_changed {
        seq![DrawStep::BindMesh(rs[k].mesh_name@)]
    } else {
        Seq::empty()
    };
    let d: Seq<DrawStep> = seq![DrawStep::Draw(k, k as u32)];
    assert(st == m1 + m2 + d);
    lemma_bound_after_concat(m1 + m2, d);
    lemma_bound_after_concat(m1, m2);
    assert(bound_material(d) is None) by {
        assert(d.drop_last() =~= Seq::<DrawStep>::empty());
    }
    assert(bound_mesh(d) is None) by {
        assert(d.drop_last() =~= Seq::<DrawStep>::empty());
    }
    if mat_changed {
        assert(m1.drop_last() =~= Seq::<DrawStep>::empty());
    } else {
        assert(m1 =~= Seq::<DrawStep>::empty());
    }
    if mesh_changed {
        assert(m2.drop_last() =~= Seq::<DrawStep>::empty());
        assert(bound_material(m2) is None);
    } else {
        assert(m2 =~= Seq::<DrawStep>::empty());
    }
    assert(bound_mesh(m1) is None) by {
        if mat_changed {
            assert(m1.drop_last() =~= Seq::<DrawStep>::empty());
        }
    }
}

/// Whether no two entries share a name.
pub open spec fn names_unique<T>(s: Seq<(String, T)>) -> bool {
    forall|i: int, j: int|
        0 <= i < j < s.len() ==> #[trigger] s[i].0@ != #[trigger] s[j].0@
}

/// Whether some entry has the name.
pub open spec fn has_name<T>(s: Seq<(String, T)>, name: Seq<char>) -> bool {
    exists|i: int| 0 <= i < s.len() && #[trigger] s[i].0@ == name
}

/// The resources of a list of named entries, by name.
pub open spec fn entries_view<T>(s: Seq<(String, T)>) -> Map<Seq<char>, T> {
    Map::new(
        |name: Seq<char>| has_name(s, name),
        |name: Seq<char>| s[choose|i: int| 0 <= i < s.len() && #[trigger] s[i].0@ == name].1,
    )
}

proof fn lemma_entries_view_at<T>(s: Seq<(String, T)>, i: int)
    requires
        0 <= i < s.len(),
        names_unique(s),
    ensures
        entries_view(s).contains_key(s[i].0@),
        entries_view(s)[s[i].0@] == s[i].1,
{
    let name = s[i].0@;
    assert(s[i].0@ == name);
    assert(has_name(s, name));
    let j = choose|j: int| 0 <= j < s.len() && #[trigger] s[j].0@ == name;
    if j != i {
        if j < i {
            assert(s[j].0@ != s[i].0@);
        } else {
            assert(s[i].0@ != s[j].0@);
        }
    }
}

/// Replacing the entry of a name, or appending an entry with a new name, stores the resource
/// under that name and changes no other name.
proof fn lemma_entries_view_store<T>(s: Seq<(String, T)>, t: Seq<(String, T)>, k: int, id: String, value: T)
    requires
        names_unique(s),
        0 <= k <= s.len(),
        k < s.len() ==> s[k].0@ == id@ && t == s.update(k, (id, value)),
        k == s.len() ==> !has_name(s, id@) && t == s.push((id, value)),
    ensures
        names_unique(t),
        entries_view(t) == entries_view(s).insert(id@, value),
{
    assert forall|i: int, j: int| 0 <= i < j < t.len() implies #[trigger] t[i].0@ != #[trigger] t[j].0@ by {
        if i != k && j != k {
            assert(t[i] == s[i] && t[j] == s[j]);
        } else if i == k {
            assert(t[j] == s[j]);
            if k < s.len() {
                assert(s[k].0@ != s[j].0@);
            } else {
                assert(s[j].0@ == s[j].0@);
            }
        } else {
            assert(t[i] == s[i]);
            if k < s.len() {
                assert(s[i].0@ != s[k].0@);
            } else {
                assert(s[i].0@ == s[i].0@);
            }
        }
    }
    let tv = entries_view(t);
    let sv = entries_view(s).insert(id@, value);
    assert(t[k].0@ == id@);
    lemma_entries_view_at(t, k);
    assert forall|name: Seq<char>| tv.contains_key(name) <==> sv.contains_key(name) by {
        if name != id@ {
            if has_name(t, name) {
                let j = choose|j: int| 0 <= j < t.len() && #[trigger] t[j].0@ == name;
                assert(j != k);
                assert(s[j].0@ == name);
            }
            if has_name(s, name) {
                let j = choose|j: int| 0 <= j < s.len() && #[trigger] s[j].0@ == name;
                assert(j != k);
                assert(t[j].0@ == name);
            }
        }
    }
    assert forall|name: Seq<char>| tv.contains_key(name) implies tv[name] == sv[name] by {
        if name != id@ {
            let j = choose|j: int| 0 <= j < t.len() && #[trigger] t[j].0@ == name;
            assert(j != k);
            assert(t[j] == s[j]);
            lemma_entries_view_at(t, j);
            lemma_entries_view_at(s, j);
        }
    }
    assert(tv =~= sv);
}

/// Resources by name, in the order they were first created.
pub struct Registry<T> {
    entries: Vec<(String, T)>,
}

impl<T> Registry<T> {
    #[verifier::type_invariant]
    spec fn names_are_unique(self) -> bool {
        names_unique(self.entries@)
    }

    /// The resources by name.
    pub closed spec fn view(&self) -> Map<Seq<char>, T> {
        entries_view(self.entries@)
    }

    /// An empty registry.
    pub fn new() -> (r: Self)
        ensures
            r.view() == Map::<Seq<char>, T>::empty(),
    {
        let r = Registry { entries: Vec::new() };
        assert(r.view() =~= Map::<Seq<char>, T>::empty());
        r
    }

    /// The number of resources.
    pub fn len(&self) -> (r: usize)
        ensures
            r == self.view().len(),
    {
        proof {
            use_type_invariant(self);
            lemma_entries_view_len(self.entries@);
        }
        self.entries.len()
    }

    /// Finds the position of a name.
    fn find(&self, id: &str) -> (r: Option<usize>)
        ensures
            match r {
                Some(i) => i < self.entries@.len() && self.entries@[i as int].0@ == id@,
                None => !has_name(self.entries@, id@),
            },
    {
        let mut i: usize = 0;
        while i < self.entries.len()
            invariant
                i <= self.entries@.len(),
                forall|k: int| 0 <= k < i ==> #[trigger] self.entries@[k].0@ != id@,
            decreases self.entries@.len() - i,
        {
            let name = self.entries[i].0.as_str();
            let same = compare_bytes(name.as_bytes(), id.as_bytes()) == Order::Equal;
            proof {
                encode_utf8_decode_utf8(name@);
                encode_utf8_decode_utf8(id@);
            }
            proof {
                crate::renderer::entities::lemma_bytes_lt_irreflexive(encode_utf8(name@));
            }
            if same {
                return Some(i);
            }
            i = i + 1;
        }
        None
    }

    /// The resource with the given name, if there is one.
    pub fn get(&self, id: &str) -> (r: Option<&T>)
        ensures
            match r {
                Some(v) => self.view().contains_key(id@) && *v == self.view()[id@],
                None => !self.view().contains_key(id@),
            },
    {
        proof {
            use_type_invariant(self);
        }
        match self.find(id) {
            Some(i) => {
                proof {
                    lemma_entries_view_at(self.entries@, i as int);
                }
                Some(&self.entries[i].1)
            },
            None => None,
        }
    }

    /// Stores a resource under a name, replacing the resource of that name if there is one.
    pub fn insert(&mut self, id: String, value: T)
        ensures
            final(self).view() == old(self).view().insert(id@, value),
    {
        proof {
            use_type_invariant(&*self);
        }
        let ghost old_entries = self.entries@;
        let found = self.find(id.as_str());
        let mut entries: Vec<(String, T)> = Vec::new();
        std::mem::swap(&mut entries, &mut self.entries);
        let ghost entry = (id, value);
        match found {
            Some(i) => {
                entries.set(i, (id, value));
                proof {
                    lemma_entries_view_store(old_entries, entries@, i as int, entry.0, entry.1);
                }
            },
            None => {
                entries.push((id, value));
                proof {
                    lemma_entries_view_store(old_entries, entries@, old_entries.len() as int, entry.0, entry.1);
                }
            },
        }
        self.entries = entries;
    }
}

proof fn lemma_entries_view_len<T>(s: Seq<(String, T)>)
    requires
        names_unique(s),
    ensures
        entries_view(s).len() == s.len(),
        entries_view(s).dom().finite(),
{
    let names = s.map_values(|e: (String, T)| e.0@);
    assert forall|i: int, j: int| 0 <= i < names.len() && 0 <= j < names.len() && i != j implies names[i] != names[j] by {
        if i < j {
            assert(s[i].0@ != s[j].0@);
        } else {
            assert(s[j].0@ != s[i].0@);
        }
    }
    assert(names.no_duplicates());
    assert forall|name: Seq<char>| #[trigger] entries_view(s).dom().contains(name) <==> names.to_set().contains(name) by {
        if has_name(s, name) {
            let i = choose|i: int| 0 <= i < s.len() && #[trigger] s[i].0@ == name;
            assert(names[i] == name);
        }
        if names.to_set().contains(name) {
            assert(names.contains(name));
            let i = choose|i: int| 0 <= i < names.len() && names[i] == name;
            assert(s[i].0@ == name);
        }
    }
    assert(entries_view(s).dom() =~= names.to_set());
    names.unique_seq_to_set();
}

/// A registry gives back what was last stored under a name, and storing under one name leaves
/// every other name as it was: `after` is `before` once [`Registry::insert`] stored `value` under
/// `id`, and [`Registry::get`] reads the view.
pub proof fn lemma_registry_read_after_write<T>(
    before: &Registry<T>,
    after: &Registry<T>,
    id: Seq<char>,
    value: T,
    other: Seq<char>,
)
    requires
        after.view() == before.view().insert(id, value),
    ensures
        after.view().contains_key(id),
        after.view()[id] == value,
        other != id ==> (after.view().contains_key(other) == before.view().contains_key(other)),
        other != id && before.view().contains_key(other) ==> after.view()[other]
            == before.view()[other],
{
}

} // verus!

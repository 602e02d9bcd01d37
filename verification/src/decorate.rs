//! Classifying the track scene's meshes by name. The authoring tool
//! numbers duplicated meshes with a dotted suffix ("Track.001"), so the
//! base name before the last dot decides which meshes get a collider for
//! the track surface and which become the finish-line sensor; everything
//! else is decoration.
use vstd::prelude::*;

verus! {

/// What a named mesh of the track scene is to the simulation.
#[derive(Clone, Copy, Debug, PartialEq, Eq, Structural)]
pub enum MeshRole {
    /// A drivable track surface: it gets a solid collider.
    TrackSurface,
    /// The finish-line sensor volume.
    FinishLineSensor,
    /// Scenery with no collider.
    Decoration,
}

/// Whether the name holds a dot anywhere.
pub open spec fn has_dot(s: Seq<u8>) -> bool {
    exists|i: int| 0 <= i < s.len() && s[i] == 46
}

/// The base name: everything before the last dot, or the whole name when
/// it holds none.
pub open spec fn base_name(s: Seq<u8>) -> Seq<u8>
    decreases s.len(),
{
    if s.len() == 0 {
        s
    } else if s.last() == 46 {
        s.drop_last()
    } else if !has_dot(s) {
        s
    } else {
        base_name(s.drop_last())
    }
}

/// The name that marks a drivable surface.
pub open spec fn track_keyword() -> Seq<u8> {
    seq![84u8, 114u8, 97u8, 99u8, 107u8]
}

/// The name that marks the finish-line sensor.
pub open spec fn finish_keyword() -> Seq<u8> {
    seq![
        70u8,
        105u8,
        110u8,
        105u8,
        115u8,
        104u8,
        76u8,
        105u8,
        110u8,
        101u8,
        67u8,
        111u8,
        108u8,
        108u8,
        105u8,
        100u8,
        101u8,
        114u8,
    ]
}

/// The role a mesh name selects: its base name decides.
pub open spec fn mesh_role_spec(s: Seq<u8>) -> MeshRole {
    if base_name(s) == track_keyword() {
        MeshRole::TrackSurface
    } else if base_name(s) == finish_keyword() {
        MeshRole::FinishLineSensor
    } else {
        MeshRole::Decoration
    }
}

/// With a dot at `k` and none after it, the base name is everything
/// before `k`.
proof fn lemma_base_name_at_last_dot(s: Seq<u8>, k: int)
    requires
        0 <= k < s.len(),
        s[k] == 46,
        forall|j: int| k < j < s.len() ==> s[j] != 46,
    ensures
        base_name(s) == s.take(k),
    decreases s.len(),
{
    if k == s.len() - 1 {
        assert(s.drop_last() =~= s.take(k));
    } else {
        assert(s.last() != 46);
        assert(has_dot(s));
        lemma_base_name_at_last_dot(s.drop_last(), k);
        assert(s.drop_last().take(k) =~= s.take(k));
    }
}

/// Copy the first `k` bytes of a name.
fn prefix_bytes(s: &Vec<u8>, k: usize) -> (r: Vec<u8>)
    requires
        k <= s@.len(),
    ensures
        r@ == s@.take(k as int),
{
    let mut out: Vec<u8> = Vec::new();
    let mut i: usize = 0;
    while i < k
        invariant
            0 <= i <= k <= s@.len(),
            out@ == s@.take(i as int),
        decreases k - i,
    {
        out.push(s[i]);
        proof {
            assert(out@ =~= s@.take(i + 1));
        }
        i = i + 1;
    }
    out
}

/// Strip a trailing dotted suffix: the bytes before the last dot, or the
/// whole name when it holds none.
pub fn chop_name(s: &Vec<u8>) -> (r: Vec<u8>)
    ensures
        r@ == base_name(s@),
{
    let mut i: usize = s.len();
    while i > 0
        invariant
            0 <= i <= s@.len(),
            forall|j: int| i <= j < s@.len() ==> s@[j] != 46,
        decreases i,
    {
        if s[i - 1] == 46 {
            proof {
                lemma_base_name_at_last_dot(s@, i - 1);
            }
            return prefix_bytes(s, i - 1);
        }
        i = i - 1;
    }
    proof {
        assert(!has_dot(s@));
        if s@.len() > 0 {
            assert(s@.last() != 46);
        }
    }
    let whole = prefix_bytes(s, s.len());
    proof {
        assert(s@.take(s@.len() as int) =~= s@);
    }
    whole
}

/// Whether two byte names are the same.
fn bytes_equal(a: &Vec<u8>, b: &Vec<u8>) -> (r: bool)
    ensures
        r == (a@ == b@),
{
    if a.len() != b.len() {
        return false;
    }
    let mut i: usize = 0;
    while i < a.len()
        invariant
            0 <= i <= a@.len(),
            a@.len() == b@.len(),
            forall|j: int| 0 <= j < i ==> a@[j] == b@[j],
        decreases a@.len() - i,
    {
        if a[i] != b[i] {
            return false;
        }
        i = i + 1;
    }
    proof {
        assert(a@ =~= b@);
    }
    true
}

/// The drivable-surface keyword as bytes.
fn track_keyword_bytes() -> (r: Vec<u8>)
    ensures
        r@ == track_keyword(),
{
    let mut v: Vec<u8> = Vec::new();
    v.push(84);
    v.push(114);
    v.push(97);
    v.push(99);
    v.push(107);
    proof {
        assert(v@ =~= track_keyword());
    }
    v
}

/// The finish-line keyword as bytes.
fn finish_keyword_bytes() -> (r: Vec<u8>)
    ensures
        r@ == finish_keyword(),
{
    let mut v: Vec<u8> = Vec::new();
    v.push(70);
    v.push(105);
    v.push(110);
    v.push(105);
    v.push(115);
    v.push(104);
    v.push(76);
    v.push(105);
    v.push(110);
    v.push(101);
    v.push(67);
    v.push(111);
    v.push(108);
    v.push(108);
    v.push(105);
    v.push(100);
    v.push(101);
    v.push(114);
    proof {
        assert(v@ =~= finish_keyword());
    }
    v
}

/// Decide what a mesh of the loaded track scene is, from its name's
/// bytes: its base name (before any dotted duplicate suffix) selects the
/// drivable surface, the finish-line sensor, or plain decoration.
pub fn classify_mesh_name(name: &Vec<u8>) -> (r: MeshRole)
    ensures
        r == mesh_role_spec(name@),
{
    let base = chop_name(name);
    if bytes_equal(&base, &track_keyword_bytes()) {
        MeshRole::TrackSurface
    } else if bytes_equal(&base, &finish_keyword_bytes()) {
        MeshRole::FinishLineSensor
    } else {
        MeshRole::Decoration
    }
}

} // verus!

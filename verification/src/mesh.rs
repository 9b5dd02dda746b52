//! Meshes: the attribute dictionary of a primitive (`POSITION`, `NORMAL`, `TEXCOORD_n`) and a
//! builder that collects mesh data.

use vstd::prelude::*;
use crate::bytes::FloatBits;
use crate::models::{Mesh, Primitive, names_distinct};

verus! {

/// The decimal digit character of `d` (0 to 9).
pub open spec fn digit_char(d: nat) -> char {
    (48 + d) as char
}

/// The decimal notation of `n`, without leading zeros.
pub open spec fn decimal(n: nat) -> Seq<char>
    decreases n,
{
    if n < 10 {
        seq![digit_char(n)]
    } else {
        decimal(n / 10) + seq![digit_char(n % 10)]
    }
}

/// The name of the `i`-th texture-coordinate attribute: `TEXCOORD_` followed by `i`.
pub open spec fn texcoord_name(i: nat) -> Seq<char> {
    "TEXCOORD_"@ + decimal(i)
}

/// The (semantic, accessor) entries of an attribute list, with the semantics as text.
pub open spec fn attribute_entries(attributes: Seq<(String, usize)>) -> Seq<(Seq<char>, usize)> {
    attributes.map_values(|a: (String, usize)| (a.0@, a.1))
}

/// One `TEXCOORD_i` entry per accessor of `accessors`, in order.
pub open spec fn texcoord_entries(accessors: Seq<usize>) -> Seq<(Seq<char>, usize)> {
    Seq::new(accessors.len(), |i: int| (texcoord_name(i as nat), accessors[i]))
}

/// The attribute dictionary of a primitive: `POSITION`, then `NORMAL` when there are normals,
/// then `TEXCOORD_0`, `TEXCOORD_1`, ... for the texture-coordinate sets.
pub open spec fn attribute_mapping(position: usize, normal: Option<usize>, texcoords: Seq<usize>) -> Seq<(Seq<char>, usize)> {
    seq![("POSITION"@, position)] + match normal {
        Some(n) => seq![("NORMAL"@, n)],
        None => Seq::empty(),
    } + texcoord_entries(texcoords)
}

/// The accessors of an optional list of texture-coordinate accessors.
pub open spec fn opt_items(v: Option<Vec<usize>>) -> Seq<usize> {
    match v {
        Some(v) => v@,
        None => Seq::empty(),
    }
}

/// The one-character string of the digit `d`.
fn digit_str(d: usize) -> (s: &'static str)
    requires
        d < 10,
    ensures
        s@ == seq![digit_char(d as nat)],
{
    proof {
        reveal_strlit("0");
        reveal_strlit("1");
        reveal_strlit("2");
        reveal_strlit("3");
        reveal_strlit("4");
        reveal_strlit("5");
        reveal_strlit("6");
        reveal_strlit("7");
        reveal_strlit("8");
        reveal_strlit("9");
    }
    let s = if d == 0 {
        "0"
    } else if d == 1 {
        "1"
    } else if d == 2 {
        "2"
    } else if d == 3 {
        "3"
    } else if d == 4 {
        "4"
    } else if d == 5 {
        "5"
    } else if d == 6 {
        "6"
    } else if d == 7 {
        "7"
    } else if d == 8 {
        "8"
    } else {
        "9"
    };
    assert(s@ =~= seq![digit_char(d as nat)]);
    s
}

/// Appends the decimal notation of `n` to `s`.
pub fn append_decimal(s: &mut String, n: usize)
    ensures
        final(s)@ == old(s)@ + decimal(n as nat),
    decreases n,
{
    if n >= 10 {
        append_decimal(s, n / 10);
    }
    s.append(digit_str(n % 10));
    assert(final(s)@ =~= old(s)@ + decimal(n as nat));
}

/// The name `TEXCOORD_i`.
pub fn texcoord_attribute_name(i: usize) -> (s: String)
    ensures
        s@ == texcoord_name(i as nat),
{
    let mut s = String::from_str("TEXCOORD_");
    append_decimal(&mut s, i);
    s
}

/// The attribute dictionary of a primitive (see [`attribute_mapping`]) as a list of
/// (semantic, accessor) entries.
pub fn create_attribute_mapping(position_accessor: usize, normal_accessor: Option<usize>, texcoord_accessors: Option<Vec<usize>>) -> (attributes: Vec<(String, usize)>)
    ensures
        attribute_entries(attributes@) == attribute_mapping(
            position_accessor,
            normal_accessor,
            opt_items(texcoord_accessors),
        ),
{
    let ghost texcoords = opt_items(texcoord_accessors);
    let mut attributes: Vec<(String, usize)> = Vec::new();
    attributes.push((String::from_str("POSITION"), position_accessor));
    if let Some(normal_index) = normal_accessor {
        attributes.push((String::from_str("NORMAL"), normal_index));
    }
    let ghost head = attribute_entries(attributes@);
    assert(head =~= seq![("POSITION"@, position_accessor)] + match normal_accessor {
        Some(n) => seq![("NORMAL"@, n)],
        None => Seq::<(Seq<char>, usize)>::empty(),
    });
    if let Some(texcoord_indices) = texcoord_accessors {
        let mut i: usize = 0;
        while i < texcoord_indices.len()
            invariant
                i <= texcoord_indices@.len(),
                texcoords == texcoord_indices@,
                attribute_entries(attributes@) == head + texcoord_entries(
                    texcoords.subrange(0, i as int),
                ),
            decreases texcoord_indices@.len() - i,
        {
            let name = texcoord_attribute_name(i);
            let ghost before = attributes@;
            let ghost entry = (name@, texcoord_indices@[i as int]);
            attributes.push((name, texcoord_indices[i]));
            assert(attribute_entries(attributes@) =~= attribute_entries(before).push(entry));
            assert(texcoord_entries(texcoords.subrange(0, i + 1)) =~= texcoord_entries(
                texcoords.subrange(0, i as int),
            ).push(entry));
            i = i + 1;
            assert(attribute_entries(attributes@) =~= head + texcoord_entries(
                texcoords.subrange(0, i as int),
            ));
        }
        assert(texcoords.subrange(0, i as int) =~= texcoords);
    } else {
        assert(texcoord_entries(texcoords) =~= Seq::<(Seq<char>, usize)>::empty());
        assert(attribute_entries(attributes@) =~= head + texcoord_entries(texcoords));
    }
    attributes
}

/// Collects the data of a one-primitive mesh.
pub struct MeshBuilder {
    /// Vertex positions, three values per vertex.
    pub positions: Vec<FloatBits>,
    /// Triangle vertex indices.
    pub indices: Vec<u16>,
    /// Vertex normals, three values per vertex.
    pub normals: Option<Vec<FloatBits>>,
    /// Texture-coordinate sets, two values per vertex each.
    pub texcoords: Option<Vec<Vec<FloatBits>>>,
    /// The material of the primitive.
    pub material: Option<usize>,
    /// The mesh's name.
    pub name: Option<String>,
}

impl MeshBuilder {
    /// Starts a mesh named `name` with no data and no material.
    pub fn new(name: Option<String>) -> (b: Self)
        ensures
            b.name == name,
            b.positions@.len() == 0,
            b.indices@.len() == 0,
            b.normals is None,
            b.texcoords is None,
            b.material is None,
    {
        Self {
            positions: Vec::new(),
            indices: Vec::new(),
            normals: None,
            texcoords: None,
            material: None,
            name,
        }
    }

    /// Replaces the positions.
    pub fn with_positions(self, positions: Vec<FloatBits>) -> (b: Self)
        ensures
            b == (MeshBuilder { positions, ..self }),
    {
        let mut this = self;
        this.positions = positions;
        this
    }

    /// Replaces the indices.
    pub fn with_indices(self, indices: Vec<u16>) -> (b: Self)
        ensures
            b == (MeshBuilder { indices, ..self }),
    {
        let mut this = self;
        this.indices = indices;
        this
    }

    /// Sets the normals.
    pub fn with_normals(self, normals: Vec<FloatBits>) -> (b: Self)
        ensures
            b == (MeshBuilder { normals: Some(normals), ..self }),
    {
        let mut this = self;
        this.normals = Some(normals);
        this
    }

    /// Sets a single texture-coordinate set.
    pub fn with_texcoords(self, texcoords: Vec<FloatBits>) -> (b: Self)
        ensures
            b.texcoords matches Some(sets) && sets@ == seq![texcoords],
            b == (MeshBuilder { texcoords: b.texcoords, ..self }),
    {
        let mut this = self;
        let mut texcoord_sets = Vec::new();
        texcoord_sets.push(texcoords);
        this.texcoords = Some(texcoord_sets);
        this
    }

    /// Sets several texture-coordinate sets.
    pub fn with_multiple_texcoords(self, texcoord_sets: Vec<Vec<FloatBits>>) -> (b: Self)
        ensures
            b == (MeshBuilder { texcoords: Some(texcoord_sets), ..self }),
    {
        let mut this = self;
        this.texcoords = Some(texcoord_sets);
        this
    }

    /// Sets the material.
    pub fn with_material(self, material: usize) -> (b: Self)
        ensures
            b == (MeshBuilder { material: Some(material), ..self }),
    {
        let mut this = self;
        this.material = Some(material);
        this
    }

    /// The mesh with the builder's name and one primitive that has no attributes and no
    /// indices yet (those need accessors of a document), the builder's material and the
    /// default mode.
    pub fn build(self) -> (m: Mesh)
        ensures
            m.name == self.name,
            m.primitives@.len() == 1,
            m.primitives@[0].attributes@.len() == 0,
            m.primitives@[0].indices is None,
            m.primitives@[0].material == self.material,
            m.primitives@[0].mode is None,
    {
        let primitive = Primitive {
            attributes: Vec::new(),
            indices: None,
            material: self.material,
            mode: None,
        };
        self.build_with_primitive(primitive)
    }

    /// The mesh with the builder's name and `primitive` as its one primitive (the result of a
    /// primitive builder applied to the builder's data).
    pub fn build_with_primitive(self, primitive: Primitive) -> (m: Mesh)
        ensures
            m.name == self.name,
            m.primitives@ == seq![primitive],
    {
        let mut primitives = Vec::new();
        primitives.push(primitive);
        Mesh { name: self.name, primitives }
    }
}


/// Every decimal notation has at least one digit, and numbers from 10 on have at least two.
proof fn lemma_decimal_len(n: nat)
    ensures
        decimal(n).len() >= 1,
        n >= 10 ==> decimal(n).len() >= 2,
    decreases n,
{
    if n >= 10 {
        lemma_decimal_len(n / 10);
    }
}

/// Different numbers have different decimal notations.
pub proof fn lemma_decimal_injective(a: nat, b: nat)
    requires
        decimal(a) == decimal(b),
    ensures
        a == b,
    decreases a + b,
{
    lemma_decimal_len(a);
    lemma_decimal_len(b);
    if a < 10 && b < 10 {
        assert(decimal(a)[0] == digit_char(a));
        assert(decimal(b)[0] == digit_char(b));
    } else if a >= 10 && b >= 10 {
        let da = decimal(a);
        let db = decimal(b);
        assert(da.last() == digit_char(a % 10));
        assert(db.last() == digit_char(b % 10));
        assert(da.drop_last() =~= decimal(a / 10));
        assert(db.drop_last() =~= decimal(b / 10));
        lemma_decimal_injective(a / 10, b / 10);
    } else {
        assert(decimal(a).len() != decimal(b).len());
    }
}

/// The attribute dictionary of a primitive never names a semantic twice: `POSITION`,
/// `NORMAL` and the `TEXCOORD_i` are pairwise different.
pub proof fn lemma_attribute_names_distinct(position: usize, normal: Option<usize>, texcoords: Seq<usize>)
    ensures
        names_distinct(attribute_mapping(position, normal, texcoords)),
{
    reveal_strlit("POSITION");
    reveal_strlit("NORMAL");
    reveal_strlit("TEXCOORD_");
    let m = attribute_mapping(position, normal, texcoords);
    let head: Seq<(Seq<char>, usize)> = seq![("POSITION"@, position)] + match normal {
        Some(n) => seq![("NORMAL"@, n)],
        None => Seq::empty(),
    };
    let tail = texcoord_entries(texcoords);
    assert(m == head + tail);
    assert forall|i: int, j: int| #![trigger m[i], m[j]] 0 <= i < j < m.len() implies m[i].0 != m[j].0 by {
        if j < head.len() {
            assert(m[i].0 == "POSITION"@ && m[j].0 == "NORMAL"@);
            assert(m[i].0.len() != m[j].0.len());
        } else if i < head.len() {
            let t = j - head.len();
            assert(m[j] == tail[t]);
            assert(m[j].0 == texcoord_name(t as nat));
            assert(m[j].0[0] == 'T');
            assert(m[i].0[0] == 'P' || m[i].0[0] == 'N');
        } else {
            let ti = i - head.len();
            let tj = j - head.len();
            assert(m[i].0 == texcoord_name(ti as nat));
            assert(m[j].0 == texcoord_name(tj as nat));
            if m[i].0 == m[j].0 {
                let p = "TEXCOORD_"@;
                assert(m[i].0.subrange(p.len() as int, m[i].0.len() as int) =~= decimal(ti as nat));
                assert(m[j].0.subrange(p.len() as int, m[j].0.len() as int) =~= decimal(tj as nat));
                lemma_decimal_injective(ti as nat, tj as nat);
            }
        }
    }
}

} // verus!

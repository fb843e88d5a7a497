//! Sub-asset labels and their text.
use vstd::prelude::*;

use bevy_asset::AssetPath;

use crate::engine::{asset_path_label, asset_path_with_label, asset_path_without_label, path_with_label};
use crate::decimal::{decimal, lemma_decimal_injective, lemma_decimal_shape, lemma_decimal_split, push_decimal, starts_without_digit};

verus! {

/// Labels that can be used to load part of a glTF.
///
/// Each label names one sub-asset of a glTF file; its text (see [`GltfAssetLabel::text`])
/// is what follows the `#` of an asset path.
#[derive(Debug, Clone, Copy, PartialEq, Eq, Structural)]
pub enum GltfAssetLabel {
    /// `Scene{}`: glTF Scene as a Bevy `Scene`
    Scene(usize),
    /// `Node{}`: glTF Node as a `GltfNode`
    Node(usize),
    /// `Mesh{}`: glTF Mesh as a `GltfMesh`
    Mesh(usize),
    /// `Mesh{}/Primitive{}`: glTF Primitive as a Bevy `Mesh`
    Primitive {
        /// Index of the mesh for this primitive
        mesh: usize,
        /// Index of this primitive in its parent mesh
        primitive: usize,
    },
    /// `Mesh{}/Primitive{}/MorphTargets`: Morph target animation data for a glTF Primitive
    MorphTarget {
        /// Index of the mesh for this primitive
        mesh: usize,
        /// Index of this primitive in its parent mesh
        primitive: usize,
    },
    /// `Texture{}`: glTF Texture as a Bevy `Image`
    Texture(usize),
    /// `Material{}`: glTF Material as a Bevy `StandardMaterial`
    Material {
        /// Index of this material
        index: usize,
        /// Used to set the face of the material, useful if it is used with negative scale
        is_scale_inverted: bool,
    },
    /// `DefaultMaterial`: as above, if the glTF file contains a default material with no index
    DefaultMaterial,
    /// `Animation{}`: glTF Animation as Bevy `AnimationClip`
    Animation(usize),
    /// `Skin{}`: glTF mesh skin as `GltfSkin`
    Skin(usize),
    /// `Skin{}/InverseBindMatrices`: glTF mesh skin matrices as Bevy `SkinnedMeshInverseBindposes`
    InverseBindMatrices(usize),
}

impl GltfAssetLabel {
    /// The text of the label: a fixed word per kind of sub-asset followed by the
    /// decimal indices, as in `Scene0`, `Mesh2/Primitive1` or `Material3 (inverted)`.
    pub open spec fn text(self) -> Seq<char> {
        match self {
            GltfAssetLabel::Scene(index) => "Scene"@ + decimal(index as nat),
            GltfAssetLabel::Node(index) => "Node"@ + decimal(index as nat),
            GltfAssetLabel::Mesh(index) => "Mesh"@ + decimal(index as nat),
            GltfAssetLabel::Primitive { mesh, primitive } => "Mesh"@ + decimal(mesh as nat)
                + "/Primitive"@ + decimal(primitive as nat),
            GltfAssetLabel::MorphTarget { mesh, primitive } => "Mesh"@ + decimal(mesh as nat)
                + "/Primitive"@ + decimal(primitive as nat) + "/MorphTargets"@,
            GltfAssetLabel::Texture(index) => "Texture"@ + decimal(index as nat),
            GltfAssetLabel::Material { index, is_scale_inverted } => "Material"@ + decimal(
                index as nat,
            ) + if is_scale_inverted {
                " (inverted)"@
            } else {
                Seq::empty()
            },
            GltfAssetLabel::DefaultMaterial => "DefaultMaterial"@,
            GltfAssetLabel::Animation(index) => "Animation"@ + decimal(index as nat),
            GltfAssetLabel::Skin(index) => "Skin"@ + decimal(index as nat),
            GltfAssetLabel::InverseBindMatrices(index) => "Skin"@ + decimal(index as nat)
                + "/InverseBindMatrices"@,
        }
    }

    /// The word that starts the text of a label that carries an index.
    spec fn head(self) -> Seq<char> {
        match self {
            GltfAssetLabel::Scene(_) => "Scene"@,
            GltfAssetLabel::Node(_) => "Node"@,
            GltfAssetLabel::Mesh(_) => "Mesh"@,
            GltfAssetLabel::Primitive { .. } => "Mesh"@,
            GltfAssetLabel::MorphTarget { .. } => "Mesh"@,
            GltfAssetLabel::Texture(_) => "Texture"@,
            GltfAssetLabel::Material { .. } => "Material"@,
            GltfAssetLabel::DefaultMaterial => "DefaultMaterial"@,
            GltfAssetLabel::Animation(_) => "Animation"@,
            GltfAssetLabel::Skin(_) => "Skin"@,
            GltfAssetLabel::InverseBindMatrices(_) => "Skin"@,
        }
    }

    /// The first index that a label carries (zero for the default material).
    spec fn first_index(self) -> nat {
        match self {
            GltfAssetLabel::Scene(index) => index as nat,
            GltfAssetLabel::Node(index) => index as nat,
            GltfAssetLabel::Mesh(index) => index as nat,
            GltfAssetLabel::Primitive { mesh, .. } => mesh as nat,
            GltfAssetLabel::MorphTarget { mesh, .. } => mesh as nat,
            GltfAssetLabel::Texture(index) => index as nat,
            GltfAssetLabel::Material { index, .. } => index as nat,
            GltfAssetLabel::DefaultMaterial => 0,
            GltfAssetLabel::Animation(index) => index as nat,
            GltfAssetLabel::Skin(index) => index as nat,
            GltfAssetLabel::InverseBindMatrices(index) => index as nat,
        }
    }

    /// What follows the first index in the text of a label.
    spec fn tail(self) -> Seq<char> {
        match self {
            GltfAssetLabel::Primitive { primitive, .. } => "/Primitive"@ + decimal(
                primitive as nat,
            ),
            GltfAssetLabel::MorphTarget { primitive, .. } => "/Primitive"@ + decimal(
                primitive as nat,
            ) + "/MorphTargets"@,
            GltfAssetLabel::Material { is_scale_inverted, .. } => if is_scale_inverted {
                " (inverted)"@
            } else {
                Seq::empty()
            },
            GltfAssetLabel::InverseBindMatrices(_) => "/InverseBindMatrices"@,
            _ => Seq::empty(),
        }
    }

    /// Add this label to an asset path, replacing any label it had; the path's source
    /// and location are kept.
    pub fn from_asset(&self, path: AssetPath<'static>) -> (res: AssetPath<'static>)
        ensures
            res == path_with_label(path, self.text()),
            asset_path_label(res) == Some(self.text()),
            asset_path_without_label(res) == asset_path_without_label(path),
    {
        asset_path_with_label(path, self.to_string())
    }

    /// The text of this label, as used after the `#` of an asset path.
    pub fn to_string(&self) -> (s: String)
        ensures
            s@ == self.text(),
            self is Material ==> (s@.len() >= 11 && s@.subrange(s@.len() - 11, s@.len() as int)
                == " (inverted)"@ <==> self->is_scale_inverted),
    {
        proof {
            if let GltfAssetLabel::Material { index, is_scale_inverted } = *self {
                lemma_material_text(index, is_scale_inverted);
            }
        }
        let mut s = String::new();
        match self {
            GltfAssetLabel::Scene(index) => {
                s.append("Scene");
                push_decimal(&mut s, *index);
            },
            GltfAssetLabel::Node(index) => {
                s.append("Node");
                push_decimal(&mut s, *index);
            },
            GltfAssetLabel::Mesh(index) => {
                s.append("Mesh");
                push_decimal(&mut s, *index);
            },
            GltfAssetLabel::Primitive { mesh, primitive } => {
                s.append("Mesh");
                push_decimal(&mut s, *mesh);
                s.append("/Primitive");
                push_decimal(&mut s, *primitive);
            },
            GltfAssetLabel::MorphTarget { mesh, primitive } => {
                s.append("Mesh");
                push_decimal(&mut s, *mesh);
                s.append("/Primitive");
                push_decimal(&mut s, *primitive);
                s.append("/MorphTargets");
            },
            GltfAssetLabel::Texture(index) => {
                s.append("Texture");
                push_decimal(&mut s, *index);
            },
            GltfAssetLabel::Material { index, is_scale_inverted } => {
                s.append("Material");
                push_decimal(&mut s, *index);
                if *is_scale_inverted {
                    s.append(" (inverted)");
                }
            },
            GltfAssetLabel::DefaultMaterial => {
                s.append("DefaultMaterial");
            },
            GltfAssetLabel::Animation(index) => {
                s.append("Animation");
                push_decimal(&mut s, *index);
            },
            GltfAssetLabel::Skin(index) => {
                s.append("Skin");
                push_decimal(&mut s, *index);
            },
            GltfAssetLabel::InverseBindMatrices(index) => {
                s.append("Skin");
                push_decimal(&mut s, *index);
                s.append("/InverseBindMatrices");
            },
        }
        assert(s@ =~= self.text());
        s
    }
}


/// The text of a label that carries an index is its head word, then the decimal
/// text of its first index, then its tail.
proof fn lemma_text_parts(l: GltfAssetLabel)
    requires
        l != GltfAssetLabel::DefaultMaterial,
    ensures
        l.text() == l.head() + decimal(l.first_index()) + l.tail(),
{
    match l {
        GltfAssetLabel::Primitive { mesh, primitive } => {
            assert(l.text() =~= l.head() + decimal(l.first_index()) + l.tail());
        },
        GltfAssetLabel::MorphTarget { mesh, primitive } => {
            assert(l.text() =~= l.head() + decimal(l.first_index()) + l.tail());
        },
        _ => {
            assert(l.text() =~= l.head() + decimal(l.first_index()) + l.tail());
        },
    }
}

/// No tail starts with a digit.
proof fn lemma_tail_starts_without_digit(l: GltfAssetLabel)
    ensures
        starts_without_digit(l.tail()),
{
    reveal_strlit("/Primitive");
    reveal_strlit(" (inverted)");
    reveal_strlit("/InverseBindMatrices");
}

/// The length and first two characters of each head word and of `DefaultMaterial`;
/// these two characters tell all of them apart.
proof fn lemma_head_words()
    ensures
        "DefaultMaterial"@.len() == 15 && "DefaultMaterial"@[0] == 'D' && "DefaultMaterial"@[1] == 'e',
        "Scene"@.len() == 5 && "Scene"@[0] == 'S' && "Scene"@[1] == 'c',
        "Node"@.len() == 4 && "Node"@[0] == 'N' && "Node"@[1] == 'o',
        "Mesh"@.len() == 4 && "Mesh"@[0] == 'M' && "Mesh"@[1] == 'e',
        "Texture"@.len() == 7 && "Texture"@[0] == 'T' && "Texture"@[1] == 'e',
        "Material"@.len() == 8 && "Material"@[0] == 'M' && "Material"@[1] == 'a',
        "Animation"@.len() == 9 && "Animation"@[0] == 'A' && "Animation"@[1] == 'n',
        "Skin"@.len() == 4 && "Skin"@[0] == 'S' && "Skin"@[1] == 'k',
{
    reveal_strlit("Scene");
    reveal_strlit("Node");
    reveal_strlit("Mesh");
    reveal_strlit("Texture");
    reveal_strlit("Material");
    reveal_strlit("DefaultMaterial");
    reveal_strlit("Animation");
    reveal_strlit("Skin");
}

/// Which head word a label's text starts with, as a number.
spec fn family(l: GltfAssetLabel) -> int {
    match l {
        GltfAssetLabel::Scene(_) => 0,
        GltfAssetLabel::Node(_) => 1,
        GltfAssetLabel::Mesh(_) => 2,
        GltfAssetLabel::Primitive { .. } => 2,
        GltfAssetLabel::MorphTarget { .. } => 2,
        GltfAssetLabel::Texture(_) => 3,
        GltfAssetLabel::Material { .. } => 4,
        GltfAssetLabel::DefaultMaterial => 5,
        GltfAssetLabel::Animation(_) => 6,
        GltfAssetLabel::Skin(_) => 7,
        GltfAssetLabel::InverseBindMatrices(_) => 7,
    }
}

/// Labels with the same head word belong to the same family.
proof fn lemma_family(a: GltfAssetLabel, b: GltfAssetLabel)
    requires
        a != GltfAssetLabel::DefaultMaterial,
        b != GltfAssetLabel::DefaultMaterial,
        a.head() == b.head(),
    ensures
        family(a) == family(b),
{
    lemma_head_words();
    assert(a.head().len() == b.head().len());
    assert(a.head()[0] == b.head()[0]);
    assert(a.head()[1] == b.head()[1]);
}

/// Within the mesh family, the tail tells the labels apart.
proof fn lemma_mesh_family(a: GltfAssetLabel, b: GltfAssetLabel)
    requires
        family(a) == 2,
        family(b) == 2,
        a.first_index() == b.first_index(),
        a.tail() == b.tail(),
    ensures
        a == b,
{
    reveal_strlit("/Primitive");
    reveal_strlit("/MorphTargets");
    match a {
        GltfAssetLabel::Primitive { primitive: p, .. } => match b {
            GltfAssetLabel::Primitive { primitive: q, .. } => {
                lemma_strip_prefix("/Primitive"@, decimal(p as nat), decimal(q as nat));
                lemma_decimal_injective(p as nat, q as nat);
            },
            GltfAssetLabel::MorphTarget { primitive: q, .. } => {
                lemma_primitive_tail_differs(p as nat, q as nat);
            },
            _ => {
                lemma_decimal_shape(p as nat);
                assert(a.tail().len() > 0);
            },
        },
        GltfAssetLabel::MorphTarget { primitive: p, .. } => match b {
            GltfAssetLabel::MorphTarget { primitive: q, .. } => {
                assert(a.tail() =~= "/Primitive"@ + (decimal(p as nat) + "/MorphTargets"@));
                assert(b.tail() =~= "/Primitive"@ + (decimal(q as nat) + "/MorphTargets"@));
                lemma_strip_prefix(
                    "/Primitive"@,
                    decimal(p as nat) + "/MorphTargets"@,
                    decimal(q as nat) + "/MorphTargets"@,
                );
                lemma_decimal_split(p as nat, "/MorphTargets"@, q as nat, "/MorphTargets"@);
            },
            GltfAssetLabel::Primitive { primitive: q, .. } => {
                lemma_primitive_tail_differs(q as nat, p as nat);
            },
            _ => {
                assert(a.tail().len() > 0);
            },
        },
        _ => match b {
            GltfAssetLabel::Primitive { primitive: q, .. } => {
                lemma_decimal_shape(q as nat);
                assert(b.tail().len() > 0);
            },
            GltfAssetLabel::MorphTarget { .. } => {
                assert(b.tail().len() > 0);
            },
            _ => {},
        },
    }
}

/// Labels with the same head word, first index and tail are the same label.
proof fn lemma_same_parts(a: GltfAssetLabel, b: GltfAssetLabel)
    requires
        a != GltfAssetLabel::DefaultMaterial,
        b != GltfAssetLabel::DefaultMaterial,
        a.head() == b.head(),
        a.first_index() == b.first_index(),
        a.tail() == b.tail(),
    ensures
        a == b,
{
    lemma_family(a, b);
    reveal_strlit(" (inverted)");
    reveal_strlit("/InverseBindMatrices");
    assert(" (inverted)"@.len() == 11);
    assert("/InverseBindMatrices"@.len() == 20);
    match a {
        GltfAssetLabel::Mesh(_) => lemma_mesh_family(a, b),
        GltfAssetLabel::Primitive { .. } => lemma_mesh_family(a, b),
        GltfAssetLabel::MorphTarget { .. } => lemma_mesh_family(a, b),
        GltfAssetLabel::Material { is_scale_inverted: x, .. } => match b {
            GltfAssetLabel::Material { is_scale_inverted: y, .. } => {
                assert(a.tail().len() == b.tail().len());
            },
            _ => {},
        },
        GltfAssetLabel::Skin(_) => match b {
            GltfAssetLabel::InverseBindMatrices(_) => {
                assert(a.tail().len() == b.tail().len());
            },
            _ => {},
        },
        GltfAssetLabel::InverseBindMatrices(_) => match b {
            GltfAssetLabel::Skin(_) => {
                assert(a.tail().len() == b.tail().len());
            },
            _ => {},
        },
        _ => {},
    }
}

/// Equal sequences that share a prefix agree after it.
proof fn lemma_strip_prefix(p: Seq<char>, x: Seq<char>, y: Seq<char>)
    requires
        p + x == p + y,
    ensures
        x == y,
{
    assert(x =~= (p + x).subrange(p.len() as int, (p + x).len() as int));
    assert(y =~= (p + y).subrange(p.len() as int, (p + y).len() as int));
}

/// A primitive's tail is never a morph target's tail.
proof fn lemma_primitive_tail_differs(p: nat, q: nat)
    ensures
        "/Primitive"@ + decimal(p) != "/Primitive"@ + decimal(q) + "/MorphTargets"@,
{
    reveal_strlit("/MorphTargets");
    if "/Primitive"@ + decimal(p) == "/Primitive"@ + decimal(q) + "/MorphTargets"@ {
        assert("/Primitive"@ + decimal(q) + "/MorphTargets"@ =~= "/Primitive"@ + (decimal(q)
            + "/MorphTargets"@));
        assert("/Primitive"@ + decimal(p) =~= "/Primitive"@ + (decimal(p) + Seq::<char>::empty()));
        lemma_strip_prefix(
            "/Primitive"@,
            decimal(p) + Seq::<char>::empty(),
            decimal(q) + "/MorphTargets"@,
        );
        lemma_decimal_split(p, Seq::<char>::empty(), q, "/MorphTargets"@);
    }
}

/// The text of a material label is `Material`, then the decimal text of its index,
/// then ` (inverted)` exactly when its scale is inverted: the text ends with
/// ` (inverted)` if and only if the scale is inverted, whatever the index.
pub proof fn lemma_material_text(index: usize, is_scale_inverted: bool)
    ensures
        (GltfAssetLabel::Material { index, is_scale_inverted }).text() == "Material"@ + decimal(
            index as nat,
        ) + (if is_scale_inverted {
            " (inverted)"@
        } else {
            Seq::<char>::empty()
        }),
        ({
            let t = (GltfAssetLabel::Material { index, is_scale_inverted }).text();
            t.len() >= 11 && t.subrange(t.len() - 11, t.len() as int) == " (inverted)"@
        }) <==> is_scale_inverted,
{
    reveal_strlit(" (inverted)");
    reveal_strlit("Material");
    let d = decimal(index as nat);
    let t = (GltfAssetLabel::Material { index, is_scale_inverted }).text();
    lemma_decimal_shape(index as nat);
    if is_scale_inverted {
        assert(t.subrange(t.len() - 11, t.len() as int) =~= " (inverted)"@);
    } else {
        assert(t =~= "Material"@ + d);
        assert(t[t.len() - 1] == d[d.len() - 1]);
        if t.len() >= 11 && t.subrange(t.len() - 11, t.len() as int) == " (inverted)"@ {
            assert(t.subrange(t.len() - 11, t.len() as int)[10] == t[t.len() - 1]);
            assert(" (inverted)"@[10] == ')');
            assert(crate::decimal::is_digit(d[d.len() - 1]));
        }
    }
}

/// Distinct labels have distinct texts, so a label's text names exactly one sub-asset.
pub proof fn lemma_text_injective(a: GltfAssetLabel, b: GltfAssetLabel)
    requires
        a.text() == b.text(),
    ensures
        a == b,
{
    lemma_head_words();
    if a == GltfAssetLabel::DefaultMaterial || b == GltfAssetLabel::DefaultMaterial {
        if a != GltfAssetLabel::DefaultMaterial {
            lemma_text_parts(a);
        }
        if b != GltfAssetLabel::DefaultMaterial {
            lemma_text_parts(b);
        }
    } else {
        lemma_text_parts(a);
        lemma_text_parts(b);
        let s = a.text();
        assert(s[0] == a.head()[0] && s[1] == a.head()[1]);
        assert(s[0] == b.head()[0] && s[1] == b.head()[1]);
        let ha = a.head();
        assert(s =~= ha + (decimal(a.first_index()) + a.tail()));
        assert(b.text() =~= ha + (decimal(b.first_index()) + b.tail()));
        lemma_strip_prefix(
            ha,
            decimal(a.first_index()) + a.tail(),
            decimal(b.first_index()) + b.tail(),
        );
        lemma_tail_starts_without_digit(a);
        lemma_tail_starts_without_digit(b);
        lemma_decimal_split(a.first_index(), a.tail(), b.first_index(), b.tail());
        lemma_same_parts(a, b);
    }
}

} // verus!

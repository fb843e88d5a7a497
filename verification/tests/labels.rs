use bevy_asset::AssetPath;
use bevy_gltf::decimal::push_decimal;
use bevy_gltf::GltfAssetLabel;

fn all_kinds() -> Vec<GltfAssetLabel> {
    vec![
        GltfAssetLabel::Scene(1),
        GltfAssetLabel::Node(1),
        GltfAssetLabel::Mesh(1),
        GltfAssetLabel::Mesh(12),
        GltfAssetLabel::Primitive { mesh: 1, primitive: 2 },
        GltfAssetLabel::Primitive { mesh: 12, primitive: 0 },
        GltfAssetLabel::MorphTarget { mesh: 1, primitive: 2 },
        GltfAssetLabel::Texture(1),
        GltfAssetLabel::Material { index: 1, is_scale_inverted: false },
        GltfAssetLabel::Material { index: 1, is_scale_inverted: true },
        GltfAssetLabel::DefaultMaterial,
        GltfAssetLabel::Animation(1),
        GltfAssetLabel::Skin(1),
        GltfAssetLabel::InverseBindMatrices(1),
    ]
}

#[test]
fn label_text_of_each_kind() {
    assert_eq!(GltfAssetLabel::Scene(0).to_string(), "Scene0");
    assert_eq!(GltfAssetLabel::Node(3).to_string(), "Node3");
    assert_eq!(GltfAssetLabel::Mesh(42).to_string(), "Mesh42");
    assert_eq!(
        GltfAssetLabel::Primitive { mesh: 2, primitive: 10 }.to_string(),
        "Mesh2/Primitive10"
    );
    assert_eq!(
        GltfAssetLabel::MorphTarget { mesh: 7, primitive: 0 }.to_string(),
        "Mesh7/Primitive0/MorphTargets"
    );
    assert_eq!(GltfAssetLabel::Texture(5).to_string(), "Texture5");
    assert_eq!(
        GltfAssetLabel::Material { index: 4, is_scale_inverted: false }.to_string(),
        "Material4"
    );
    assert_eq!(
        GltfAssetLabel::Material { index: 4, is_scale_inverted: true }.to_string(),
        "Material4 (inverted)"
    );
    assert_eq!(GltfAssetLabel::DefaultMaterial.to_string(), "DefaultMaterial");
    assert_eq!(GltfAssetLabel::Animation(9).to_string(), "Animation9");
    assert_eq!(GltfAssetLabel::Skin(11).to_string(), "Skin11");
    assert_eq!(
        GltfAssetLabel::InverseBindMatrices(11).to_string(),
        "Skin11/InverseBindMatrices"
    );
}

#[test]
fn label_text_matches_standard_formatting() {
    for n in [0usize, 1, 9, 10, 99, 100, 1234567, usize::MAX] {
        assert_eq!(GltfAssetLabel::Scene(n).to_string(), format!("Scene{}", n));
        assert_eq!(
            GltfAssetLabel::Primitive { mesh: n, primitive: n / 3 }.to_string(),
            format!("Mesh{}/Primitive{}", n, n / 3)
        );
    }
}

#[test]
fn decimal_text_of_extreme_values() {
    let mut s = String::from("n=");
    push_decimal(&mut s, 0);
    assert_eq!(s, "n=0");
    let mut s = String::new();
    push_decimal(&mut s, usize::MAX);
    assert_eq!(s, usize::MAX.to_string());
    let mut s = String::new();
    push_decimal(&mut s, 1000);
    assert_eq!(s, "1000");
}

#[test]
fn distinct_labels_have_distinct_texts() {
    let labels = all_kinds();
    for (i, a) in labels.iter().enumerate() {
        for (j, b) in labels.iter().enumerate() {
            assert_eq!(i == j, a.to_string() == b.to_string(), "{:?} {:?}", a, b);
            assert_eq!(i == j, a == b);
        }
    }
}

#[test]
fn from_asset_sets_the_label() {
    let path = GltfAssetLabel::Scene(0).from_asset(AssetPath::from("models/FlightHelmet/FlightHelmet.gltf"));
    assert_eq!(path.label(), Some("Scene0"));
    assert_eq!(path.to_string(), "models/FlightHelmet/FlightHelmet.gltf#Scene0");
    assert_eq!(
        path.to_string(),
        format!(
            "models/FlightHelmet/FlightHelmet.gltf#{}",
            GltfAssetLabel::Scene(0).to_string()
        )
    );
}

#[test]
fn from_asset_replaces_an_existing_label() {
    let path = GltfAssetLabel::Material { index: 2, is_scale_inverted: true }
        .from_asset(AssetPath::from("scene.glb#Mesh0"));
    assert_eq!(path.label(), Some("Material2 (inverted)"));
    assert_eq!(path.path().to_str(), Some("scene.glb"));
}

#[test]
fn from_asset_keeps_the_source() {
    let path = GltfAssetLabel::Node(5).from_asset(AssetPath::from("remote://a/b.gltf"));
    assert_eq!(path.to_string(), "remote://a/b.gltf#Node5");
}

#[test]
fn from_asset_agrees_with_parsing_path_and_label() {
    for path in ["models/FlightHelmet/FlightHelmet.gltf", "a.glb", "remote://dir/b.gltf"] {
        for label in all_kinds() {
            let labeled = label.from_asset(AssetPath::from(path));
            let parsed = AssetPath::from(format!("{}#{}", path, label.to_string()));
            assert_eq!(labeled, parsed);
            assert_eq!(labeled.source(), AssetPath::from(path).source());
            assert_eq!(labeled.path(), AssetPath::from(path).path());
            assert_eq!(labeled.label(), Some(label.to_string().as_str()));
        }
    }
}

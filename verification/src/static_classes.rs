use vstd::prelude::*;

use crate::text::{contains, spec_contains, spec_occurs_at, spec_starts_with, starts_with, str_eq};

verus! {

/// Godot node classes treated as static/non-dynamic by Spectator.
///
/// These classes represent world geometry, lighting, and environment — they
/// are always present and rarely change during gameplay.
pub const STATIC_CLASSES: [&'static str; 20] = [
    // 3D
    "StaticBody3D",
    "CSGShape3D",
    "CSGBox3D",
    "CSGCylinder3D",
    "CSGMesh3D",
    "CSGPolygon3D",
    "CSGSphere3D",
    "CSGTorus3D",
    "CSGCombiner3D",
    "MeshInstance3D",
    "GridMap",
    "WorldEnvironment",
    "DirectionalLight3D",
    "OmniLight3D",
    "SpotLight3D",
    // 2D
    "StaticBody2D",
    "TileMapLayer",
    "Sprite2D",
    "PointLight2D",
    "DirectionalLight2D",
];

/// The static class names, in the order listed above.
pub open spec fn spec_static_classes() -> Seq<Seq<char>> {
    seq![
        "StaticBody3D"@,
        "CSGShape3D"@,
        "CSGBox3D"@,
        "CSGCylinder3D"@,
        "CSGMesh3D"@,
        "CSGPolygon3D"@,
        "CSGSphere3D"@,
        "CSGTorus3D"@,
        "CSGCombiner3D"@,
        "MeshInstance3D"@,
        "GridMap"@,
        "WorldEnvironment"@,
        "DirectionalLight3D"@,
        "OmniLight3D"@,
        "SpotLight3D"@,
        "StaticBody2D"@,
        "TileMapLayer"@,
        "Sprite2D"@,
        "PointLight2D"@,
        "DirectionalLight2D"@,
    ]
}

/// Returns true if the given class name is treated as static.
pub fn is_static_class(class: &str) -> (b: bool)
    ensures
        b == spec_static_classes().contains(class@),
{
    let mut i: usize = 0;
    while i < 20
        invariant
            i <= 20,
            forall|j: int| 0 <= j < i ==> spec_static_classes()[j] != class@,
        decreases 20 - i,
    {
        if str_eq(class, STATIC_CLASSES[i]) {
            assert(spec_static_classes()[i as int] == class@);
            return true;
        }
        i = i + 1;
    }
    false
}

/// The summary category of a static class.
pub open spec fn spec_static_category(c: Seq<char>) -> Seq<char> {
    if c == "StaticBody3D"@ || c == "StaticBody2D"@ {
        "collision"@
    } else if spec_starts_with(c, "CSG"@) {
        "csg"@
    } else if c == "GridMap"@ || c == "TileMapLayer"@ {
        "tilemap"@
    } else if c == "WorldEnvironment"@ {
        "environment"@
    } else if c == "MeshInstance3D"@ || c == "Sprite2D"@ {
        "visual"@
    } else if spec_contains(c, "Light"@) {
        "lights"@
    } else {
        "other"@
    }
}

/// Returns a category label for a static class (for summary output).
pub fn classify_static_category(class: &str) -> (r: &'static str)
    ensures
        r@ == spec_static_category(class@),
{
    if str_eq(class, "StaticBody3D") || str_eq(class, "StaticBody2D") {
        "collision"
    } else if starts_with(class, "CSG") {
        "csg"
    } else if str_eq(class, "GridMap") || str_eq(class, "TileMapLayer") {
        "tilemap"
    } else if str_eq(class, "WorldEnvironment") {
        "environment"
    } else if str_eq(class, "MeshInstance3D") || str_eq(class, "Sprite2D") {
        "visual"
    } else if contains(class, "Light") {
        "lights"
    } else {
        "other"
    }
}

/// No static class falls into the `other` category: each has its summary
/// category (collision, csg, tilemap, environment, visual or lights).
pub proof fn lemma_static_classes_have_categories(c: Seq<char>)
    requires
        spec_static_classes().contains(c),
    ensures
        spec_static_category(c) != "other"@,
        spec_static_category(c) == "collision"@ || spec_static_category(c) == "csg"@
            || spec_static_category(c) == "tilemap"@ || spec_static_category(c) == "environment"@
            || spec_static_category(c) == "visual"@ || spec_static_category(c) == "lights"@,
{
    reveal_strlit("other");
    reveal_strlit("collision");
    reveal_strlit("csg");
    reveal_strlit("tilemap");
    reveal_strlit("environment");
    reveal_strlit("visual");
    reveal_strlit("lights");
    assert("collision"@.len() != "other"@.len());
    assert("csg"@.len() != "other"@.len());
    assert("tilemap"@.len() != "other"@.len());
    assert("environment"@.len() != "other"@.len());
    assert("visual"@.len() != "other"@.len());
    assert("lights"@.len() != "other"@.len());
    let i = choose|i: int| 0 <= i < spec_static_classes().len() && spec_static_classes()[i] == c;
    if i == 0 {
        // Named in the category rules.
    } else if i == 1 {
        reveal_strlit("CSGShape3D");
        reveal_strlit("CSG");
        assert(c.subrange(0, 3) =~= "CSG"@);
    } else if i == 2 {
        reveal_strlit("CSGBox3D");
        reveal_strlit("CSG");
        assert(c.subrange(0, 3) =~= "CSG"@);
    } else if i == 3 {
        reveal_strlit("CSGCylinder3D");
        reveal_strlit("CSG");
        assert(c.subrange(0, 3) =~= "CSG"@);
    } else if i == 4 {
        reveal_strlit("CSGMesh3D");
        reveal_strlit("CSG");
        assert(c.subrange(0, 3) =~= "CSG"@);
    } else if i == 5 {
        reveal_strlit("CSGPolygon3D");
        reveal_strlit("CSG");
        assert(c.subrange(0, 3) =~= "CSG"@);
    } else if i == 6 {
        reveal_strlit("CSGSphere3D");
        reveal_strlit("CSG");
        assert(c.subrange(0, 3) =~= "CSG"@);
    } else if i == 7 {
        reveal_strlit("CSGTorus3D");
        reveal_strlit("CSG");
        assert(c.subrange(0, 3) =~= "CSG"@);
    } else if i == 8 {
        reveal_strlit("CSGCombiner3D");
        reveal_strlit("CSG");
        assert(c.subrange(0, 3) =~= "CSG"@);
    } else if i == 9 {
        // Named in the category rules.
    } else if i == 10 {
        // Named in the category rules.
    } else if i == 11 {
        // Named in the category rules.
    } else if i == 12 {
        reveal_strlit("DirectionalLight3D");
        reveal_strlit("Light");
        assert(spec_occurs_at(c, "Light"@, 11)) by {
            assert(c.subrange(11, 16) =~= "Light"@);
        }
    } else if i == 13 {
        reveal_strlit("OmniLight3D");
        reveal_strlit("Light");
        assert(spec_occurs_at(c, "Light"@, 4)) by {
            assert(c.subrange(4, 9) =~= "Light"@);
        }
    } else if i == 14 {
        reveal_strlit("SpotLight3D");
        reveal_strlit("Light");
        assert(spec_occurs_at(c, "Light"@, 4)) by {
            assert(c.subrange(4, 9) =~= "Light"@);
        }
    } else if i == 15 {
        // Named in the category rules.
    } else if i == 16 {
        // Named in the category rules.
    } else if i == 17 {
        // Named in the category rules.
    } else if i == 18 {
        reveal_strlit("PointLight2D");
        reveal_strlit("Light");
        assert(spec_occurs_at(c, "Light"@, 5)) by {
            assert(c.subrange(5, 10) =~= "Light"@);
        }
    } else {
        reveal_strlit("DirectionalLight2D");
        reveal_strlit("Light");
        assert(spec_occurs_at(c, "Light"@, 11)) by {
            assert(c.subrange(11, 16) =~= "Light"@);
        }
    }
}

/// Which classes fall into the collision and csg categories, for every
/// class name: the static bodies, 2D and 3D alike, and nothing else are
/// collision; exactly the classes whose name starts with `CSG` are csg.
pub proof fn lemma_collision_and_csg_categories(c: Seq<char>)
    ensures
        spec_static_category(c) == "collision"@ <==> (c == "StaticBody3D"@ || c == "StaticBody2D"@),
        spec_static_category(c) == "csg"@ <==> spec_starts_with(c, "CSG"@),
{
    reveal_strlit("collision");
    reveal_strlit("csg");
    reveal_strlit("tilemap");
    reveal_strlit("environment");
    reveal_strlit("visual");
    reveal_strlit("lights");
    reveal_strlit("other");
    reveal_strlit("StaticBody3D");
    reveal_strlit("StaticBody2D");
    reveal_strlit("CSG");
    assert("collision"@.len() == 9 && "csg"@.len() == 3 && "tilemap"@.len() == 7
        && "environment"@.len() == 11 && "visual"@.len() == 6 && "lights"@.len() == 6
        && "other"@.len() == 5);
    if c == "StaticBody3D"@ || c == "StaticBody2D"@ {
        assert(c[0] == 'S');
        assert(!spec_starts_with(c, "CSG"@)) by {
            if spec_starts_with(c, "CSG"@) {
                assert(c.subrange(0, 3)[0] == c[0]);
            }
        }
    }
}

/// None of the classes named in the category rules has `Light` in its name.
proof fn lemma_named_classes_not_lights(c: Seq<char>)
    requires
        c == "StaticBody3D"@ || c == "StaticBody2D"@ || c == "GridMap"@ || c == "TileMapLayer"@
            || c == "WorldEnvironment"@ || c == "MeshInstance3D"@ || c == "Sprite2D"@,
    ensures
        !spec_contains(c, "Light"@),
{
    reveal_strlit("StaticBody3D");
    reveal_strlit("StaticBody2D");
    reveal_strlit("GridMap");
    reveal_strlit("TileMapLayer");
    reveal_strlit("WorldEnvironment");
    reveal_strlit("MeshInstance3D");
    reveal_strlit("Sprite2D");
    reveal_strlit("Light");
    if spec_contains(c, "Light"@) {
        let i = choose|i: int| spec_occurs_at(c, "Light"@, i);
        assert(c.subrange(i, i + 5)[0] == c[i]);
        assert(c.subrange(i, i + 5)[1] == c[i + 1]);
        assert(c[i] == 'L' && c[i + 1] == 'i');
        assert(false);
    }
}

/// The categories of the remaining rules, for every class name: tilemap
/// is exactly `GridMap` and `TileMapLayer`; environment exactly
/// `WorldEnvironment`; visual exactly `MeshInstance3D` and `Sprite2D`;
/// lights every other name with `Light` in it that does not start with
/// `CSG`; and a name is `other` exactly when none of the rules names it.
pub proof fn lemma_remaining_categories(c: Seq<char>)
    ensures
        spec_static_category(c) == "tilemap"@ <==> (c == "GridMap"@ || c == "TileMapLayer"@),
        spec_static_category(c) == "environment"@ <==> c == "WorldEnvironment"@,
        spec_static_category(c) == "visual"@ <==> (c == "MeshInstance3D"@ || c == "Sprite2D"@),
        spec_static_category(c) == "lights"@ <==> (spec_contains(c, "Light"@) && !spec_starts_with(
            c,
            "CSG"@,
        )),
        spec_static_category(c) == "other"@ <==> (!spec_contains(c, "Light"@) && !spec_starts_with(
            c,
            "CSG"@,
        ) && c != "StaticBody3D"@ && c != "StaticBody2D"@ && c != "GridMap"@ && c
            != "TileMapLayer"@ && c != "WorldEnvironment"@ && c != "MeshInstance3D"@ && c
            != "Sprite2D"@),
{
    reveal_strlit("collision");
    reveal_strlit("csg");
    reveal_strlit("tilemap");
    reveal_strlit("environment");
    reveal_strlit("visual");
    reveal_strlit("lights");
    reveal_strlit("other");
    reveal_strlit("StaticBody3D");
    reveal_strlit("StaticBody2D");
    reveal_strlit("GridMap");
    reveal_strlit("TileMapLayer");
    reveal_strlit("WorldEnvironment");
    reveal_strlit("MeshInstance3D");
    reveal_strlit("Sprite2D");
    reveal_strlit("CSG");
    assert("collision"@.len() == 9 && "csg"@.len() == 3 && "tilemap"@.len() == 7
        && "environment"@.len() == 11 && "visual"@.len() == 6 && "lights"@.len() == 6
        && "other"@.len() == 5);
    assert("visual"@[0] != "lights"@[0]);
    assert("StaticBody3D"@.len() == 12 && "StaticBody2D"@.len() == 12 && "GridMap"@.len() == 7
        && "TileMapLayer"@.len() == 12 && "WorldEnvironment"@.len() == 16
        && "MeshInstance3D"@.len() == 14 && "Sprite2D"@.len() == 8);
    assert("TileMapLayer"@[0] != "StaticBody3D"@[0] && "TileMapLayer"@[0] != "StaticBody2D"@[0]);
    if c == "StaticBody3D"@ || c == "StaticBody2D"@ || c == "GridMap"@ || c == "TileMapLayer"@
        || c == "WorldEnvironment"@ || c == "MeshInstance3D"@ || c == "Sprite2D"@ {
        lemma_named_classes_not_lights(c);
        assert(!spec_starts_with(c, "CSG"@)) by {
            if spec_starts_with(c, "CSG"@) {
                assert(c.subrange(0, 3)[0] == c[0]);
            }
        }
    }
}

} // verus!

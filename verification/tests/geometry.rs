use tank_collision::geometry::{AabbBounds, Collider, ObbBounds, Vec2Fix};

#[test]
fn aabb_update_moves_center_and_keeps_extents() {
    let mut collider = Collider::Aabb(AabbBounds {
        center: Vec2Fix { x: 0, y: 0 },
        half_extents: Vec2Fix { x: 250, y: 125 },
    });
    collider.update_from_transform(Vec2Fix { x: 3000, y: -4000 }, 90_000);
    assert_eq!(
        collider,
        Collider::Aabb(AabbBounds {
            center: Vec2Fix { x: 3000, y: -4000 },
            half_extents: Vec2Fix { x: 250, y: 125 },
        })
    );
}

#[test]
fn obb_update_moves_center_and_rotation() {
    let mut collider = Collider::Obb(ObbBounds {
        center: Vec2Fix { x: 10, y: 20 },
        half_extents: Vec2Fix { x: 300, y: 150 },
        rotation: 0,
    });
    collider.update_from_transform(Vec2Fix { x: -500, y: 600 }, 45_000);
    assert_eq!(
        collider,
        Collider::Obb(ObbBounds {
            center: Vec2Fix { x: -500, y: 600 },
            half_extents: Vec2Fix { x: 300, y: 150 },
            rotation: 45_000,
        })
    );
}

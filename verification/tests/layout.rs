use nexrad_workbench::layout::is_kind_partitioned;
use nexrad_workbench::layout::is_z_order_ascending_within_kind;
use nexrad_workbench::layout::{layout, Layer, LayerKind, LayerSlot};

fn slot(kind: LayerKind, z: i32) -> LayerSlot {
    LayerSlot { kind, z }
}

#[test]
fn kind_partitioned_accepts_chrome_then_modal() {
    let layers = vec![slot(LayerKind::Chrome, 10), slot(LayerKind::Modal, 10)];
    assert!(is_kind_partitioned(&layers));
}

#[test]
fn kind_partitioned_rejects_modal_before_chrome() {
    let layers = vec![slot(LayerKind::Modal, 10), slot(LayerKind::Chrome, 10)];
    assert!(!is_kind_partitioned(&layers));
}

#[test]
fn z_order_ascending_within_kind_independently() {
    let layers = vec![slot(LayerKind::Chrome, 30), slot(LayerKind::Modal, 10)];
    assert!(is_z_order_ascending_within_kind(&layers));
}

#[test]
fn z_order_ascending_within_kind_rejects_descent() {
    let layers = vec![slot(LayerKind::Chrome, 30), slot(LayerKind::Chrome, 10)];
    assert!(!is_z_order_ascending_within_kind(&layers));
}

#[test]
fn the_layouts_are_in_order() {
    for is_mobile in [false, true] {
        let slots: Vec<LayerSlot> = layout(is_mobile)
            .iter()
            .map(|l| slot(l.kind(), l.z_order()))
            .collect();
        assert!(!slots.is_empty());
        assert!(is_kind_partitioned(&slots));
        assert!(is_z_order_ascending_within_kind(&slots));
    }
    assert!(layout(true).contains(&Layer::MobileChrome));
    assert!(!layout(false).contains(&Layer::MobileChrome));
}

use rustvulkan::ownership::Ownership;
use rustvulkan::vk::{
    Buffer, DebugReportCallback, DeviceMemory, Image, ImageView, Object, Semaphore, SurfaceKHR,
};

fn position(order: &[Object], object: Object) -> usize {
    order.iter().position(|o| *o == object).unwrap()
}

fn owner_with_device() -> Ownership {
    let mut owned = Ownership::new();
    assert!(owned.adopt(&vec![Object::DebugReportCallback(DebugReportCallback(1))]));
    assert!(owned.adopt(&vec![Object::Surface(SurfaceKHR(2))]));
    assert!(owned.adopt(&vec![Object::Device]));
    owned
}

#[test]
fn fresh_owner_holds_the_instance() {
    let owned = Ownership::new();
    assert_eq!(owned.destruction_order(), vec![Object::Instance]);
    assert_eq!(owned.len(), 1);
    assert!(owned.owns(Object::Instance));
    assert!(!owned.owns(Object::Device));
}

#[test]
fn later_components_are_destroyed_earlier() {
    let mut owned = owner_with_device();
    let image = vec![
        Object::ImageView(ImageView(5)),
        Object::Image(Image(5)),
        Object::DeviceMemory(DeviceMemory(5)),
    ];
    let buffer = vec![Object::Buffer(Buffer(6)), Object::DeviceMemory(DeviceMemory(6))];
    assert!(owned.adopt(&image));
    assert!(owned.adopt(&buffer));
    assert_eq!(
        owned.destruction_order(),
        vec![
            Object::Buffer(Buffer(6)),
            Object::DeviceMemory(DeviceMemory(6)),
            Object::ImageView(ImageView(5)),
            Object::Image(Image(5)),
            Object::DeviceMemory(DeviceMemory(5)),
            Object::Device,
            Object::Surface(SurfaceKHR(2)),
            Object::DebugReportCallback(DebugReportCallback(1)),
            Object::Instance,
        ]
    );
}

#[test]
fn device_goes_after_its_dependents_and_before_the_instance() {
    let mut owned = owner_with_device();
    for n in 0..20u64 {
        assert!(owned.adopt(&vec![Object::Semaphore(Semaphore(n)), Object::Buffer(Buffer(n))]));
    }
    let order = owned.teardown();
    let device = position(&order, Object::Device);
    for (i, object) in order.iter().enumerate() {
        match object {
            Object::Instance | Object::Device | Object::Surface(_) | Object::DebugReportCallback(_) => {}
            _ => assert!(i < device),
        }
    }
    assert_eq!(order.last(), Some(&Object::Instance));
    assert_eq!(device, order.len() - 4);
}

#[test]
fn nothing_is_destroyed_twice() {
    let mut owned = owner_with_device();
    assert!(owned.adopt(&vec![Object::Image(Image(1)), Object::DeviceMemory(DeviceMemory(1))]));
    assert!(owned.adopt(&vec![Object::Image(Image(2)), Object::DeviceMemory(DeviceMemory(2))]));
    let mut destroyed = owned.teardown();
    destroyed.extend(owned.teardown());
    destroyed.extend(owned.teardown());
    for (i, a) in destroyed.iter().enumerate() {
        for b in &destroyed[i + 1..] {
            assert_ne!(a, b);
        }
    }
    assert_eq!(destroyed.len(), 8);
}

#[test]
fn second_teardown_destroys_nothing() {
    let mut owned = owner_with_device();
    assert_eq!(owned.teardown().len(), 4);
    assert_eq!(owned.teardown(), vec![]);
    assert_eq!(owned.len(), 0);
    assert!(!owned.owns(Object::Instance));
}

#[test]
fn torn_down_owner_adopts_nothing() {
    let mut owned = owner_with_device();
    owned.teardown();
    assert!(!owned.adopt(&vec![Object::Device]));
    assert!(!owned.adopt(&vec![Object::Instance]));
    assert!(!owned.adopt(&vec![Object::Surface(SurfaceKHR(9))]));
    assert!(!owned.adopt(&vec![]));
    assert_eq!(owned.teardown(), vec![]);
}

#[test]
fn an_object_is_adopted_only_once() {
    let mut owned = owner_with_device();
    assert!(owned.adopt(&vec![Object::Image(Image(1))]));
    assert!(!owned.adopt(&vec![Object::Image(Image(1))]));
    assert!(!owned.adopt(&vec![Object::Image(Image(2)), Object::Image(Image(1))]));
    assert!(!owned.owns(Object::Image(Image(2))));
    assert!(!owned.adopt(&vec![Object::Image(Image(3)), Object::Image(Image(3))]));
    assert!(!owned.adopt(&vec![Object::Device]));
    assert!(!owned.adopt(&vec![Object::Instance]));
    assert_eq!(owned.len(), 5);
}

#[test]
fn same_number_in_different_kinds_is_not_the_same_object() {
    let mut owned = owner_with_device();
    assert!(owned.adopt(&vec![
        Object::Image(Image(7)),
        Object::ImageView(ImageView(7)),
        Object::Buffer(Buffer(7)),
        Object::DeviceMemory(DeviceMemory(7)),
    ]));
    assert_eq!(owned.len(), 8);
}

#[test]
fn device_children_need_the_device() {
    let mut owned = Ownership::new();
    assert!(!owned.adopt(&vec![Object::Buffer(Buffer(1))]));
    assert!(!owned.adopt(&vec![Object::Surface(SurfaceKHR(1)), Object::Buffer(Buffer(1))]));
    assert!(!owned.owns(Object::Surface(SurfaceKHR(1))));
    assert!(!owned.adopt(&vec![Object::Buffer(Buffer(1)), Object::Device]));
    assert!(owned.adopt(&vec![Object::Surface(SurfaceKHR(1))]));
    assert!(owned.adopt(&vec![Object::Device]));
    assert!(owned.adopt(&vec![Object::Buffer(Buffer(1))]));
    assert_eq!(
        owned.teardown(),
        vec![
            Object::Buffer(Buffer(1)),
            Object::Device,
            Object::Surface(SurfaceKHR(1)),
            Object::Instance,
        ]
    );
}

#[test]
fn adopting_nothing_changes_nothing() {
    let mut owned = owner_with_device();
    assert!(owned.adopt(&vec![]));
    assert_eq!(owned.len(), 4);
}

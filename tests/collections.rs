use nechto::handle::{Handle, HandleAllocator};
use nechto::pool::Pool;
use nechto::realm::{IntoObject, Object, ObjectData, Realm};

#[test]
fn handle_round_trip() {
    let h: Handle<u8> = Handle::from_usize(42);
    assert_eq!(h.to_usize(), 42);
    assert_eq!(Handle::<u8>::new(7).to_usize(), 7);
    assert_eq!(Handle::<u8>::nil().to_usize(), 0);
}

#[test]
fn allocator_hands_out_increasing_handles() {
    let mut a: HandleAllocator<u8> = HandleAllocator::new();
    assert_eq!(a.allocate_handle().to_usize(), 1);
    assert_eq!(a.allocate_handle().to_usize(), 2);
    assert_eq!(a.allocate_handle().to_usize(), 3);
}

#[test]
fn pool_reuses_freed_slot() {
    let mut pool = Pool::new();
    let a = pool.insert("a");
    let b = pool.insert("b");
    assert_eq!((a.to_usize(), b.to_usize()), (0, 1));
    pool.remove(a);
    assert_eq!(pool.get(a), None);
    let c = pool.insert("c");
    assert_eq!(c.to_usize(), 0);
    assert_eq!(pool.get(c), Some(&"c"));
    assert_eq!(pool.get(b), Some(&"b"));
    assert_eq!(pool.insert("d").to_usize(), 2);
}

#[test]
fn pool_double_remove_and_stray_handles() {
    let mut pool = Pool::new();
    let a = pool.insert(1);
    pool.remove(a);
    pool.remove(a);
    pool.remove(Handle::from_usize(9));
    assert_eq!(pool.insert(2).to_usize(), 0);
    assert_eq!(pool.insert(3).to_usize(), 1);
    assert_eq!(pool.get(Handle::from_usize(9)), None);
}

#[test]
fn pool_get_mut_updates_in_place() {
    let mut pool = Pool::new();
    let a = pool.insert(10);
    *pool.get_mut(a).unwrap() += 5;
    assert_eq!(pool.get(a), Some(&15));
    assert!(pool.get_mut(Handle::from_usize(3)).is_none());
}

struct Named;

impl ObjectData for Named {
    fn name(&self) -> &'static str {
        "named"
    }
}

impl IntoObject for Named {}

#[test]
fn objects_and_realm() {
    let child: Handle<Object> = Handle::from_usize(5);
    let object = Object::new(Named).with_parent(Handle::from_usize(2)).with_child(child);
    assert_eq!(object.parent().to_usize(), 2);
    assert_eq!(object.name(), "named");
    assert_eq!(Named.into_object().parent().to_usize(), 0);
    let mut realm = Realm::new();
    let h0 = realm.add_object(object);
    let h1 = realm.add_object(Object::new(Named));
    assert_eq!((h0.to_usize(), h1.to_usize()), (0, 1));
    assert_eq!(realm.get(h0).unwrap().parent().to_usize(), 2);
    assert!(realm.get(Handle::from_usize(4)).is_none());
}

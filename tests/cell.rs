use cells::Cell;

#[test]
fn new_get_set() {
    let mut c = Cell::new(42);
    assert_eq!(c.get(), 42);
    c.set(43);
    assert_eq!(c.get(), 43);
}

#[test]
fn set_during_get() {
    let mut x = Cell::new("hello");
    let first = x.get();
    x.set("");
    x.set("world");
    assert_eq!(first, "hello");
    assert_eq!(x.get(), "world");
}

#[test]
fn get_returns_last_set() {
    let mut x = Cell::new(0u64);
    x.set(7);
    x.set(9);
    assert_eq!(x.get(), 9);
    assert_eq!(x.get(), 9);
}

#[test]
fn repeated_get_set() {
    let mut x = Cell::new(0u64);
    for _ in 0..1000000 {
        let v = x.get();
        x.set(v + 1);
    }
    for _ in 0..1000000 {
        let v = x.get();
        x.set(v + 1);
    }
    assert_eq!(x.get(), 2000000);
}

#[test]
fn set_drops_previous_value() {
    let mut x = Cell::new(String::from("hello"));
    x.set(String::new());
    x.set(String::from("world"));
    let mut y = Cell::new([0u8; 4]);
    y.set([1u8; 4]);
    assert_eq!(y.get(), [1u8; 4]);
}

use std::cell::RefCell;
use std::rc::Rc;

use mvvm::ObservableProperty;

#[test]
fn test_observable_property() {
    let counter = Rc::new(RefCell::new(0));
    let mut prop = ObservableProperty::<i32>::default();

    prop.PropertyChanging.add(|p| {
        assert_eq!(p.get(), 0);
        *counter.borrow_mut() += 1 << p.get();
    });

    prop.PropertyChanged.add(|p| {
        assert_eq!(p.get(), 2);
        *counter.borrow_mut() += 1 << p.get();
    });

    assert_eq!(prop.get(), 0);

    prop.set(2);

    assert_eq!(prop.get(), 2);

    assert_eq!(*counter.borrow(), 0b101);
}

#[test]
fn new_cell_holds_initial_value() {
    let prop = ObservableProperty::new(10);
    assert_eq!(prop.get(), 10);
    assert_eq!(*prop.GetValue(), 10);

    let text = ObservableProperty::new(String::from("hello"));
    assert_eq!(text.get(), "hello");
}

#[test]
fn default_cell_holds_default_value() {
    let prop = ObservableProperty::<i32>::default();
    assert_eq!(prop.get(), 0);

    let text = ObservableProperty::<String>::default();
    assert_eq!(text.get(), "");
}

#[test]
fn equal_write_is_suppressed() {
    let invocations = Rc::new(RefCell::new(0));
    let mut prop = ObservableProperty::new(5);

    prop.PropertyChanging.add(|_p| {
        *invocations.borrow_mut() += 1;
    });
    prop.PropertyChanged.add(|_p| {
        *invocations.borrow_mut() += 1;
    });

    assert!(!prop.set(5));
    assert_eq!(prop.get(), 5);
    assert_eq!(*invocations.borrow(), 0);
}

#[test]
fn changing_write_notifies_once_around_the_change() {
    let log: Rc<RefCell<Vec<String>>> = Rc::new(RefCell::new(Vec::new()));
    let mut prop = ObservableProperty::new(1);

    prop.PropertyChanging.add(|p| {
        log.borrow_mut().push(format!("changing saw {}", p.get()));
    });
    prop.PropertyChanged.add(|p| {
        log.borrow_mut().push(format!("changed saw {}", p.get()));
    });

    assert!(prop.set(7));
    assert_eq!(prop.get(), 7);
    assert_eq!(
        *log.borrow(),
        vec![String::from("changing saw 1"), String::from("changed saw 7")]
    );
}

#[test]
fn listeners_run_in_subscription_order() {
    let log: Rc<RefCell<Vec<u32>>> = Rc::new(RefCell::new(Vec::new()));
    let mut prop = ObservableProperty::new(0);

    prop.PropertyChanging.add(|_p| {
        log.borrow_mut().push(1);
    });
    prop.PropertyChanging.add(|_p| {
        log.borrow_mut().push(2);
    });
    prop.PropertyChanging.add(|_p| {
        log.borrow_mut().push(3);
    });
    prop.PropertyChanged.add(|_p| {
        log.borrow_mut().push(4);
    });
    prop.PropertyChanged.add(|_p| {
        log.borrow_mut().push(5);
    });

    assert!(prop.set(9));
    assert_eq!(*log.borrow(), vec![1, 2, 3, 4, 5]);
}

#[test]
fn set_value_reports_whether_the_value_changed() {
    let mut prop = ObservableProperty::new(3);
    assert!(prop.SetValue(4));
    assert_eq!(*prop.GetValue(), 4);
    assert!(!prop.SetValue(4));
    assert_eq!(*prop.GetValue(), 4);
    assert!(prop.SetValue(3));
    assert_eq!(*prop.GetValue(), 3);
}

#[test]
fn repeated_writes_notify_for_each_change() {
    let log: Rc<RefCell<Vec<String>>> = Rc::new(RefCell::new(Vec::new()));
    let mut prop = ObservableProperty::new(String::new());

    prop.PropertyChanged.add(|p| {
        log.borrow_mut().push(p.get());
    });

    assert!(prop.set(String::from("a")));
    assert!(!prop.set(String::from("a")));
    assert!(prop.set(String::from("b")));
    assert!(prop.set(String::from("a")));
    assert_eq!(prop.get(), "a");
    assert_eq!(
        *log.borrow(),
        vec![String::from("a"), String::from("b"), String::from("a")]
    );
}

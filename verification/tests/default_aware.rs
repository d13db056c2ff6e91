use default_aware::DefaultAware;

#[test]
fn default_aware() {
    assert_eq!(DefaultAware::Default(false), DefaultAware::<bool>::default());
    assert_eq!(false, DefaultAware::<bool>::default().unwrap());
    assert_eq!(&false, DefaultAware::<bool>::default().as_ref());

    assert_eq!(Option::<bool>::default(), DefaultAware::<Option<bool>>::default().unwrap());

    assert_eq!(String::default(), DefaultAware::<String>::default().unwrap());

    assert_eq!(u32::default(), DefaultAware::<u32>::default().unwrap());

    assert_eq!(true, DefaultAware::<u32>::default().is_default());
    assert_eq!(false, DefaultAware::<u32>::default().is_declared());

    assert_eq!(false, DefaultAware::Declared(123).is_default());
    assert_eq!(true, DefaultAware::Declared(123).is_declared());
}

#[test]
fn provenance_distinguishes_equal_values() {
    assert_ne!(DefaultAware::Default(5), DefaultAware::Declared(5));
    assert_ne!(
        DefaultAware::Default(String::new()),
        DefaultAware::Declared(String::new())
    );
    assert_ne!(DefaultAware::Default(false), DefaultAware::Declared(false));
}

#[test]
fn unwrap_returns_inner_value_unchanged() {
    assert_eq!(7u32, DefaultAware::Declared(7u32).unwrap());
    assert_eq!(0u32, DefaultAware::Declared(0u32).unwrap());
    assert_eq!(
        String::from("abc"),
        DefaultAware::Declared(String::from("abc")).unwrap()
    );
    assert_eq!(0u32, DefaultAware::<u32>::default().unwrap());
    assert_eq!(&7u32, DefaultAware::Declared(7u32).as_ref());
}

#[test]
fn declared_wrapper_queries() {
    let w = DefaultAware::Declared(true);
    assert!(w.is_declared());
    assert!(!w.is_default());
}

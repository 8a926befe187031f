use quinine::MonoBox;

#[test]
fn box_test_none() {
    let mut mono = MonoBox::<()>::empty();

    assert!(mono.is_none());
    assert!(!mono.is_some());

    assert!(mono.as_ref().is_none());
    assert!(mono.as_mut().is_none());
    assert_eq!(mono.into_inner(), None);
}

#[test]
fn box_test_some() {
    let mut mono = MonoBox::new(Some(Box::new(vec![1])));

    assert!(!mono.is_none());
    assert!(mono.is_some());

    assert_eq!(mono.as_ref().unwrap(), &[1]);

    mono.as_mut().unwrap().push(2);
    assert_eq!(mono.as_mut().unwrap(), &[1, 2]);
}

#[test]
fn box_test_default() {
    let mono: MonoBox<()> = Default::default();

    assert!(mono.is_none());
}

#[test]
fn box_test_upgrade() {
    let mut mono: MonoBox<Vec<usize>> = Default::default();

    assert_eq!(mono.store(Box::new(vec![1])), Ok(()));
    assert_eq!(mono.as_ref().unwrap(), &[1]);

    assert_eq!(mono.store(Box::new(vec![2])), Err(Box::new(vec![2])));
    assert_eq!(mono.as_ref().unwrap(), &[1]);

    assert!(!mono.store_value(vec![3]));
    assert_eq!(mono.as_ref().unwrap(), &[1]);
}

#[test]
fn box_test_swap() {
    let mut mono: MonoBox<Vec<usize>> = Default::default();

    assert_eq!(mono.store(Box::new(vec![1])), Ok(()));
    assert_eq!(mono.as_ref().unwrap(), &[1]);

    assert_eq!(mono.store(Box::new(vec![2])), Err(Box::new(vec![2])));
    assert_eq!(mono.as_ref().unwrap(), &[1]);

    assert_eq!(mono.swap(Some(Box::new(vec![2]))), Some(Box::new(vec![1])));

    assert_eq!(mono.take(), Some(Box::new(vec![2])));

    assert!(mono.is_none());
}

#[test]
fn box_test_fmt() {
    let mono = MonoBox::<()>::empty();

    assert_eq!(format!("{:?}", mono.as_ref()), "None");
    println!("as a pointer: {:p}", &mono);
}

#[test]
fn box_test_conversions() {
    let mono: MonoBox<_> = Option::<String>::None.into();
    let opt_ref: Option<&str> = None;
    let opt_val: Option<&String> = None;

    assert_eq!(mono.as_deref(), opt_ref);

    {
        let as_string: Option<&String> = (&mono).into();
        assert_eq!(as_string, opt_val);
    }

    let mono: MonoBox<_> = "foo".to_string().into();
    assert_eq!(mono.as_deref(), Some("foo"));

    let mono: MonoBox<String> = Box::new("bar".to_string()).into();
    assert_eq!(mono.as_deref(), Some("bar"));

    let mono: MonoBox<String> = Option::<Box<String>>::None.into();
    let val: Option<Box<String>> = mono.into();
    assert_eq!(val, None);

    let boxed = MonoBox::<String>::empty();
    let mono: MonoBox<String> = boxed.into();
    assert!(mono.is_none());

    let _val: Option<String> = mono.into();
}

#[test]
fn test_mut_conversions() {
    let mut mono: MonoBox<Vec<u8>> = Default::default();
    let empty: Option<&mut [u8]> = None;

    let as_mut: Option<&mut [u8]> = mono.as_deref_mut();
    assert_eq!(as_mut, empty);

    let as_mut: Option<&mut Vec<u8>> = mono.as_mut();
    assert_eq!(as_mut, None);
}

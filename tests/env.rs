use declcheck::env::{Environment, EnvironmentEmpty};

#[test]
fn insert_without_frame_fails() {
    let mut env: Environment<String, u32> = Environment::new();
    assert_eq!(env.insert("x".to_string(), 1), Err(EnvironmentEmpty));
    assert_eq!(env.lookup(&"x".to_string()), None);
}

#[test]
fn insert_without_frame_differs_from_duplicate() {
    let mut env: Environment<String, u32> = Environment::new();
    assert!(env.insert("x".to_string(), 1).is_err());
    env.push_frame();
    assert_eq!(env.insert("x".to_string(), 1), Ok(None));
    assert_eq!(env.insert("x".to_string(), 2), Ok(Some(1)));
}

#[test]
fn insert_replaces_and_returns_previous() {
    let mut env: Environment<String, u32> = Environment::new();
    env.push_frame();
    assert_eq!(env.insert("x".to_string(), 1), Ok(None));
    assert_eq!(env.insert("y".to_string(), 5), Ok(None));
    assert_eq!(env.insert("x".to_string(), 2), Ok(Some(1)));
    assert_eq!(env.lookup(&"x".to_string()), Some(&2));
    assert_eq!(env.lookup(&"y".to_string()), Some(&5));
    assert_eq!(env.lookup(&"z".to_string()), None);
}

#[test]
fn duplication_is_frame_local() {
    let mut env: Environment<String, u32> = Environment::new();
    env.push_frame();
    assert_eq!(env.insert("x".to_string(), 1), Ok(None));
    env.push_frame();
    assert_eq!(env.insert("x".to_string(), 2), Ok(None));
    assert_eq!(env.lookup(&"x".to_string()), Some(&2));
    assert_eq!(env.pop_frame(), Ok(()));
    assert_eq!(env.lookup(&"x".to_string()), Some(&1));
}

#[test]
fn lookup_searches_outer_frames() {
    let mut env: Environment<String, u32> = Environment::new();
    env.push_frame();
    assert_eq!(env.insert("g".to_string(), 7), Ok(None));
    env.push_frame();
    env.push_frame();
    assert_eq!(env.insert("l".to_string(), 3), Ok(None));
    assert_eq!(env.lookup(&"g".to_string()), Some(&7));
    assert_eq!(env.lookup(&"l".to_string()), Some(&3));
}

#[test]
fn pop_frame_discards_bindings() {
    let mut env: Environment<String, u32> = Environment::new();
    env.push_frame();
    env.push_frame();
    assert_eq!(env.insert("x".to_string(), 1), Ok(None));
    assert_eq!(env.pop_frame(), Ok(()));
    assert_eq!(env.lookup(&"x".to_string()), None);
    assert_eq!(env.pop_frame(), Ok(()));
    assert_eq!(env.pop_frame(), Err(EnvironmentEmpty));
    assert_eq!(env.insert("x".to_string(), 1), Err(EnvironmentEmpty));
}

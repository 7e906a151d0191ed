use artichoke_backend::env::system::{Access, System};
use artichoke_backend::exception::Kind;

#[test]
fn get_decides_by_the_name() {
    let env = System::new();
    assert_eq!(env.get(b"PATH").unwrap(), Access::Read);
    assert_eq!(env.get(b"").unwrap(), Access::Nothing);
    assert_eq!(env.get(b"a=b").unwrap(), Access::Nothing);
    let err = env.get(b"a\0b").unwrap_err();
    assert_eq!(err.kind(), Kind::ArgumentError);
    assert_eq!(err.message(), &b"bad environment variable name: contains null byte"[..]);
    let err = env.get(b"a=\0").unwrap_err();
    assert_eq!(err.kind(), Kind::ArgumentError);
}

#[test]
fn put_decides_by_the_name_and_the_value() {
    let mut env = System::new();
    assert_eq!(env.put(b"KEY", Some(b"value")).unwrap(), Access::Write);
    assert_eq!(env.put(b"KEY", Some(b"")).unwrap(), Access::Write);
    assert_eq!(env.put(b"KEY", None).unwrap(), Access::Delete);
    let err = env.put(b"", Some(b"v")).unwrap_err();
    assert_eq!(err.kind(), Kind::ArgumentError);
    assert_eq!(err.message(), &b"Invalid argument - setenv()"[..]);
    let err = env.put(b"K\0", Some(b"v")).unwrap_err();
    assert_eq!(err.message(), &b"bad environment variable name: contains null byte"[..]);
    let err = env.put(b"K=Y", Some(b"v")).unwrap_err();
    assert_eq!(err.message(), &b"Invalid argumen - setenv(K=Y)"[..]);
    let err = env.put(b"KEY", Some(b"v\0")).unwrap_err();
    assert_eq!(err.message(), &b"bad environment variable value: contains null byte"[..]);
    let err = env.put(b"K=Y", None).unwrap_err();
    assert_eq!(err.kind(), Kind::ArgumentError);
}

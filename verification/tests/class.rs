use artichoke_backend::class;
use artichoke_backend::def::{Constants, EnclosingRubyScope};
use artichoke_backend::module;

#[test]
fn rclass_for_undef_root_class() {
    let interp = Constants::new();
    let spec = class::Spec::new("Foo", None).unwrap();
    assert!(spec.rclass(&interp).is_none());
}

#[test]
fn rclass_for_undef_nested_class() {
    let mut interp = Constants::new();
    interp.define(None, "Kernel");
    let scope = module::Spec::new("Kernel", None).unwrap();
    let spec = class::Spec::new("Foo", Some(EnclosingRubyScope::module(&scope))).unwrap();
    assert!(spec.rclass(&interp).is_none());
}

#[test]
fn rclass_for_root_class() {
    let mut interp = Constants::new();
    interp.define(None, "StandardError");
    let spec = class::Spec::new("StandardError", None).unwrap();
    assert!(spec.rclass(&interp).is_some());
}

#[test]
fn rclass_for_nested_class() {
    let mut interp = Constants::new();
    let foo = interp.define(None, "Foo");
    interp.define(Some(foo), "Bar");
    let spec = module::Spec::new("Foo", None).unwrap();
    let spec = class::Spec::new("Bar", Some(EnclosingRubyScope::module(&spec))).unwrap();
    assert!(spec.rclass(&interp).is_some());
}

#[test]
fn rclass_for_nested_class_under_class() {
    let mut interp = Constants::new();
    let foo = interp.define(None, "Foo");
    interp.define(Some(foo), "Bar");
    let spec = class::Spec::new("Foo", None).unwrap();
    let spec = class::Spec::new("Bar", Some(EnclosingRubyScope::class(&spec))).unwrap();
    assert!(spec.rclass(&interp).is_some());
}

#[test]
fn rclass_for_undef_root_module() {
    let interp = Constants::new();
    let spec = module::Spec::new("Foo", None).unwrap();
    assert!(spec.rclass(&interp).is_none());
}

#[test]
fn rclass_for_undef_nested_module() {
    let mut interp = Constants::new();
    interp.define(None, "Kernel");
    let scope = module::Spec::new("Kernel", None).unwrap();
    let spec = module::Spec::new("Foo", Some(EnclosingRubyScope::module(&scope))).unwrap();
    assert!(spec.rclass(&interp).is_none());
}

#[test]
fn rclass_for_root_module() {
    let mut interp = Constants::new();
    interp.define(None, "Kernel");
    let spec = module::Spec::new("Kernel", None).unwrap();
    assert!(spec.rclass(&interp).is_some());
}

#[test]
fn rclass_for_nested_module() {
    let mut interp = Constants::new();
    let foo = interp.define(None, "Foo");
    interp.define(Some(foo), "Bar");
    let spec = module::Spec::new("Foo", None).unwrap();
    let spec = module::Spec::new("Bar", Some(EnclosingRubyScope::module(&spec))).unwrap();
    assert!(spec.rclass(&interp).is_some());
}

#[test]
fn rclass_for_nested_module_under_class() {
    let mut interp = Constants::new();
    let foo = interp.define(None, "Foo");
    interp.define(Some(foo), "Bar");
    let spec = class::Spec::new("Foo", None).unwrap();
    let spec = module::Spec::new("Bar", Some(EnclosingRubyScope::class(&spec))).unwrap();
    assert!(spec.rclass(&interp).is_some());
}

#[test]
fn fqname() {
    let root = module::Spec::new("A", None).unwrap();
    let mod_under_root = module::Spec::new("B", Some(EnclosingRubyScope::module(&root))).unwrap();
    let cls_under_root = class::Spec::new("C", Some(EnclosingRubyScope::module(&root))).unwrap();
    let cls_under_mod =
        class::Spec::new("D", Some(EnclosingRubyScope::module(&mod_under_root))).unwrap();
    let mod_under_cls =
        module::Spec::new("E", Some(EnclosingRubyScope::class(&cls_under_root))).unwrap();
    let cls_under_cls =
        class::Spec::new("F", Some(EnclosingRubyScope::class(&cls_under_root))).unwrap();

    assert_eq!(root.fqname(), "A");
    assert_eq!(&root.display(), "artichoke module spec -- A");
    assert_eq!(mod_under_root.fqname(), "A::B");
    assert_eq!(&mod_under_root.display(), "artichoke module spec -- A::B");
    assert_eq!(cls_under_root.fqname(), "A::C");
    assert_eq!(&cls_under_root.display(), "artichoke class spec -- A::C");
    assert_eq!(cls_under_mod.fqname(), "A::B::D");
    assert_eq!(&cls_under_mod.display(), "artichoke class spec -- A::B::D");
    assert_eq!(mod_under_cls.fqname(), "A::C::E");
    assert_eq!(&mod_under_cls.display(), "artichoke module spec -- A::C::E");
    assert_eq!(cls_under_cls.fqname(), "A::C::F");
    assert_eq!(&cls_under_cls.display(), "artichoke class spec -- A::C::F");
}

#[test]
fn scope_resolves_like_its_spec() {
    let mut interp = Constants::new();
    let a = interp.define(None, "A");
    let b = interp.define(Some(a), "B");
    assert_eq!(interp.define(Some(a), "B"), b);
    assert_eq!(interp.lookup(Some(a), "B"), Some(b));
    assert_eq!(interp.lookup(None, "B"), None);
    let root = module::Spec::new("A", None).unwrap();
    let nested = class::Spec::new("B", Some(EnclosingRubyScope::module(&root))).unwrap();
    let scope = EnclosingRubyScope::class(&nested);
    assert_eq!(scope.rclass(&interp), Some(b));
    assert_eq!(scope.fqname(), "A::B");
    assert_eq!(nested.name(), "B");
    assert_eq!(nested.enclosing_scope().unwrap().fqname(), "A");
    assert!(root.enclosing_scope().is_none());
}

#[test]
fn name_with_nul_is_rejected() {
    let err = class::Spec::new("Fo\0o", None).unwrap_err();
    assert_eq!(err.name, "Fo\0o");
    assert!(module::Spec::new("\0", None).is_err());
    assert!(module::Spec::new("", None).is_ok());
}

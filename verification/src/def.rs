//! Where a class or a module is defined: in the root scope, or in an
//! enclosing class or module.

use vstd::prelude::*;
use vstd::string::StringSliceAdditionalSpecFns;

use crate::{class, module};
use crate::bytes::{equal, has_byte};

verus! {

/// The class or module that encloses a definition.
#[derive(Debug)]
pub enum EnclosingRubyScope {
    /// An enclosing class.
    Class {
        /// The definition of the class.
        spec: class::Spec,
    },
    /// An enclosing module.
    Module {
        /// The definition of the module.
        spec: module::Spec,
    },
}

/// The error raised for a name that cannot be the name of a constant,
/// because it holds a NUL byte.
#[derive(Debug)]
pub struct ConstantNameError {
    /// The name.
    pub name: String,
}

/// A class or module that is defined in the interpreter: its name, and the
/// class or module that encloses it, if any, by its number.
#[derive(Debug)]
pub struct Defined {
    /// The number of the enclosing class or module.
    pub scope: Option<usize>,
    /// The name.
    pub name: String,
}

/// The classes and modules that are defined in the interpreter, each known
/// by its number.
#[derive(Debug)]
pub struct Constants {
    /// The classes and modules, in the order in which they were defined.
    pub defined: Vec<Defined>,
}

/// The number of the first class or module with the name `name` in the
/// scope `scope`, if there is one.
pub open spec fn lookup_spec(defined: Seq<Defined>, scope: Option<usize>, name: Seq<char>) -> Option<
    usize,
>
    decreases defined.len(),
{
    if defined.len() == 0 {
        None
    } else {
        match lookup_spec(defined.drop_last(), scope, name) {
            Some(at) => Some(at),
            None => if defined.last().scope == scope && defined.last().name@ == name {
                Some((defined.len() - 1) as usize)
            } else {
                None
            },
        }
    }
}

/// What is found among the first `n` definitions is found among all of
/// them.
pub proof fn lemma_lookup_prefix(defined: Seq<Defined>, n: int, scope: Option<usize>, name: Seq<char>)
    requires
        0 <= n <= defined.len(),
        lookup_spec(defined.take(n), scope, name) is Some,
    ensures
        lookup_spec(defined, scope, name) == lookup_spec(defined.take(n), scope, name),
    decreases defined.len() - n,
{
    if n == defined.len() {
        assert(defined.take(n) =~= defined);
    } else {
        assert(defined.take(n + 1).drop_last() =~= defined.take(n));
        lemma_lookup_prefix(defined, n + 1, scope, name);
    }
}

impl Constants {
    /// An interpreter in which nothing is defined.
    pub fn new() -> (r: Constants)
        ensures
            r.defined@.len() == 0,
    {
        Constants { defined: Vec::new() }
    }

    /// The number of the class or module with the name `name` in the scope
    /// `scope`, if it is defined.
    pub fn lookup(&self, scope: Option<usize>, name: &str) -> (r: Option<usize>)
        ensures
            r == lookup_spec(self.defined@, scope, name@),
    {
        let mut i: usize = 0;
        while i < self.defined.len()
            invariant
                i <= self.defined@.len(),
                lookup_spec(self.defined@.take(i as int), scope, name@) is None,
            decreases self.defined@.len() - i,
        {
            proof {
                assert(self.defined@.take(i + 1).drop_last() =~= self.defined@.take(i as int));
            }
            let same_scope: bool = match (self.defined[i].scope, scope) {
                (Some(a), Some(b)) => a == b,
                (None, None) => true,
                _ => false,
            };
            if same_scope && same_text(self.defined[i].name.as_str(), name) {
                proof {
                    lemma_lookup_prefix(self.defined@, i as int + 1, scope, name@);
                }
                return Some(i);
            }
            i += 1;
        }
        assert(self.defined@.take(self.defined@.len() as int) =~= self.defined@);
        None
    }

    /// Defines a class or module with the name `name` in the scope `scope`,
    /// and gives its number; the number of the one that is defined there
    /// already, if one is.
    pub fn define(&mut self, scope: Option<usize>, name: &str) -> (r: usize)
        ensures
            lookup_spec(final(self).defined@, scope, name@) == Some(r),
            lookup_spec(old(self).defined@, scope, name@) is Some ==> final(self).defined@ == old(
                self,
            ).defined@,
            lookup_spec(old(self).defined@, scope, name@) is None ==> final(self).defined@.len()
                == old(self).defined@.len() + 1 && final(self).defined@.drop_last() == old(
                self,
            ).defined@,
    {
        match self.lookup(scope, name) {
            Some(at) => at,
            None => {
                let at: usize = self.defined.len();
                self.defined.push(Defined { scope, name: String::from_str(name) });
                assert(self.defined@.drop_last() =~= old(self).defined@);
                at
            },
        }
    }
}

/// Whether two string slices hold the same text.
pub fn same_text(a: &str, b: &str) -> (r: bool)
    ensures
        r == (a@ == b@),
{
    let same: bool = equal(a.as_bytes(), b.as_bytes());
    proof {
        vstd::utf8::encode_utf8_decode_utf8(a@);
        vstd::utf8::encode_utf8_decode_utf8(b@);
    }
    same
}

/// Whether a name can be the name of a constant: its bytes hold no NUL
/// byte.
pub open spec fn valid_name(name: Seq<char>) -> bool {
    !vstd::utf8::encode_utf8(name).contains(0u8)
}

/// Whether a name can be the name of a constant.
pub fn is_valid_name(name: &str) -> (r: bool)
    ensures
        r == valid_name(name@),
{
    !has_byte(name.as_bytes(), 0u8)
}

impl EnclosingRubyScope {
    /// The scope of the class with the definition `spec`.
    pub fn class(spec: &class::Spec) -> (r: EnclosingRubyScope)
        ensures
            r.fqname_spec() == spec.fqname_spec(),
            forall|defined: Seq<Defined>| #[trigger] r.rclass_spec(defined) == spec.rclass_spec(defined),
    {
        EnclosingRubyScope::Class { spec: spec.dup() }
    }

    /// The scope of the module with the definition `spec`.
    pub fn module(spec: &module::Spec) -> (r: EnclosingRubyScope)
        ensures
            r.fqname_spec() == spec.fqname_spec(),
            forall|defined: Seq<Defined>| #[trigger] r.rclass_spec(defined) == spec.rclass_spec(defined),
    {
        EnclosingRubyScope::Module { spec: spec.dup() }
    }

    /// The number of the class or module in the interpreter, if it is
    /// defined there.
    pub open spec fn rclass_spec(self, defined: Seq<Defined>) -> Option<usize>
        decreases self, 1int,
    {
        match self {
            EnclosingRubyScope::Class { spec } => spec.rclass_spec(defined),
            EnclosingRubyScope::Module { spec } => spec.rclass_spec(defined),
        }
    }

    /// The name of the class or module with the names of all that enclose
    /// it before it, and `::` between them.
    pub open spec fn fqname_spec(self) -> Seq<char>
        decreases self, 1int,
    {
        match self {
            EnclosingRubyScope::Class { spec } => spec.fqname_spec(),
            EnclosingRubyScope::Module { spec } => spec.fqname_spec(),
        }
    }

    /// The number of the class or module in the interpreter: nothing where
    /// it is not defined, or where what encloses it is not.
    pub fn rclass(&self, interp: &Constants) -> (r: Option<usize>)
        ensures
            r == self.rclass_spec(interp.defined@),
        decreases self, 1int,
    {
        match self {
            EnclosingRubyScope::Class { spec } => spec.rclass(interp),
            EnclosingRubyScope::Module { spec } => spec.rclass(interp),
        }
    }

    /// The fully qualified name of the class or module, such as `A::B::C`.
    pub fn fqname(&self) -> (r: String)
        ensures
            r@ == self.fqname_spec(),
        decreases self, 1int,
    {
        match self {
            EnclosingRubyScope::Class { spec } => spec.fqname(),
            EnclosingRubyScope::Module { spec } => spec.fqname(),
        }
    }

    /// A copy of the scope.
    pub fn dup(&self) -> (r: EnclosingRubyScope)
        ensures
            r.fqname_spec() == self.fqname_spec(),
            forall|defined: Seq<Defined>| #[trigger] r.rclass_spec(defined) == self.rclass_spec(defined),
        decreases self, 1int,
    {
        match self {
            EnclosingRubyScope::Class { spec } => EnclosingRubyScope::Class { spec: spec.dup() },
            EnclosingRubyScope::Module { spec } => EnclosingRubyScope::Module { spec: spec.dup() },
        }
    }
}

} // verus!

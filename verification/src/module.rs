//! The definition of a module: its name and where it is defined.

use vstd::prelude::*;

use crate::def::{
    is_valid_name, lookup_spec, valid_name, ConstantNameError, Constants, Defined,
    EnclosingRubyScope,
};

verus! {

/// The definition of a module.
#[derive(Debug)]
pub struct Spec {
    name: String,
    enclosing_scope: Option<Box<EnclosingRubyScope>>,
}

impl Spec {
    /// The name of the module.
    pub closed spec fn name_spec(self) -> Seq<char> {
        self.name@
    }

    /// The class or module that encloses the module.
    pub closed spec fn scope_spec(self) -> Option<EnclosingRubyScope> {
        match self.enclosing_scope {
            Some(scope) => Some(*scope),
            None => None,
        }
    }

    /// The name of the module with the names of all that enclose it
    /// before it, and `::` between them.
    pub closed spec fn fqname_spec(self) -> Seq<char>
        decreases self, 0int,
    {
        match self.enclosing_scope {
            Some(scope) => scope.fqname_spec() + "::"@ + self.name@,
            None => self.name@,
        }
    }

    /// The number of the module in the interpreter: that of the module
    /// with its name in the scope that encloses it, where both are defined.
    pub closed spec fn rclass_spec(self, defined: Seq<Defined>) -> Option<usize>
        decreases self, 0int,
    {
        match self.enclosing_scope {
            Some(scope) => match scope.rclass_spec(defined) {
                Some(outer) => lookup_spec(defined, Some(outer), self.name@),
                None => None,
            },
            None => lookup_spec(defined, None, self.name@),
        }
    }

    /// What the name and the scope say of the fully qualified name and of
    /// the number in the interpreter.
    pub proof fn lemma_unfold(self, defined: Seq<Defined>)
        ensures
            self.fqname_spec() == (match self.scope_spec() {
                Some(scope) => scope.fqname_spec() + "::"@ + self.name_spec(),
                None => self.name_spec(),
            }),
            self.rclass_spec(defined) == (match self.scope_spec() {
                Some(scope) => match scope.rclass_spec(defined) {
                    Some(outer) => lookup_spec(defined, Some(outer), self.name_spec()),
                    None => None,
                },
                None => lookup_spec(defined, None, self.name_spec()),
            }),
    {
    }

    /// The definition of a module with the name `name` in the scope
    /// `enclosing_scope`, or in the root scope where there is none. A name
    /// with a NUL byte is an error.
    pub fn new(name: &str, enclosing_scope: Option<EnclosingRubyScope>) -> (r: Result<
        Spec,
        ConstantNameError,
    >)
        ensures
            match r {
                Ok(spec) => valid_name(name@) && spec.name_spec() == name@ && spec.scope_spec()
                    == enclosing_scope,
                Err(e) => !valid_name(name@) && e.name@ == name@,
            },
    {
        if is_valid_name(name) {
            Ok(
                Spec {
                    name: String::from_str(name),
                    enclosing_scope: match enclosing_scope {
                        Some(scope) => Some(Box::new(scope)),
                        None => None,
                    },
                },
            )
        } else {
            Err(ConstantNameError { name: String::from_str(name) })
        }
    }

    /// The name of the module.
    pub fn name(&self) -> (r: &str)
        ensures
            r@ == self.name_spec(),
    {
        self.name.as_str()
    }

    /// The class or module that encloses the module.
    pub fn enclosing_scope(&self) -> (r: Option<&EnclosingRubyScope>)
        ensures
            match r {
                Some(scope) => self.scope_spec() == Some(*scope),
                None => self.scope_spec() is None,
            },
    {
        match &self.enclosing_scope {
            Some(scope) => Some(&**scope),
            None => None,
        }
    }

    /// The fully qualified name of the module, such as `A::B::C`.
    pub fn fqname(&self) -> (r: String)
        ensures
            r@ == self.fqname_spec(),
        decreases self, 0int,
    {
        match &self.enclosing_scope {
            Some(scope) => {
                let mut fqname: String = scope.fqname();
                fqname.append("::");
                fqname.append(self.name.as_str());
                fqname
            },
            None => self.name.clone(),
        }
    }

    /// The number of the module in the interpreter: nothing where it is
    /// not defined, or where what encloses it is not.
    pub fn rclass(&self, interp: &Constants) -> (r: Option<usize>)
        ensures
            r == self.rclass_spec(interp.defined@),
        decreases self, 0int,
    {
        match &self.enclosing_scope {
            Some(scope) => match scope.rclass(interp) {
                Some(outer) => interp.lookup(Some(outer), self.name.as_str()),
                None => None,
            },
            None => interp.lookup(None, self.name.as_str()),
        }
    }

    /// What a description of the definition holds.
    pub open spec fn display_spec(self) -> Seq<char> {
        "artichoke module spec -- "@ + self.fqname_spec()
    }

    /// A description of the definition: what it defines, and its fully
    /// qualified name.
    pub fn display(&self) -> (r: String)
        ensures
            r@ == self.display_spec(),
    {
        let mut out: String = String::from_str("artichoke module spec -- ");
        let fqname: String = self.fqname();
        out.append(fqname.as_str());
        out
    }

    /// A copy of the definition.
    pub fn dup(&self) -> (r: Spec)
        ensures
            r.name_spec() == self.name_spec(),
            r.fqname_spec() == self.fqname_spec(),
            forall|defined: Seq<Defined>| #[trigger] r.rclass_spec(defined) == self.rclass_spec(defined),
        decreases self, 0int,
    {
        let copied = Spec {
            name: self.name.clone(),
            enclosing_scope: match &self.enclosing_scope {
                Some(scope) => Some(Box::new(scope.dup())),
                None => None,
            },
        };
        proof {
            assert forall|defined: Seq<Defined>| #[trigger]
                copied.rclass_spec(defined) == self.rclass_spec(defined) by {
                copied.lemma_unfold(defined);
                self.lemma_unfold(defined);
            }
        }
        copied
    }
}

} // verus!

//! The `ssh-userauth` service: the method namespace, the ordered set of
//! allowed methods, and the two sides of the sub-protocol.

use vstd::prelude::*;
use crate::userauth::{
    spec_hostbased_name, spec_keyboard_interactive_name, spec_none_name, spec_password_name,
    spec_publickey_name, hostbased_name, keyboard_interactive_name, none_name, password_name,
    publickey_name, AuthMethod,
};

pub mod client;
pub mod handler;

verus! {

/// An authentication method's name, without its fields.
#[derive(Clone, Copy, PartialEq, Eq, Structural, Debug)]
pub enum Method {
    /// The `none` method.
    NoneMethod,
    /// The `password` method.
    Password,
    /// The `publickey` method.
    Publickey,
    /// The `hostbased` method; never handled.
    Hostbased,
    /// The `keyboard-interactive` method; never handled.
    KeyboardInteractive,
}

impl AuthMethod {
    /// The method a request's fields belong to.
    pub open spec fn spec_kind(self) -> Method {
        match self {
            AuthMethod::NoneMethod => Method::NoneMethod,
            AuthMethod::Password { .. } => Method::Password,
            AuthMethod::Publickey { .. } => Method::Publickey,
            AuthMethod::Hostbased { .. } => Method::Hostbased,
            AuthMethod::KeyboardInteractive { .. } => Method::KeyboardInteractive,
        }
    }

    /// The method a request's fields belong to.
    pub fn kind(&self) -> (r: Method)
        ensures
            r == self.spec_kind(),
    {
        match self {
            AuthMethod::NoneMethod => Method::NoneMethod,
            AuthMethod::Password { .. } => Method::Password,
            AuthMethod::Publickey { .. } => Method::Publickey,
            AuthMethod::Hostbased { .. } => Method::Hostbased,
            AuthMethod::KeyboardInteractive { .. } => Method::KeyboardInteractive,
        }
    }
}

/// The method a parsed request's fields belong to, at the spec level.
pub open spec fn spec_method_kind(m: crate::userauth::SpecAuthMethod) -> Method {
    match m {
        crate::userauth::SpecAuthMethod::NoneMethod => Method::NoneMethod,
        crate::userauth::SpecAuthMethod::Password { .. } => Method::Password,
        crate::userauth::SpecAuthMethod::Publickey { .. } => Method::Publickey,
        crate::userauth::SpecAuthMethod::Hostbased { .. } => Method::Hostbased,
        crate::userauth::SpecAuthMethod::KeyboardInteractive { .. } => Method::KeyboardInteractive,
    }
}

/// The ordered set of methods the responder is still willing to see: a
/// bitset over the method enum, serialised in enum order.
#[derive(Clone, Copy, PartialEq, Eq, Structural, Debug)]
pub struct MethodSet {
    /// Whether `none` is allowed.
    pub none_allowed: bool,
    /// Whether `password` is allowed.
    pub password_allowed: bool,
    /// Whether `publickey` is allowed.
    pub publickey_allowed: bool,
    /// Whether `hostbased` is allowed.
    pub hostbased_allowed: bool,
    /// Whether `keyboard-interactive` is allowed.
    pub keyboard_interactive_allowed: bool,
}

impl MethodSet {
    /// Whether the set holds the method.
    pub open spec fn spec_contains(self, m: Method) -> bool {
        match m {
            Method::NoneMethod => self.none_allowed,
            Method::Password => self.password_allowed,
            Method::Publickey => self.publickey_allowed,
            Method::Hostbased => self.hostbased_allowed,
            Method::KeyboardInteractive => self.keyboard_interactive_allowed,
        }
    }

    /// The set with the method present.
    pub open spec fn spec_insert(self, m: Method) -> MethodSet {
        match m {
            Method::NoneMethod => MethodSet { none_allowed: true, ..self },
            Method::Password => MethodSet { password_allowed: true, ..self },
            Method::Publickey => MethodSet { publickey_allowed: true, ..self },
            Method::Hostbased => MethodSet { hostbased_allowed: true, ..self },
            Method::KeyboardInteractive => MethodSet {
                keyboard_interactive_allowed: true,
                ..self
            },
        }
    }

    /// The set with the method absent.
    pub open spec fn spec_remove(self, m: Method) -> MethodSet {
        match m {
            Method::NoneMethod => MethodSet { none_allowed: false, ..self },
            Method::Password => MethodSet { password_allowed: false, ..self },
            Method::Publickey => MethodSet { publickey_allowed: false, ..self },
            Method::Hostbased => MethodSet { hostbased_allowed: false, ..self },
            Method::KeyboardInteractive => MethodSet {
                keyboard_interactive_allowed: false,
                ..self
            },
        }
    }

    /// The method names the set serialises to, in enum order.
    pub open spec fn spec_names(self) -> Seq<Seq<u8>> {
        (if self.none_allowed {
            seq![spec_none_name()]
        } else {
            Seq::empty()
        }) + (if self.password_allowed {
            seq![spec_password_name()]
        } else {
            Seq::empty()
        }) + (if self.publickey_allowed {
            seq![spec_publickey_name()]
        } else {
            Seq::empty()
        }) + (if self.hostbased_allowed {
            seq![spec_hostbased_name()]
        } else {
            Seq::empty()
        }) + (if self.keyboard_interactive_allowed {
            seq![spec_keyboard_interactive_name()]
        } else {
            Seq::empty()
        })
    }

    /// The empty set.
    pub fn empty() -> (r: MethodSet)
        ensures
            !r.none_allowed,
            !r.password_allowed,
            !r.publickey_allowed,
            !r.hostbased_allowed,
            !r.keyboard_interactive_allowed,
    {
        MethodSet {
            none_allowed: false,
            password_allowed: false,
            publickey_allowed: false,
            hostbased_allowed: false,
            keyboard_interactive_allowed: false,
        }
    }

    /// The initial set: `none` alone.
    pub fn initial() -> (r: MethodSet)
        ensures
            r.none_allowed,
            !r.password_allowed,
            !r.publickey_allowed,
            !r.hostbased_allowed,
            !r.keyboard_interactive_allowed,
    {
        MethodSet { none_allowed: true, ..MethodSet::empty() }
    }

    /// Whether the set holds the method.
    pub fn contains(&self, m: Method) -> (r: bool)
        ensures
            r == self.spec_contains(m),
    {
        match m {
            Method::NoneMethod => self.none_allowed,
            Method::Password => self.password_allowed,
            Method::Publickey => self.publickey_allowed,
            Method::Hostbased => self.hostbased_allowed,
            Method::KeyboardInteractive => self.keyboard_interactive_allowed,
        }
    }

    /// Put the method in.
    pub fn insert(&mut self, m: Method)
        ensures
            *final(self) == old(self).spec_insert(m),
    {
        match m {
            Method::NoneMethod => {
                self.none_allowed = true;
            },
            Method::Password => {
                self.password_allowed = true;
            },
            Method::Publickey => {
                self.publickey_allowed = true;
            },
            Method::Hostbased => {
                self.hostbased_allowed = true;
            },
            Method::KeyboardInteractive => {
                self.keyboard_interactive_allowed = true;
            },
        }
    }

    /// Take the method out; say whether it was in. A dispatch removes the
    /// attempted method from the set.
    pub fn remove(&mut self, m: Method) -> (r: bool)
        ensures
            r == old(self).spec_contains(m),
            *final(self) == old(self).spec_remove(m),
    {
        let had = self.contains(m);
        match m {
            Method::NoneMethod => {
                self.none_allowed = false;
            },
            Method::Password => {
                self.password_allowed = false;
            },
            Method::Publickey => {
                self.publickey_allowed = false;
            },
            Method::Hostbased => {
                self.hostbased_allowed = false;
            },
            Method::KeyboardInteractive => {
                self.keyboard_interactive_allowed = false;
            },
        }
        had
    }

    /// The names of the methods in the set, in enum order: exactly what a
    /// USERAUTH_FAILURE's `continue_with` carries.
    pub fn names(&self) -> (r: Vec<Vec<u8>>)
        ensures
            crate::wire::views(r@) == self.spec_names(),
    {
        let mut r: Vec<Vec<u8>> = Vec::new();
        if self.none_allowed {
            r.push(none_name());
        }
        if self.password_allowed {
            r.push(password_name());
        }
        if self.publickey_allowed {
            r.push(publickey_name());
        }
        if self.hostbased_allowed {
            r.push(hostbased_name());
        }
        if self.keyboard_interactive_allowed {
            r.push(keyboard_interactive_name());
        }
        assert(crate::wire::views(r@) =~= self.spec_names());
        r
    }
}

} // verus!

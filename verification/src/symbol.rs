//! Qualified symbols naming backends, devices, ports and exports.
use vstd::prelude::*;
use vstd::string::StringExecFns;
use crate::text::text_eq;

verus! {

/// A symbol: a name with an optional namespace.
#[derive(Debug, PartialEq, Eq)]
pub struct Symbol {
    /// The namespace of a qualified symbol.
    pub namespace: Option<String>,
    /// The symbol's name.
    pub name: String,
}

/// The mathematical value of a symbol: its namespace and name as texts.
pub open spec fn symbol_value(s: Symbol) -> (Option<Seq<char>>, Seq<char>) {
    (
        match s.namespace {
            Some(ns) => Some(ns@),
            None => None,
        },
        s.name@,
    )
}

/// The qualified text of a symbol: `namespace/name`, or the bare name.
pub open spec fn symbol_text(s: Symbol) -> Seq<char> {
    match s.namespace {
        Some(ns) => ns@ + "/"@ + s.name@,
        None => s.name@,
    }
}

impl Clone for Symbol {
    fn clone(&self) -> (res: Symbol)
        ensures
            res == *self,
    {
        let namespace = match &self.namespace {
            Some(ns) => Some(ns.clone()),
            None => None,
        };
        Symbol { namespace, name: self.name.clone() }
    }
}

impl Symbol {
    /// Builds an unqualified symbol.
    pub fn new(name: String) -> (res: Symbol)
        ensures
            res.namespace is None,
            res.name@ == name@,
    {
        Symbol { namespace: None, name }
    }

    /// Builds an unqualified symbol from borrowed text.
    pub fn named(name: &str) -> (res: Symbol)
        ensures
            res.namespace is None,
            res.name@ == name@,
    {
        Symbol { namespace: None, name: String::from_str(name) }
    }

    /// Builds a symbol qualified by `namespace`.
    pub fn qualified(namespace: &str, name: &str) -> (res: Symbol)
        ensures
            res.namespace matches Some(ns) && ns@ == namespace@,
            res.name@ == name@,
    {
        Symbol { namespace: Some(String::from_str(namespace)), name: String::from_str(name) }
    }

    /// Reports whether two symbols have the same namespace and name.
    pub fn same_as(&self, other: &Symbol) -> (res: bool)
        ensures
            res == (symbol_value(*self) == symbol_value(*other)),
    {
        let names = text_eq(self.name.as_str(), other.name.as_str());
        match (&self.namespace, &other.namespace) {
            (Some(a), Some(b)) => names && text_eq(a.as_str(), b.as_str()),
            (None, None) => names,
            _ => false,
        }
    }

    /// Renders the symbol's qualified text.
    pub fn to_text(&self) -> (res: String)
        ensures
            res@ == symbol_text(*self),
    {
        match &self.namespace {
            Some(ns) => ns.clone().concat("/").concat(self.name.as_str()),
            None => self.name.clone(),
        }
    }
}

} // verus!

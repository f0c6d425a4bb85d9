//! Named registry of pluggable backend implementations, one of which may be
//! marked the default.

use vstd::prelude::*;
use crate::table::NamedTable;

verus! {

/// The implementation that `default` designates in `providers`, if any.
pub open spec fn default_spec<P>(providers: Map<Seq<char>, P>, default: Option<Seq<char>>) -> Option<P> {
    match default {
        Some(n) => if providers.contains_key(n) {
            Some(providers[n])
        } else {
            None
        },
        None => None,
    }
}

/// Implementations by name. Lookups never fail: absence is `None`.
pub struct ProviderRegistry<P> {
    providers: NamedTable<P>,
    default: Option<String>,
}

impl<P> ProviderRegistry<P> {
    pub closed spec fn wf(&self) -> bool {
        self.providers.wf()
    }

    /// The registered implementations.
    pub closed spec fn providers(&self) -> Map<Seq<char>, P> {
        self.providers@
    }

    /// The name most recently marked default.
    pub closed spec fn default_name(&self) -> Option<Seq<char>> {
        match self.default {
            Some(n) => Some(n@),
            None => None,
        }
    }

    pub fn new() -> (r: Self)
        ensures
            r.wf(),
            r.providers() == Map::<Seq<char>, P>::empty(),
            r.default_name() is None,
    {
        ProviderRegistry { providers: NamedTable::new(), default: None }
    }

    /// A registry holding `provider` under the name "default", marked default.
    pub fn with_default(provider: P) -> (r: Self)
        ensures
            r.wf(),
            r.providers() == Map::<Seq<char>, P>::empty().insert("default"@, provider),
            r.default_name() == Some("default"@),
    {
        let mut r = Self::new();
        r.register("default".to_owned(), provider);
        r.set_default("default".to_owned());
        r
    }

    /// Adds `provider` under `name`, replacing any earlier one of that name.
    pub fn register(&mut self, name: String, provider: P)
        requires
            old(self).wf(),
        ensures
            final(self).wf(),
            final(self).providers() == old(self).providers().insert(name@, provider),
            final(self).default_name() == old(self).default_name(),
    {
        self.providers.insert(name, provider);
    }

    /// Marks `name` as the default; the mark moves from any earlier name.
    pub fn set_default(&mut self, name: String)
        requires
            old(self).wf(),
        ensures
            final(self).wf(),
            final(self).providers() == old(self).providers(),
            final(self).default_name() == Some(name@),
    {
        self.default = Some(name);
    }

    /// The implementation registered under `name`.
    pub fn get(&self, name: &str) -> (r: Option<&P>)
        requires
            self.wf(),
        ensures
            match r {
                Some(p) => self.providers().contains_key(name@) && *p == self.providers()[name@],
                None => !self.providers().contains_key(name@),
            },
    {
        self.providers.get(name)
    }

    /// The implementation under the name most recently marked default.
    pub fn get_default(&self) -> (r: Option<&P>)
        requires
            self.wf(),
        ensures
            match r {
                Some(p) => default_spec(self.providers(), self.default_name()) == Some(*p),
                None => default_spec(self.providers(), self.default_name()) is None,
            },
    {
        match &self.default {
            Some(n) => self.providers.get(n.as_str()),
            None => None,
        }
    }

    /// Whether an implementation is registered under `name`.
    pub fn contains(&self, name: &str) -> (r: bool)
        requires
            self.wf(),
        ensures
            r == self.providers().contains_key(name@),
    {
        self.providers.contains(name)
    }

    /// Number of registered implementations.
    pub fn len(&self) -> (r: usize)
        requires
            self.wf(),
        ensures
            r as nat == self.providers().dom().len(),
    {
        self.providers.len()
    }
}

/// The default is the implementation under the name most recently marked
/// default, whatever was registered under other names meanwhile; a name
/// under which nothing is registered gives no implementation.
pub proof fn default_is_latest_mark<P>(
    providers: Map<Seq<char>, P>,
    name: Seq<char>,
    provider: P,
    other: Seq<char>,
    other_provider: P,
    missing: Seq<char>,
)
    requires
        other != name,
        !providers.contains_key(missing),
    ensures
        default_spec(providers.insert(name, provider), Some(name)) == Some(provider),
        default_spec(providers.insert(name, provider).insert(other, other_provider), Some(name))
            == Some(provider),
        default_spec(providers, Some(missing)) is None,
{
}

} // verus!
